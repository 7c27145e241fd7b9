//! OpenGL ES: the implementations on offer and the per-thread bookkeeping of
//! rendering contexts.

use vstd::prelude::*;
use std::collections::HashMap;
use crate::environment::ThreadID;

verus! {

broadcast use vstd::std_specs::hash::group_hash_axioms;

/// Guest address of an Objective-C object. Zero is `nil`.
#[allow(non_camel_case_types)]
pub type id = u32;

/// Labels for the OpenGL ES implementations.
#[derive(Copy, Clone, Debug, PartialEq, Eq, Structural)]
pub enum GLESImplementation {
    /// Native OpenGL ES 1.1 passed through.
    GLES1Native,
    /// OpenGL ES 1.1 on top of the OpenGL 2.1 compatibility profile.
    GLES1OnGL2,
}

impl GLESImplementation {
    /// The OpenGL ES 1.1 implementations in order of preference.
    pub const GLES1_IMPLEMENTATIONS: [GLESImplementation; 2] = [
        GLESImplementation::GLES1Native,
        GLESImplementation::GLES1OnGL2,
    ];

    /// The implementation that goes by the given short name, if any.
    pub open spec fn of_short_name(name: Seq<char>) -> Option<GLESImplementation> {
        if name == "gles1_on_gl2"@ {
            Some(GLESImplementation::GLES1OnGL2)
        } else if name == "gles1_native"@ {
            Some(GLESImplementation::GLES1Native)
        } else {
            None
        }
    }

    /// The text that describes the implementation to the user.
    pub open spec fn description_text(self) -> Seq<char> {
        match self {
            GLESImplementation::GLES1Native => "Native OpenGL ES 1.1"@,
            GLESImplementation::GLES1OnGL2 => "OpenGL ES 1.1 via touchHLE GLES1-on-GL2 layer"@,
        }
    }

    /// Converts from the short name used for command-line arguments. Fails
    /// if the name is not recognized.
    pub fn from_short_name(name: &str) -> (res: Result<GLESImplementation, ()>)
        ensures
            res.ok() == GLESImplementation::of_short_name(name@),
    {
        let name = name.to_owned();
        if name == "gles1_on_gl2".to_owned() {
            Ok(GLESImplementation::GLES1OnGL2)
        } else if name == "gles1_native".to_owned() {
            Ok(GLESImplementation::GLES1Native)
        } else {
            Err(())
        }
    }

    /// Describes the implementation to the user.
    pub fn description(self) -> (text: &'static str)
        ensures
            text@ == self.description_text(),
    {
        match self {
            GLESImplementation::GLES1Native => "Native OpenGL ES 1.1",
            GLESImplementation::GLES1OnGL2 => "OpenGL ES 1.1 via touchHLE GLES1-on-GL2 layer",
        }
    }
}

/// Which rendering context each thread has made current, and which thread's
/// context is the one the host's OpenGL works on.
pub struct State {
    current_ctxs: HashMap<ThreadID, Option<id>>,
    current_ctx_thread: Option<ThreadID>,
}

impl State {
    /// The current context of each thread that ever asked for one.
    pub closed spec fn ctxs(&self) -> Map<ThreadID, Option<id>> {
        self.current_ctxs@
    }

    /// The thread whose context is active on the host.
    pub closed spec fn ctx_thread(&self) -> Option<ThreadID> {
        self.current_ctx_thread
    }

    /// The current context of `thread`. A thread that is not yet known is
    /// entered with no context.
    pub fn current_ctx_for_thread(&mut self, thread: ThreadID) -> (ctx: Option<id>)
        ensures
            final(self).ctxs() == if old(self).ctxs().contains_key(thread) {
                old(self).ctxs()
            } else {
                old(self).ctxs().insert(thread, None)
            },
            ctx == final(self).ctxs()[thread],
            final(self).ctx_thread() == old(self).ctx_thread(),
    {
        match self.current_ctxs.get(&thread) {
            Some(ctx) => *ctx,
            None => {
                self.current_ctxs.insert(thread, None);
                None
            },
        }
    }

    /// Makes `ctx` the current context of `thread`.
    pub fn set_current_ctx_for_thread(&mut self, thread: ThreadID, ctx: Option<id>)
        ensures
            final(self).ctxs() == old(self).ctxs().insert(thread, ctx),
            final(self).ctx_thread() == old(self).ctx_thread(),
    {
        self.current_ctxs.insert(thread, ctx);
    }

    /// Records which thread's context is active on the host.
    pub fn set_current_ctx_thread(&mut self, thread: Option<ThreadID>)
        ensures
            final(self).ctxs() == old(self).ctxs(),
            final(self).ctx_thread() == thread,
    {
        self.current_ctx_thread = thread;
    }
}

impl Default for State {
    fn default() -> (state: State)
        ensures
            state.ctxs() == Map::<ThreadID, Option<id>>::empty(),
            state.ctx_thread() is None,
    {
        State { current_ctxs: HashMap::new(), current_ctx_thread: None }
    }
}

/// Finds the rendering context that the guest's OpenGL calls on
/// `current_thread` go to, and tells whether it has to be made current on
/// the host first: that is so when the window took the host's context away
/// from the guest, or when another thread's context is the active one.
pub fn sync_context(
    state: &mut State,
    app_gl_ctx_no_longer_current: bool,
    current_thread: ThreadID,
) -> (res: (id, bool))
    requires
        old(state).ctxs().contains_key(current_thread),
        old(state).ctxs()[current_thread] is Some,
    ensures
        res.0 == old(state).ctxs()[current_thread]->0,
        res.1 == (app_gl_ctx_no_longer_current || old(state).ctx_thread() != Some(
            current_thread,
        )),
        final(state).ctxs() == old(state).ctxs(),
        final(state).ctx_thread() == old(state).ctx_thread(),
{
    let current_ctx = state.current_ctx_for_thread(current_thread);
    let host_obj = current_ctx.unwrap();
    let active_here = match state.current_ctx_thread {
        Some(thread) => thread == current_thread,
        None => false,
    };
    (host_obj, app_gl_ctx_no_longer_current || !active_here)
}

} // verus!

//! The stack of graphics contexts that drawing calls go to.

use vstd::prelude::*;
use crate::frameworks::opengles::id;

verus! {

/// Guest address of a graphics context object.
pub type CGContextRef = id;

/// The null object reference.
#[allow(non_upper_case_globals)]
pub const nil: id = 0;

/// The graphics contexts that were pushed, the current one last.
pub struct State {
    context_stack: Vec<CGContextRef>,
}

impl View for State {
    type V = Seq<CGContextRef>;

    closed spec fn view(&self) -> Seq<CGContextRef> {
        self.context_stack@
    }
}

impl State {
    /// Makes `context`, which the caller has retained, the current graphics
    /// context.
    pub fn push_context(&mut self, context: CGContextRef)
        ensures
            final(self)@ == old(self)@.push(context),
    {
        self.context_stack.push(context);
    }

    /// Whether no graphics context was pushed.
    pub fn is_empty(&self) -> (empty: bool)
        ensures
            empty == (self@.len() == 0),
    {
        self.context_stack.len() == 0
    }

    /// Takes the current graphics context off the stack and hands it out to
    /// be released.
    pub fn pop_context(&mut self) -> (context: CGContextRef)
        requires
            old(self)@.len() > 0,
        ensures
            context == old(self)@.last(),
            final(self)@ == old(self)@.drop_last(),
    {
        self.context_stack.pop().unwrap()
    }

    /// The current graphics context, or `nil` if none was pushed.
    pub fn current_context(&self) -> (context: CGContextRef)
        ensures
            context == if self@.len() == 0 {
                nil
            } else {
                self@.last()
            },
    {
        let len = self.context_stack.len();
        if len == 0 {
            nil
        } else {
            self.context_stack[len - 1]
        }
    }
}

impl Default for State {
    fn default() -> (state: State)
        ensures
            state@ == Seq::<CGContextRef>::empty(),
    {
        State { context_stack: Vec::new() }
    }
}

} // verus!

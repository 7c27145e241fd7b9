//! The stack of autorelease pools.

use vstd::prelude::*;
use crate::frameworks::opengles::id;

verus! {

/// The autorelease pools that are alive, innermost last.
pub struct State {
    pool_stack: Vec<id>,
}

impl View for State {
    type V = Seq<id>;

    closed spec fn view(&self) -> Seq<id> {
        self.pool_stack@
    }
}

impl State {
    /// The innermost pool, which takes the objects that are autoreleased
    /// now, if there is a pool at all.
    pub fn current_pool(&self) -> (pool: Option<id>)
        ensures
            pool == if self@.len() == 0 {
                None
            } else {
                Some(self@.last())
            },
    {
        let len = self.pool_stack.len();
        if len == 0 {
            None
        } else {
            Some(self.pool_stack[len - 1])
        }
    }

    /// Makes the new pool `pool` the innermost one.
    pub fn push_pool(&mut self, pool: id)
        ensures
            final(self)@ == old(self)@.push(pool),
    {
        self.pool_stack.push(pool);
    }

    /// Takes the innermost pool off the stack when it is drained. Pools are
    /// drained innermost first: the result tells whether `pool` was the
    /// innermost one. The innermost pool is taken off either way.
    pub fn pop_pool(&mut self, pool: id) -> (was_innermost: bool)
        ensures
            was_innermost == (old(self)@.len() > 0 && old(self)@.last() == pool),
            final(self)@ == if old(self)@.len() > 0 {
                old(self)@.drop_last()
            } else {
                old(self)@
            },
    {
        match self.pool_stack.pop() {
            Some(top) => top == pool,
            None => false,
        }
    }
}

impl Default for State {
    fn default() -> (state: State)
        ensures
            state@ == Seq::<id>::empty(),
    {
        State { pool_stack: Vec::new() }
    }
}

} // verus!

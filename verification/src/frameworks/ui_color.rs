//! The standard colors, each created once.

use vstd::prelude::*;
use std::collections::HashMap;
use crate::frameworks::opengles::id;

verus! {

broadcast use vstd::std_specs::hash::group_hash_axioms;

/// Guest address of a selector.
pub type SEL = u32;

/// The color objects that were already created for the standard colors, by
/// the selector that asks for them.
pub struct State {
    standard_colors: HashMap<SEL, id>,
}

impl View for State {
    type V = Map<SEL, id>;

    closed spec fn view(&self) -> Map<SEL, id> {
        self.standard_colors@
    }
}

impl State {
    /// The color object that was created for the selector `sel`, if one was.
    pub fn standard_color(&self, sel: SEL) -> (color: Option<id>)
        ensures
            color == if self@.contains_key(sel) {
                Some(self@[sel])
            } else {
                None
            },
    {
        match self.standard_colors.get(&sel) {
            Some(existing) => Some(*existing),
            None => None,
        }
    }

    /// Remembers `color` as the object of the standard color that `sel`
    /// asks for.
    pub fn remember_standard_color(&mut self, sel: SEL, color: id)
        ensures
            final(self)@ == old(self)@.insert(sel, color),
    {
        self.standard_colors.insert(sel, color);
    }
}

impl Default for State {
    fn default() -> (state: State)
        ensures
            state@ == Map::<SEL, id>::empty(),
    {
        State { standard_colors: HashMap::new() }
    }
}

} // verus!

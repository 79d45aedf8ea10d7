//! An old/current pair of values observed on two consecutive ticks.

use vstd::prelude::*;

verus! {

/// The value seen on the previous tick and the value seen on this one.
#[derive(Clone, Copy, Debug, PartialEq, Eq)]
pub struct Pair<T> {
    pub old: T,
    pub current: T,
}

impl Pair<u8> {
    /// The pair arrived at `value` on this tick: it was something else before.
    pub open spec fn spec_changed_to(self, value: u8) -> bool {
        self.old != value && self.current == value
    }

    /// The current value is strictly above the old one.
    pub open spec fn spec_increased(self) -> bool {
        self.current > self.old
    }

    /// Whether the pair arrived at `value` on this tick.
    pub fn changed_to(&self, value: &u8) -> (r: bool)
        ensures
            r == self.spec_changed_to(*value),
    {
        self.old != *value && self.current == *value
    }

    /// Whether the value rose on this tick, compared as unsigned numbers.
    pub fn increased(&self) -> (r: bool)
        ensures
            r == self.spec_increased(),
    {
        self.current > self.old
    }
}

} // verus!

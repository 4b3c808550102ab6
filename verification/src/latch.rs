//! A flag that can be raised and never lowered.

use vstd::prelude::*;

verus! {

/// A one-way flag: it starts lowered, `raise` sets it, and nothing clears it.
#[derive(Debug, Copy, Clone, Ord, PartialOrd, Eq, PartialEq, Hash)]
pub struct Latch {
    raised: bool,
}

impl View for Latch {
    type V = bool;

    /// Whether the latch has been raised.
    closed spec fn view(&self) -> bool {
        self.raised
    }
}

impl Latch {
    /// A latch that has not been raised.
    pub fn new() -> (latch: Latch)
        ensures
            !latch@,
    {
        Latch { raised: false }
    }

    /// Raises the latch; it stays raised from then on.
    pub fn raise(&mut self)
        ensures
            final(self)@,
        no_unwind
    {
        self.raised = true;
    }

    /// Raises the latch if `condition` holds and leaves it as it is otherwise.
    pub fn raise_if(&mut self, condition: bool)
        ensures
            final(self)@ == (old(self)@ || condition),
        no_unwind
    {
        if condition {
            self.raised = true;
        }
    }

    /// Whether the latch has been raised.
    pub fn is_raised(&self) -> (raised: bool)
        ensures
            raised == self@,
    {
        self.raised
    }
}

} // verus!

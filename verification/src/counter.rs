//! The number of calculator calls served so far.

use vstd::prelude::*;

verus! {

/// A count of served requests. It starts at zero and only ever grows, one
/// step at a time: `increment` is the only operation that changes it.
#[derive(Debug)]
pub struct RequestCount {
    count: u64,
}

impl View for RequestCount {
    type V = nat;

    closed spec fn view(&self) -> nat {
        self.count as nat
    }
}

impl RequestCount {
    /// A counter that has seen no request yet.
    pub fn new() -> (counter: Self)
        ensures
            counter@ == 0,
    {
        RequestCount { count: 0 }
    }

    /// The current count.
    pub fn read(&self) -> (count: u64)
        ensures
            count == self@,
    {
        self.count
    }

    /// Whether one more request can still be counted in 64 bits.
    pub fn has_room(&self) -> (room: bool)
        ensures
            room == (self@ < u64::MAX),
    {
        self.count < u64::MAX
    }

    /// Counts one more request.
    pub fn increment(&mut self)
        requires
            old(self)@ < u64::MAX,
        ensures
            final(self)@ == old(self)@ + 1,
    {
        self.count = self.count + 1;
    }

    /// Every count fits in 64 bits.
    pub proof fn lemma_bounded(self)
        ensures
            self@ <= u64::MAX,
    {
    }
}

impl Default for RequestCount {
    fn default() -> (counter: Self)
        ensures
            counter@ == 0,
    {
        RequestCount::new()
    }
}

} // verus!

//! The score: checkpoints passed during the current round.
use vstd::prelude::*;

verus! {

/// Number of checkpoints passed this round; it saturates at `u32::MAX`.
#[derive(Clone, Copy, Debug, PartialEq, Eq, Structural)]
pub struct Score(pub u32);

/// `a + b`, capped at `u32::MAX`.
pub open spec fn saturating_sum(a: int, b: int) -> u32 {
    if a + b > u32::MAX {
        u32::MAX
    } else {
        (a + b) as u32
    }
}

impl Score {
    /// A score of zero.
    pub fn new() -> (r: Score)
        ensures
            r.0 == 0,
    {
        Score(0)
    }

    /// The current value.
    pub fn value(&self) -> (r: u32)
        ensures
            r == self.0,
    {
        self.0
    }

    /// Adds the checkpoints passed since the previous tick, saturating.
    pub fn increment(&mut self, passed: usize)
        ensures
            final(self).0 == saturating_sum(old(self).0 as int, passed as int),
    {
        if passed as u64 >= (u32::MAX - self.0) as u64 {
            self.0 = u32::MAX;
        } else {
            self.0 = self.0 + passed as u32;
        }
    }

    /// Back to zero, for a new round.
    pub fn reset(&mut self)
        ensures
            final(self).0 == 0,
    {
        self.0 = 0;
    }
}

} // verus!

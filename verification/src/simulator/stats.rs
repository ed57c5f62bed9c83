//! Processing statistics of a simulated team.

use vstd::prelude::*;

verus! {

/// Counts of the users a team processed and flagged.
pub struct StatsState {
    processed: u64,
    flagged: u64,
}

impl StatsState {
    /// Users processed so far.
    pub closed spec fn spec_processed(&self) -> nat {
        self.processed as nat
    }

    /// Users flagged so far.
    pub closed spec fn spec_flagged(&self) -> nat {
        self.flagged as nat
    }

    /// Users processed so far.
    pub fn processed(&self) -> (r: u64)
        ensures
            r == self.spec_processed(),
    {
        self.processed
    }

    /// Users flagged so far.
    pub fn flagged(&self) -> (r: u64)
        ensures
            r == self.spec_flagged(),
    {
        self.flagged
    }

    /// Nothing processed or flagged.
    pub fn new() -> (r: Self)
        ensures
            r.spec_processed() == 0,
            r.spec_flagged() == 0,
    {
        StatsState { processed: 0, flagged: 0 }
    }

    /// Count one more processed user and return the new count.
    pub fn increment_processed(&mut self) -> (r: u64)
        requires
            old(self).spec_processed() < u64::MAX,
        ensures
            final(self).spec_processed() == old(self).spec_processed() + 1,
            final(self).spec_flagged() == old(self).spec_flagged(),
            r == final(self).spec_processed(),
    {
        self.processed = self.processed + 1;
        self.processed
    }

    /// Count one more flagged user and return the processed and flagged
    /// counts.
    pub fn increment_flagged(&mut self) -> (r: (u64, u64))
        requires
            old(self).spec_flagged() < u64::MAX,
        ensures
            final(self).spec_processed() == old(self).spec_processed(),
            final(self).spec_flagged() == old(self).spec_flagged() + 1,
            r == (final(self).spec_processed() as u64, final(self).spec_flagged() as u64),
    {
        self.flagged = self.flagged + 1;
        (self.processed, self.flagged)
    }
}

impl Default for StatsState {
    fn default() -> (r: Self)
        ensures
            r.spec_processed() == 0,
            r.spec_flagged() == 0,
    {
        StatsState::new()
    }
}

} // verus!

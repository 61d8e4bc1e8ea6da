use vstd::prelude::*;

verus! {

/// Bounds the reader's lag: once warmed up, a backlog above the bound makes
/// the read cursor jump to the write cursor, dropping the frames in between.
#[derive(Clone, Copy, Debug, PartialEq, Eq)]
pub struct BacklogGovernor {
    /// Accepted advances needed before the governor acts.
    pub warm_up: u64,
    /// The largest backlog, in frames, that is left alone.
    pub catch_up_bound: u64,
}

impl BacklogGovernor {
    /// The read counter after the governor has looked at the counters, with
    /// `advances` the number of advances accepted so far.
    pub open spec fn governed(self, read: int, write: int, advances: int) -> int {
        if advances >= self.warm_up && write - read > self.catch_up_bound {
            write
        } else {
            read
        }
    }

    /// The read counter after the governor has looked at the counters.
    pub fn govern(&self, read: u64, write: u64, advances: u64) -> (r: u64)
        requires
            read <= write,
        ensures
            r == self.governed(read as int, write as int, advances as int),
    {
        if advances >= self.warm_up && write - read > self.catch_up_bound {
            write
        } else {
            read
        }
    }
}

} // verus!

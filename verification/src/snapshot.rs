//! The immutable status record handed to the publisher after each
//! triggering event (initialization, accepted edge, rotation timeout,
//! shutdown).
use vstd::prelude::*;

verus! {

/// One published reading: smoothed rate in milli-RPM, cumulative
/// revolution count, seconds of process elapsed monotonic time, and
/// whether the sensing loop is still running (`false` only in the final
/// pre-exit record).
#[derive(Clone, Copy, PartialEq, Eq, Structural, Debug)]
pub struct StatusSnapshot {
    pub rate_millirpm: u64,
    pub count: u64,
    pub elapsed_secs: u64,
    pub running: bool,
}

impl StatusSnapshot {
    /// The reading published right after the edge source is acquired,
    /// before any edge has been seen.
    pub fn initial(now_ms: u64) -> (s: StatusSnapshot)
        ensures
            s == (StatusSnapshot {
                rate_millirpm: 0u64,
                count: 0u64,
                elapsed_secs: now_ms / 1000,
                running: true,
            }),
    {
        StatusSnapshot { rate_millirpm: 0, count: 0, elapsed_secs: now_ms / 1000, running: true }
    }
}

} // verus!

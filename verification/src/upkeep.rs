//! The periodic upkeep of the metrics recorder.

use vstd::prelude::*;

verus! {

/// The upkeep reports its progress every this many ticks.
pub const REPORT_INTERVAL: u64 = 200;

/// Whether the upkeep reports its progress at tick `tick` (ticks count from 1):
/// on every multiple of [`REPORT_INTERVAL`].
pub fn should_report_upkeep(tick: u64) -> (report: bool)
    ensures
        report == (tick % REPORT_INTERVAL == 0),
{
    tick % REPORT_INTERVAL == 0
}

} // verus!

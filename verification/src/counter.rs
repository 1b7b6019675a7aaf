use vstd::prelude::*;

use crate::backend;

verus! {

/// The tick count an observer reports for a region that began at sample
/// `start_tick` and ended at sample `stop_tick`: the unsigned difference,
/// which is `stop_tick - start_tick` modulo 2^64.
pub open spec fn spec_elapsed_ticks(start_tick: u64, stop_tick: u64) -> int {
    if stop_tick >= start_tick {
        stop_tick - start_tick
    } else {
        stop_tick - start_tick + 0x1_0000_0000_0000_0000
    }
}

/// Reads the tick counter to mark the start of a measured region.
///
/// The sampled value is meaningful only relative to a later [`stop`] sample
/// taken on the same logical execution context; it is machine state, so no
/// relation between two samples can be promised here — the counter advancing
/// between reads is a hardware property the platform provides.
pub fn start() -> u64 {
    backend::read_tick()
}

/// Reads the tick counter to mark the end of a measured region.
pub fn stop() -> u64 {
    backend::read_tick()
}

/// The unsigned difference between a stop sample and a start sample: the
/// elapsed tick count of the region they bracket, modulo 2^64.
pub fn elapsed_ticks(start_tick: u64, stop_tick: u64) -> (r: u64)
    ensures
        r == spec_elapsed_ticks(start_tick, stop_tick),
{
    if stop_tick >= start_tick {
        stop_tick - start_tick
    } else {
        (u64::MAX - start_tick) + stop_tick + 1
    }
}

/// Law: whenever the stop sample is numerically larger than the start sample
/// — which an advancing counter guarantees when at least one instruction
/// separates the two reads on the same execution context — the elapsed tick
/// count is strictly positive.
pub proof fn lemma_elapsed_ticks_positive(start_tick: u64, stop_tick: u64)
    requires
        start_tick < stop_tick,
    ensures
        spec_elapsed_ticks(start_tick, stop_tick) > 0,
{
}

/// An immutable handle wrapping one captured start sample: a convenience
/// composition over [`start`] and [`stop`] with no state beyond the sample.
#[derive(Clone, Copy, Debug)]
pub struct TickCounter {
    /// The sample captured when the handle was created.
    pub start_tick: u64,
}

impl TickCounter {
    /// Captures the current counter value as the start of a measurement.
    pub fn current() -> TickCounter {
        TickCounter { start_tick: start() }
    }

    /// Takes a fresh [`stop`] sample and returns the unsigned difference
    /// against the stored start sample, as [`elapsed_ticks`] computes it.
    pub fn elapsed(&self) -> u64 {
        elapsed_ticks(self.start_tick, stop())
    }
}

} // verus!

use vstd::prelude::*;

verus! {

/// Nanoseconds in one second.
pub const NANOS_PER_SECOND: u64 = 1_000_000_000;

/// Nanoseconds in one millisecond.
pub const NANOS_PER_MILLISECOND: u64 = 1_000_000;

/// A wall-clock span, held as a plain count of nanoseconds.
///
/// The calibration frequency source tags every estimate with the interval it
/// was measured over; this type carries that interval.
#[derive(Clone, Copy, Debug, PartialEq, Eq, Structural)]
pub struct TickDuration {
    /// Length of the span in nanoseconds.
    pub nanos: u64,
}

impl TickDuration {
    /// The span of `secs` whole seconds.
    pub fn from_secs(secs: u64) -> (r: TickDuration)
        requires
            secs <= u64::MAX / NANOS_PER_SECOND,
        ensures
            r.nanos == secs * NANOS_PER_SECOND,
    {
        TickDuration { nanos: secs * NANOS_PER_SECOND }
    }

    /// The span of `millis` whole milliseconds.
    pub fn from_millis(millis: u64) -> (r: TickDuration)
        requires
            millis <= u64::MAX / NANOS_PER_MILLISECOND,
        ensures
            r.nanos == millis * NANOS_PER_MILLISECOND,
    {
        TickDuration { nanos: millis * NANOS_PER_MILLISECOND }
    }

    /// The span of `nanos` nanoseconds.
    pub fn from_nanos(nanos: u64) -> (r: TickDuration)
        ensures
            r.nanos == nanos,
    {
        TickDuration { nanos }
    }
}

} // verus!

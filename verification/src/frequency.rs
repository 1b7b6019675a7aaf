use vstd::prelude::*;

use crate::backend;
use crate::counter;
use crate::duration::NANOS_PER_SECOND;
use crate::duration::TickDuration;

verus! {

/// The origin of a reported counter frequency.
///
/// A closed, two-variant set: a frequency is either exact, read from the
/// hardware itself, or an estimate from timed calibration. Carrying the
/// origin lets a caller decide whether to trust the number as exact or treat
/// it as an approximation whose error is bounded by the calibration interval.
#[derive(Clone, Copy, Debug, PartialEq, Eq, Structural)]
pub enum TickCounterFrequencyBase {
    /// The frequency is reported directly by a hardware register; exact.
    Hardware,
    /// The frequency was estimated by counting ticks over the carried
    /// wall-clock interval.
    Measured(TickDuration),
}

/// The frequency estimate for a counter that advanced by `elapsed` ticks
/// over `interval_nanos` wall-clock nanoseconds: ticks per second, rounded
/// to the nearest integer.
pub open spec fn measured_hz(elapsed: int, interval_nanos: int) -> int
    recommends
        interval_nanos > 0,
{
    (elapsed * NANOS_PER_SECOND + interval_nanos / 2) / interval_nanos
}

/// Converts a counted tick delta and the wall-clock interval it was counted
/// over into a frequency in hertz, rounded to the nearest integer and
/// saturating at `u64::MAX`.
pub fn frequency_from_ticks(elapsed_ticks: u64, interval_nanos: u64) -> (hz: u64)
    requires
        interval_nanos > 0,
    ensures
        measured_hz(elapsed_ticks as int, interval_nanos as int) <= u64::MAX
            ==> hz == measured_hz(elapsed_ticks as int, interval_nanos as int),
        measured_hz(elapsed_ticks as int, interval_nanos as int) > u64::MAX
            ==> hz == u64::MAX,
{
    proof {
        assert((elapsed_ticks as int) * (NANOS_PER_SECOND as int)
            <= (u64::MAX as int) * (NANOS_PER_SECOND as int)) by (nonlinear_arith)
            requires
                elapsed_ticks <= u64::MAX,
        ;
    }
    let wide: u128 = (elapsed_ticks as u128) * (NANOS_PER_SECOND as u128)
        + (interval_nanos as u128) / 2;
    let q: u128 = wide / (interval_nanos as u128);
    if q > u64::MAX as u128 {
        u64::MAX
    } else {
        q as u64
    }
}

/// Law: a calibration during which the counter advanced at all reports a
/// strictly positive frequency, for every interval of at most two seconds
/// per elapsed tick — in particular for the one-second default whenever at
/// least one tick passed.
pub proof fn lemma_measured_frequency_positive(elapsed: int, interval_nanos: int)
    requires
        0 < interval_nanos,
        interval_nanos <= 2_000_000_000 * elapsed,
    ensures
        measured_hz(elapsed, interval_nanos) >= 1,
{
    assert(measured_hz(elapsed, interval_nanos) >= 1) by (nonlinear_arith)
        requires
            0 < interval_nanos,
            interval_nanos <= 2_000_000_000 * elapsed,
    {
    }
}

/// Blocks the calling thread until at least `nanos` wall-clock nanoseconds
/// have passed, by polling the platform's monotonic clock. Calibration is
/// the one blocking operation in the crate; it offers no cancellation. A
/// poll budget that no real clock comes near exhausting bounds the wait, so
/// the loop is total.
fn wait_wall_clock(nanos: u64) {
    let begin = std::time::Instant::now();
    let mut polls_left: u64 = u64::MAX;
    while polls_left > 0 && backend::nanos_since(&begin) < nanos
        decreases polls_left,
    {
        polls_left = polls_left - 1;
    }
}

/// Measures the tick counter's frequency in hertz by counting the ticks that
/// pass during a wall-clock interval of `measure_duration`, then dividing
/// the delta by the interval with [`frequency_from_ticks`].
///
/// The sampled delta is machine state, so the returned value cannot be
/// pinned here; [`frequency_from_ticks`] carries the exact arithmetic
/// contract for every possible delta.
pub fn x86_64_measure_frequency(measure_duration: &TickDuration) -> u64
    requires
        measure_duration.nanos > 0,
{
    let counter_start = counter::start();
    wait_wall_clock(measure_duration.nanos);
    let counter_stop = counter::stop();
    frequency_from_ticks(
        counter::elapsed_ticks(counter_start, counter_stop),
        measure_duration.nanos,
    )
}

/// The calibration frequency source: measures the frequency over the given
/// interval and tags the result `Measured` with exactly that interval, so a
/// consumer sees both the estimate and its accuracy trade-off.
pub fn measured_frequency(measure_duration: &TickDuration) -> (r: (
    u64,
    TickCounterFrequencyBase,
))
    requires
        measure_duration.nanos > 0,
    ensures
        r.1 == TickCounterFrequencyBase::Measured(*measure_duration),
{
    (
        x86_64_measure_frequency(measure_duration),
        TickCounterFrequencyBase::Measured(*measure_duration),
    )
}

/// Returns the tick counter's frequency in hertz together with its origin.
///
/// This build has no frequency register to read, so the frequency is
/// measured over the default one-second calibration interval and the result
/// is always tagged `Measured` with exactly that interval.
pub fn frequency() -> (r: (u64, TickCounterFrequencyBase))
    ensures
        r.1 == TickCounterFrequencyBase::Measured((TickDuration { nanos: NANOS_PER_SECOND })),
{
    let measure_duration = TickDuration::from_secs(1);
    measured_frequency(&measure_duration)
}

/// The result of the hardware-register frequency source for a register that
/// reads `counter_frequency`: the register value itself, exact, tagged
/// `Hardware`.
pub open spec fn spec_hardware_frequency(counter_frequency: u64) -> (u64, TickCounterFrequencyBase) {
    (counter_frequency, TickCounterFrequencyBase::Hardware)
}

/// The frequency source for platforms whose hardware reports the counter's
/// frequency directly (such as the CNTFRQ_EL0 register on AArch64). The
/// platform layer reads the register and hands its value in; this function
/// is the backend's whole logic: the reported frequency is the register
/// value, always tagged `Hardware`, and positive whenever the register is —
/// which the hardware guarantees on every supported platform.
pub fn hardware_frequency(counter_frequency: u64) -> (r: (u64, TickCounterFrequencyBase))
    ensures
        r == spec_hardware_frequency(counter_frequency),
        r.1 == TickCounterFrequencyBase::Hardware,
        counter_frequency > 0 ==> r.0 > 0,
{
    (counter_frequency, TickCounterFrequencyBase::Hardware)
}

} // verus!

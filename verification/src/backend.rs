//! The platform layer: the only module that touches the machine's clocks.
//!
//! Raw counter access cannot be reasoned about by the verifier, so it is
//! isolated here behind trusted declarations; everything else in the crate is
//! verified against the contracts on this boundary. Nothing is promised of
//! the sampled values themselves — they are machine state — and every
//! function that consumes them states what holds whatever came back.

use vstd::prelude::*;

verus! {

/// `quanta::Clock` selects the machine's best tick source when it is built:
/// the processor's own tick counter (RDTSC on x86-64, the CNTVCT_EL0
/// counter-timer register on AArch64) where an invariant counter is present,
/// and the operating system's monotonic clock otherwise. An unsupported
/// architecture fails `quanta`'s build rather than falling back silently.
#[verifier::external_type_specification]
#[verifier::external_body]
pub struct ExClock(quanta::Clock);

/// Relies on `quanta::Clock::new`: builds the clock backed by the machine's
/// best tick source, chosen by a hardware capability check.
pub assume_specification[ quanta::Clock::new ]() -> quanta::Clock;

/// Relies on `quanta::Clock::raw`: one raw read of the selected tick source,
/// a single counter-read instruction on supported processors.
pub assume_specification[ quanta::Clock::raw ](clock: &quanta::Clock) -> u64;

/// `std::time::Instant` is the operating system's monotonic wall clock. It
/// serves only as the real-time reference that brackets a calibration
/// interval; tick values never come from it on processors with a counter.
#[verifier::external_type_specification]
#[verifier::external_body]
pub struct ExInstant(std::time::Instant);

/// Relies on `std::time::Instant::now`: captures the current monotonic time.
pub assume_specification[ std::time::Instant::now ]() -> std::time::Instant;

/// Relies on `std::time::Instant::elapsed`: the wall-clock time since `begin`
/// was captured, converted to a plain count of nanoseconds (truncated to 64
/// bits, which holds centuries).
#[verifier::external_body]
pub(crate) fn nanos_since(begin: &std::time::Instant) -> u64 {
    begin.elapsed().as_nanos() as u64
}

/// Reads the current value of the platform's tick counter.
pub(crate) fn read_tick() -> u64 {
    let clock = quanta::Clock::new();
    clock.raw()
}

} // verus!

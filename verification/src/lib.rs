//! Hardware tick counters for high-precision benchmarking.
//!
//! A caller samples the counter with [`start`], runs the code under
//! measurement, and samples again with [`stop`]; the unsigned difference is
//! the elapsed tick count. [`frequency`] determines the counter's tick rate
//! — measured by timed calibration on this build, read from a hardware
//! register where the platform offers one — and the precision helper turns a
//! frequency into nanoseconds per tick. All raw hardware access is confined
//! to the platform layer in `backend`; every computation on the sampled
//! values is verified.

mod backend;
mod counter;
mod duration;
mod frequency;
mod precision;

pub use counter::TickCounter;
pub use counter::elapsed_ticks;
pub use counter::lemma_elapsed_ticks_positive;
pub use counter::spec_elapsed_ticks;
pub use counter::start;
pub use counter::stop;
pub use duration::NANOS_PER_MILLISECOND;
pub use duration::NANOS_PER_SECOND;
pub use duration::TickDuration;
pub use frequency::TickCounterFrequencyBase;
pub use frequency::frequency;
pub use frequency::frequency_from_ticks;
pub use frequency::hardware_frequency;
pub use frequency::lemma_measured_frequency_positive;
pub use frequency::measured_frequency;
pub use frequency::measured_hz;
pub use frequency::spec_hardware_frequency;
pub use frequency::x86_64_measure_frequency;
pub use precision::precision_nanoseconds_truncated;

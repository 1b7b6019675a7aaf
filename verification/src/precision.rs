use vstd::prelude::*;

use crate::duration::NANOS_PER_SECOND;

verus! {

/// Whole nanoseconds per tick for a counter running at `frequency` Hz,
/// truncated toward zero.
///
/// The degenerate zero frequency yields `None` rather than an error — a
/// documented caller contract, not a failure: a frequency source never
/// reports zero under normal operation.
pub fn precision_nanoseconds_truncated(frequency: u64) -> (r: Option<u64>)
    ensures
        frequency > 0 ==> r == Some(NANOS_PER_SECOND / frequency),
        frequency == 0 ==> r is None,
{
    if frequency == 0 {
        None
    } else {
        Some(NANOS_PER_SECOND / frequency)
    }
}

} // verus!

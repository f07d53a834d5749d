//! Conversions of the monotonic clock's counter pair into time units.
//!
//! The clock is built from two cascaded hardware counters: a fast counter
//! in 100 ns steps that rolls over every millisecond (counting 0 to 9999),
//! clocking a wide counter of whole milliseconds.  The platform layer reads
//! a coherent snapshot of the two; the arithmetic that turns a snapshot
//! into nanoseconds, microseconds, milliseconds or seconds lives here.

use vstd::prelude::*;

verus! {

/// Nanoseconds of a counter snapshot: the fast counter contributes 100 ns
/// per step, the wide counter a million per millisecond.
pub fn nanos(subms_count: u16, ms_count: u32) -> (r: u64)
    ensures
        r == subms_count * 100 + ms_count * 1_000_000u64,
{
    subms_count as u64 * 100 + ms_count as u64 * 1_000_000
}

/// Microseconds of a counter snapshot: ten fast steps per microsecond, a
/// thousand microseconds per millisecond.
pub fn micros(subms_count: u16, ms_count: u32) -> (r: u64)
    ensures
        r == subms_count / 10 + ms_count * 1000u64,
{
    subms_count as u64 / 10 + ms_count as u64 * 1000
}

/// Whole milliseconds of a counter snapshot.
pub fn millis(ms_count: u32) -> (r: u64)
    ensures
        r == ms_count,
{
    ms_count as u64
}

/// Whole seconds of a counter snapshot.
pub fn seconds(ms_count: u32) -> (r: u64)
    ensures
        r == ms_count / 1000,
{
    ms_count as u64 / 1000
}

} // verus!

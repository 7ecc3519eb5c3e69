//! Timestamps: media clock values in nanoseconds and the `Duration`s that hold them.

use vstd::prelude::*;
use std::time::Duration;

verus! {

/// The `Duration` that `Duration::from_nanos` makes of a count of nanoseconds.
pub uninterp spec fn nanos_duration(ns: u64) -> Duration;

/// The whole number of nanoseconds in a `Duration`, as `Duration::as_nanos` counts them.
pub uninterp spec fn duration_as_nanos(d: Duration) -> u128;

/// Calls `std::time::Duration::from_nanos`; its result is named by
/// `nanos_duration`, and counts exactly `ns` nanoseconds.
#[verifier::external_body]
pub fn duration_from_nanos(ns: u64) -> (d: Duration)
    ensures
        d == nanos_duration(ns),
        duration_as_nanos(d) == ns as u128,
{
    Duration::from_nanos(ns)
}

/// Calls `std::time::Duration::as_nanos`; its result is named by `duration_as_nanos`.
#[verifier::external_body]
fn duration_nanos(d: Duration) -> (n: u128)
    ensures
        n == duration_as_nanos(d),
{
    d.as_nanos()
}

/// The media clock value of a timestamp: its nanoseconds, cut to 64 bits.
pub fn clock_time_nanos(d: Duration) -> (ns: u64)
    ensures
        ns == duration_as_nanos(d) as u64,
{
    duration_nanos(d) as u64
}

/// Specifies `<Duration as Clone>::clone`: `Duration` is `Copy`, and its clone
/// is the same value.
pub assume_specification[ <Duration as Clone>::clone ](d: &Duration) -> (c: Duration)
    ensures
        c == *d,
;

} // verus!

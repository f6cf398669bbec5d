//! Durations built from whole seconds or milliseconds, and readings of
//! the monotonic clock.

use vstd::prelude::*;
use std::time::{Duration, Instant};

verus! {

/// What `Duration::from_secs` returns for a number of seconds.
pub uninterp spec fn duration_from_secs_spec(secs: u64) -> Duration;

/// What `Duration::as_nanos` returns: the whole nanoseconds a duration
/// holds.
pub uninterp spec fn duration_nanos_spec(d: Duration) -> u128;

/// Wrapper of `std::time::Duration::from_secs`: the duration of `secs`
/// whole seconds, which holds `secs` * 10^9 nanoseconds (`from_secs`
/// sets no sub-second part; `as_nanos` counts seconds times 10^9 plus
/// that part).
#[verifier::external_body]
pub(crate) fn duration_from_secs(secs: u64) -> (d: Duration)
    ensures
        d == duration_from_secs_spec(secs),
        duration_nanos_spec(d) == secs * 1_000_000_000,
{
    Duration::from_secs(secs)
}

/// `Clone` of `std::time::Duration`, a `Copy` type: the clone is the
/// same duration.
pub assume_specification[ <Duration as Clone>::clone ](d: &Duration) -> (r: Duration)
    ensures
        r == *d,
;

/// What `Duration::from_millis` returns for a number of milliseconds.
pub uninterp spec fn duration_from_millis_spec(millis: u64) -> Duration;

/// Wrapper of `std::time::Duration::from_millis`: the duration of
/// `millis` milliseconds, which holds `millis` * 10^6 nanoseconds.
#[verifier::external_body]
pub(crate) fn duration_from_millis(millis: u64) -> (d: Duration)
    ensures
        d == duration_from_millis_spec(millis),
        duration_nanos_spec(d) == millis * 1_000_000,
{
    Duration::from_millis(millis)
}

/// Wrapper of `std::time::Duration::as_nanos`: the whole nanoseconds
/// of `d`, by name.
#[verifier::external_body]
pub(crate) fn duration_nanos(d: &Duration) -> (r: u128)
    ensures
        r == duration_nanos_spec(*d),
{
    d.as_nanos()
}

/// Declares `std::time::Instant`, a point on the monotonic clock.
#[verifier::external_type_specification]
#[verifier::external_body]
pub struct ExInstant(Instant);

/// Wrapper of `Instant::now`: the current instant. Nothing is claimed of
/// the value.
#[verifier::external_body]
pub(crate) fn instant_now() -> (r: Instant) {
    Instant::now()
}

/// Wrapper of `Instant::elapsed`: whole nanoseconds since `start`, read
/// from the clock. Nothing is claimed of the value.
#[verifier::external_body]
pub(crate) fn elapsed_nanos(start: &Instant) -> (r: u128) {
    start.elapsed().as_nanos()
}

} // verus!

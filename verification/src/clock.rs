//! Clock readings and duration conversions from `std::time`.
//!
//! Readings of the clock depend on when they are taken, so nothing is claimed of
//! them. The conversions of a `Duration` into whole units are functions of the
//! duration alone and are named here, so that the contracts of the callers can
//! say which value they store.

use std::time::{Duration, Instant};
use vstd::prelude::*;

verus! {

#[verifier::external_type_specification]
#[verifier::external_body]
pub struct ExInstant(Instant);

/// The whole number of nanoseconds in `d` (`Duration::as_nanos`).
pub uninterp spec fn duration_nanos(d: Duration) -> u128;

/// The whole number of microseconds in `d` (`Duration::as_micros`).
pub uninterp spec fn duration_micros(d: Duration) -> u128;

/// The whole number of milliseconds in `d` (`Duration::as_millis`).
pub uninterp spec fn duration_millis(d: Duration) -> u128;

/// The duration of `nanos` nanoseconds (`Duration::from_nanos`).
pub uninterp spec fn duration_of_nanos(nanos: u64) -> Duration;

/// Calls `Instant::now`. The reading depends on the time of the call, so nothing
/// is claimed of it.
#[verifier::external_body]
pub(crate) fn instant_now() -> Instant {
    Instant::now()
}

/// Calls `Instant::elapsed`. The result depends on the time of the call, so
/// nothing is claimed of it.
#[verifier::external_body]
pub(crate) fn instant_elapsed(start: &Instant) -> Duration {
    start.elapsed()
}

/// Calls `Duration::as_nanos`; the result is the named function of the duration.
#[verifier::external_body]
pub(crate) fn duration_as_nanos(d: &Duration) -> (r: u128)
    ensures
        r == duration_nanos(*d),
{
    d.as_nanos()
}

/// Calls `Duration::as_micros`; the result is the named function of the duration.
#[verifier::external_body]
pub(crate) fn duration_as_micros(d: &Duration) -> (r: u128)
    ensures
        r == duration_micros(*d),
{
    d.as_micros()
}

/// Calls `Duration::as_millis`; the result is the named function of the duration.
#[verifier::external_body]
pub(crate) fn duration_as_millis(d: &Duration) -> (r: u128)
    ensures
        r == duration_millis(*d),
{
    d.as_millis()
}

/// Calls `Duration::from_nanos`; the result is the named function of the count.
#[verifier::external_body]
pub(crate) fn duration_from_nanos(nanos: u64) -> (d: Duration)
    ensures
        d == duration_of_nanos(nanos),
{
    Duration::from_nanos(nanos)
}

} // verus!

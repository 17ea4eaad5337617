//! Readings of the monotonic clock, for time-limited tokens and windows.
use vstd::prelude::*;

use std::time::{Duration, Instant};

verus! {

/// A reading of the monotonic clock.
#[verifier::external_type_specification]
#[verifier::external_body]
pub struct ExInstant(Instant);

/// The current UTC time in microseconds since the Unix epoch
/// (`chrono::Utc::now().timestamp_micros()`). Nothing is stated of it: it
/// depends on when it is called.
#[verifier::external_body]
pub(crate) fn utc_now_micros() -> (r: i64) {
    chrono::Utc::now().timestamp_micros()
}

/// The current reading of the monotonic clock (`Instant::now`). Nothing is
/// stated of it: it depends on when it is called.
#[verifier::external_body]
pub(crate) fn instant_now() -> (r: Instant) {
    Instant::now()
}

/// The time from `earlier` to `later`, zero when `later` is not after it
/// (`Instant::duration_since`, which saturates). Instants are opaque here, so
/// nothing is stated of the value.
#[verifier::external_body]
pub(crate) fn duration_since(later: &Instant, earlier: &Instant) -> (r: Duration) {
    later.duration_since(*earlier)
}

/// Nanoseconds from `earlier` to `later`, 0 when `later` is not after it.
pub(crate) fn nanos_between(later: &Instant, earlier: &Instant) -> (r: u128) {
    let d = duration_since(later, earlier);
    duration_nanos(&d)
}

/// The length of a duration in nanoseconds (`Duration::as_nanos`). Durations
/// are opaque here, so nothing is stated of the value.
#[verifier::external_body]
pub(crate) fn duration_nanos(d: &Duration) -> (r: u128) {
    d.as_nanos()
}

} // verus!

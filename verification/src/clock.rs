//! The monotonic clock behind every animation and timeout.
//!
//! Time is read in one place: an [`Instant`] taken when a timed object is
//! created serves as its origin, and every later reading is the number of
//! milliseconds elapsed since that origin. Everything computed from those
//! readings is ordinary verified arithmetic that takes the reading as an
//! argument.

use vstd::prelude::*;
use std::time::{Duration, Instant};

verus! {

/// Declares `std::time::Instant` so timed objects can hold their origin.
#[verifier::external_type_specification]
#[verifier::external_body]
pub struct ExInstant(Instant);

/// Trusted: wraps `Instant::now`. The reading depends on the time, so
/// nothing is stated of it.
#[verifier::external_body]
pub(crate) fn instant_now() -> Instant {
    Instant::now()
}

/// Trusted: wraps `Instant::elapsed`. The result depends on the time, so
/// nothing is stated of it.
#[verifier::external_body]
pub(crate) fn instant_elapsed(origin: &Instant) -> Duration {
    origin.elapsed()
}

/// Trusted: wraps `Duration::as_millis`. `Duration` is opaque to the
/// library, so nothing is stated of the result.
#[verifier::external_body]
pub(crate) fn duration_as_millis(d: &Duration) -> u128 {
    d.as_millis()
}

/// Milliseconds elapsed since `origin`.
pub(crate) fn millis_since(origin: &Instant) -> u128 {
    let d = instant_elapsed(origin);
    duration_as_millis(&d)
}

} // verus!

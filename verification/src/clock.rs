//! The monotonic clock that frame times are measured with.
//!
//! Nothing here is proved: each function hands one call to `std::time` through,
//! and the verifier sees the results as arbitrary values.

use vstd::prelude::*;

verus! {

/// `std::time::Instant`, a reading of the monotonic clock. It is carried through
/// as an opaque value.
#[verifier::external_type_specification]
#[verifier::external_body]
pub struct ExInstant(std::time::Instant);

/// Calls `std::time::Instant::now`. Nothing is claimed of the instant returned.
#[verifier::external_body]
pub(crate) fn instant_now() -> (now: std::time::Instant) {
    std::time::Instant::now()
}

/// Calls `std::time::Instant::elapsed`. Nothing is claimed of the duration
/// returned: it depends on when the call is made.
#[verifier::external_body]
pub(crate) fn instant_elapsed(start: &std::time::Instant) -> (elapsed: std::time::Duration) {
    start.elapsed()
}

/// Calls `std::time::Duration::as_nanos`, the whole duration in nanoseconds.
/// The duration is opaque to the verifier, so nothing is claimed of the number.
#[verifier::external_body]
pub(crate) fn duration_as_nanos(duration: &std::time::Duration) -> (nanos: u128) {
    duration.as_nanos()
}

} // verus!

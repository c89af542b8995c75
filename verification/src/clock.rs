//! Trusted access to the platform's monotonic clock, used for frame timing.
//!
//! The orchestrator only ever consumes the clock as a plain nanosecond count
//! measured from the session's origin; all timing arithmetic on those counts
//! is verified in `application`.

use vstd::prelude::*;

verus! {

/// The monotonic clock's point type. On native targets `instant::Instant` is
/// an alias for `std::time::Instant`, declared here so points of the clock can
/// be carried through the session state; values of it stay opaque.
#[verifier::external_type_specification]
#[verifier::external_body]
pub struct ExInstant(std::time::Instant);

/// Relies on `std::time::Instant::now` (the type `instant::Instant` names on
/// native targets): one point of the monotonic clock. When the clock is read
/// is the platform's business, so nothing is promised of the value.
#[verifier::external_body]
pub(crate) fn clock_now() -> (r: instant::Instant) {
    instant::Instant::now()
}

/// Relies on `std::time::Instant::saturating_duration_since`: the time from
/// `earlier` to `later`, zero if `later` is the earlier of the two points.
#[verifier::external_body]
pub(crate) fn elapsed_between(later: &instant::Instant, earlier: &instant::Instant) -> (d:
    core::time::Duration) {
    later.saturating_duration_since(*earlier)
}

/// Relies on `core::time::Duration::as_nanos`: the duration as a whole number
/// of nanoseconds.
#[verifier::external_body]
pub(crate) fn duration_nanos(d: &core::time::Duration) -> (n: u128) {
    d.as_nanos()
}

/// Clamps a nanosecond count to the range the frame clock keeps: exact below
/// the clamp, which sits centuries out.
pub(crate) fn nanos_clamped(n: u128) -> (r: u64)
    ensures
        r == if n <= u64::MAX { n as u64 } else { u64::MAX },
{
    if n <= u64::MAX as u128 {
        n as u64
    } else {
        u64::MAX
    }
}

} // verus!

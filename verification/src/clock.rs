//! The one edge where the engine meets the machine: reading the monotonic
//! clock. A clock reading depends on the moment it is taken, so nothing is
//! promised of the values; every caller must hold for every possible
//! reading.

use vstd::prelude::*;

verus! {

#[verifier::external_type_specification]
#[verifier::external_body]
pub struct ExInstant(std::time::Instant);

/// Relies on std::time::Instant::now: an opaque reading of the monotonic
/// clock. No two readings are promised to be related in any way.
#[verifier::external_body]
pub(crate) fn instant_now() -> (t: std::time::Instant) {
    std::time::Instant::now()
}

/// Relies on std::time::Instant::elapsed: the wall-clock time since
/// `start`, zero if the clock reads earlier than `start`. Nothing can be
/// promised of the value.
#[verifier::external_body]
pub(crate) fn elapsed_since(start: &std::time::Instant) -> (d: std::time::Duration) {
    start.elapsed()
}

/// Relies on std::time::Duration::as_nanos: the duration as a whole number
/// of nanoseconds.
#[verifier::external_body]
pub(crate) fn duration_as_nanos(d: &std::time::Duration) -> (n: u128) {
    d.as_nanos()
}

} // verus!

//! The planner's wall clock, behind trusted items.
use vstd::prelude::*;

verus! {

/// std::time::Instant, opaque to the verifier: a point on the
/// monotonic clock, read only through the two items below.
#[verifier::external_type_specification]
#[verifier::external_body]
pub struct ExInstant(std::time::Instant);

/// Relies on std::time::Instant::now: an opaque reading of the
/// monotonic clock.
#[verifier::external_body]
pub(crate) fn clock_now() -> std::time::Instant {
    std::time::Instant::now()
}

/// Relies on std::time::Instant::elapsed: the time since the instant
/// was taken, reduced to whole milliseconds. Nothing is assumed of the
/// value: the planner is verified for every reading.
#[verifier::external_body]
pub(crate) fn elapsed_millis(start: &std::time::Instant) -> u64 {
    start.elapsed().as_millis() as u64
}

} // verus!

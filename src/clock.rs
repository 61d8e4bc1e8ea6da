use std::time::Instant;
use vstd::prelude::*;

verus! {

/// A point on the monotonic clock, carried through without being looked into.
#[verifier::external_type_specification]
#[verifier::external_body]
pub struct ExInstant(std::time::Instant);

/// Relies on `Instant::now`: the current point on the monotonic clock.
/// Nothing is promised of its value.
pub assume_specification[ std::time::Instant::now ]() -> (r: std::time::Instant);

/// Relies on `Instant::elapsed` and `Duration::as_nanos`: the nanoseconds
/// since `start`, as `u64` where they fit and `u64::MAX` where they do not.
/// Nothing is promised of the value: it depends on the time of the call.
#[verifier::external_body]
pub(crate) fn nanos_since(start: &Instant) -> (r: u64) {
    u64::try_from(start.elapsed().as_nanos()).unwrap_or(u64::MAX)
}

} // verus!

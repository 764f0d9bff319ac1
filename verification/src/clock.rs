//! Monotonic clock readings taken from `std::time::Instant`.

use vstd::prelude::*;

use std::time::{Duration, Instant};

verus! {

/// A point on the monotonic clock; opaque to proofs.
#[verifier::external_type_specification]
#[verifier::external_body]
pub struct ExInstant(Instant);

/// Calls `Instant::now`: the current reading of the monotonic clock. Nothing
/// is claimed about the value.
#[verifier::external_body]
pub(crate) fn instant_now() -> Instant {
    Instant::now()
}

/// Calls `Instant::elapsed`: the time since `start`. It depends on the clock;
/// nothing is claimed about it.
#[verifier::external_body]
pub(crate) fn elapsed(start: &Instant) -> Duration {
    start.elapsed()
}

/// Calls `Duration::as_nanos`: `d` in nanoseconds. Durations are opaque here,
/// so nothing is claimed about the value.
#[verifier::external_body]
pub(crate) fn duration_nanos(d: &Duration) -> u128 {
    d.as_nanos()
}

} // verus!

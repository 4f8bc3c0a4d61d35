//! The monotonic clock, read in whole nanoseconds since an instant.

use std::time::{Duration, Instant};
use vstd::prelude::*;

verus! {

/// `std::time::Instant`: a reading of the monotonic clock. A limiter keeps
/// the one at which it was made. Nothing is known of what it holds.
#[verifier::external_type_specification]
#[verifier::external_body]
pub struct ExInstant(Instant);

/// `Instant::now`: the present reading of the monotonic clock. Nothing is
/// claimed of the value.
#[verifier::external_body]
pub(crate) fn instant_now() -> Instant {
    Instant::now()
}

/// `Instant::saturating_duration_since`: the time from `earlier` to `later`,
/// or no time at all where `earlier` is the later of the two. Nothing is
/// claimed of the value.
#[verifier::external_body]
fn time_between(earlier: &Instant, later: &Instant) -> Duration {
    later.saturating_duration_since(*earlier)
}

/// `Duration::as_nanos`: the whole of `span` in nanoseconds. Nothing is
/// claimed of the value.
#[verifier::external_body]
fn whole_nanos(span: &Duration) -> u128 {
    span.as_nanos()
}

/// The nanoseconds that have passed on the monotonic clock since `epoch`.
pub(crate) fn nanos_since(epoch: &Instant) -> u128 {
    let now = instant_now();
    let span = time_between(epoch, &now);
    whole_nanos(&span)
}

} // verus!

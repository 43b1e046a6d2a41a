//! The monotonic clock, as far as frame counting needs it.
//!
//! Nothing is promised of what the clock returns: the bookkeeping that
//! consumes a reading is proved for every reading.

use vstd::prelude::*;
use web_time::{Duration, Instant};

verus! {

/// `web_time::Instant`, a reading of the monotonic clock. Opaque here.
#[verifier::external_type_specification]
#[verifier::external_body]
pub struct ExInstant(web_time::Instant);

/// Calls `web_time::Instant::now`. The reading depends on when the call is
/// made, so nothing is claimed of it.
#[verifier::external_body]
pub(crate) fn now() -> (reading: Instant) {
    Instant::now()
}

/// Calls `web_time::Instant`'s subtraction, `later - earlier`: the time from
/// `earlier` to `later`, or a zero duration where `earlier` is the later of
/// the two. Nothing is claimed of the duration.
#[verifier::external_body]
pub(crate) fn since(later: &Instant, earlier: &Instant) -> (gap: Duration) {
    *later - *earlier
}

/// Calls `web_time::Duration::as_millis`, the whole milliseconds in a
/// duration. Nothing is claimed of the number.
#[verifier::external_body]
pub(crate) fn whole_millis(gap: &Duration) -> (ms: u128) {
    gap.as_millis()
}

} // verus!

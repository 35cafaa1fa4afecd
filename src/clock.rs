//! The clocks that the timeline and the throttle read.
use vstd::prelude::*;

verus! {

#[verifier::external_type_specification]
#[verifier::external_body]
pub struct ExInstant(tokio::time::Instant);

/// Relies on tokio's `Instant::now`: the current instant of the monotonic
/// clock. Nothing is promised of its value.
#[verifier::external_body]
pub(crate) fn instant_now() -> tokio::time::Instant {
    tokio::time::Instant::now()
}

/// Relies on tokio's `Instant::elapsed`: the time since `start`, in whole
/// milliseconds (truncated to 64 bits). Nothing is promised of its value.
#[verifier::external_body]
pub(crate) fn millis_since(start: &tokio::time::Instant) -> u64 {
    start.elapsed().as_millis() as u64
}

/// Relies on chrono's `Utc::now`, read as milliseconds since the Unix epoch
/// with `DateTime::timestamp_millis`; `Utc::now` panics on a system time
/// before the epoch, so the count is never negative. Nothing is promised of
/// its value.
#[verifier::external_body]
pub(crate) fn wall_clock_ms() -> u64 {
    chrono::Utc::now().timestamp_millis() as u64
}

/// Relies on chrono's `Utc::now`, written with `DateTime::to_rfc3339`.
/// Nothing is promised of its value.
#[verifier::external_body]
pub(crate) fn wall_clock_rfc3339() -> String {
    chrono::Utc::now().to_rfc3339()
}

} // verus!

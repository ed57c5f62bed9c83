//! Time as the library reads it: opaque instants of a monotonic clock, the
//! seconds elapsed since one, and wall-clock milliseconds since the epoch.

use vstd::prelude::*;

verus! {

/// An instant of the monotonic clock (`std::time::Instant`), carried through
/// unread.
#[verifier::external_type_specification]
#[verifier::external_body]
pub struct ExInstant(std::time::Instant);

/// `Instant` is `Copy`; its `clone` hands back the same instant.
pub assume_specification[<std::time::Instant as Clone>::clone](i: &std::time::Instant) -> (r: std::time::Instant)
    ensures
        r == *i,
;

/// Calls `Instant::now`; the result depends on the time, so nothing is
/// stated of it.
#[verifier::external_body]
pub(crate) fn instant_now() -> std::time::Instant {
    std::time::Instant::now()
}

/// Calls `Instant::elapsed`; the result depends on the time, so nothing is
/// stated of it.
#[verifier::external_body]
fn instant_elapsed(i: &std::time::Instant) -> core::time::Duration {
    i.elapsed()
}

/// Calls `Duration::as_secs`. The duration is opaque here, so nothing is
/// stated of the result.
#[verifier::external_body]
fn duration_secs(d: &core::time::Duration) -> u64 {
    d.as_secs()
}

/// Whole seconds elapsed since `i`; depends on the time.
pub fn elapsed_secs(i: &std::time::Instant) -> u64 {
    let d = instant_elapsed(i);
    duration_secs(&d)
}

/// Calls `chrono::Utc::now` and reads its milliseconds since the Unix epoch
/// (`DateTime::timestamp_millis`); depends on the time, so nothing is stated
/// of it.
#[verifier::external_body]
pub(crate) fn utc_now_millis() -> i64 {
    chrono::Utc::now().timestamp_millis()
}

} // verus!

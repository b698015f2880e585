//! Readings of the system clocks. Nothing is promised of any reading: what
//! the library does with one is stated for every value it may take.
use vstd::prelude::*;

use std::time::{Duration, Instant, SystemTime};

verus! {

#[verifier::external_type_specification]
#[verifier::external_body]
pub struct ExInstant(Instant);

#[verifier::external_type_specification]
#[verifier::external_body]
pub struct ExSystemTime(SystemTime);

/// Calls `Instant::now`: a reading of the monotonic clock.
#[verifier::external_body]
pub(crate) fn instant_now() -> Instant {
    Instant::now()
}

/// Calls `Instant::elapsed`: the time since `origin` on the monotonic clock.
#[verifier::external_body]
pub(crate) fn elapsed_since(origin: &Instant) -> Duration {
    origin.elapsed()
}

/// Calls `Duration::as_nanos`. Nothing is stated of the value, since a
/// `Duration` is opaque here.
#[verifier::external_body]
pub(crate) fn duration_nanos(d: &Duration) -> u128 {
    d.as_nanos()
}

/// Calls `Duration::as_secs`. Nothing is stated of the value, since a
/// `Duration` is opaque here.
#[verifier::external_body]
pub(crate) fn duration_secs(d: &Duration) -> u64 {
    d.as_secs()
}

/// Calls `SystemTime::now`: a reading of the wall clock.
#[verifier::external_body]
pub(crate) fn system_now() -> SystemTime {
    SystemTime::now()
}

/// Calls `SystemTime::duration_since(UNIX_EPOCH)` on `t`; `None` where the
/// call fails, that is when `t` is before the epoch.
#[verifier::external_body]
pub(crate) fn since_unix_epoch(t: &SystemTime) -> Option<Duration> {
    t.duration_since(std::time::UNIX_EPOCH).ok()
}

} // verus!

//! The two clocks of the runtime: wall-clock time for the safety events and
//! a monotonic clock for the length of a session.

use vstd::prelude::*;
use std::time::{Duration, Instant};

verus! {

/// A point of the monotonic clock. Nothing is known of its value.
#[verifier::external_type_specification]
#[verifier::external_body]
pub struct ExInstant(Instant);

/// `chrono::Utc::now` and `DateTime::timestamp_millis`: the wall-clock time
/// in milliseconds since the Unix epoch. Nothing is claimed of the value.
#[verifier::external_body]
pub(crate) fn now_millis() -> i64 {
    chrono::Utc::now().timestamp_millis()
}

/// `Instant::now`: the present point of the monotonic clock.
#[verifier::external_body]
pub(crate) fn instant_now() -> Instant {
    Instant::now()
}

/// `Instant::elapsed`: the time since `start`. Nothing is claimed of the
/// value.
#[verifier::external_body]
pub(crate) fn instant_elapsed(start: &Instant) -> Duration {
    start.elapsed()
}

/// `Duration::as_micros`: the whole microseconds of `d`.
#[verifier::external_body]
pub(crate) fn duration_micros(d: &Duration) -> u128 {
    d.as_micros()
}

/// A count of microseconds as a length of time in millionths of a second:
/// the count itself, or `i64::MAX` where it is greater.
pub open spec fn capped_micros(us: u128) -> i64 {
    if us > i64::MAX {
        i64::MAX
    } else {
        us as i64
    }
}

/// The count of microseconds `us` as a length of time in millionths of a
/// second, at most `i64::MAX`.
pub fn cap_micros(us: u128) -> (r: i64)
    ensures
        r == capped_micros(us),
        r >= 0,
{
    if us > 9_223_372_036_854_775_807u128 {
        i64::MAX
    } else {
        us as i64
    }
}

/// The time since `start` in microseconds, at most `i64::MAX`: what the
/// monotonic clock gives, capped by [`cap_micros`].
pub fn elapsed_micros(start: &Instant) -> (r: i64)
    ensures
        r >= 0,
{
    let d = instant_elapsed(start);
    cap_micros(duration_micros(&d))
}

} // verus!

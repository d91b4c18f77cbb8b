//! The clocks the library reads: the monotonic clock that paces the rate
//! limiter and the wall clock that dates tokens and error bodies.

use crate::models::user::Timestamp;
use vstd::prelude::*;

verus! {

/// `std::time::Instant`, a reading of the monotonic clock. Two readings can
/// be told apart and the time between them measured, and no more.
#[verifier::external_type_specification]
#[verifier::external_body]
pub struct ExInstant(std::time::Instant);

/// `Instant::now` reads the monotonic clock. Nothing is known of the reading.
pub assume_specification[ std::time::Instant::now ]() -> (now: std::time::Instant);

/// `Instant::duration_since` gives the time from `earlier` to `later`, zero
/// where `earlier` is the later of the two. Nothing is stated of the amount.
pub assume_specification[ std::time::Instant::duration_since ](
    later: &std::time::Instant,
    earlier: std::time::Instant,
) -> (elapsed: core::time::Duration);

/// `Duration::as_nanos` gives a duration in whole nanoseconds.
pub assume_specification[ core::time::Duration::as_nanos ](duration: &core::time::Duration) -> (nanos: u128);

/// The largest second that `timestamp_now` can read, and one more: `2^48`.
pub const UNIX_NOW_LIMIT: i64 = 0x1_0000_0000_0000;

/// `chrono::Utc::now`, by its `timestamp` and `timestamp_subsec_nanos`: the
/// wall clock in seconds since the Unix epoch and nanoseconds into the
/// second. `Utc::now` takes the time since the epoch, so the seconds are not
/// negative; `timestamp` computes them from a day number of 32 bits and the
/// seconds of one day, so they stay under `2^48`. Which moment it is depends
/// on when the call is made. `Utc::now` panics on a system clock set before
/// the epoch.
#[verifier::external_body]
pub(crate) fn timestamp_now() -> (now: Timestamp)
    ensures
        0 <= now.secs < UNIX_NOW_LIMIT,
{
    let now = chrono::Utc::now();
    Timestamp { secs: now.timestamp(), nanos: now.timestamp_subsec_nanos() }
}

/// The wall clock in whole seconds since the Unix epoch.
pub(crate) fn unix_now() -> (now: i64)
    ensures
        0 <= now < UNIX_NOW_LIMIT,
{
    timestamp_now().secs
}

} // verus!

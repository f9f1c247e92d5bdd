use vstd::prelude::*;

use std::time::{Instant, SystemTime, UNIX_EPOCH};

verus! {

#[verifier::external_type_specification]
#[verifier::external_body]
pub struct ExInstant(Instant);

/// Relies on std's `Instant::now`: a reading of the monotonic clock. Nothing is
/// promised of its value.
pub assume_specification[ Instant::now ]() -> Instant;

/// Relies on std's `Instant::elapsed` and `Duration::as_millis`: the whole
/// milliseconds from `start` to now on the monotonic clock (zero if the clock reads
/// earlier). Nothing is promised of the value.
#[verifier::external_body]
pub(crate) fn millis_since(start: &Instant) -> (r: u128) {
    start.elapsed().as_millis()
}

#[verifier::external_type_specification]
#[verifier::external_body]
pub struct ExSystemTime(SystemTime);

/// Relies on std's `SystemTime::now`: a reading of the wall clock. Nothing is promised
/// of its value.
pub assume_specification[ SystemTime::now ]() -> SystemTime;

/// Relies on std's `SystemTime::duration_since` and `Duration::as_millis`: the whole
/// milliseconds from the Unix epoch to `t`, or `None` when `t` is earlier than the
/// epoch. (chrono's `Utc::now` is not used here: it panics on such a clock.)
#[verifier::external_body]
pub(crate) fn millis_after_unix_epoch(t: &SystemTime) -> (r: Option<u128>) {
    match t.duration_since(UNIX_EPOCH) {
        Ok(d) => Some(d.as_millis()),
        Err(_) => None,
    }
}

/// The wall clock in milliseconds since the Unix epoch, held within `i64`; zero when
/// the clock reads before the epoch.
pub fn wall_clock_millis() -> (r: i64)
    ensures
        r >= 0,
{
    let now = SystemTime::now();
    match millis_after_unix_epoch(&now) {
        Some(ms) => if ms > i64::MAX as u128 {
            i64::MAX
        } else {
            ms as i64
        },
        None => 0,
    }
}

} // verus!

//! The calls this library makes into `rand`, `uuid` and `chrono`. None of the
//! bodies here is verified: each contract is taken on trust from the crate it
//! calls.

use vstd::prelude::*;
use chrono::{DateTime, Datelike, TimeZone, Utc};
use rand::Rng;

verus! {

/// Earliest instant, in seconds since 1970-01-01T00:00:00Z, that `chrono`
/// can hold: the first second of the year -262143.
pub const MIN_TIMESTAMP: i64 = -8_334_601_228_800;

/// Latest instant that `chrono` can hold: the last second of the year 262142.
pub const MAX_TIMESTAMP: i64 = 8_210_266_876_799;

/// Seconds in a day.
pub const DAY: i64 = 86_400;

/// Midnight (UTC) of the day that holds the instant `secs`.
pub open spec fn day_start(secs: int) -> int {
    (secs / 86_400) * 86_400
}

/// One byte from the thread's generator, `rand::rng().random::<u8>()`.
/// Nothing is claimed of the value: every byte may come back.
#[verifier::external_body]
pub(crate) fn quick_roll() -> (roll: u8) {
    rand::rng().random()
}

/// A fresh version 7 identifier, `uuid::Uuid::now_v7()`, as the 128-bit
/// number that `Uuid::as_u128` gives. It is built from the clock and from
/// random bits, so nothing is claimed of the value.
#[verifier::external_body]
pub(crate) fn fresh_uuid() -> (id: u128) {
    uuid::Uuid::now_v7().as_u128()
}

/// The current instant, `chrono::Utc::now().timestamp()`, in whole seconds
/// since the epoch. `Utc::now` reads the system clock as a duration since the
/// epoch, so the value is never negative, and a `DateTime` cannot lie after
/// `MAX_TIMESTAMP`. The call aborts where the system clock stands before
/// 1970, as `Utc::now` itself does.
#[verifier::external_body]
pub(crate) fn now_timestamp() -> (now: i64)
    ensures
        0 <= now <= MAX_TIMESTAMP,
{
    Utc::now().timestamp()
}

/// The instant `hour:min:sec` (UTC) on the calendar day that holds `secs`,
/// built by `Utc.with_ymd_and_hms` from the year, month and day of `secs`.
/// `chrono` counts days from the epoch without leap seconds, so the result
/// is that day's midnight plus the time of day in seconds.
#[verifier::external_body]
pub(crate) fn utc_day_at(secs: i64, hour: u32, min: u32, sec: u32) -> (at: i64)
    requires
        MIN_TIMESTAMP <= secs <= MAX_TIMESTAMP,
        hour < 24,
        min < 60,
        sec < 60,
    ensures
        at == day_start(secs as int) + hour * 3600 + min * 60 + sec,
{
    let day = DateTime::from_timestamp(secs, 0).unwrap();
    Utc.with_ymd_and_hms(day.year(), day.month(), day.day(), hour, min, sec).unwrap().timestamp()
}

} // verus!

//! The current time, read through `chrono`.

use vstd::prelude::*;

verus! {

/// Seconds since the Unix epoch of `DateTime::<Utc>::MAX_UTC`, the last
/// instant `chrono` represents (31 December 262142, 23:59:59).
pub const MAX_UTC_SECONDS: i64 = 8_210_266_876_799;

/// Seconds since the Unix epoch of `DateTime::<Utc>::MIN_UTC`, the first
/// instant `chrono` represents (1 January of the year -262143, 00:00:00).
pub const MIN_UTC_SECONDS: i64 = -8_334_601_228_800;

/// The current time in UTC: seconds and nanoseconds since the Unix epoch, and
/// the calendar date.
pub struct UtcNow {
    pub unix_seconds: i64,
    pub nanos: u32,
    pub year: i32,
    pub month: u32,
    pub day: u32,
}

/// Calls `chrono::Utc::now()`. Its source builds the time from the system
/// clock's duration since the Unix epoch (panicking when the clock is before
/// it), so the seconds are not negative and the nanoseconds are below one
/// second; a `DateTime<Utc>` lies at most at `MAX_UTC`; `Datelike` documents months 1 to 12 and days 1 to 31. Nothing else
/// is stated: the result depends on the clock.
#[verifier::external_body]
pub(crate) fn utc_now() -> (now: UtcNow)
    ensures
        0 <= now.unix_seconds <= MAX_UTC_SECONDS,
        now.nanos < 1_000_000_000,
        1 <= now.month <= 12,
        1 <= now.day <= 31,
{
    let now = chrono::Utc::now();
    UtcNow {
        unix_seconds: now.timestamp(),
        nanos: now.timestamp_subsec_nanos(),
        year: chrono::Datelike::year(&now),
        month: chrono::Datelike::month(&now),
        day: chrono::Datelike::day(&now),
    }
}

} // verus!

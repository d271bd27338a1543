//! Instants as whole seconds since the Unix epoch: the clock, truncation to
//! the hour, and calendar dates.

use vstd::prelude::*;

verus! {

/// Seconds in an hour.
pub const HOUR_SECS: i64 = 3600;

/// Seconds in a day.
pub const DAY_SECS: i64 = 86400;

/// The number that the proleptic Gregorian calendar gives to 1970-01-01,
/// 0001-01-01 being day 1.
pub const UNIX_EPOCH_DAY: i64 = 719163;

/// The format of a calendar date in a date range: year, month and day.
pub open spec fn date_format() -> Seq<char> {
    "%Y-%m-%d"@
}

/// The start of the hour that holds the instant `t`.
pub open spec fn hour_floor(t: int) -> int {
    t - t % (HOUR_SECS as int)
}

/// Midnight UTC of the day with the number `day`, in seconds since the epoch.
pub open spec fn midnight_of(day: int) -> int {
    (day - UNIX_EPOCH_DAY) * DAY_SECS
}

/// The day number of the date that chrono reads in `text` under `format`, or
/// `None` where chrono rejects the text.
pub uninterp spec fn parsed_day(text: Seq<char>, format: Seq<char>) -> Option<i32>;

/// The instant that a calendar date in a date range stands for: midnight UTC
/// of that date, or `None` where the text is no date.
pub open spec fn date_instant(text: Seq<char>) -> Option<i64> {
    match parsed_day(text, date_format()) {
        Some(day) => Some(midnight_of(day as int) as i64),
        None => None,
    }
}

/// `chrono::Utc::now`, as whole seconds since the Unix epoch.
///
/// chrono measures the system clock from the epoch on, so the reading is
/// never negative; with a system clock set before 1970 chrono panics and
/// nothing is returned. Nothing else is claimed: two readings may differ.
#[verifier::external_body]
fn current_time() -> (secs: i64)
    ensures
        secs >= 0,
{
    chrono::Utc::now().timestamp()
}

/// `chrono::NaiveDate::parse_from_str`, the date handed back as its day
/// number (`Datelike::num_days_from_ce`).
///
/// The contract claims only that the outcome is a function of the two texts,
/// which it names `parsed_day`; what chrono accepts is not stated.
#[verifier::external_body]
fn parse_day(text: &str, format: &str) -> (day: Option<i32>)
    ensures
        day == parsed_day(text@, format@),
{
    match chrono::NaiveDate::parse_from_str(text, format) {
        Ok(date) => Some(chrono::Datelike::num_days_from_ce(&date)),
        Err(_) => None,
    }
}

/// The start of the hour that holds the instant `t`, which may lie before
/// the least instant.
pub fn hour_start(t: i64) -> (hour: i128)
    ensures
        hour == hour_floor(t as int),
        hour <= t < hour + HOUR_SECS,
        hour % (HOUR_SECS as i128) == 0,
{
    let wide: i128 = t as i128;
    let rem: i128 = wide % (HOUR_SECS as i128);
    if rem < 0 {
        wide - rem - HOUR_SECS as i128
    } else {
        wide - rem
    }
}

/// Truncates an instant to the start of its hour, which must be an instant
/// itself.
pub fn truncate_to_hour(t: i64) -> (hour: i64)
    requires
        hour_floor(t as int) >= i64::MIN,
    ensures
        hour == hour_floor(t as int),
        hour <= t < hour + HOUR_SECS,
        hour % HOUR_SECS == 0,
{
    hour_start(t) as i64
}

/// The current instant, truncated to the start of its hour.
pub fn get_truncated_now() -> (hour: i64)
    ensures
        hour >= 0,
        hour % HOUR_SECS == 0,
{
    let now = current_time();
    truncate_to_hour(now)
}

/// Midnight UTC of the day with the number `day`.
pub fn midnight(day: i32) -> (instant: i64)
    ensures
        instant == midnight_of(day as int),
{
    (day as i64 - UNIX_EPOCH_DAY) * DAY_SECS
}

/// Reads a calendar date written as year, month and day, and gives midnight
/// UTC of that date. `None` where the text is no such date.
pub fn parse_date_to_utc(date: &str) -> (instant: Option<i64>)
    ensures
        instant == date_instant(date@),
{
    match parse_day(date, "%Y-%m-%d") {
        Some(day) => Some(midnight(day)),
        None => None,
    }
}

} // verus!

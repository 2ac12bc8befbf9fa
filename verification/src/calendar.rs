//! UTC calendar dates and times, read and written through `chrono`.
//!
//! A timestamp counts the seconds since 1970-01-01 00:00:00 UTC; a date is
//! counted in days of the proleptic Gregorian calendar with 0001-01-01 as day
//! one, so the timestamp of a date and a time of day is
//! `(days - 719_163) * 86_400 + seconds`.
use vstd::prelude::*;

verus! {

/// Day number (counted from 0001-01-01 as day one) of 1970-01-01.
pub const UNIX_EPOCH_DAY: i64 = 719_163;

/// Seconds in a day.
pub const SECONDS_PER_DAY: i64 = 86_400;

/// The timestamp of the start of a second of a day.
pub open spec fn timestamp_of(days: int, seconds: int) -> int {
    (days - UNIX_EPOCH_DAY) * SECONDS_PER_DAY + seconds
}

/// The day number of the date that `chrono::NaiveDate::parse_from_str`
/// reads from `text` with the strftime `format`, if it reads one.
pub uninterp spec fn parsed_date_days(text: Seq<char>, format: Seq<char>) -> Option<i32>;

/// The seconds since midnight of the time that
/// `chrono::NaiveTime::parse_from_str` reads from `text` with `format`.
pub uninterp spec fn parsed_time_seconds(text: Seq<char>, format: Seq<char>) -> Option<u32>;

/// The day number and the seconds since midnight of the date and time that
/// `chrono::NaiveDateTime::parse_from_str` reads from `text` with `format`.
pub uninterp spec fn parsed_datetime_parts(text: Seq<char>, format: Seq<char>) -> Option<
    (i32, u32),
>;

/// The text that `chrono` writes, with the strftime `format`, for the UTC
/// instant `timestamp` seconds after the epoch; `None` when
/// `DateTime::from_timestamp` finds the timestamp out of range.
pub uninterp spec fn formatted_timestamp(timestamp: i64, format: Seq<char>) -> Option<Seq<char>>;

/// The formats this library writes timestamps with.
pub open spec fn known_output_format(format: Seq<char>) -> bool {
    ||| format == "%Y%m%d"@
    ||| format == "%H%M%S"@
    ||| format == "%Y-%m-%d %H:%M:%S UTC"@
    ||| format == "%Y-%m-%d"@
}

/// Calls `chrono::NaiveDate::parse_from_str` and converts the date to its day
/// number (`Datelike::num_days_from_ce`). The contract only names the result.
#[verifier::external_body]
pub(crate) fn parse_date_days(text: &str, format: &str) -> (r: Option<i32>)
    ensures
        r == parsed_date_days(text@, format@),
{
    match chrono::NaiveDate::parse_from_str(text, format) {
        Ok(date) => Some(chrono::Datelike::num_days_from_ce(&date)),
        Err(_) => None,
    }
}

/// Calls `chrono::NaiveTime::parse_from_str` and converts the time to its
/// seconds since midnight (`Timelike::num_seconds_from_midnight`). The
/// contract only names the result.
#[verifier::external_body]
pub(crate) fn parse_time_seconds(text: &str, format: &str) -> (r: Option<u32>)
    ensures
        r == parsed_time_seconds(text@, format@),
{
    match chrono::NaiveTime::parse_from_str(text, format) {
        Ok(time) => Some(chrono::Timelike::num_seconds_from_midnight(&time)),
        Err(_) => None,
    }
}

/// Calls `chrono::NaiveDateTime::parse_from_str` and converts the result to
/// its day number and seconds since midnight. The contract only names the
/// result.
#[verifier::external_body]
pub(crate) fn parse_datetime_parts(text: &str, format: &str) -> (r: Option<(i32, u32)>)
    ensures
        r == parsed_datetime_parts(text@, format@),
{
    match chrono::NaiveDateTime::parse_from_str(text, format) {
        Ok(datetime) => Some(
            (
                chrono::Datelike::num_days_from_ce(&datetime.date()),
                chrono::Timelike::num_seconds_from_midnight(&datetime.time()),
            ),
        ),
        Err(_) => None,
    }
}

/// The first second of the year 0, the first year written with four
/// digits: 0000-01-01 00:00:00 UTC.
pub open spec fn first_four_digit_year_second() -> int {
    -62_167_219_200
}

/// The last second whose year has four digits: 9999-12-31 23:59:59 UTC.
pub open spec fn last_four_digit_year_second() -> int {
    253_402_300_799
}

/// The day number of the UTC date of a timestamp.
pub open spec fn day_number(timestamp: int) -> int {
    timestamp / SECONDS_PER_DAY as int + UNIX_EPOCH_DAY as int
}

/// The seconds since midnight (UTC) of a timestamp.
pub open spec fn second_of_day(timestamp: int) -> int {
    timestamp % SECONDS_PER_DAY as int
}

/// Calls `chrono::DateTime::from_timestamp(timestamp, 0)` and writes the
/// instant with `DateTime::format`. Writing panics on a malformed format, so
/// only the formats of this library are admitted. The contract names the
/// result; for instants from the start of year 0 to the end of year 9999 it
/// also states what chrono's source shows of the two compact formats:
/// `%Y%m%d` writes the four-digit year and the zero-padded month and day,
/// `%H%M%S` the zero-padded hour, minute and second, and `parse_from_str`
/// with the same format reads those digits back into the same date and time
/// of day.
#[verifier::external_body]
pub(crate) fn format_timestamp(timestamp: i64, format: &str) -> (r: Option<String>)
    requires
        known_output_format(format@),
    ensures
        match r {
            Some(text) => formatted_timestamp(timestamp, format@) == Some(text@),
            None => formatted_timestamp(timestamp, format@) is None,
        },
        format@ == "%Y%m%d"@ && first_four_digit_year_second() <= timestamp
            <= last_four_digit_year_second() ==> (r is Some
            && r->0@.len() == 8 && crate::text::all_digits(r->0@) && parsed_date_days(r->0@, "%Y%m%d"@)
            == Some(day_number(timestamp as int) as i32)),
        format@ == "%H%M%S"@ && first_four_digit_year_second() <= timestamp
            <= last_four_digit_year_second() ==> (r is Some
            && r->0@.len() == 6 && crate::text::all_digits(r->0@) && parsed_time_seconds(r->0@, "%H%M%S"@)
            == Some(second_of_day(timestamp as int) as u32)),
{
    match chrono::DateTime::from_timestamp(timestamp, 0) {
        Some(datetime) => Some(datetime.format(format).to_string()),
        None => None,
    }
}

/// The timestamp of a day number and a number of seconds into that day.
pub fn timestamp_from_parts(days: i32, seconds: u32) -> (t: i64)
    ensures
        t == timestamp_of(days as int, seconds as int),
{
    (days as i64 - UNIX_EPOCH_DAY) * SECONDS_PER_DAY + seconds as i64
}

} // verus!

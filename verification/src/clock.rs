//! The wall clock and the calendar, as far as the store needs them.

use crate::models::{opt_chars, Timestamp};
use chrono::{NaiveDate, Utc};
use vstd::prelude::*;

verus! {

/// One reading of the wall clock: the instant, and the calendar date that
/// the instant has in UTC, counted in days since 1 January 1970.
#[derive(Debug, Clone, Copy, PartialEq, Eq, Structural)]
pub struct Reading {
    pub instant: Timestamp,
    pub day: i32,
}

/// Reads the wall clock with chrono's `Utc::now` and hands back the instant
/// as seconds and nanoseconds since the Unix epoch, together with its UTC
/// date as chrono's `date_naive` and `to_epoch_days` give it. Nothing is
/// claimed of what the clock shows: two readings may differ in either
/// direction. Chrono stops the program where the system clock stands before
/// 1970.
#[verifier::external_body]
pub(crate) fn read() -> Reading {
    let instant = Utc::now();
    Reading {
        instant: Timestamp { secs: instant.timestamp(), nanos: instant.timestamp_subsec_nanos() },
        day: instant.date_naive().to_epoch_days(),
    }
}

/// The day that chrono's `NaiveDate::parse_from_str` reads from `text` under
/// `format`, counted in days since 1 January 1970, or `None` where it
/// rejects the text.
pub uninterp spec fn parsed_day(text: Seq<char>, format: Seq<char>) -> Option<i32>;

/// Parses a calendar date with chrono's `NaiveDate::parse_from_str` and
/// converts it to days since 1 January 1970 with `NaiveDate::to_epoch_days`.
/// The parser decides from the two texts alone and reports a text it cannot
/// read as an error, which becomes `None`; what it accepts is known here only
/// by name.
#[verifier::external_body]
pub(crate) fn parse_day(text: &str, format: &str) -> (day: Option<i32>)
    ensures
        day == parsed_day(text@, format@),
{
    match NaiveDate::parse_from_str(text, format) {
        Ok(date) => Some(date.to_epoch_days()),
        Err(_) => None,
    }
}

/// The text that chrono writes for the day that lies `day` days from
/// 1 January 1970, or `None` where chrono has no such date.
pub uninterp spec fn day_text(day: i32) -> Option<Seq<char>>;

/// Turns a count of days since 1 January 1970 into a date with chrono's
/// `NaiveDate::from_epoch_days`, which gives `None` for a day outside its
/// calendar, and writes the date as chrono displays it: year, month and day
/// with hyphens between them. The text depends on the day alone and is known
/// here only by name.
#[verifier::external_body]
pub(crate) fn format_day(day: i32) -> (text: Option<String>)
    ensures
        opt_chars(text) == day_text(day),
{
    match NaiveDate::from_epoch_days(day) {
        Some(date) => Some(date.to_string()),
        None => None,
    }
}

} // verus!

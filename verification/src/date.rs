//! Calendar dates and times of day as the records carry them. Reading them
//! from text is left to `chrono`; this module holds the plain values that
//! come back.

use chrono::{Datelike, Timelike};
use vstd::prelude::*;

verus! {

/// A calendar date.
#[derive(Clone, Copy, Debug, PartialEq, Eq, Structural)]
pub struct Date {
    pub year: i32,
    pub month: u32,
    pub day: u32,
}

impl Date {
    /// The month and the day are within the calendar's ranges.
    pub open spec fn wf(self) -> bool {
        1 <= self.month <= 12 && 1 <= self.day <= 31
    }
}

/// A time of day, to the minute.
#[derive(Clone, Copy, Debug, PartialEq, Eq, Structural)]
pub struct Time {
    pub hour: u32,
    pub minute: u32,
}

impl Time {
    /// The hour and the minute are within the clock's ranges.
    pub open spec fn wf(self) -> bool {
        self.hour <= 23 && self.minute <= 59
    }
}

/// The date that `chrono::NaiveDate::parse_from_str` reads from `text`
/// under the format `format`, or `None` where it reports an error.
pub uninterp spec fn naive_date_from_str(text: Seq<char>, format: Seq<char>) -> Option<Date>;

/// The time that `chrono::NaiveTime::parse_from_str` reads from `text`
/// under the format `format`, or `None` where it reports an error.
pub uninterp spec fn naive_time_from_str(text: Seq<char>, format: Seq<char>) -> Option<Time>;

/// Calls `chrono::NaiveDate::parse_from_str` and hands back the year, month
/// and day of the date it returns. Trusted, for the format of two digits
/// each of year, month and day: the result is a function of the two texts
/// alone, and a `NaiveDate` has its month in 1..=12 and its day in 1..=31.
#[verifier::external_body]
pub(crate) fn parse_date(text: &str, format: &str) -> (r: Option<Date>)
    requires
        format@ == "%y%m%d"@,
    ensures
        r == naive_date_from_str(text@, format@),
        r matches Some(d) ==> d.wf(),
{
    match chrono::NaiveDate::parse_from_str(text, format) {
        Ok(d) => Some(Date { year: d.year(), month: d.month(), day: d.day() }),
        Err(_) => None,
    }
}

/// Calls `chrono::NaiveTime::parse_from_str` and hands back the hour and
/// minute of the time it returns. Trusted, for the format of two digits
/// each of hour and minute: the result is a function of the two texts alone,
/// and a `NaiveTime` has its hour in 0..=23 and its minute in 0..=59.
#[verifier::external_body]
pub(crate) fn parse_time(text: &str, format: &str) -> (r: Option<Time>)
    requires
        format@ == "%H%M"@,
    ensures
        r == naive_time_from_str(text@, format@),
        r matches Some(t) ==> t.wf(),
{
    match chrono::NaiveTime::parse_from_str(text, format) {
        Ok(t) => Some(Time { hour: t.hour(), minute: t.minute() }),
        Err(_) => None,
    }
}

} // verus!

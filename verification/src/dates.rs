//! Calendar dates and times, and the date arithmetic and parsing done by
//! `chrono`.
use vstd::prelude::*;
use chrono::{Datelike, Timelike};

verus! {

/// A day of the proleptic Gregorian calendar.
#[derive(Debug, Clone, Copy, PartialEq, Eq, Structural)]
pub struct SimpleDate {
    pub year: i32,
    pub month: u32,
    pub day: u32,
}

/// A day and a time of day, to the second.
#[derive(Debug, Clone, Copy, PartialEq, Eq, Structural)]
pub struct SimpleDateTime {
    pub date: SimpleDate,
    pub hour: u32,
    pub minute: u32,
    pub second: u32,
}

/// Earliest year a `chrono` date can hold.
pub const MIN_YEAR: i32 = -262143;

/// Latest year a `chrono` date can hold.
pub const MAX_YEAR: i32 = 262142;

pub open spec fn is_leap(y: int) -> bool {
    y % 4 == 0 && (y % 100 != 0 || y % 400 == 0)
}

pub open spec fn days_in_month(y: int, m: int) -> int {
    if m == 2 {
        if is_leap(y) { 29 } else { 28 }
    } else if m == 4 || m == 6 || m == 9 || m == 11 {
        30
    } else {
        31
    }
}

/// The date exists and is within `chrono`'s range.
pub open spec fn valid_date(y: int, m: int, d: int) -> bool {
    &&& MIN_YEAR <= y <= MAX_YEAR
    &&& 1 <= m <= 12
    &&& 1 <= d <= days_in_month(y, m)
}

/// Calls `NaiveDate::from_ymd_opt`, which gives a date exactly when the
/// day exists in that month of that year and the year is in range.
#[verifier::external_body]
pub fn from_ymd(year: i32, month: u32, day: u32) -> (r: Option<SimpleDate>)
    ensures
        r == (if valid_date(year as int, month as int, day as int) {
            Some(SimpleDate { year, month, day })
        } else {
            None
        }),
{
    chrono::NaiveDate::from_ymd_opt(year, month, day).map(
        |d| SimpleDate { year: d.year(), month: d.month(), day: d.day() },
    )
}

/// The same day of the next month, or the last day of that month when it
/// is shorter.
pub open spec fn next_month(d: SimpleDate) -> (int, int, int) {
    let y = if d.month == 12 { d.year + 1 } else { d.year as int };
    let m = if d.month == 12 { 1 } else { d.month + 1 };
    let day = if d.day > days_in_month(y, m) { days_in_month(y, m) } else { d.day as int };
    (y, m, day)
}

/// Calls `NaiveDate::checked_add_months` with one month: per its
/// documentation the day is clamped to the last day of the resulting month,
/// and there is no result when the date leaves the range.
#[verifier::external_body]
pub fn add_one_month(d: SimpleDate) -> (r: Option<SimpleDate>)
    requires
        valid_date(d.year as int, d.month as int, d.day as int),
    ensures
        r == (if next_month(d).0 <= MAX_YEAR {
            Some(
                SimpleDate {
                    year: next_month(d).0 as i32,
                    month: next_month(d).1 as u32,
                    day: next_month(d).2 as u32,
                },
            )
        } else {
            None
        }),
{
    chrono::NaiveDate::from_ymd_opt(d.year, d.month, d.day)
        .and_then(|n| n.checked_add_months(chrono::Months::new(1)))
        .map(|n| SimpleDate { year: n.year(), month: n.month(), day: n.day() })
}

/// Midnight of a day.
pub open spec fn midnight(d: SimpleDate) -> SimpleDateTime {
    SimpleDateTime { date: d, hour: 0, minute: 0, second: 0 }
}

/// The date and time an RFC 2822 timestamp writes, in the timestamp's own
/// offset (its `+hhmm` zone, not the machine's), as
/// `DateTime::parse_from_rfc2822` followed by `naive_local` gives it; a
/// function of the text alone, since the parsed value carries a fixed offset.
pub uninterp spec fn rfc2822_local(s: Seq<char>) -> Option<SimpleDateTime>;

/// The UTC date and time of an RFC 2822 timestamp, as
/// `DateTime::parse_from_rfc2822` followed by `naive_utc` gives it.
pub uninterp spec fn rfc2822_utc(s: Seq<char>) -> Option<SimpleDateTime>;

/// The date read from `dd-mm-yyyy` text by `NaiveDate::parse_from_str`
/// with the format `%d-%m-%Y`.
pub uninterp spec fn dashed_dmy(s: Seq<char>) -> Option<SimpleDate>;

/// Calls `DateTime::parse_from_rfc2822` and keeps the date and time in the
/// timestamp's own offset (`naive_local` of a `DateTime<FixedOffset>`,
/// whole seconds). What the parser accepts is not stated
/// here; the result is the named function `rfc2822_local`.
#[verifier::external_body]
pub fn parse_rfc2822_local(s: &str) -> (r: Option<SimpleDateTime>)
    ensures
        r == rfc2822_local(s@),
{
    let n = chrono::DateTime::parse_from_rfc2822(s).ok()?.naive_local();
    let date = SimpleDate { year: n.year(), month: n.month(), day: n.day() };
    Some(SimpleDateTime { date, hour: n.hour(), minute: n.minute(), second: n.second() })
}

/// Calls `DateTime::parse_from_rfc2822` and keeps the UTC date and time
/// (`naive_utc`, whole seconds). What the parser accepts is not stated
/// here; the result is the named function `rfc2822_utc`.
#[verifier::external_body]
pub fn parse_rfc2822_utc(s: &str) -> (r: Option<SimpleDateTime>)
    ensures
        r == rfc2822_utc(s@),
{
    let n = chrono::DateTime::parse_from_rfc2822(s).ok()?.naive_utc();
    let date = SimpleDate { year: n.year(), month: n.month(), day: n.day() };
    Some(SimpleDateTime { date, hour: n.hour(), minute: n.minute(), second: n.second() })
}

/// Calls `NaiveDate::parse_from_str` with `%d-%m-%Y`. What the parser
/// accepts is not stated here; the result is the named function
/// `dashed_dmy`.
#[verifier::external_body]
pub fn parse_dashed_dmy(s: &str) -> (r: Option<SimpleDate>)
    ensures
        r == dashed_dmy(s@),
        r matches Some(d) ==> valid_date(d.year as int, d.month as int, d.day as int),
{
    chrono::NaiveDate::parse_from_str(s, "%d-%m-%Y").ok().map(
        |d| SimpleDate { year: d.year(), month: d.month(), day: d.day() },
    )
}


/// A number written with at least `width` digits, zeros in front.
pub open spec fn padded(n: nat, width: nat) -> Seq<char>
    decreases width,
{
    if width <= crate::num::decimal(n).len() {
        crate::num::decimal(n)
    } else {
        seq!['0'] + padded(n, (width - 1) as nat)
    }
}

/// A day written `dd-mm-yyyy` by `chrono` (`%d-%m-%Y`).
pub uninterp spec fn dmy_text(d: SimpleDate) -> Seq<char>;

/// Calls `NaiveDate::format` with `%d-%m-%Y`: day and month on two digits,
/// and for the years 0 to 9999 the year on four, zeros in front. Years
/// outside that range are written with a sign; that form is not stated
/// here beyond the name `dmy_text`.
#[verifier::external_body]
pub fn format_dmy(d: SimpleDate) -> (r: String)
    requires
        valid_date(d.year as int, d.month as int, d.day as int),
    ensures
        r@ == dmy_text(d),
        0 <= d.year <= 9999 ==> r@ == padded(d.day as nat, 2) + seq!['-'] + padded(d.month as nat, 2)
            + seq!['-'] + padded(d.year as nat, 4),
{
    let n = chrono::NaiveDate::from_ymd_opt(d.year, d.month, d.day);
    n.map(|n| n.format("%d-%m-%Y").to_string()).unwrap_or_default()
}

} // verus!

//! Dates and times of day, from chrono. The library carries chrono's values
//! through opaquely; what each chrono call returns is believed as the
//! trusted items below state it.
use chrono::{Datelike, NaiveDate, NaiveDateTime, NaiveTime, Timelike};
use vstd::prelude::*;

verus! {

/// chrono's `NaiveDate`, carried through opaquely.
#[verifier::external_type_specification]
#[verifier::external_body]
pub struct ExNaiveDate(NaiveDate);

/// chrono's `NaiveTime`, carried through opaquely.
#[verifier::external_type_specification]
#[verifier::external_body]
pub struct ExNaiveTime(NaiveTime);

/// chrono's `NaiveDateTime`, carried through opaquely.
#[verifier::external_type_specification]
#[verifier::external_body]
pub struct ExNaiveDateTime(NaiveDateTime);

/// The smallest year that a chrono `NaiveDate` can hold.
pub open spec fn min_year() -> int {
    -262143
}

/// The largest year that a chrono `NaiveDate` can hold.
pub open spec fn max_year() -> int {
    262142
}

/// Leap years of the proleptic Gregorian calendar (year 0 is 1 BCE).
pub open spec fn is_leap_year(y: int) -> bool {
    y % 4 == 0 && (y % 100 != 0 || y % 400 == 0)
}

/// The number of days of month `m` (1 to 12) of year `y`.
pub open spec fn days_in_month(y: int, m: int) -> int {
    if m == 2 {
        if is_leap_year(y) {
            29
        } else {
            28
        }
    } else if m == 4 || m == 6 || m == 9 || m == 11 {
        30
    } else {
        31
    }
}

/// `y-m-d` is a calendar day that a `NaiveDate` can hold.
pub open spec fn is_valid_date(y: int, m: int, d: int) -> bool {
    &&& min_year() <= y <= max_year()
    &&& 1 <= m <= 12
    &&& 1 <= d <= days_in_month(y, m)
}

/// What `NaiveDate::from_ymd_opt(y, m, d)` returns.
pub uninterp spec fn date_from_ymd(y: i32, m: u32, d: u32) -> Option<NaiveDate>;

/// What `d.iso_week().week()` returns: the ISO 8601 week number of `d`.
pub uninterp spec fn iso_week_number(d: NaiveDate) -> u32;

/// What `d.weekday().number_from_monday()` returns: Monday is 1, Sunday 7.
pub uninterp spec fn weekday_from_monday(d: NaiveDate) -> u32;

/// What `d.to_string()` returns: the text of the date as chrono displays it.
pub uninterp spec fn date_text(d: NaiveDate) -> Seq<char>;

/// What `Timelike::hour(t)` returns.
pub uninterp spec fn hour_of(t: NaiveTime) -> u32;

/// What `Timelike::minute(t)` returns.
pub uninterp spec fn minute_of(t: NaiveTime) -> u32;

/// What `Timelike::second(t)` returns.
pub uninterp spec fn second_of(t: NaiveTime) -> u32;

/// What `Timelike::nanosecond(t)` returns.
pub uninterp spec fn nanosecond_of(t: NaiveTime) -> u32;

/// What `NaiveDateTime::time(dt)` returns.
pub uninterp spec fn time_of(dt: NaiveDateTime) -> NaiveTime;

/// What `NaiveDateTime::date(dt)` returns.
pub uninterp spec fn date_of(dt: NaiveDateTime) -> NaiveDate;

/// `NaiveDate::from_ymd_opt(y, m, d)`. chrono documents `None` exactly for a
/// day that does not exist, an invalid month or day, or a year out of range;
/// its source sets the range to the years of `min_year()` to `max_year()`.
#[verifier::external_body]
pub(crate) fn ymd(y: i32, m: u32, d: u32) -> (r: Option<NaiveDate>)
    ensures
        r == date_from_ymd(y, m, d),
        r is Some <==> is_valid_date(y as int, m as int, d as int),
{
    NaiveDate::from_ymd_opt(y, m, d)
}

/// `d.iso_week().week()`: chrono documents the week number as ranging from
/// 1 to 53.
#[verifier::external_body]
pub(crate) fn iso_week(d: NaiveDate) -> (w: u32)
    ensures
        w == iso_week_number(d),
        1 <= w <= 53,
{
    d.iso_week().week()
}

/// `d.weekday().number_from_monday()`: chrono documents Monday as 1 through
/// Sunday as 7.
#[verifier::external_body]
pub(crate) fn weekday_number(d: NaiveDate) -> (n: u32)
    ensures
        n == weekday_from_monday(d),
        1 <= n <= 7,
{
    d.weekday().number_from_monday()
}

/// `d.to_string()`: chrono's display of a date. Only that it is a function
/// of `d` is stated.
#[verifier::external_body]
pub(crate) fn date_string(d: NaiveDate) -> (s: String)
    ensures
        s@ == date_text(d),
{
    d.to_string()
}

/// `Timelike::hour(t)`: chrono documents the hour as 0 to 23.
#[verifier::external_body]
pub(crate) fn hour(t: NaiveTime) -> (h: u32)
    ensures
        h == hour_of(t),
        h < 24,
{
    t.hour()
}

/// `Timelike::minute(t)`: chrono documents the minute as 0 to 59.
#[verifier::external_body]
pub(crate) fn minute(t: NaiveTime) -> (m: u32)
    ensures
        m == minute_of(t),
        m < 60,
{
    t.minute()
}

/// `Timelike::second(t)`: chrono documents the second as 0 to 59.
#[verifier::external_body]
pub(crate) fn second(t: NaiveTime) -> (s: u32)
    ensures
        s == second_of(t),
        s < 60,
{
    t.second()
}

/// `Timelike::nanosecond(t)`: chrono documents the nanoseconds as below
/// 2,000,000,000 (from 1,000,000,000 up during a leap second).
#[verifier::external_body]
pub(crate) fn nanosecond(t: NaiveTime) -> (n: u32)
    ensures
        n == nanosecond_of(t),
        n < 2_000_000_000,
{
    t.nanosecond()
}

/// `NaiveDateTime::time(dt)`.
#[verifier::external_body]
pub(crate) fn time_part(dt: NaiveDateTime) -> (t: NaiveTime)
    ensures
        t == time_of(dt),
{
    dt.time()
}

/// `NaiveDateTime::date(dt)`.
#[verifier::external_body]
pub(crate) fn date_part(dt: NaiveDateTime) -> (d: NaiveDate)
    ensures
        d == date_of(dt),
{
    dt.date()
}

} // verus!

//! Gregorian date arithmetic: leap years, month lengths and a plain date type.

use chrono::Datelike;
use vstd::prelude::*;

verus! {

/// The earliest year that a date of this library may carry.
pub const MIN_YEAR: i32 = -262143;

/// The latest year that a date of this library may carry.
pub const MAX_YEAR: i32 = 262142;

/// The Gregorian leap-year rule.
pub open spec fn leap(year: int) -> bool {
    year % 4 == 0 && (year % 100 != 0 || year % 400 == 0)
}

/// Number of days in `month` (1 to 12) of `year`.
pub open spec fn month_length(year: int, month: int) -> int {
    if month == 2 {
        if leap(year) {
            29
        } else {
            28
        }
    } else if month == 4 || month == 6 || month == 9 || month == 11 {
        30
    } else {
        31
    }
}

/// Whether `(year, month, day)` names a day of the proleptic Gregorian
/// calendar within the years this library supports.
pub open spec fn valid_date(year: int, month: int, day: int) -> bool {
    &&& MIN_YEAR <= year <= MAX_YEAR
    &&& 1 <= month <= 12
    &&& 1 <= day <= month_length(year, month)
}

/// Returns true if `year` is a leap year.
pub fn is_leap_year(year: i32) -> (r: bool)
    ensures
        r == leap(year as int),
{
    (year % 4) == 0 && ((year % 100) != 0 || (year % 400) == 0)
}

/// A calendar date, held as plain numbers.
#[derive(Clone, Copy, Debug, PartialEq, Eq, Structural)]
pub struct CalDate {
    pub year: i32,
    pub month: u32,
    pub day: u32,
}

impl CalDate {
    /// The date names a real day in the supported range of years.
    pub open spec fn wf(&self) -> bool {
        valid_date(self.year as int, self.month as int, self.day as int)
    }

    /// Builds the date `year-month-day`, or `None` where no such day exists.
    pub fn new(year: i32, month: u32, day: u32) -> (r: Option<CalDate>)
        ensures
            r.is_some() <==> valid_date(year as int, month as int, day as int),
            r matches Some(d) ==> d.wf() && d.year == year && d.month == month && d.day == day,
    {
        if year < MIN_YEAR || year > MAX_YEAR || month < 1 || month > 12 || day < 1 {
            return None;
        }
        let d = CalDate { year, month, day: 1 };
        if day > days_in_month(d) {
            None
        } else {
            Some(CalDate { year, month, day })
        }
    }

    /// The first day of the same month.
    pub fn first_of_month(&self) -> (r: CalDate)
        requires
            self.wf(),
        ensures
            r.wf(),
            r.year == self.year && r.month == self.month && r.day == 1,
    {
        CalDate { year: self.year, month: self.month, day: 1 }
    }
}

/// Returns the number of days in the month of `date`.
pub fn days_in_month(date: CalDate) -> (r: u32)
    requires
        1 <= date.month <= 12,
    ensures
        r == month_length(date.year as int, date.month as int),
        28 <= r <= 31,
{
    match date.month {
        1 | 3 | 5 | 7 | 8 | 10 | 12 => 31,
        4 | 6 | 9 | 11 => 30,
        _ => {
            if is_leap_year(date.year) {
                29
            } else {
                28
            }
        },
    }
}

/// The day of the week of a date, counted from Sunday (0) to Saturday (6).
pub uninterp spec fn weekday_from_sunday(year: int, month: int, day: int) -> int;

/// Relies on chrono's `NaiveDate::from_ymd_opt`, which yields a date exactly
/// for valid Gregorian days in its year range, and on `Weekday::num_days_from_sunday`,
/// which numbers the weekday from Sunday = 0 to Saturday = 6.
#[verifier::external_body]
fn chrono_weekday(year: i32, month: u32, day: u32) -> (r: Option<u32>)
    ensures
        r.is_some() <==> valid_date(year as int, month as int, day as int),
        r matches Some(w) ==> w < 7 && w as int == weekday_from_sunday(
            year as int,
            month as int,
            day as int,
        ),
{
    match chrono::NaiveDate::from_ymd_opt(year, month, day) {
        Some(d) => Some(d.weekday().num_days_from_sunday()),
        None => None,
    }
}

/// The day of the week of `date`, from Sunday (0) to Saturday (6).
pub fn weekday_of(date: CalDate) -> (r: u32)
    requires
        date.wf(),
    ensures
        r < 7,
        r as int == weekday_from_sunday(date.year as int, date.month as int, date.day as int),
{
    match chrono_weekday(date.year, date.month, date.day) {
        Some(w) => w,
        None => 0,
    }
}

/// The title of a month: its full English name, a space and the year.
pub uninterp spec fn month_title(year: int, month: int) -> Seq<char>;

/// Relies on chrono's `NaiveDate::from_ymd_opt` (a date exactly for valid
/// days in its year range) and on formatting that date with `"%B %Y"`.
#[verifier::external_body]
fn chrono_month_title(year: i32, month: u32) -> (r: Option<String>)
    ensures
        r.is_some() <==> valid_date(year as int, month as int, 1),
        r matches Some(t) ==> t@ == month_title(year as int, month as int),
{
    match chrono::NaiveDate::from_ymd_opt(year, month, 1) {
        Some(d) => Some(d.format("%B %Y").to_string()),
        None => None,
    }
}

/// The title of the month of `date`, such as `"November 2024"`.
pub fn title_of(date: CalDate) -> (r: String)
    requires
        date.wf(),
    ensures
        r@ == month_title(date.year as int, date.month as int),
{
    match chrono_month_title(date.year, date.month) {
        Some(t) => t,
        None => String::new(),
    }
}

} // verus!

//! Calendar dates of the proleptic Gregorian calendar.

use crate::text::{decimal_digits, digit_char};
use vstd::prelude::*;

verus! {

/// The earliest year a [`Date`] can hold.
pub const MIN_YEAR: i32 = -262143;

/// The latest year a [`Date`] can hold.
pub const MAX_YEAR: i32 = 262142;

/// Whether the year has a 29th of February.
pub open spec fn is_leap_year(year: int) -> bool {
    year % 4 == 0 && (year % 100 != 0 || year % 400 == 0)
}

/// The number of days of the month in the given year.
pub open spec fn days_in_month(year: int, month: int) -> int {
    if month == 2 {
        if is_leap_year(year) {
            29
        } else {
            28
        }
    } else if month == 4 || month == 6 || month == 9 || month == 11 {
        30
    } else {
        31
    }
}

/// Whether the day exists in the calendar and its year is representable.
pub open spec fn is_calendar_date(year: int, month: int, day: int) -> bool {
    &&& MIN_YEAR <= year <= MAX_YEAR
    &&& 1 <= month <= 12
    &&& 1 <= day <= days_in_month(year, month)
}

/// A number below one hundred as two digits.
pub open spec fn two_digits(n: int) -> Seq<char> {
    seq![digit_char(n / 10), digit_char(n % 10)]
}

/// The year as ISO 8601 writes it: four digits from 0 to 9999, otherwise
/// an explicit sign followed by at least four digits.
pub open spec fn year_text(year: int) -> Seq<char> {
    if 0 <= year <= 9999 {
        two_digits(year / 100) + two_digits(year % 100)
    } else if year > 9999 {
        seq!['+'] + decimal_digits(year as nat)
    } else if year >= -9999 {
        seq!['-'] + two_digits((-year) / 100) + two_digits((-year) % 100)
    } else {
        seq!['-'] + decimal_digits((-year) as nat)
    }
}

/// The date as `YYYY-MM-DD`.
pub open spec fn iso_date_text(year: int, month: int, day: int) -> Seq<char> {
    year_text(year) + seq!['-'] + two_digits(month) + seq!['-'] + two_digits(day)
}

/// Mathematical model of a [`Date`].
pub struct DateView {
    pub year: int,
    pub month: int,
    pub day: int,
}

impl DateView {
    /// Whether the day exists in the calendar.
    pub open spec fn is_valid(self) -> bool {
        is_calendar_date(self.year, self.month, self.day)
    }

    /// Whether `self` falls strictly later in the calendar than `other`.
    pub open spec fn is_after(self, other: DateView) -> bool {
        ||| self.year > other.year
        ||| self.year == other.year && self.month > other.month
        ||| self.year == other.year && self.month == other.month && self.day > other.day
    }

    /// The date as `YYYY-MM-DD`.
    pub open spec fn text(self) -> Seq<char> {
        iso_date_text(self.year, self.month, self.day)
    }
}

/// A day that exists in the calendar.
#[derive(Clone, Copy, Debug)]
pub struct Date {
    year: i32,
    month: u32,
    day: u32,
}

impl View for Date {
    type V = DateView;

    closed spec fn view(&self) -> DateView {
        DateView { year: self.year as int, month: self.month as int, day: self.day as int }
    }
}

impl DeepView for Date {
    type V = DateView;

    open spec fn deep_view(&self) -> DateView {
        self@
    }
}

/// Asks `chrono::NaiveDate::from_ymd_opt` for the day and renders it with
/// the date's `Display`. The contract claims that the day is found exactly
/// when it exists in the proleptic Gregorian calendar with a year between
/// [`MIN_YEAR`] and [`MAX_YEAR`], and that the rendering is `YYYY-MM-DD`
/// with the year written as [`year_text`] describes.
#[verifier::external_body]
fn naive_date_text(year: i32, month: u32, day: u32) -> (text: Option<String>)
    ensures
        text.deep_view() == if is_calendar_date(year as int, month as int, day as int) {
            Some(iso_date_text(year as int, month as int, day as int))
        } else {
            None
        },
{
    chrono::NaiveDate::from_ymd_opt(year, month, day).map(|date| date.to_string())
}

impl Date {
    #[verifier::type_invariant]
    spec fn exists_in_calendar(self) -> bool {
        is_calendar_date(self.year as int, self.month as int, self.day as int)
    }

    /// The date of the given day, if the day exists.
    pub fn from_ymd(year: i32, month: u32, day: u32) -> (date: Option<Date>)
        ensures
            date is Some <==> is_calendar_date(year as int, month as int, day as int),
            date matches Some(d) ==> d@ == (DateView {
                year: year as int,
                month: month as int,
                day: day as int,
            }),
    {
        match naive_date_text(year, month, day) {
            Some(_) => Some(Date { year, month, day }),
            None => None,
        }
    }

    /// The year; 0 is the year before year 1.
    pub fn year(&self) -> (year: i32)
        ensures
            year == self@.year,
            self@.is_valid(),
    {
        proof {
            use_type_invariant(self);
        }
        self.year
    }

    /// The month, from 1 to 12.
    pub fn month(&self) -> (month: u32)
        ensures
            month == self@.month,
    {
        self.month
    }

    /// The day of the month, from 1.
    pub fn day(&self) -> (day: u32)
        ensures
            day == self@.day,
    {
        self.day
    }

    /// Whether `self` falls strictly later in the calendar than `other`.
    pub fn is_after(&self, other: &Date) -> (after: bool)
        ensures
            after == self@.is_after(other@),
    {
        self.year > other.year || (self.year == other.year && (self.month > other.month || (
        self.month == other.month && self.day > other.day)))
    }

    /// The date as `YYYY-MM-DD`.
    pub fn to_text(&self) -> (text: String)
        ensures
            text@ == self@.text(),
    {
        proof {
            use_type_invariant(self);
        }
        match naive_date_text(self.year, self.month, self.day) {
            Some(text) => text,
            None => vstd::pervasive::unreached(),
        }
    }
}

} // verus!

//! Calendar dates as plain year/month/day values, with the ordering and the
//! "not in the future" rule that the validation logic needs.

use vstd::prelude::*;
use crate::text::{push_char, push_pad2, push_pad4, spec_pad2, spec_pad4};
use chrono::Datelike;

verus! {

/// A calendar date in the proleptic Gregorian calendar.
#[derive(Clone, Copy, Debug, PartialEq, Eq, Structural)]
pub struct Date {
    pub year: u32,
    pub month: u8,
    pub day: u8,
}

/// Whether `year` is a leap year.
pub open spec fn spec_is_leap_year(year: u32) -> bool {
    (year % 4 == 0 && year % 100 != 0) || year % 400 == 0
}

/// The number of days in `month` of `year`; 0 when `month` is no month.
pub open spec fn spec_days_in_month(year: u32, month: u8) -> u8 {
    if month == 1 || month == 3 || month == 5 || month == 7 || month == 8 || month == 10
        || month == 12 {
        31
    } else if month == 4 || month == 6 || month == 9 || month == 11 {
        30
    } else if month == 2 {
        if spec_is_leap_year(year) {
            29
        } else {
            28
        }
    } else {
        0
    }
}

/// Date `a` comes no later than date `b` (lexicographic on year, month, day;
/// this is the calendar order whenever both dates are well formed).
pub open spec fn date_le(a: Date, b: Date) -> bool {
    if a.year != b.year {
        a.year < b.year
    } else if a.month != b.month {
        a.month < b.month
    } else {
        a.day <= b.day
    }
}

/// Date `a` comes strictly earlier than date `b`.
pub open spec fn date_lt(a: Date, b: Date) -> bool {
    date_le(a, b) && a != b
}

impl Date {
    /// A well-formed date: the month exists and the day fits the month.
    pub open spec fn wf(self) -> bool {
        &&& 1 <= self.month <= 12
        &&& 1 <= self.day <= spec_days_in_month(self.year, self.month)
    }

    pub fn is_leap_year(year: u32) -> (r: bool)
        ensures
            r == spec_is_leap_year(year),
    {
        (year % 4 == 0 && year % 100 != 0) || year % 400 == 0
    }

    pub fn days_in_month(year: u32, month: u8) -> (r: u8)
        ensures
            r == spec_days_in_month(year, month),
    {
        match month {
            1 | 3 | 5 | 7 | 8 | 10 | 12 => 31,
            4 | 6 | 9 | 11 => 30,
            2 => if Self::is_leap_year(year) {
                29
            } else {
                28
            },
            _ => 0,
        }
    }

    /// Whether the date is well formed.
    pub fn check_wf(&self) -> (r: bool)
        ensures
            r == self.wf(),
    {
        1 <= self.month && self.month <= 12 && 1 <= self.day && self.day <= Self::days_in_month(
            self.year,
            self.month,
        )
    }

    /// Builds a date after checking that it is well formed.
    pub fn from_ymd(year: u32, month: u8, day: u8) -> (r: Option<Date>)
        ensures
            match r {
                Some(d) => d == (Date { year, month, day }) && d.wf(),
                None => !(Date { year, month, day }).wf(),
            },
    {
        let d = Date { year, month, day };
        if 1 <= month && month <= 12 && 1 <= day && day <= Self::days_in_month(year, month) {
            Some(d)
        } else {
            None
        }
    }

    /// `self` comes no later than `other`.
    pub fn le(&self, other: &Date) -> (r: bool)
        ensures
            r == date_le(*self, *other),
    {
        if self.year != other.year {
            self.year < other.year
        } else if self.month != other.month {
            self.month < other.month
        } else {
            self.day <= other.day
        }
    }

    /// `self` comes strictly earlier than `other`.
    pub fn lt(&self, other: &Date) -> (r: bool)
        ensures
            r == date_lt(*self, *other),
    {
        if self.year != other.year {
            self.year < other.year
        } else if self.month != other.month {
            self.month < other.month
        } else {
            self.day < other.day
        }
    }
}

/// A date rendered as day/month/year, the form the error messages use.
pub open spec fn spec_dmy(d: Date) -> Seq<char> {
    spec_pad2(d.day as int) + seq!['/'] + spec_pad2(d.month as int) + seq!['/'] + spec_pad4(
        d.year as int,
    )
}

impl Date {
    /// Renders the date as `dd/mm/yyyy`.
    pub fn format_dmy(&self) -> (r: String)
        ensures
            r@ == spec_dmy(*self),
    {
        let mut s = String::new();
        push_pad2(&mut s, self.day as u64);
        push_char(&mut s, '/');
        push_pad2(&mut s, self.month as u64);
        push_char(&mut s, '/');
        push_pad4(&mut s, self.year as u64);
        proof {
            assert(s@ =~= spec_dmy(*self));
        }
        s
    }
}

/// Relies on `chrono::Local::now` and `NaiveDate`: the current date in the
/// local time zone, which chrono hands out with a real month and day.
#[verifier::external_body]
pub fn current_date() -> (d: Date)
    ensures
        d.wf(),
{
    let now = chrono::Local::now().date_naive();
    Date { year: now.year() as u32, month: now.month() as u8, day: now.day() as u8 }
}

} // verus!

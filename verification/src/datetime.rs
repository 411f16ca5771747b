//! Calendar date and time of day, without a time zone.
//!
//! The storage layer keeps such values in its date-time columns; the ledger
//! stamps records with them and derives the end of a lease term from them.

use chrono::{Datelike, Timelike};
use vstd::prelude::*;

verus! {

/// First year a date can lie in.
pub const MIN_YEAR: i32 = -262143;

/// Last year a date can lie in.
pub const MAX_YEAR: i32 = 262142;

/// A point in calendar time as plain numbers.
pub struct Moment {
    pub year: int,
    pub month: int,
    pub day: int,
    pub hour: int,
    pub minute: int,
    pub second: int,
    pub nano: int,
}

/// Leap years of the proleptic Gregorian calendar.
pub open spec fn is_leap_year(year: int) -> bool {
    year % 4 == 0 && (year % 100 != 0 || year % 400 == 0)
}

/// Number of days of a month, for `month` in `1..=12`.
pub open spec fn days_in_month(year: int, month: int) -> int {
    if month == 2 {
        if is_leap_year(year) {
            29
        } else {
            28
        }
    } else if month == 4 || month == 6 || month == 9 || month == 11 {
        30
    } else {
        31
    }
}

impl Moment {
    /// The moment names a day that exists and a time of day on it. A
    /// nanosecond count of a billion or more marks a leap second and is only
    /// in order in the last second of a minute.
    pub open spec fn valid(self) -> bool {
        &&& MIN_YEAR <= self.year <= MAX_YEAR
        &&& 1 <= self.month <= 12
        &&& 1 <= self.day <= days_in_month(self.year, self.month)
        &&& 0 <= self.hour < 24
        &&& 0 <= self.minute < 60
        &&& 0 <= self.second < 60
        &&& 0 <= self.nano < 2_000_000_000
        &&& (self.nano >= 1_000_000_000 ==> self.second == 59)
    }

    /// The same day of the following month at the same time of day, or the
    /// last day of that month where it is shorter; nothing past the last
    /// year.
    pub open spec fn month_after(self) -> Option<Moment> {
        let year = if self.month == 12 {
            self.year + 1
        } else {
            self.year
        };
        let month = if self.month == 12 {
            1
        } else {
            self.month + 1
        };
        let longest = days_in_month(year, month);
        let day = if self.day > longest {
            longest
        } else {
            self.day
        };
        if year > MAX_YEAR {
            None
        } else {
            Some(Moment { year, month, day, ..self })
        }
    }
}

/// A valid calendar date with a time of day.
#[derive(Clone, Copy, Debug, PartialEq, Eq)]
pub struct DateTime {
    year: i32,
    month: u32,
    day: u32,
    hour: u32,
    minute: u32,
    second: u32,
    nano: u32,
}

impl View for DateTime {
    type V = Moment;

    closed spec fn view(&self) -> Moment {
        Moment {
            year: self.year as int,
            month: self.month as int,
            day: self.day as int,
            hour: self.hour as int,
            minute: self.minute as int,
            second: self.second as int,
            nano: self.nano as int,
        }
    }
}

fn leap_year(year: i32) -> (r: bool)
    requires
        MIN_YEAR <= year <= MAX_YEAR,
    ensures
        r == is_leap_year(year as int),
{
    // 262400 is a multiple of 400, so the shift keeps all three remainders.
    let shifted: u32 = (year + 262400) as u32;
    shifted % 4 == 0 && (shifted % 100 != 0 || shifted % 400 == 0)
}

fn month_length(year: i32, month: u32) -> (r: u32)
    requires
        MIN_YEAR <= year <= MAX_YEAR,
        1 <= month <= 12,
    ensures
        r == days_in_month(year as int, month as int),
{
    if month == 2 {
        if leap_year(year) {
            29
        } else {
            28
        }
    } else if month == 4 || month == 6 || month == 9 || month == 11 {
        30
    } else {
        31
    }
}

impl DateTime {
    #[verifier::type_invariant]
    spec fn well_formed(self) -> bool {
        self@.valid()
    }

    /// Builds a date-time from its parts, if they name a moment that exists.
    pub fn new(
        year: i32,
        month: u32,
        day: u32,
        hour: u32,
        minute: u32,
        second: u32,
        nano: u32,
    ) -> (r: Option<DateTime>)
        ensures
            r is Some <==> (Moment {
                year: year as int,
                month: month as int,
                day: day as int,
                hour: hour as int,
                minute: minute as int,
                second: second as int,
                nano: nano as int,
            }).valid(),
            r matches Some(t) ==> t@ == (Moment {
                year: year as int,
                month: month as int,
                day: day as int,
                hour: hour as int,
                minute: minute as int,
                second: second as int,
                nano: nano as int,
            }),
    {
        if year < MIN_YEAR || year > MAX_YEAR || month < 1 || month > 12 || day < 1 {
            return None;
        }
        if day > month_length(year, month) {
            return None;
        }
        if hour >= 24 || minute >= 60 || second >= 60 || nano >= 2_000_000_000 {
            return None;
        }
        if nano >= 1_000_000_000 && second != 59 {
            return None;
        }
        Some(DateTime { year, month, day, hour, minute, second, nano })
    }

    pub fn year(&self) -> (r: i32)
        ensures
            r == self@.year,
    {
        self.year
    }

    pub fn month(&self) -> (r: u32)
        ensures
            r == self@.month,
    {
        self.month
    }

    pub fn day(&self) -> (r: u32)
        ensures
            r == self@.day,
    {
        self.day
    }

    pub fn hour(&self) -> (r: u32)
        ensures
            r == self@.hour,
    {
        self.hour
    }

    pub fn minute(&self) -> (r: u32)
        ensures
            r == self@.minute,
    {
        self.minute
    }

    pub fn second(&self) -> (r: u32)
        ensures
            r == self@.second,
    {
        self.second
    }

    pub fn nano(&self) -> (r: u32)
        ensures
            r == self@.nano,
    {
        self.nano
    }

    /// The moment one calendar month later, see [`Moment::month_after`].
    pub fn month_later(&self) -> (r: Option<DateTime>)
        ensures
            r is Some <==> self@.month_after() is Some,
            r matches Some(t) ==> self@.month_after() == Some(t@),
    {
        proof {
            use_type_invariant(self);
        }
        add_month(self)
    }
}

/// Calls `chrono::NaiveDateTime::checked_add_months` with one month on the
/// date-time made of the parts of `t`. The contract restates chrono's
/// documentation for a valid moment: the date moves to the same day of the next
/// month, or to that month's last day where the day does not exist in it; the
/// time of day is kept; there is no result where the date would leave chrono's
/// range of years.
#[verifier::external_body]
fn add_month(t: &DateTime) -> (r: Option<DateTime>)
    requires
        t@.valid(),
    ensures
        r is Some <==> t@.month_after() is Some,
        r matches Some(later) ==> t@.month_after() == Some(later@),
{
    let date = chrono::NaiveDate::from_ymd_opt(t.year, t.month, t.day)?;
    let start = date.and_hms_nano_opt(t.hour, t.minute, t.second, t.nano)?;
    let end = start.checked_add_months(chrono::Months::new(1))?;
    Some(
        DateTime {
            year: end.year(),
            month: end.month(),
            day: end.day(),
            hour: end.hour(),
            minute: end.minute(),
            second: end.second(),
            nano: end.nanosecond(),
        },
    )
}

} // verus!

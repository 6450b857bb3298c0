//! Calendar dates, counted in days, with chrono doing the calendar's work.

use chrono::{Datelike, Days, Local, NaiveDate};
use vstd::prelude::*;

verus! {

/// Day number of the earliest date that chrono holds, 1 January of year -262143.
pub const MIN_DAY_NUMBER: i32 = -95_746_129;

/// Day number of the latest date that chrono holds, 31 December of year 262142.
pub const MAX_DAY_NUMBER: i32 = 95_745_399;

/// Whether `day_number` is the day number of a date that chrono holds.
pub open spec fn is_day_number(day_number: int) -> bool {
    MIN_DAY_NUMBER <= day_number <= MAX_DAY_NUMBER
}

/// The text that chrono's `NaiveDate::to_string` gives for the date with this
/// day number: year, month and day, as in `2024-02-14`.
pub uninterp spec fn date_text(day_number: int) -> Seq<char>;

/// Reads the clock: `chrono::Local::now`, then `DateTime::date_naive` and
/// `Datelike::num_days_from_ce`.
///
/// Not proved. The contract claims only that the day number is one of a date
/// that chrono holds, which is true of every `NaiveDate`. Which day it is
/// depends on the system clock and the local time zone. chrono stops the
/// program where the clock reads a time before 1970 or beyond its own range.
#[verifier::external_body]
fn local_day_number() -> (day_number: i32)
    ensures
        is_day_number(day_number as int),
{
    Local::now().date_naive().num_days_from_ce()
}

/// Adds days with `chrono::NaiveDate::checked_add_days`, on the date that
/// `NaiveDate::from_num_days_from_ce_opt` makes of `day_number`.
///
/// Not proved. The contract claims that chrono returns the date that many days
/// later, whose day number is the sum, and returns `None` exactly where that
/// date lies beyond the latest one it holds.
#[verifier::external_body]
fn day_number_after(day_number: i32, days: u64) -> (later: Option<i32>)
    requires
        is_day_number(day_number as int),
    ensures
        later == if day_number + days <= MAX_DAY_NUMBER {
            Some((day_number + days) as i32)
        } else {
            None
        },
{
    let date = NaiveDate::from_num_days_from_ce_opt(day_number).unwrap();
    match date.checked_add_days(Days::new(days)) {
        Some(later) => Some(later.num_days_from_ce()),
        None => None,
    }
}

/// Writes a date with `chrono::NaiveDate::to_string`, on the date that
/// `NaiveDate::from_num_days_from_ce_opt` makes of `day_number`.
///
/// Not proved. The contract claims that the text depends on the day number
/// alone, and gives it the name `date_text`.
#[verifier::external_body]
fn day_number_text(day_number: i32) -> (text: String)
    requires
        is_day_number(day_number as int),
    ensures
        text@ == date_text(day_number as int),
{
    NaiveDate::from_num_days_from_ce_opt(day_number).unwrap().to_string()
}

/// A date of the proleptic Gregorian calendar.
///
/// It is held as its day number, which counts 1 January of year 1 as day 1,
/// and always lies between [`MIN_DAY_NUMBER`] and [`MAX_DAY_NUMBER`].
#[derive(Clone, Copy, Debug, PartialEq, Eq, Structural)]
pub struct CalendarDate {
    day_number: i32,
}

impl View for CalendarDate {
    type V = int;

    /// The day number.
    closed spec fn view(&self) -> int {
        self.day_number as int
    }
}

impl CalendarDate {
    /// Every date is one that chrono holds.
    #[verifier::type_invariant]
    pub open spec fn in_range(self) -> bool {
        is_day_number(self@)
    }

    /// The date with this day number, if chrono holds such a date.
    pub fn from_day_number(day_number: i32) -> (date: Option<CalendarDate>)
        ensures
            date is Some <==> is_day_number(day_number as int),
            date is Some ==> date.unwrap()@ == day_number,
    {
        if MIN_DAY_NUMBER <= day_number && day_number <= MAX_DAY_NUMBER {
            Some(CalendarDate { day_number })
        } else {
            None
        }
    }

    /// Today's date by the system clock, in the local time zone.
    pub fn today() -> (date: CalendarDate)
        ensures
            date.in_range(),
    {
        CalendarDate { day_number: local_day_number() }
    }

    /// The day number of this date.
    pub fn day_number(&self) -> (day_number: i32)
        ensures
            day_number == self@,
            self.in_range(),
    {
        proof {
            use_type_invariant(self);
        }
        self.day_number
    }

    /// The date `days` days after this one, or `None` where that is later
    /// than the latest date.
    pub fn checked_add_days(&self, days: u64) -> (later: Option<CalendarDate>)
        ensures
            later is Some <==> self@ + days <= MAX_DAY_NUMBER,
            later is Some ==> later.unwrap()@ == self@ + days,
    {
        proof {
            use_type_invariant(self);
        }
        match day_number_after(self.day_number, days) {
            Some(day_number) => Some(CalendarDate { day_number }),
            None => None,
        }
    }

    /// This date as text.
    pub fn to_text(&self) -> (text: String)
        ensures
            text@ == date_text(self@),
    {
        proof {
            use_type_invariant(self);
        }
        day_number_text(self.day_number)
    }
}

} // verus!

//! Birth dates: calendar dates of the proleptic Gregorian calendar, written
//! `YYYY-MM-DD` on the wire.
//!
//! Reading the wire text is left to the `time` crate. What it reads is then
//! held as three plain numbers, and a date is only ever built from numbers
//! that name a day that exists.

use vstd::prelude::*;

use crate::validation::ValidationError;

verus! {

/// First year a date can lie in.
pub const MIN_YEAR: i32 = -9999;

/// Last year a date can lie in.
pub const MAX_YEAR: i32 = 9999;

/// How a birth date is written on the wire, in the notation of the `time`
/// crate's format descriptions.
pub const WIRE_FORMAT: &'static str = "[year]-[month]-[day]";

/// A day named by year, month and day of the month.
pub struct CalendarDate {
    pub year: int,
    pub month: int,
    pub day: int,
}

/// Whether `year` has a 29th of February.
pub open spec fn is_leap_year(year: int) -> bool {
    year % 4 == 0 && (year % 100 != 0 || year % 400 == 0)
}

/// The number of days of `month` in `year`, for a month from 1 to 12.
pub open spec fn days_in_month(year: int, month: int) -> int {
    if month == 2 {
        if is_leap_year(year) {
            29
        } else {
            28
        }
    } else if month == 4 || month == 6 || month == 9 || month == 11 {
        30
    } else {
        31
    }
}

/// Whether the three numbers name a day that exists.
pub open spec fn is_calendar_date(year: int, month: int, day: int) -> bool {
    &&& MIN_YEAR <= year <= MAX_YEAR
    &&& 1 <= month <= 12
    &&& 1 <= day <= days_in_month(year, month)
}

/// What reading `text` by the format description `format` gives: the year,
/// month and day of the date that the `time` crate reads, or `None` where it
/// reads no date.
pub uninterp spec fn parsed_date(format: Seq<char>, text: Seq<char>) -> Option<(i32, u8, u8)>;

/// The date that is accepted once the wire text has been read: the numbers
/// read, provided they name a day that exists.
pub open spec fn accepted_date(parsed: Option<(i32, u8, u8)>) -> Option<CalendarDate> {
    match parsed {
        Some((year, month, day)) => if is_calendar_date(year as int, month as int, day as int) {
            Some(CalendarDate { year: year as int, month: month as int, day: day as int })
        } else {
            None
        },
        None => None,
    }
}

/// Reads a date with the `time` crate.
///
/// Trusted: `format` is turned into a format description by
/// `time::format_description::parse_borrowed` (syntax version 1) and `text` is
/// read by `time::Date::parse` with that description. The result is `None`
/// where either of them fails, and otherwise the year, month (1 to 12) and day
/// reported by the date's `year`, `month` and `day` methods. Both functions
/// depend on their arguments alone, so the result is given the name
/// [`parsed_date`]; nothing else is claimed of it. The claim is made for the
/// one format that the library reads dates in.
#[verifier::external_body]
pub(crate) fn read_date(text: &str, format: &str) -> (parsed: Option<(i32, u8, u8)>)
    requires
        format@ == WIRE_FORMAT@,
    ensures
        parsed == parsed_date(format@, text@),
{
    let description = time::format_description::parse_borrowed::<1>(format).ok()?;
    let date = time::Date::parse(text, &description).ok()?;
    Some((date.year(), u8::from(date.month()), date.day()))
}

/// Whether `year` has a 29th of February.
fn leap_year(year: i32) -> (leap: bool)
    requires
        MIN_YEAR <= year <= MAX_YEAR,
    ensures
        leap == is_leap_year(year as int),
{
    // 10000 is a multiple of 400: the shift makes the year non-negative and
    // changes none of the remainders taken below.
    let shifted: i32 = year + 10000;
    shifted % 4 == 0 && (shifted % 100 != 0 || shifted % 400 == 0)
}

/// The number of days of `month` in `year`.
fn month_length(year: i32, month: u8) -> (days: u8)
    requires
        MIN_YEAR <= year <= MAX_YEAR,
        1 <= month <= 12,
    ensures
        days == days_in_month(year as int, month as int),
{
    if month == 2 {
        if leap_year(year) {
            29
        } else {
            28
        }
    } else if month == 4 || month == 6 || month == 9 || month == 11 {
        30
    } else {
        31
    }
}

/// A person's date of birth.
#[derive(Clone, Copy, Debug)]
pub struct BirthDate {
    year: i32,
    month: u8,
    day: u8,
}

impl View for BirthDate {
    type V = CalendarDate;

    closed spec fn view(&self) -> CalendarDate {
        CalendarDate { year: self.year as int, month: self.month as int, day: self.day as int }
    }
}

impl BirthDate {
    /// The invariant of the type: the date names a day that exists.
    #[verifier::type_invariant]
    pub open spec fn exists_in_calendar(self) -> bool {
        is_calendar_date(self@.year, self@.month, self@.day)
    }

    /// Builds the date with the given year, month and day of the month, if
    /// there is such a day.
    pub fn from_calendar_date(year: i32, month: u8, day: u8) -> (date: Option<BirthDate>)
        ensures
            match date {
                Some(d) => is_calendar_date(year as int, month as int, day as int) && d@ == (
                CalendarDate { year: year as int, month: month as int, day: day as int }),
                None => !is_calendar_date(year as int, month as int, day as int),
            },
    {
        if year < MIN_YEAR || year > MAX_YEAR || month < 1 || month > 12 || day < 1 {
            return None;
        }
        if day > month_length(year, month) {
            return None;
        }
        Some(BirthDate { year, month, day })
    }

    /// Decides on a date that has been read from wire text: the numbers read
    /// are accepted if they name a day that exists, and anything else is a
    /// malformed date.
    pub fn from_parsed(parsed: Option<(i32, u8, u8)>) -> (date: Result<BirthDate, ValidationError>)
        ensures
            match accepted_date(parsed) {
                Some(d) => date matches Ok(got) && got@ == d,
                None => date == Err::<BirthDate, ValidationError>(ValidationError::MalformedDate),
            },
    {
        let accepted = match parsed {
            Some((year, month, day)) => BirthDate::from_calendar_date(year, month, day),
            None => None,
        };
        match accepted {
            Some(date) => Ok(date),
            None => Err(ValidationError::MalformedDate),
        }
    }

    /// Reads a birth date from its wire text.
    ///
    /// The text is read by the `time` crate against [`WIRE_FORMAT`]; see
    /// [`BirthDate::from_parsed`] for what becomes of each outcome.
    pub fn parse(text: &str) -> (date: Result<BirthDate, ValidationError>)
        ensures
            match accepted_date(parsed_date(WIRE_FORMAT@, text@)) {
                Some(d) => date matches Ok(got) && got@ == d,
                None => date == Err::<BirthDate, ValidationError>(ValidationError::MalformedDate),
            },
    {
        BirthDate::from_parsed(read_date(text, WIRE_FORMAT))
    }

    /// The year.
    pub fn year(&self) -> (year: i32)
        ensures
            year == self@.year,
    {
        self.year
    }

    /// The month, from 1 for January to 12 for December.
    pub fn month(&self) -> (month: u8)
        ensures
            month == self@.month,
    {
        self.month
    }

    /// The day of the month, counted from 1.
    pub fn day(&self) -> (day: u8)
        ensures
            day == self@.day,
    {
        self.day
    }
}

} // verus!

//! Delivery dates, and the week and month names that describe them.
//!
//! The week of a delivery is its ISO-8601 week of the year, told to the
//! customer as "the First week of January" and so on. Only weeks 1 to 5 have
//! an ordinal; a later week is reported as an error, never clamped or wrapped.

use chrono::{Datelike, NaiveDate};
use vstd::prelude::*;

verus! {

/// How the order service writes delivery dates: day, month, two-digit year.
pub const DELIVERY_DATE_FORMAT: &'static str = "%d-%m-%y";

/// The earliest and latest years that chrono's dates hold.
pub const EARLIEST_YEAR: i32 = -262143;

pub const LATEST_YEAR: i32 = 262142;

/// A day of the proleptic Gregorian calendar.
#[derive(Clone, Copy, Debug, PartialEq, Eq, Structural)]
pub struct CalendarDate {
    pub year: i32,
    pub month: u32,
    pub day: u32,
}

pub open spec fn is_leap_year(year: int) -> bool {
    (year % 4 == 0 && year % 100 != 0) || year % 400 == 0
}

pub open spec fn days_in_month(year: int, month: int) -> int {
    if month == 2 {
        if is_leap_year(year) {
            29
        } else {
            28
        }
    } else if month == 4 || month == 6 || month == 9 || month == 11 {
        30
    } else {
        31
    }
}

impl CalendarDate {
    /// A real day, within the years that chrono can hold.
    pub open spec fn wf(self) -> bool {
        &&& EARLIEST_YEAR <= self.year <= LATEST_YEAR
        &&& 1 <= self.month <= 12
        &&& 1 <= self.day <= days_in_month(self.year as int, self.month as int)
    }
}

/// The year, month and day that chrono reads from `text` in `format`, or
/// `None` where it refuses the text.
pub uninterp spec fn parsed_date(text: Seq<char>, format: Seq<char>) -> Option<(int, int, int)>;

/// The ISO-8601 week of the year that holds the given day.
pub uninterp spec fn iso_week_of(year: int, month: int, day: int) -> int;

/// Relies on chrono's `NaiveDate::parse_from_str`, which yields only real days
/// within its range of years.
#[verifier::external_body]
fn parse_date(text: &str, format: &str) -> (r: Option<CalendarDate>)
    ensures
        match r {
            Some(d) => d.wf() && parsed_date(text@, format@) == Some(
                (d.year as int, d.month as int, d.day as int),
            ),
            None => parsed_date(text@, format@) is None,
        },
{
    match NaiveDate::parse_from_str(text, format) {
        Ok(d) => Some(CalendarDate { year: d.year(), month: d.month(), day: d.day() }),
        Err(_) => None,
    }
}

/// Relies on chrono's `NaiveDate::iso_week`: `from_ymd_opt` takes every real
/// day within its years, and `IsoWeek::week` gives a week from 1 to 53.
#[verifier::external_body]
fn iso_week_number(date: &CalendarDate) -> (r: u32)
    requires
        date.wf(),
    ensures
        r == iso_week_of(date.year as int, date.month as int, date.day as int),
        1 <= r <= 53,
{
    NaiveDate::from_ymd_opt(date.year, date.month, date.day).unwrap().iso_week().week()
}

/// The ordinal that names a delivery week.
#[derive(Clone, Copy, Debug, PartialEq, Eq, Structural)]
pub enum Week {
    First,
    Second,
    Third,
    Fourth,
    Fifth,
}

impl Week {
    pub open spec fn number(self) -> int {
        match self {
            Week::First => 1,
            Week::Second => 2,
            Week::Third => 3,
            Week::Fourth => 4,
            Week::Fifth => 5,
        }
    }

    pub open spec fn name(self) -> Seq<char> {
        match self {
            Week::First => "First"@,
            Week::Second => "Second"@,
            Week::Third => "Third"@,
            Week::Fourth => "Fourth"@,
            Week::Fifth => "Fifth"@,
        }
    }

    pub fn as_str(&self) -> (r: &'static str)
        ensures
            r@ == self.name(),
    {
        match *self {
            Week::First => "First",
            Week::Second => "Second",
            Week::Third => "Third",
            Week::Fourth => "Fourth",
            Week::Fifth => "Fifth",
        }
    }

    /// The week numbered `n`, for `n` from 1 to 5: `1` is `First`, up to `5`,
    /// `Fifth`.
    pub fn from_number(n: u32) -> (r: Option<Week>)
        ensures
            r is Some <==> 1 <= n <= 5,
            r matches Some(w) ==> w.number() == n,
    {
        match n {
            1 => Some(Week::First),
            2 => Some(Week::Second),
            3 => Some(Week::Third),
            4 => Some(Week::Fourth),
            5 => Some(Week::Fifth),
            _ => None,
        }
    }
}

/// A month of the year.
#[derive(Clone, Copy, Debug, PartialEq, Eq, Structural)]
pub enum Month {
    January,
    February,
    March,
    April,
    May,
    June,
    July,
    August,
    September,
    October,
    November,
    December,
}

impl Month {
    pub open spec fn number(self) -> int {
        match self {
            Month::January => 1,
            Month::February => 2,
            Month::March => 3,
            Month::April => 4,
            Month::May => 5,
            Month::June => 6,
            Month::July => 7,
            Month::August => 8,
            Month::September => 9,
            Month::October => 10,
            Month::November => 11,
            Month::December => 12,
        }
    }

    pub open spec fn name(self) -> Seq<char> {
        match self {
            Month::January => "January"@,
            Month::February => "February"@,
            Month::March => "March"@,
            Month::April => "April"@,
            Month::May => "May"@,
            Month::June => "June"@,
            Month::July => "July"@,
            Month::August => "August"@,
            Month::September => "September"@,
            Month::October => "October"@,
            Month::November => "November"@,
            Month::December => "December"@,
        }
    }

    pub fn as_str(&self) -> (r: &'static str)
        ensures
            r@ == self.name(),
    {
        match *self {
            Month::January => "January",
            Month::February => "February",
            Month::March => "March",
            Month::April => "April",
            Month::May => "May",
            Month::June => "June",
            Month::July => "July",
            Month::August => "August",
            Month::September => "September",
            Month::October => "October",
            Month::November => "November",
            Month::December => "December",
        }
    }

    /// The month numbered `n`, for `n` from 1 (`January`) to 12 (`December`).
    pub fn from_number(n: u32) -> (r: Option<Month>)
        ensures
            r is Some <==> 1 <= n <= 12,
            r matches Some(m) ==> m.number() == n,
    {
        match n {
            1 => Some(Month::January),
            2 => Some(Month::February),
            3 => Some(Month::March),
            4 => Some(Month::April),
            5 => Some(Month::May),
            6 => Some(Month::June),
            7 => Some(Month::July),
            8 => Some(Month::August),
            9 => Some(Month::September),
            10 => Some(Month::October),
            11 => Some(Month::November),
            12 => Some(Month::December),
            _ => None,
        }
    }
}

/// Why a delivery date could not be described.
#[derive(Clone, Copy, Debug, PartialEq, Eq, Structural)]
pub enum WindowError {
    /// The date is not written `DD-MM-YY`, or names no real day.
    InvalidDateFormat,
    /// The date falls in an ISO week past the fifth, which has no ordinal.
    WeekOutOfRange { week: u32, month: Month },
}

/// What `window_for` gives for an ISO week number and a month number.
pub open spec fn window_spec(week_number: int, month_number: int) -> Result<(Week, Month), WindowError> {
    if !(1 <= month_number <= 12) {
        Err(WindowError::InvalidDateFormat)
    } else if !(1 <= week_number <= 5) {
        Err(WindowError::WeekOutOfRange { week: week_number as u32, month: month_of(month_number) })
    } else {
        Ok((week_of(week_number), month_of(month_number)))
    }
}

pub open spec fn week_of(n: int) -> Week {
    if n == 1 {
        Week::First
    } else if n == 2 {
        Week::Second
    } else if n == 3 {
        Week::Third
    } else if n == 4 {
        Week::Fourth
    } else {
        Week::Fifth
    }
}

pub open spec fn month_of(n: int) -> Month {
    if n == 1 { Month::January }
    else if n == 2 { Month::February }
    else if n == 3 { Month::March }
    else if n == 4 { Month::April }
    else if n == 5 { Month::May }
    else if n == 6 { Month::June }
    else if n == 7 { Month::July }
    else if n == 8 { Month::August }
    else if n == 9 { Month::September }
    else if n == 10 { Month::October }
    else if n == 11 { Month::November }
    else { Month::December }
}

/// Names the delivery window of a day in ISO week `week_number` of month
/// `month_number`: the week as an ordinal, the month by name. Weeks past the
/// fifth have no ordinal and are refused, with the week and month reported.
pub fn window_for(week_number: u32, month_number: u32) -> (r: Result<(Week, Month), WindowError>)
    ensures
        r == window_spec(week_number as int, month_number as int),
{
    match Month::from_number(month_number) {
        None => Err(WindowError::InvalidDateFormat),
        Some(m) => match Week::from_number(week_number) {
            None => Err(WindowError::WeekOutOfRange { week: week_number, month: m }),
            Some(w) => Ok((w, m)),
        },
    }
}

/// A day in ISO week 1 to 5 gets the ordinal of that number, `First` to
/// `Fifth`, and its month by number; any later week is refused.
pub proof fn weeks_map_to_ordinals(week_number: int, month_number: int)
    requires
        1 <= month_number <= 12,
        1 <= week_number <= 53,
    ensures
        1 <= week_number <= 5 ==> (window_spec(week_number, month_number) matches Ok((w, m))
            && w.number() == week_number && m.number() == month_number),
        week_number == 1 ==> week_of(week_number).name() == "First"@,
        week_number == 2 ==> week_of(week_number).name() == "Second"@,
        week_number == 3 ==> week_of(week_number).name() == "Third"@,
        week_number == 4 ==> week_of(week_number).name() == "Fourth"@,
        week_number == 5 ==> week_of(week_number).name() == "Fifth"@,
        !(1 <= week_number <= 5) ==> window_spec(week_number, month_number) == Err::<
            (Week, Month),
            WindowError,
        >(WindowError::WeekOutOfRange { week: week_number as u32, month: month_of(month_number) }),
        month_number == 12 ==> month_of(month_number).name() == "December"@,
{
}

/// What `delivery_window` gives for the text `date`.
pub open spec fn delivery_window_spec(date: Seq<char>) -> Result<(Week, Month), WindowError> {
    match parsed_date(date, DELIVERY_DATE_FORMAT@) {
        None => Err(WindowError::InvalidDateFormat),
        Some((y, m, d)) => window_spec(iso_week_of(y, m, d), m),
    }
}

/// Reads a `DD-MM-YY` date and names its delivery window: the ISO week of the
/// year as an ordinal, and the month.
pub fn delivery_window(date: &str) -> (r: Result<(Week, Month), WindowError>)
    ensures
        r == delivery_window_spec(date@),
{
    match parse_date(date, DELIVERY_DATE_FORMAT) {
        None => Err(WindowError::InvalidDateFormat),
        Some(d) => {
            let week = iso_week_number(&d);
            window_for(week, d.month)
        },
    }
}

} // verus!

//! Calendar date-times and elapsed-time durations as plain values.
//!
//! A `DateTime` holds the fields a format renders: year, month, day, hour,
//! minute and second in the proleptic Gregorian calendar. Weekday names,
//! month names and the week-of-year count are delegated to `chrono`.

use vstd::prelude::*;

verus! {

/// Gregorian leap-year rule.
pub open spec fn is_leap_year(y: int) -> bool {
    (y % 4 == 0 && y % 100 != 0) || y % 400 == 0
}

/// Days in a month of the Gregorian calendar.
pub open spec fn days_in_month(y: int, m: int) -> int {
    if m == 2 {
        if is_leap_year(y) {
            29
        } else {
            28
        }
    } else if m == 4 || m == 6 || m == 9 || m == 11 {
        30
    } else {
        31
    }
}

/// A calendar date within the supported year range.
pub open spec fn valid_date(y: int, m: int, d: int) -> bool {
    &&& 0 <= y <= 9999
    &&& 1 <= m <= 12
    &&& 1 <= d <= days_in_month(y, m)
}

/// A date with a time of day, field by field.
#[derive(Debug, Clone, Copy, PartialEq, Eq, Structural)]
pub struct DateTime {
    /// Year, 0 through 9999.
    pub year: i32,
    /// Month of the year, 1 through 12.
    pub month: u8,
    /// Day of the month, 1 through the month's length.
    pub day: u8,
    /// Hour of the day, 0 through 23.
    pub hour: u8,
    /// Minute of the hour, 0 through 59.
    pub minute: u8,
    /// Second of the minute, 0 through 59.
    pub second: u8,
}

impl DateTime {
    /// The fields form a real calendar date and time of day.
    pub open spec fn wf(&self) -> bool {
        &&& valid_date(self.year as int, self.month as int, self.day as int)
        &&& self.hour < 24
        &&& self.minute < 60
        &&& self.second < 60
    }

    /// Builds a date-time after checking every field; `None` when the fields
    /// name no real calendar date or time of day.
    pub fn new(year: i32, month: u8, day: u8, hour: u8, minute: u8, second: u8) -> (r: Option<
        DateTime,
    >)
        ensures
            match r {
                Some(d) => {
                    &&& d == (DateTime { year, month, day, hour, minute, second })
                    &&& d.wf()
                },
                None => !(DateTime { year, month, day, hour, minute, second }).wf(),
            },
    {
        if year < 0 || year > 9999 || month < 1 || month > 12 {
            return None;
        }
        let leap = (year % 4 == 0 && year % 100 != 0) || year % 400 == 0;
        let month_days: u8 = if month == 2 {
            if leap {
                29
            } else {
                28
            }
        } else if month == 4 || month == 6 || month == 9 || month == 11 {
            30
        } else {
            31
        };
        if day < 1 || day > month_days || hour >= 24 || minute >= 60 || second >= 60 {
            return None;
        }
        Some(DateTime { year, month, day, hour, minute, second })
    }
}

pub uninterp spec fn weekday_full_text(y: int, m: int, d: int) -> Seq<char>;

pub uninterp spec fn weekday_abbrev_text(y: int, m: int, d: int) -> Seq<char>;

pub uninterp spec fn week_text_padded(y: int, m: int, d: int) -> Seq<char>;

pub uninterp spec fn week_text_plain(y: int, m: int, d: int) -> Seq<char>;

/// The English month name, as `chrono`'s formatting writes it.
pub open spec fn month_full_text(m: int) -> Seq<char> {
    if m == 1 {
        "January"@
    } else if m == 2 {
        "February"@
    } else if m == 3 {
        "March"@
    } else if m == 4 {
        "April"@
    } else if m == 5 {
        "May"@
    } else if m == 6 {
        "June"@
    } else if m == 7 {
        "July"@
    } else if m == 8 {
        "August"@
    } else if m == 9 {
        "September"@
    } else if m == 10 {
        "October"@
    } else if m == 11 {
        "November"@
    } else {
        "December"@
    }
}

/// The abbreviated English month name, as `chrono`'s formatting writes it.
pub open spec fn month_abbrev_text(m: int) -> Seq<char> {
    if m == 1 {
        "Jan"@
    } else if m == 2 {
        "Feb"@
    } else if m == 3 {
        "Mar"@
    } else if m == 4 {
        "Apr"@
    } else if m == 5 {
        "May"@
    } else if m == 6 {
        "Jun"@
    } else if m == 7 {
        "Jul"@
    } else if m == 8 {
        "Aug"@
    } else if m == 9 {
        "Sep"@
    } else if m == 10 {
        "Oct"@
    } else {
        if m == 11 {
            "Nov"@
        } else {
            "Dec"@
        }
    }
}

/// Relies on `chrono::NaiveDate::format` with `%A`: the full English weekday
/// name of the date, which depends on the date alone.
#[verifier::external_body]
pub(crate) fn weekday_name_full(year: i32, month: u8, day: u8) -> (r: String)
    requires
        valid_date(year as int, month as int, day as int),
    ensures
        r@ == weekday_full_text(year as int, month as int, day as int),
{
    chrono::NaiveDate::from_ymd_opt(year, month as u32, day as u32)
        .unwrap()
        .format("%A")
        .to_string()
}

/// Relies on `chrono::NaiveDate::format` with `%a`: the abbreviated English
/// weekday name of the date, which depends on the date alone.
#[verifier::external_body]
pub(crate) fn weekday_name_abbrev(year: i32, month: u8, day: u8) -> (r: String)
    requires
        valid_date(year as int, month as int, day as int),
    ensures
        r@ == weekday_abbrev_text(year as int, month as int, day as int),
{
    chrono::NaiveDate::from_ymd_opt(year, month as u32, day as u32)
        .unwrap()
        .format("%a")
        .to_string()
}

/// Relies on `chrono::NaiveDate::format` with `%B`: the full English month
/// name.
#[verifier::external_body]
pub(crate) fn month_name_full(year: i32, month: u8, day: u8) -> (r: String)
    requires
        valid_date(year as int, month as int, day as int),
    ensures
        r@ == month_full_text(month as int),
{
    chrono::NaiveDate::from_ymd_opt(year, month as u32, day as u32)
        .unwrap()
        .format("%B")
        .to_string()
}

/// Relies on `chrono::NaiveDate::format` with `%b`: the abbreviated English
/// month name.
#[verifier::external_body]
pub(crate) fn month_name_abbrev(year: i32, month: u8, day: u8) -> (r: String)
    requires
        valid_date(year as int, month as int, day as int),
    ensures
        r@ == month_abbrev_text(month as int),
{
    chrono::NaiveDate::from_ymd_opt(year, month as u32, day as u32)
        .unwrap()
        .format("%b")
        .to_string()
}

/// Relies on `chrono::NaiveDate::format` with `%W`: the week number counted
/// from the year's first Monday, two digits zero-padded; it depends on the
/// date alone.
#[verifier::external_body]
pub(crate) fn week_of_year_padded(year: i32, month: u8, day: u8) -> (r: String)
    requires
        valid_date(year as int, month as int, day as int),
    ensures
        r@ == week_text_padded(year as int, month as int, day as int),
{
    chrono::NaiveDate::from_ymd_opt(year, month as u32, day as u32)
        .unwrap()
        .format("%W")
        .to_string()
}

/// Relies on `chrono::NaiveDate::format` with `%-W`: the week number counted
/// from the year's first Monday, without padding; it depends on the date
/// alone.
#[verifier::external_body]
pub(crate) fn week_of_year_plain(year: i32, month: u8, day: u8) -> (r: String)
    requires
        valid_date(year as int, month as int, day as int),
    ensures
        r@ == week_text_plain(year as int, month as int, day as int),
{
    chrono::NaiveDate::from_ymd_opt(year, month as u32, day as u32)
        .unwrap()
        .format("%-W")
        .to_string()
}

/// Integer division truncated toward zero, as machine division behaves.
pub open spec fn trunc_div(a: int, b: int) -> int {
    if a >= 0 {
        a / b
    } else {
        -((-a) / b)
    }
}

/// Integer remainder with the dividend's sign, as machine remainder behaves.
pub open spec fn trunc_rem(a: int, b: int) -> int {
    if a >= 0 {
        a % b
    } else {
        -((-a) % b)
    }
}

/// A span of elapsed time, in whole seconds; negative for a span that runs
/// backwards.
#[derive(Debug, Clone, Copy, PartialEq, Eq, Structural)]
pub struct Duration {
    /// The signed number of whole seconds.
    pub secs: i64,
}

impl Duration {
    /// A duration of `secs` whole seconds.
    pub fn seconds(secs: i64) -> (r: Duration)
        ensures
            r.secs == secs,
    {
        Duration { secs }
    }

    /// A duration of `minutes` whole minutes.
    pub fn minutes(minutes: i64) -> (r: Duration)
        requires
            i64::MIN <= minutes * 60 <= i64::MAX,
        ensures
            r.secs == minutes * 60,
    {
        Duration { secs: minutes * 60 }
    }

    /// A duration of `hours` whole hours.
    pub fn hours(hours: i64) -> (r: Duration)
        requires
            i64::MIN <= hours * 3600 <= i64::MAX,
        ensures
            r.secs == hours * 3600,
    {
        Duration { secs: hours * 3600 }
    }

    /// Whole hours in the span, truncated toward zero.
    pub open spec fn spec_hours(&self) -> int {
        trunc_div(self.secs as int, 3600)
    }

    /// Minute of the hour remainder, carrying the span's sign.
    pub open spec fn spec_minute_of_hour(&self) -> int {
        trunc_rem(trunc_div(self.secs as int, 60), 60)
    }

    /// Second of the minute remainder, carrying the span's sign.
    pub open spec fn spec_second_of_minute(&self) -> int {
        trunc_rem(self.secs as int, 60)
    }
}

} // verus!

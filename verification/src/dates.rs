//! Calendar dates and instants, as the store keeps them in text.

use vstd::prelude::*;
use chrono::Datelike;
use rusqlite::types::FromSql;
use crate::value::{SqlValue, SqlDatum};

verus! {

/// A calendar date as three numbers.
pub struct Ymd {
    pub year: int,
    pub month: int,
    pub day: int,
}

pub open spec fn is_leap_year(year: int) -> bool {
    year % 4 == 0 && (year % 100 != 0 || year % 400 == 0)
}

/// Number of days of a month of the Gregorian calendar; 0 where `month` names none.
pub open spec fn days_in_month(year: int, month: int) -> int {
    if month == 2 {
        if is_leap_year(year) { 29 } else { 28 }
    } else if month == 4 || month == 6 || month == 9 || month == 11 {
        30
    } else if 1 <= month <= 12 {
        31
    } else {
        0
    }
}

/// A day that exists, in a year that `YYYY` can write.
pub open spec fn is_calendar_date(year: int, month: int, day: int) -> bool {
    &&& 0 <= year <= 9999
    &&& 1 <= month <= 12
    &&& 1 <= day <= days_in_month(year, month)
}

pub open spec fn digit(n: int) -> char {
    seq!['0', '1', '2', '3', '4', '5', '6', '7', '8', '9'][n]
}

pub open spec fn two_digits(n: int) -> Seq<char> {
    seq![digit(n / 10), digit(n % 10)]
}

/// The text `YYYY-MM-DD` of a date.
pub open spec fn iso_text(date: Ymd) -> Seq<char> {
    two_digits(date.year / 100) + two_digits(date.year % 100) + seq!['-'] + two_digits(date.month)
        + seq!['-'] + two_digits(date.day)
}

/// What `chrono` reads in a text under the format `%Y-%m-%d`: year, month and
/// day, or nothing where the text is no date to it.
pub uninterp spec fn parsed_ymd(text: Seq<char>) -> Option<(i32, u32, u32)>;

/// The date that three parsed numbers stand for.
pub open spec fn date_of_parts(parts: Option<(i32, u32, u32)>) -> Option<Ymd> {
    match parts {
        Some((year, month, day)) => if is_calendar_date(year as int, month as int, day as int) {
            Some(Ymd { year: year as int, month: month as int, day: day as int })
        } else {
            None
        },
        None => None,
    }
}

/// The date that a stored text stands for.
pub open spec fn date_of_text(text: Seq<char>) -> Option<Ymd> {
    date_of_parts(parsed_ymd(text))
}

/// A day of the Gregorian calendar in the years 0 to 9999.
#[derive(Clone, Copy, Debug, PartialEq, Eq)]
pub struct Date {
    year: i32,
    month: u32,
    day: u32,
}

impl View for Date {
    type V = Ymd;

    closed spec fn view(&self) -> Ymd {
        Ymd { year: self.year as int, month: self.month as int, day: self.day as int }
    }
}

impl DeepView for Date {
    type V = Ymd;

    open spec fn deep_view(&self) -> Ymd {
        self@
    }
}

/// `chrono::NaiveDate::parse_from_str` with the format `%Y-%m-%d`, then
/// `Datelike::year`, `month` and `day`: the numbers of the date that the text
/// holds.
#[verifier::external_body]
fn parse_ymd(text: &str) -> (parts: Option<(i32, u32, u32)>)
    ensures
        parts == parsed_ymd(text@),
{
    chrono::NaiveDate::parse_from_str(text, "%Y-%m-%d").ok().map(|d| (d.year(), d.month(), d.day()))
}

/// `chrono::NaiveDate::from_ymd_opt`, then the `Display` text of the date: for
/// a day that exists in the years 0 to 9999, the year on four digits, the month
/// and the day on two, with `-` between them.
#[verifier::external_body]
fn chrono_date_text(year: i32, month: u32, day: u32) -> (text: String)
    requires
        is_calendar_date(year as int, month as int, day as int),
    ensures
        text@ == iso_text((Ymd { year: year as int, month: month as int, day: day as int })),
{
    chrono::NaiveDate::from_ymd_opt(year, month, day).map(|d| d.to_string()).unwrap_or_default()
}

impl Date {
    #[verifier::type_invariant]
    spec fn well_formed(self) -> bool {
        is_calendar_date(self.year as int, self.month as int, self.day as int)
    }

    /// The date with these numbers, where there is such a day.
    pub fn new(year: i32, month: u32, day: u32) -> (date: Option<Date>)
        ensures
            date.deep_view() == date_of_parts(Some((year, month, day))),
    {
        if year < 0 || year > 9999 || month < 1 || month > 12 || day < 1 {
            return None;
        }
        let leap = year % 4 == 0 && (year % 100 != 0 || year % 400 == 0);
        let length: u32 = if month == 2 {
            if leap { 29 } else { 28 }
        } else if month == 4 || month == 6 || month == 9 || month == 11 {
            30
        } else {
            31
        };
        if day > length {
            None
        } else {
            Some(Date { year, month, day })
        }
    }

    /// The first day of 1970.
    pub fn epoch() -> (date: Date)
        ensures
            date@ == (Ymd { year: 1970, month: 1, day: 1 }),
    {
        Date { year: 1970, month: 1, day: 1 }
    }

    /// The date for the numbers that a parser gave.
    pub fn from_parts(parts: Option<(i32, u32, u32)>) -> (date: Option<Date>)
        ensures
            date.deep_view() == date_of_parts(parts),
    {
        match parts {
            Some((year, month, day)) => Date::new(year, month, day),
            None => None,
        }
    }

    /// Reads a date written as `YYYY-MM-DD`.
    pub fn parse(text: &str) -> (date: Option<Date>)
        ensures
            date.deep_view() == date_of_text(text@),
    {
        Date::from_parts(parse_ymd(text))
    }

    pub fn year(&self) -> (year: i32)
        ensures
            year == self@.year,
            is_calendar_date(self@.year, self@.month, self@.day),
    {
        proof {
            use_type_invariant(self);
        }
        self.year
    }

    pub fn month(&self) -> (month: u32)
        ensures
            month == self@.month,
            is_calendar_date(self@.year, self@.month, self@.day),
    {
        proof {
            use_type_invariant(self);
        }
        self.month
    }

    pub fn day(&self) -> (day: u32)
        ensures
            day == self@.day,
            is_calendar_date(self@.year, self@.month, self@.day),
    {
        proof {
            use_type_invariant(self);
        }
        self.day
    }

    /// The date written as `YYYY-MM-DD`.
    pub fn text(&self) -> (text: String)
        ensures
            text@ == iso_text(self@),
    {
        proof {
            use_type_invariant(self);
        }
        chrono_date_text(self.year, self.month, self.day)
    }
}

/// The datum bound for a date: its text.
pub open spec fn date_datum(date: Ymd) -> SqlDatum {
    SqlDatum::Text(iso_text(date))
}

/// The datum bound for a date that may be absent.
pub open spec fn date_or_null(date: Option<Ymd>) -> SqlDatum {
    match date {
        Some(date) => date_datum(date),
        None => SqlDatum::Null,
    }
}

/// The value bound for a date.
pub fn date_value(date: &Date) -> (bound: SqlValue)
    ensures
        bound@ == date_datum(date@),
{
    SqlValue::Text(date.text())
}

/// The value bound for a date that may be absent.
pub fn optional_date_value(date: &Option<Date>) -> (bound: SqlValue)
    ensures
        bound@ == date_or_null(date.deep_view()),
{
    match date {
        Some(date) => date_value(date),
        None => SqlValue::Null,
    }
}

/// An instant as seconds since 1970-01-01 00:00:00 UTC and nanoseconds within
/// the second.
pub struct Instant {
    pub secs: i64,
    pub nanos: u32,
}

/// The text under which the store keeps an instant, where `chrono` can
/// represent the instant at all.
pub uninterp spec fn utc_text(secs: i64, nanos: u32) -> Option<Seq<char>>;

/// The instant that the store's own conversion reads in a stored integer or
/// text, if any.
pub uninterp spec fn read_instant(stored: SqlDatum) -> Option<(i64, u32)>;

/// `chrono::DateTime::from_timestamp`, then `format` with `%F %T%.f%:z`, the
/// form in which `rusqlite` stores a `DateTime<Utc>`.
#[verifier::external_body]
fn chrono_utc_text(secs: i64, nanos: u32) -> (text: Option<String>)
    ensures
        text.deep_view() == utc_text(secs, nanos),
{
    chrono::DateTime::from_timestamp(secs, nanos).map(|t| t.format("%F %T%.f%:z").to_string())
}

/// `rusqlite`'s `FromSql::column_result` for `chrono::DateTime<Utc>`, then
/// `timestamp` and `timestamp_subsec_nanos`.
#[verifier::external_body]
fn store_read_instant(stored: &SqlValue) -> (instant: Option<(i64, u32)>)
    requires
        stored@ is Integer || stored@ is Text,
    ensures
        instant == read_instant(stored@),
{
    let value = match stored {
        SqlValue::Integer(n) => rusqlite::types::ValueRef::Integer(*n),
        SqlValue::Text(text) => rusqlite::types::ValueRef::Text(text.as_bytes()),
        _ => rusqlite::types::ValueRef::Null,
    };
    chrono::DateTime::<chrono::Utc>::column_result(value).ok().map(
        |t| (t.timestamp(), t.timestamp_subsec_nanos()),
    )
}

/// The instant that two numbers stand for, where it can be represented.
pub open spec fn instant_of_parts(parts: Option<(i64, u32)>) -> Option<Instant> {
    match parts {
        Some((secs, nanos)) => if utc_text(secs, nanos) is Some {
            Some(Instant { secs, nanos })
        } else {
            None
        },
        None => None,
    }
}

/// The instant that a stored value stands for: none for anything but an integer
/// or a text that the store's conversion accepts.
pub open spec fn instant_of_datum(stored: SqlDatum) -> Option<Instant> {
    if stored is Integer || stored is Text {
        instant_of_parts(read_instant(stored))
    } else {
        None
    }
}

/// The text of an instant; empty for one that cannot be represented.
pub open spec fn instant_text(instant: Instant) -> Seq<char> {
    match utc_text(instant.secs, instant.nanos) {
        Some(text) => text,
        None => Seq::empty(),
    }
}

/// An instant that `chrono` can represent.
#[derive(Clone, Copy, Debug, PartialEq, Eq)]
pub struct Timestamp {
    secs: i64,
    nanos: u32,
}

impl View for Timestamp {
    type V = Instant;

    closed spec fn view(&self) -> Instant {
        Instant { secs: self.secs, nanos: self.nanos }
    }
}

impl DeepView for Timestamp {
    type V = Instant;

    open spec fn deep_view(&self) -> Instant {
        self@
    }
}

impl Timestamp {
    #[verifier::type_invariant]
    spec fn well_formed(self) -> bool {
        utc_text(self.secs, self.nanos) is Some
    }

    /// The instant with these numbers, where it can be represented.
    pub fn new(secs: i64, nanos: u32) -> (instant: Option<Timestamp>)
        ensures
            instant.deep_view() == instant_of_parts(Some((secs, nanos))),
    {
        match chrono_utc_text(secs, nanos) {
            Some(_) => Some(Timestamp { secs, nanos }),
            None => None,
        }
    }

    /// The instant for the numbers that a conversion gave.
    pub fn from_parts(parts: Option<(i64, u32)>) -> (instant: Option<Timestamp>)
        ensures
            instant.deep_view() == instant_of_parts(parts),
    {
        match parts {
            Some((secs, nanos)) => Timestamp::new(secs, nanos),
            None => None,
        }
    }

    /// Reads the instant kept in a stored value.
    pub fn from_stored(stored: &SqlValue) -> (instant: Option<Timestamp>)
        ensures
            instant.deep_view() == instant_of_datum(stored@),
    {
        match stored {
            SqlValue::Integer(_) => Timestamp::from_parts(store_read_instant(stored)),
            SqlValue::Text(_) => Timestamp::from_parts(store_read_instant(stored)),
            _ => None,
        }
    }

    pub fn secs(&self) -> (secs: i64)
        ensures
            secs == self@.secs,
            utc_text(self@.secs, self@.nanos) is Some,
    {
        proof {
            use_type_invariant(self);
        }
        self.secs
    }

    pub fn nanos(&self) -> (nanos: u32)
        ensures
            nanos == self@.nanos,
            utc_text(self@.secs, self@.nanos) is Some,
    {
        proof {
            use_type_invariant(self);
        }
        self.nanos
    }

    /// The text under which the store keeps this instant.
    pub fn text(&self) -> (text: String)
        ensures
            text@ == instant_text(self@),
    {
        proof {
            use_type_invariant(self);
        }
        match chrono_utc_text(self.secs, self.nanos) {
            Some(text) => text,
            None => String::new(),
        }
    }
}

/// The datum bound for an instant that may be absent.
pub open spec fn instant_or_null(instant: Option<Instant>) -> SqlDatum {
    match instant {
        Some(instant) => SqlDatum::Text(instant_text(instant)),
        None => SqlDatum::Null,
    }
}

/// The value bound for an instant that may be absent.
pub fn optional_instant_value(instant: &Option<Timestamp>) -> (bound: SqlValue)
    ensures
        bound@ == instant_or_null(instant.deep_view()),
{
    match instant {
        Some(instant) => SqlValue::Text(instant.text()),
        None => SqlValue::Null,
    }
}

} // verus!

//! The cutoff of a time-windowed run query: a given day, or else the first
//! day of the current month, at midnight UTC.

use vstd::prelude::*;
use chrono::Datelike;
use crate::model::Timestamp;

verus! {

/// The earliest and latest years a calendar date can have here.
pub const MIN_YEAR: i32 = -262143;
pub const MAX_YEAR: i32 = 262142;

pub open spec fn is_leap_year(y: int) -> bool {
    (y % 4 == 0 && y % 100 != 0) || y % 400 == 0
}

pub open spec fn days_in_month(y: int, m: int) -> int {
    if m == 2 {
        if is_leap_year(y) { 29 } else { 28 }
    } else if m == 4 || m == 6 || m == 9 || m == 11 {
        30
    } else {
        31
    }
}

/// A day of the proleptic Gregorian calendar within the supported years.
pub open spec fn valid_date(y: int, m: int, d: int) -> bool {
    &&& MIN_YEAR <= y <= MAX_YEAR
    &&& 1 <= m <= 12
    &&& 1 <= d <= days_in_month(y, m)
}

/// The calendar date that a text in `%Y-%m-%d` form denotes, or `None`.
pub uninterp spec fn parsed_date_of(s: Seq<char>) -> Option<(int, int, int)>;

/// Relies on chrono's `NaiveDate::parse_from_str` with the format `%Y-%m-%d`;
/// a `NaiveDate` is always a valid date within chrono's year range.
#[verifier::external_body]
fn parse_ymd(s: &str) -> (r: Option<(i32, u32, u32)>)
    ensures
        match r {
            None => parsed_date_of(s@) is None,
            Some((y, m, d)) => parsed_date_of(s@) == Some((y as int, m as int, d as int))
                && valid_date(y as int, m as int, d as int),
        },
{
    chrono::NaiveDate::parse_from_str(s, "%Y-%m-%d").ok().map(|d| (d.year(), d.month(), d.day()))
}

/// Days from 1970-01-01 to a date of the proleptic Gregorian calendar
/// (negative before it), counted in 400-year eras of 146097 days with years
/// taken to start in March.
pub open spec fn days_from_civil(y: int, m: int, d: int) -> int {
    let yy = if m <= 2 { y - 1 } else { y };
    let era = yy / 400;
    let yoe = yy - era * 400;
    let mp = (m + 9) % 12;
    let doy = (153 * mp + 2) / 5 + d - 1;
    let doe = yoe * 365 + yoe / 4 - yoe / 100 + doy;
    era * 146097 + doe - 719468
}

/// Seconds since the Unix epoch of midnight UTC at the start of a calendar date.
pub open spec fn midnight_utc_of(y: int, m: int, d: int) -> int {
    days_from_civil(y, m, d) * 86400
}

/// Relies on chrono's `NaiveDate::from_ymd_opt`, `and_hms_opt(0, 0, 0)`,
/// `and_utc` and `timestamp`: the first is `Some` for every valid date, the
/// second for every valid time, and the last counts the seconds from the
/// epoch in the proleptic Gregorian calendar without leap seconds.
#[verifier::external_body]
fn midnight_utc(y: i32, m: u32, d: u32) -> (r: i64)
    requires
        valid_date(y as int, m as int, d as int),
    ensures
        r == midnight_utc_of(y as int, m as int, d as int),
{
    chrono::NaiveDate::from_ymd_opt(y, m, d).unwrap().and_hms_opt(0, 0, 0).unwrap().and_utc().timestamp()
}

/// Relies on std's `SystemTime::now` and chrono's `From<SystemTime>` for
/// `DateTime<Utc>` (which handles instants before the epoch) and `Datelike`:
/// the year and month of the current instant in UTC.
#[verifier::external_body]
fn current_year_month() -> (r: (i32, u32))
    ensures
        MIN_YEAR <= r.0 <= MAX_YEAR,
        1 <= r.1 <= 12,
{
    let now = chrono::DateTime::<chrono::Utc>::from(std::time::SystemTime::now());
    (now.year(), now.month())
}

/// Whole seconds since the Unix epoch of the instant an RFC 3339 text
/// denotes, or `None` where it is not RFC 3339.
pub uninterp spec fn rfc3339_secs_of(s: Seq<char>) -> Option<int>;

/// Relies on chrono's `DateTime::parse_from_rfc3339` and `timestamp`.
#[verifier::external_body]
fn parse_rfc3339(s: &str) -> (r: Option<i64>)
    ensures
        match r {
            None => rfc3339_secs_of(s@) is None,
            Some(t) => rfc3339_secs_of(s@) == Some(t as int),
        },
{
    chrono::DateTime::parse_from_rfc3339(s).ok().map(|t| t.timestamp())
}

/// The instant of an RFC 3339 timestamp as the API writes them
/// (`2020-03-12T08:30:00Z`), or `None` where the text is not one.
pub fn parse_timestamp(s: &str) -> (r: Option<Timestamp>)
    ensures
        match rfc3339_secs_of(s@) {
            None => r is None,
            Some(t) => r matches Some(ts) && ts.secs == t,
        },
{
    match parse_rfc3339(s) {
        None => None,
        Some(secs) => Some(Timestamp { secs }),
    }
}

/// The day a query starts from: the parsed date if there is one, else the
/// first day of the current month.
pub fn since_day(parsed: Option<(i32, u32, u32)>, now: (i32, u32)) -> (r: (i32, u32, u32))
    ensures
        r == match parsed {
            Some(date) => date,
            None => (now.0, now.1, 1u32),
        },
{
    match parsed {
        Some(date) => date,
        None => (now.0, now.1, 1),
    }
}

/// Midnight UTC of the day `timestamp` gives in `%Y-%m-%d` form; where it is
/// absent or does not parse, midnight UTC of the first day of the current month.
pub fn date_or_first_of_the_month(timestamp: Option<&str>) -> (r: Timestamp)
    ensures
        match timestamp {
            Some(s) if parsed_date_of(s@) is Some => {
                let (y, m, d) = parsed_date_of(s@)->Some_0;
                r.secs == midnight_utc_of(y, m, d)
            },
            _ => exists|y: int, m: int| valid_date(y, m, 1) && r.secs == midnight_utc_of(y, m, 1),
        },
{
    let parsed = match timestamp {
        Some(s) => parse_ymd(s),
        None => None,
    };
    let day = match parsed {
        Some(date) => date,
        None => since_day(None, current_year_month()),
    };
    let secs = midnight_utc(day.0, day.1, day.2);
    Timestamp { secs }
}

} // verus!

//! Calendar times reported by the jobs service.
use vstd::prelude::*;

verus! {

#[verifier::external_type_specification]
#[verifier::external_body]
pub struct ExNaiveDate(chrono::NaiveDate);

#[verifier::external_type_specification]
#[verifier::external_body]
pub struct ExNaiveTime(chrono::NaiveTime);

/// A date and time of day split into its parts, as the service reports it.
#[derive(Clone, Copy, Debug, PartialEq, Eq, Structural)]
pub struct DateTimeParts {
    pub year: i32,
    pub month: u32,
    pub day: u32,
    pub hour: u32,
    pub minute: u32,
    pub second: u32,
}

/// Leap years of the proleptic Gregorian calendar.
pub open spec fn is_leap_year(y: int) -> bool {
    y % 4 == 0 && (y % 100 != 0 || y % 400 == 0)
}

pub open spec fn days_in_month(y: int, m: int) -> int {
    if m == 2 {
        if is_leap_year(y) {
            29
        } else {
            28
        }
    } else if m == 4 || m == 6 || m == 9 || m == 11 {
        30
    } else {
        31
    }
}

/// The calendar date exists and lies in the years `chrono` represents.
pub open spec fn spec_date_exists(y: i32, m: u32, d: u32) -> bool {
    &&& -262143 <= y <= 262142
    &&& 1 <= m <= 12
    &&& 1 <= d <= days_in_month(y as int, m as int)
}

/// The time of day exists (no leap second).
pub open spec fn spec_time_exists(h: u32, mi: u32, s: u32) -> bool {
    h < 24 && mi < 60 && s < 60
}

pub open spec fn spec_date_time_exists(p: DateTimeParts) -> bool {
    spec_date_exists(p.year, p.month, p.day) && spec_time_exists(p.hour, p.minute, p.second)
}

/// The date `chrono::NaiveDate::from_ymd_opt` makes of a year, month and day.
pub uninterp spec fn naive_date_ymd(year: i32, month: u32, day: u32) -> chrono::NaiveDate;

/// The time of day `chrono::NaiveTime::from_hms_opt` makes of an hour,
/// minute and second.
pub uninterp spec fn naive_time_hms(hour: u32, minute: u32, second: u32) -> chrono::NaiveTime;

/// The date and time `chrono::NaiveDateTime::new` joins from a date and a
/// time of day.
pub uninterp spec fn naive_date_time(date: chrono::NaiveDate, time: chrono::NaiveTime) -> chrono::NaiveDateTime;

/// `chrono::NaiveDate::from_ymd_opt`: a date exactly when the calendar date
/// exists and the year lies in `NaiveDate::MIN ..= NaiveDate::MAX`, as its
/// documentation states; the date is the named one of its arguments.
#[verifier::external_body]
fn date_from_ymd(year: i32, month: u32, day: u32) -> (r: Option<chrono::NaiveDate>)
    ensures
        r is Some <==> spec_date_exists(year, month, day),
        r matches Some(d) ==> d == naive_date_ymd(year, month, day),
{
    chrono::NaiveDate::from_ymd_opt(year, month, day)
}

/// `chrono::NaiveTime::from_hms_opt`: a time exactly when hour, minute and
/// second are in range, as its documentation states; the time is the named
/// one of its arguments.
#[verifier::external_body]
fn time_from_hms(hour: u32, minute: u32, second: u32) -> (r: Option<chrono::NaiveTime>)
    ensures
        r is Some <==> spec_time_exists(hour, minute, second),
        r matches Some(t) ==> t == naive_time_hms(hour, minute, second),
{
    chrono::NaiveTime::from_hms_opt(hour, minute, second)
}

/// `chrono::NaiveDateTime::new`, which joins a date and a time: the contract
/// claims only that the result is the named join of both arguments.
#[verifier::external_body]
fn date_time_new(date: chrono::NaiveDate, time: chrono::NaiveTime) -> (r: chrono::NaiveDateTime)
    ensures
        r == naive_date_time(date, time),
{
    chrono::NaiveDateTime::new(date, time)
}

/// The date and time that reported parts name, when there are parts and
/// they name an existing date and time.
pub open spec fn date_time_of(parts: Option<DateTimeParts>) -> Option<chrono::NaiveDateTime> {
    match parts {
        Some(p) => if spec_date_time_exists(p) {
            Some(
                naive_date_time(
                    naive_date_ymd(p.year, p.month, p.day),
                    naive_time_hms(p.hour, p.minute, p.second),
                ),
            )
        } else {
            None
        },
        None => None,
    }
}

/// The date and time of reported parts, when there are parts and they name
/// an existing date and time.
pub fn covert_date_time(parts: Option<DateTimeParts>) -> (r: Option<chrono::NaiveDateTime>)
    ensures
        r == date_time_of(parts),
{
    match parts {
        Some(p) => {
            let date = date_from_ymd(p.year, p.month, p.day);
            let time = time_from_hms(p.hour, p.minute, p.second);
            match (date, time) {
                (Some(d), Some(t)) => Some(date_time_new(d, t)),
                _ => None,
            }
        },
        None => None,
    }
}

} // verus!

//! Calendar arithmetic as the `time` crate does it, on plain values.
use vstd::prelude::*;

use crate::calendar::OffsetDateTime;

verus! {

/// The error of the `time` crate for a date or a time of day that does not exist.
#[verifier::external_type_specification]
#[verifier::external_body]
pub struct ExComponentRange(time::error::ComponentRange);

/// Calls `time::Date::from_calendar_date`, the month given by its number through
/// `time::Month::try_from`. Claimed of it: it accepts exactly the dates of the proleptic Gregorian
/// calendar from year -9999 to year 9999, and the date it makes has the given year, month and day.
#[verifier::external_body]
pub(crate) fn calendar_date(year: i32, month: u8, day: u8) -> (date: Result<
    (i32, u8, u8),
    time::error::ComponentRange,
>)
    ensures
        date is Ok <==> crate::calendar::is_date(year as int, month as int, day as int),
        date matches Ok(d) ==> d == (year, month, day),
{
    let date = time::Date::from_calendar_date(year, time::Month::try_from(month)?, day)?;
    Ok((date.year(), u8::from(date.month()), date.day()))
}

/// Calls `time::Time::from_hms`. Claimed of it: it accepts exactly the hours up to 23 and the
/// minutes and seconds up to 59, and the time of day it makes has the given parts.
#[verifier::external_body]
pub(crate) fn time_of_day(hour: u8, minute: u8, second: u8) -> (time: Result<
    (u8, u8, u8),
    time::error::ComponentRange,
>)
    ensures
        time is Ok <==> crate::calendar::is_time(hour as int, minute as int, second as int),
        time matches Ok(t) ==> t == (hour, minute, second),
{
    Ok(time::Time::from_hms(hour, minute, second)?.as_hms())
}

/// Calls `time::OffsetDateTime::weekday` and counts from Sunday with
/// `time::Weekday::number_days_from_sunday`. Claimed of it: the weekdays follow one another from
/// day to day, and the first day of year 1 was a Monday.
#[verifier::external_body]
pub(crate) fn number_days_from_sunday(dt: OffsetDateTime) -> (days: u8)
    requires
        dt.valid(),
    ensures
        days == dt.days_from_sunday(),
{
    let month = time::Month::try_from(dt.month).unwrap();
    let date = time::Date::from_calendar_date(dt.year, month, dt.day).unwrap();
    let time = time::Time::from_hms(dt.hour, dt.minute, dt.second).unwrap();
    let offset = time::UtcOffset::from_whole_seconds(dt.offset).unwrap();
    time::OffsetDateTime::new_in_offset(date, time, offset).weekday().number_days_from_sunday()
}

/// Calls `time::OffsetDateTime::unix_timestamp`. Claimed of it: it counts the seconds from the
/// start of 1970 in UTC, at 86400 seconds to the day.
#[verifier::external_body]
pub(crate) fn unix_timestamp(dt: OffsetDateTime) -> (seconds: i64)
    requires
        dt.valid(),
    ensures
        seconds == dt.unix_seconds(),
{
    let month = time::Month::try_from(dt.month).unwrap();
    let date = time::Date::from_calendar_date(dt.year, month, dt.day).unwrap();
    let time = time::Time::from_hms(dt.hour, dt.minute, dt.second).unwrap();
    let offset = time::UtcOffset::from_whole_seconds(dt.offset).unwrap();
    time::OffsetDateTime::new_in_offset(date, time, offset).unix_timestamp()
}

/// Calls `time::OffsetDateTime::saturating_add` with the `time::Duration` of `seconds`. Claimed of
/// it: the clock moves by that many seconds, stops at the first second of year -9999 and at the
/// last second of year 9999, and keeps its offset.
#[verifier::external_body]
pub(crate) fn saturating_add_seconds(dt: OffsetDateTime, seconds: i64) -> (moved: OffsetDateTime)
    requires
        dt.valid(),
    ensures
        moved.valid(),
        moved.offset == dt.offset,
        moved.local_seconds() == crate::calendar::clamp_local_seconds(
            dt.local_seconds() + seconds,
        ),
{
    let month = time::Month::try_from(dt.month).unwrap();
    let date = time::Date::from_calendar_date(dt.year, month, dt.day).unwrap();
    let time = time::Time::from_hms(dt.hour, dt.minute, dt.second).unwrap();
    let offset = time::UtcOffset::from_whole_seconds(dt.offset).unwrap();
    let start = time::OffsetDateTime::new_in_offset(date, time, offset);
    let moved = start.saturating_add(time::Duration::seconds(seconds));
    let (year, month, day) = moved.to_calendar_date();
    let (hour, minute, second) = moved.to_hms();
    let (month, offset) = (u8::from(month), moved.offset().whole_seconds());
    OffsetDateTime { year, month, day, hour, minute, second, offset }
}

} // verus!

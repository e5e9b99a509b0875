//! The proleptic Gregorian calendar: which dates exist, how they are counted, and a date and time
//! of day at a known distance from UTC.
use vstd::prelude::*;

verus! {

/// The first year that a date can lie in.
pub const MIN_YEAR: i32 = -9999;

/// The last year that a date can lie in.
pub const MAX_YEAR: i32 = 9999;

/// The largest distance from UTC, in seconds: 25 hours, 59 minutes and 59 seconds.
pub const MAX_OFFSET: i32 = 93_599;

/// Years divisible by four are leap years, but of the centuries only every fourth one.
pub open spec fn is_leap_year(year: int) -> bool {
    year % 4 == 0 && (year % 100 != 0 || year % 400 == 0)
}

pub open spec fn days_in_month(year: int, month: int) -> int {
    if month == 2 {
        if is_leap_year(year) {
            29
        } else {
            28
        }
    } else if month == 4 || month == 6 || month == 9 || month == 11 {
        30
    } else {
        31
    }
}

/// The date exists, and lies in the supported years.
pub open spec fn is_date(year: int, month: int, day: int) -> bool {
    &&& MIN_YEAR <= year <= MAX_YEAR
    &&& 1 <= month <= 12
    &&& 1 <= day <= days_in_month(year, month)
}

/// The time of day exists.
pub open spec fn is_time(hour: int, minute: int, second: int) -> bool {
    &&& 0 <= hour <= 23
    &&& 0 <= minute <= 59
    &&& 0 <= second <= 59
}

/// The days between the start of year 1 and the start of `year`; negative for earlier years.
pub open spec fn days_before_year(year: int) -> int {
    365 * (year - 1) + (year - 1) / 4 - (year - 1) / 100 + (year - 1) / 400
}

/// The days of `year` that lie before the first of `month`.
pub open spec fn days_before_month(year: int, month: int) -> int
    decreases month,
{
    if month <= 1 {
        0
    } else {
        days_before_month(year, month - 1) + days_in_month(year, month - 1)
    }
}

/// The number of the day, counted so that the first of January of year 1, a Monday, is day 1.
#[verifier::opaque]
pub open spec fn day_number(year: int, month: int, day: int) -> int {
    days_before_year(year) + days_before_month(year, month) + day
}

/// The day number of the first of January 1970.
pub open spec fn unix_epoch_day() -> int {
    day_number(1970, 1, 1)
}

/// A date and a time of day, to the second, as a clock shows them that runs `offset` seconds
/// ahead of UTC.
#[derive(Copy, Clone, Debug, PartialEq, Eq, Structural)]
pub struct OffsetDateTime {
    pub year: i32,
    /// 1 to 12
    pub month: u8,
    /// 1 to 31, as the month allows
    pub day: u8,
    pub hour: u8,
    pub minute: u8,
    pub second: u8,
    /// Seconds east of UTC
    pub offset: i32,
}

impl OffsetDateTime {
    /// The date and the time of day exist, and the offset is one that a clock can have.
    pub open spec fn valid(self) -> bool {
        &&& is_date(self.year as int, self.month as int, self.day as int)
        &&& is_time(self.hour as int, self.minute as int, self.second as int)
        &&& -MAX_OFFSET <= self.offset <= MAX_OFFSET
    }

    /// The number of the day that the clock shows.
    pub open spec fn day_number(self) -> int {
        day_number(self.year as int, self.month as int, self.day as int)
    }

    /// The seconds that have passed since midnight on the clock.
    pub open spec fn second_of_day(self) -> int {
        self.hour * 3600 + self.minute * 60 + self.second
    }

    /// The time that the clock shows, as one count of seconds.
    pub open spec fn local_seconds(self) -> int {
        self.day_number() * 86400 + self.second_of_day()
    }

    /// The days from Sunday to the day that the clock shows.
    pub open spec fn days_from_sunday(self) -> int {
        self.day_number() % 7
    }

    /// The seconds from the start of 1970 in UTC to the moment that the clock shows.
    pub open spec fn unix_seconds(self) -> int {
        self.local_seconds() - unix_epoch_day() * 86400 - self.offset
    }
}

/// The earliest time that a clock can show, as a count of seconds.
pub open spec fn min_local_seconds() -> int {
    day_number(MIN_YEAR as int, 1, 1) * 86400
}

/// The latest time that a clock can show, as a count of seconds.
pub open spec fn max_local_seconds() -> int {
    day_number(MAX_YEAR as int, 12, 31) * 86400 + 86399
}

/// `value` moved into the times that a clock can show.
pub open spec fn clamp_local_seconds(value: int) -> int {
    if value < min_local_seconds() {
        min_local_seconds()
    } else if value > max_local_seconds() {
        max_local_seconds()
    } else {
        value
    }
}

/// What a clock `offset` seconds ahead of UTC shows at the count `seconds`.
pub open spec fn at_local_seconds(seconds: int, offset: i32) -> OffsetDateTime {
    choose|dt: OffsetDateTime|
        #![trigger dt.local_seconds()]
        dt.valid() && dt.offset == offset && dt.local_seconds() == seconds
}

/// The time that the clock shows once `seconds` have passed, or the end of the calendar where it
/// would leave it.
pub open spec fn moved_by(dt: OffsetDateTime, seconds: int) -> OffsetDateTime {
    at_local_seconds(clamp_local_seconds(dt.local_seconds() + seconds), dt.offset)
}

/// A year is as long as its months together.
#[verifier::spinoff_prover]
#[verifier::rlimit(40)]
pub(crate) proof fn lemma_year_length(year: int)
    ensures
        days_before_month(year, 13) == days_before_year(year + 1) - days_before_year(year),
        days_before_month(year, 13) == if is_leap_year(year) { 366int } else { 365int },
{
    reveal_with_fuel(days_before_month, 14);
}

/// Within a year, the days before a month grow with the month.
proof fn lemma_month_order(year: int, a: int, b: int)
    requires
        1 <= a < b <= 13,
    ensures
        days_before_month(year, a) + days_in_month(year, a) <= days_before_month(year, b),
    decreases b - a,
{
    if a + 1 < b {
        lemma_month_order(year, a, b - 1);
    }
}

/// The days before a year grow with the year, by a year's days at least.
proof fn lemma_year_order(a: int, b: int)
    requires
        a < b,
    ensures
        days_before_year(a) + days_before_month(a, 13) <= days_before_year(b),
    decreases b - a,
{
    lemma_year_length(a);
    if a + 1 < b {
        lemma_year_length(b - 1);
        lemma_year_order(a, b - 1);
    }
}

/// Days that come later have greater numbers.
pub proof fn law_day_number_order(y1: int, m1: int, d1: int, y2: int, m2: int, d2: int)
    requires
        is_date(y1, m1, d1),
        is_date(y2, m2, d2),
        y1 < y2 || (y1 == y2 && (m1 < m2 || (m1 == m2 && d1 < d2))),
    ensures
        day_number(y1, m1, d1) < day_number(y2, m2, d2),
{
    reveal(day_number);
    if y1 < y2 {
        lemma_year_order(y1, y2);
        lemma_month_order(y1, m1, 13);
        if 1 < m2 {
            lemma_month_order(y2, 1, m2);
        }
    } else if m1 < m2 {
        lemma_month_order(y1, m1, m2);
    }
}

/// Two clocks with the same offset and the same count of seconds show the same.
pub proof fn law_local_seconds_determine(a: OffsetDateTime, b: OffsetDateTime)
    requires
        a.valid(),
        b.valid(),
        a.offset == b.offset,
        a.local_seconds() == b.local_seconds(),
    ensures
        a == b,
{
    let (ay, am, ad) = (a.year as int, a.month as int, a.day as int);
    let (by_, bm, bd) = (b.year as int, b.month as int, b.day as int);
    assert(a.day_number() == b.day_number());
    if ay < by_ || (ay == by_ && (am < bm || (am == bm && ad < bd))) {
        law_day_number_order(ay, am, ad, by_, bm, bd);
    } else if by_ < ay || (by_ == ay && (bm < am || (bm == am && bd < ad))) {
        law_day_number_order(by_, bm, bd, ay, am, ad);
    }
}

/// Every day number between the first and the last day of the calendar is that of a date.
proof fn lemma_date_exists(n: int) -> (ymd: (int, int, int))
    requires
        day_number(MIN_YEAR as int, 1, 1) <= n <= day_number(MAX_YEAR as int, 12, 31),
    ensures
        is_date(ymd.0, ymd.1, ymd.2),
        day_number(ymd.0, ymd.1, ymd.2) == n,
    decreases n - day_number(MIN_YEAR as int, 1, 1),
{
    reveal(day_number);
    if n == day_number(MIN_YEAR as int, 1, 1) {
        (MIN_YEAR as int, 1, 1)
    } else {
        let (y, m, d) = lemma_date_exists(n - 1);
        if d < days_in_month(y, m) {
            (y, m, d + 1)
        } else if m < 12 {
            (y, m + 1, 1)
        } else {
            lemma_year_length(y);
            (y + 1, 1, 1)
        }
    }
}

/// Every count of seconds within the calendar is shown by a clock of every offset.
pub proof fn law_every_second_is_shown(seconds: int, offset: i32)
    requires
        min_local_seconds() <= seconds <= max_local_seconds(),
        -MAX_OFFSET <= offset <= MAX_OFFSET,
    ensures
        at_local_seconds(seconds, offset).valid(),
        at_local_seconds(seconds, offset).offset == offset,
        at_local_seconds(seconds, offset).local_seconds() == seconds,
{
    let (y, m, d) = lemma_date_exists(seconds / 86400);
    let s = seconds % 86400;
    let dt = OffsetDateTime {
        year: y as i32,
        month: m as u8,
        day: d as u8,
        hour: (s / 3600) as u8,
        minute: (s % 3600 / 60) as u8,
        second: (s % 60) as u8,
        offset,
    };
    assert(dt.valid() && dt.offset == offset && dt.local_seconds() == seconds);
}

/// Only one clock shows the time that another has moved to.
pub proof fn law_moved_by(dt: OffsetDateTime, seconds: int)
    requires
        dt.valid(),
    ensures
        moved_by(dt, seconds).valid(),
        moved_by(dt, seconds).offset == dt.offset,
        moved_by(dt, seconds).local_seconds() == clamp_local_seconds(dt.local_seconds() + seconds),
        forall|other: OffsetDateTime|
            #![trigger other.local_seconds()]
            other.valid() && other.offset == dt.offset && other.local_seconds()
                == clamp_local_seconds(dt.local_seconds() + seconds) ==> other == moved_by(
                dt,
                seconds,
            ),
{
    let target = clamp_local_seconds(dt.local_seconds() + seconds);
    assert(min_local_seconds() <= max_local_seconds()) by {
        law_day_number_order(MIN_YEAR as int, 1, 1, MAX_YEAR as int, 12, 31);
    }
    law_every_second_is_shown(target, dt.offset);
    assert forall|other: OffsetDateTime|
        #![trigger other.local_seconds()]
        other.valid() && other.offset == dt.offset && other.local_seconds() == target implies other
        == moved_by(dt, seconds) by {
        law_local_seconds_determine(other, moved_by(dt, seconds));
    }
}

/// No clock shows a time outside the calendar.
pub proof fn law_within_calendar(dt: OffsetDateTime)
    requires
        dt.valid(),
    ensures
        min_local_seconds() <= dt.local_seconds() <= max_local_seconds(),
{
    let (y, m, d) = (dt.year as int, dt.month as int, dt.day as int);
    if (y, m, d) != (MIN_YEAR as int, 1int, 1int) {
        law_day_number_order(MIN_YEAR as int, 1, 1, y, m, d);
    }
    if (y, m, d) != (MAX_YEAR as int, 12int, 31int) {
        law_day_number_order(y, m, d, MAX_YEAR as int, 12, 31);
    }
}

/// The seconds since 1970 of every clock fit in an `i64`, with room to spare.
pub proof fn law_unix_seconds_fit(dt: OffsetDateTime)
    requires
        dt.valid(),
    ensures
        -400_000_000_000 < dt.unix_seconds() < 400_000_000_000,
{
    reveal(day_number);
    law_within_calendar(dt);
    reveal_with_fuel(days_before_month, 12);
}

/// A clock that has moved to a time between the ends of the calendar was not stopped there.
pub proof fn law_inner_year_is_not_clamped(dt: OffsetDateTime, seconds: int)
    requires
        dt.valid(),
        MIN_YEAR < moved_by(dt, seconds).year < MAX_YEAR,
    ensures
        moved_by(dt, seconds).local_seconds() == dt.local_seconds() + seconds,
{
    let moved = moved_by(dt, seconds);
    law_moved_by(dt, seconds);
    let (y, m, d) = (moved.year as int, moved.month as int, moved.day as int);
    law_day_number_order(MIN_YEAR as int, 1, 1, y, m, d);
    law_day_number_order(y, m, d, MAX_YEAR as int, 12, 31);
}

/// A clock that is moved back by more than the calendar's length stops at its first second.
pub proof fn law_stops_at_first_second(dt: OffsetDateTime, seconds: int)
    requires
        dt.valid(),
        seconds < -700_000_000_000,
    ensures
        clamp_local_seconds(dt.local_seconds() + seconds) == min_local_seconds(),
{
    law_within_calendar(dt);
    reveal(day_number);
    reveal_with_fuel(days_before_month, 12);
}

} // verus!

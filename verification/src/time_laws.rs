//! What numbers, dates and clocks come to: each law relates what goes into an operation to what
//! comes out of it, digit by digit and byte by byte.
use vstd::prelude::*;

use crate::calendar::OffsetDateTime;
use crate::rtc::RtcState;

verus! {

/// The nibbles of an encoded number are its tens and its ones; tens that a nibble cannot hold have
/// wrapped round.
pub proof fn law_encoded_nibbles(data: u8)
    ensures
        crate::bcd::bcd_byte(data) % 16 == data % 10,
        data < 160 ==> crate::bcd::bcd_byte(data) / 16 == data / 10,
        data >= 160 ==> crate::bcd::bcd_byte(data) / 16 == data / 10 - 16,
{
}

/// A decoded number exceeds ten times the upper nibble by the lower nibble.
pub proof fn law_decoded_nibbles(bcd: u8)
    ensures
        crate::bcd::bcd_value(bcd) - 10 * (bcd / 16) == bcd % 16,
{
}

/// Each byte of a word counts 256 times as much as the one before it.
pub proof fn law_joined_bytes(b0: u8, b1: u8, b2: u8, b3: u8)
    ensures
        crate::words::le_u32(b0, b1, b2, b3) == b0 + 0x100 * (b1 + 0x100 * (b2 + 0x100 * b3)),
{
}

/// A word is made up of its bytes, each of which counts 256 times as much as the one before it.
pub proof fn law_split_bytes(word: u32)
    ensures
        crate::words::byte_of_u32(word, 0) + 0x100 * crate::words::byte_of_u32(word, 1) + 0x1_0000
            * crate::words::byte_of_u32(word, 2) + 0x100_0000 * crate::words::byte_of_u32(word, 3)
            == word,
{
}

/// Each of eight bytes counts 256 times as much as the one before it.
pub proof fn law_joined_eight_bytes(bytes: Seq<u8>)
    requires
        bytes.len() == 8,
    ensures
        crate::words::le_u64(bytes) == bytes[0] + 0x100 * bytes[1] + 0x1_0000 * bytes[2]
            + 0x100_0000 * bytes[3] + 0x1_0000_0000 * bytes[4] + 0x100_0000_0000 * bytes[5]
            + 0x1_0000_0000_0000 * bytes[6] + 0x100_0000_0000_0000 * bytes[7],
{
    reveal(crate::words::le_u64);
}

/// An eight-byte word is made up of its bytes, each of which counts 256 times as much as the one
/// before it.
#[verifier::spinoff_prover]
#[verifier::rlimit(40)]
pub proof fn law_split_eight_bytes(word: u64)
    ensures
        crate::words::le_bytes_of_u64(word).len() == 8,
        ({
            let bytes = crate::words::le_bytes_of_u64(word);
            bytes[0] + 0x100 * bytes[1] + 0x1_0000 * bytes[2] + 0x100_0000 * bytes[3]
                + 0x1_0000_0000 * bytes[4] + 0x100_0000_0000 * bytes[5] + 0x1_0000_0000_0000
                * bytes[6] + 0x100_0000_0000_0000 * bytes[7] == word
        }),
{
    reveal(crate::words::le_bytes_of_u64);
    law_split_bytes((word % 0x1_0000_0000) as u32);
    law_split_bytes((word / 0x1_0000_0000) as u32);
}

/// Thirty days have April, June, September and November, February has 28 or, every fourth year but
/// three centuries in four, 29, and all the rest have 31.
pub proof fn law_month_lengths(year: int, month: int)
    requires
        1 <= month <= 12,
    ensures
        month == 4 || month == 6 || month == 9 || month == 11 <==> crate::calendar::days_in_month(
            year,
            month,
        ) == 30,
        month == 2 && year % 4 == 0 && (year % 100 != 0 || year % 400 == 0)
            <==> crate::calendar::days_in_month(year, month) == 29,
        month == 2 && (year % 4 != 0 || (year % 100 == 0 && year % 400 != 0))
            <==> crate::calendar::days_in_month(year, month) == 28,
        28 <= crate::calendar::days_in_month(year, month) <= 31,
{
}

/// A clock can show every existing time of every existing day from year -9999 to year 9999, at
/// every offset up to 25:59:59, and nothing else.
pub proof fn law_times_that_exist(dt: OffsetDateTime)
    ensures
        dt.valid() <==> {
            &&& -9999 <= dt.year <= 9999
            &&& 1 <= dt.month <= 12
            &&& 1 <= dt.day <= crate::calendar::days_in_month(dt.year as int, dt.month as int)
            &&& dt.hour <= 23
            &&& dt.minute <= 59
            &&& dt.second <= 59
            &&& -93_599 <= dt.offset <= 93_599
        },
{
}

/// The last month of a year ends where the next year starts.
#[verifier::spinoff_prover]
#[verifier::rlimit(40)]
proof fn lemma_year_ends(year: int)
    ensures
        crate::calendar::days_before_year(year) + crate::calendar::days_before_month(year, 12) + 31
            == crate::calendar::days_before_year(year + 1),
{
    crate::calendar::lemma_year_length(year);
    assert(crate::calendar::days_before_month(year, 13) == crate::calendar::days_before_month(
        year,
        12,
    ) + 31);
}

/// The days are numbered without gaps, from one month to the next and from one year to the next.
#[verifier::spinoff_prover]
#[verifier::rlimit(40)]
pub proof fn law_days_are_consecutive(year: int, month: int, day: int)
    requires
        1 <= month <= 12,
        1 <= day <= crate::calendar::days_in_month(year, month),
    ensures
        ({
            let next = crate::calendar::day_number(year, month, day) + 1;
            if day < crate::calendar::days_in_month(year, month) {
                next == crate::calendar::day_number(year, month, day + 1)
            } else if month < 12 {
                next == crate::calendar::day_number(year, month + 1, 1)
            } else {
                next == crate::calendar::day_number(year + 1, 1, 1)
            }
        }),
{
    reveal(crate::calendar::day_number);
    if month < 12 {
        assert(crate::calendar::days_before_month(year, month + 1)
            == crate::calendar::days_before_month(year, month) + crate::calendar::days_in_month(
            year,
            month,
        ));
    } else {
        lemma_year_ends(year);
        assert(crate::calendar::days_before_month(year + 1, 1) == 0);
    }
}

/// The first of January 1970 is day 719163, a Thursday, and the seconds of Unix time are counted
/// from its start in UTC.
#[verifier::spinoff_prover]
#[verifier::rlimit(40)]
pub proof fn law_unix_epoch(dt: OffsetDateTime)
    ensures
        crate::calendar::day_number(1970, 1, 1) == 719_163,
        dt.unix_seconds() == (crate::calendar::day_number(
            dt.year as int,
            dt.month as int,
            dt.day as int,
        ) - 719_163) * 86_400 + dt.hour * 3_600 + dt.minute * 60 + dt.second - dt.offset,
        dt.days_from_sunday() == (crate::calendar::day_number(
            dt.year as int,
            dt.month as int,
            dt.day as int,
        ) - 719_163 + 4) % 7,
{
    reveal(crate::calendar::day_number);
    assert(crate::calendar::days_before_month(1970, 1) == 0);
}

/// A clock that moves shows a time that lies exactly so many seconds away, unless the calendar ends
/// before: then it shows the calendar's first or last second.
#[verifier::spinoff_prover]
#[verifier::rlimit(40)]
pub proof fn law_clock_moves(dt: OffsetDateTime, seconds: int)
    requires
        dt.valid(),
    ensures
        ({
            let moved = crate::calendar::moved_by(dt, seconds);
            &&& moved.valid()
            &&& moved.offset == dt.offset
            &&& {
                ||| moved.unix_seconds() == dt.unix_seconds() + seconds
                ||| {
                    &&& moved.unix_seconds() > dt.unix_seconds() + seconds
                    &&& (moved.year, moved.month, moved.day) == (-9999i32, 1u8, 1u8)
                    &&& (moved.hour, moved.minute, moved.second) == (0u8, 0u8, 0u8)
                }
                ||| {
                    &&& moved.unix_seconds() < dt.unix_seconds() + seconds
                    &&& (moved.year, moved.month, moved.day) == (9999i32, 12u8, 31u8)
                    &&& (moved.hour, moved.minute, moved.second) == (23u8, 59u8, 59u8)
                }
            }
        }),
{
    let first = OffsetDateTime {
        year: -9999i32,
        month: 1,
        day: 1,
        hour: 0,
        minute: 0,
        second: 0,
        offset: dt.offset,
    };
    let last = OffsetDateTime {
        year: 9999,
        month: 12,
        day: 31,
        hour: 23,
        minute: 59,
        second: 59,
        offset: dt.offset,
    };
    assert(first.local_seconds() == crate::calendar::min_local_seconds());
    assert(last.local_seconds() == crate::calendar::max_local_seconds());
    crate::calendar::law_moved_by(dt, seconds);
}

/// Whole weeks make no difference to a weekday.
proof fn lemma_weekday_wraps(n: int, count: int)
    ensures
        (n % 7 + count) % 7 == (n + count) % 7,
{
    assert(n + count == 7 * (n / 7) + (n % 7 + count));
    vstd::arithmetic::div_mod::lemma_mod_multiples_vanish(n / 7, n % 7 + count, 7);
}

/// What is left of a weekday once the days of its week are taken off, counted on by those days,
/// gives the weekday.
proof fn lemma_weekday_is_met(n: int, w: int)
    ensures
        ((w + 7 - n % 7) % 7 + n) % 7 == w % 7,
{
    let rest = w + 7 - n % 7;
    lemma_weekday_wraps(rest, n);
    assert(rest + n == 7 * (n / 7 + 1) + w);
    vstd::arithmetic::div_mod::lemma_mod_multiples_vanish(n / 7 + 1, w, 7);
}

/// A clock is set digit by digit: each register holds the tens and the ones of its own part of the
/// time, the weekday is counted on from Sunday, and the format is the 24-hour one.
#[verifier::spinoff_prover]
#[verifier::rlimit(40)]
pub proof fn law_clock_is_set_by_digits(dt: OffsetDateTime, sunday_offset: int)
    requires
        dt.month < 100,
        dt.day < 100,
        dt.hour < 100,
        dt.minute < 100,
        dt.second < 100,
    ensures
        ({
            let state = RtcState::showing(dt, sunday_offset);
            &&& state.month / 16 == dt.month / 10
            &&& state.month % 16 == dt.month % 10
            &&& state.day / 16 == dt.day / 10
            &&& state.day % 16 == dt.day % 10
            &&& state.hour / 16 == dt.hour / 10
            &&& state.hour % 16 == dt.hour % 10
            &&& state.minute / 16 == dt.minute / 10
            &&& state.minute % 16 == dt.minute % 10
            &&& state.second / 16 == dt.second / 10
            &&& state.second % 16 == dt.second % 10
            &&& state.weekday == (crate::calendar::day_number(
                dt.year as int,
                dt.month as int,
                dt.day as int,
            ) + sunday_offset) % 7
            &&& state.status == 0x40
        }),
{
    law_encoded_nibbles(dt.month);
    law_encoded_nibbles(dt.day);
    law_encoded_nibbles(dt.hour);
    law_encoded_nibbles(dt.minute);
    law_encoded_nibbles(dt.second);
    let n = dt.day_number();
    lemma_weekday_wraps(n, sunday_offset);
    let weekday = ((n % 7 + sunday_offset) % 7) as u8;
    assert(crate::bcd::bcd_byte(weekday) == weekday);
}

/// The last two digits of a year, and how far they lie below zero before year 0.
#[verifier::spinoff_prover]
#[verifier::rlimit(40)]
proof fn lemma_last_two_digits(year: int)
    ensures
        year % 100 / 10 == year / 10 % 10,
        year % 100 % 10 == year % 10,
        year % 100 != 0 ==> (-year) % 100 == 100 - year % 100,
        year % 100 == 0 ==> (-year) % 100 == 0,
{
}

/// The year register holds the last two digits of a year from year 0 on. Before year 0 it holds
/// the byte from which they are taken away, with its tens wrapped round.
#[verifier::spinoff_prover]
#[verifier::rlimit(40)]
pub proof fn law_year_is_set_by_digits(dt: OffsetDateTime, sunday_offset: int)
    ensures
        ({
            let register = RtcState::showing(dt, sunday_offset).year as int;
            let year = dt.year as int;
            &&& year >= 0 ==> register / 16 == year / 10 % 10 && register % 16 == year % 10
            &&& year < 0 && year % 100 == 0 ==> register == 0
            &&& year < 0 && year % 100 != 0 ==> register / 16 == (156 + year % 100) / 10 % 16
                && register % 16 == (156 + year % 100) % 10
        }),
{
    let year = dt.year as int;
    let byte = crate::rtc::year_byte(year);
    lemma_last_two_digits(year);
    assert(year >= 0 ==> byte == year % 100);
    assert(year < 0 && year % 100 == 0 ==> byte == 0);
    assert(year < 0 && year % 100 != 0 ==> byte == 156 + year % 100);
    law_encoded_nibbles(byte);
}

/// A clock is read digit by digit: each part of the time is ten times the upper nibble of its own
/// register plus the lower nibble. In the 12-hour format the upper bit of the hour register adds
/// twelve hours instead.
#[verifier::spinoff_prover]
#[verifier::rlimit(40)]
pub proof fn law_clock_is_read_by_digits(state: RtcState)
    ensures
        ({
            let dt = state.date_time();
            &&& dt.year == 2000 + 10 * (state.year / 16) + state.year % 16
            &&& dt.month == 10 * (state.month / 16) + state.month % 16
            &&& dt.day == 10 * (state.day / 16) + state.day % 16
            &&& dt.minute == 10 * (state.minute / 16) + state.minute % 16
            &&& dt.second == 10 * (state.second / 16) + state.second % 16
            &&& dt.offset == 0
            &&& state.status / 0x40 % 2 == 1 || state.hour < 0x80 ==> dt.hour == 10 * (state.hour
                / 16) + state.hour % 16
            &&& state.status / 0x40 % 2 == 0 && state.hour >= 0x80 ==> dt.hour == 12 + 10 * (
            state.hour / 16 - 8) + state.hour % 16
        }),
{
    law_decoded_nibbles(state.year);
    law_decoded_nibbles(state.month);
    law_decoded_nibbles(state.day);
    law_decoded_nibbles(state.hour);
    law_decoded_nibbles(state.minute);
    law_decoded_nibbles(state.second);
    if state.hour >= 0x80 {
        law_decoded_nibbles((state.hour - 0x80) as u8);
    }
}

/// A clock shows a time exactly where the date and the time of day that its digits spell exist.
pub proof fn law_digits_that_show_a_time(state: RtcState)
    ensures
        state.shows_time() <==> {
            let dt = state.date_time();
            &&& 1 <= dt.month <= 12
            &&& 1 <= dt.day <= crate::calendar::days_in_month(dt.year as int, dt.month as int)
            &&& dt.hour <= 23
            &&& dt.minute <= 59
            &&& dt.second <= 59
        },
{
    law_clock_is_read_by_digits(state);
}

/// The count on Sunday that is read off a clock, counted on to the clock's day, gives its weekday.
#[verifier::spinoff_prover]
#[verifier::rlimit(40)]
pub proof fn law_weekday_is_counted_from_sunday(state: RtcState)
    ensures
        state.sunday_offset() <= 6,
        ({
            let dt = state.date_time();
            (state.sunday_offset() + crate::calendar::day_number(
                dt.year as int,
                dt.month as int,
                dt.day as int,
            )) % 7 == (10 * (state.weekday / 16) + state.weekday % 16) % 7
        }),
{
    law_decoded_nibbles(state.weekday);
    let n = state.date_time().day_number();
    let w = crate::bcd::bcd_value(state.weekday) as int;
    lemma_weekday_is_met(n, w);
}

/// The word at the lower address holds year, month, day and weekday, the other one hour, minute,
/// second and status, each from the lowest byte up.
#[verifier::spinoff_prover]
#[verifier::rlimit(40)]
pub proof fn law_clock_in_words(state: RtcState)
    ensures
        state.words().0 == state.year + 0x100 * state.month + 0x1_0000 * state.day + 0x100_0000
            * state.weekday,
        state.words().1 == state.hour + 0x100 * state.minute + 0x1_0000 * state.second + 0x100_0000
            * state.status,
{
    law_joined_bytes(state.year, state.month, state.day, state.weekday);
    law_joined_bytes(state.hour, state.minute, state.second, state.status);
}

/// A clock that is read from two words takes every bit of them: its registers, weighed by their
/// places, make up the words again.
#[verifier::spinoff_prover]
#[verifier::rlimit(40)]
pub proof fn law_clock_from_words(lo: u32, hi: u32)
    ensures
        ({
            let state = RtcState::with_words(lo, hi);
            &&& state.year + 0x100 * state.month + 0x1_0000 * state.day + 0x100_0000 * state.weekday
                == lo
            &&& state.hour + 0x100 * state.minute + 0x1_0000 * state.second + 0x100_0000
                * state.status == hi
        }),
{
    law_split_bytes(lo);
    law_split_bytes(hi);
}

/// On disk the registers stand in the order year, month, day, weekday, hour, minute, second,
/// status, one byte each.
pub proof fn law_clock_on_disk(state: RtcState)
    ensures
        ({
            let data = state.registers();
            &&& data.len() == 8
            &&& (data[0], data[1], data[2], data[3]) == (
                state.year,
                state.month,
                state.day,
                state.weekday,
            )
            &&& (data[4], data[5], data[6], data[7]) == (
                state.hour,
                state.minute,
                state.second,
                state.status,
            )
        }),
{
}

/// A clock that is read from disk takes its registers in the same order.
pub proof fn law_clock_from_disk(data: Seq<u8>)
    ensures
        ({
            let state = RtcState::with_registers(data);
            &&& (state.year, state.month, state.day, state.weekday) == (
                data[0],
                data[1],
                data[2],
                data[3],
            )
            &&& (state.hour, state.minute, state.second, state.status) == (
                data[4],
                data[5],
                data[6],
                data[7],
            )
        }),
{
}

/// The eight bytes of a timestamp, weighed by their places, make up the timestamp; one before 1970
/// is counted back from the top.
#[verifier::spinoff_prover]
#[verifier::rlimit(40)]
pub proof fn law_timestamp_on_disk(timestamp: i64)
    ensures
        ({
            let data = crate::words::le_bytes_of_u64(crate::rtc::stored_timestamp(timestamp));
            let sum = data[0] + 0x100 * data[1] + 0x1_0000 * data[2] + 0x100_0000 * data[3]
                + 0x1_0000_0000 * data[4] + 0x100_0000_0000 * data[5] + 0x1_0000_0000_0000 * data[6]
                + 0x100_0000_0000_0000 * data[7];
            &&& data.len() == 8
            &&& timestamp >= 0 ==> sum == timestamp
            &&& timestamp < 0 ==> sum - 0x1_0000_0000_0000_0000 == timestamp
        }),
{
    law_split_eight_bytes(crate::rtc::stored_timestamp(timestamp));
}

/// The time that has passed, added to when it began, gives the present, unless it reaches further
/// back than 64 bits do.
pub proof fn law_elapsed_time(now: int, then: u64)
    ensures
        now - then >= -0x8000_0000_0000_0000 ==> crate::rtc::elapsed_seconds(now, then) + then
            == now,
        now - then < -0x8000_0000_0000_0000 ==> crate::rtc::elapsed_seconds(now, then)
            == -0x8000_0000_0000_0000,
{
}

/// A clock that advances shows, digit by digit, the time that lies so many seconds away, in the
/// 24-hour format, and its weekday moves on with the days.
#[verifier::spinoff_prover]
#[verifier::rlimit(40)]
pub proof fn law_clock_advances_by_digits(state: RtcState, seconds: int)
    requires
        state.shows_time(),
    ensures
        ({
            let from = state.date_time();
            let to = crate::calendar::moved_by(from, seconds);
            let next = state.advanced(seconds);
            let days = crate::calendar::day_number(to.year as int, to.month as int, to.day as int)
                - crate::calendar::day_number(from.year as int, from.month as int, from.day as int);
            &&& next.month / 16 == to.month / 10
            &&& next.month % 16 == to.month % 10
            &&& next.day / 16 == to.day / 10
            &&& next.day % 16 == to.day % 10
            &&& next.hour / 16 == to.hour / 10
            &&& next.hour % 16 == to.hour % 10
            &&& next.minute / 16 == to.minute / 10
            &&& next.minute % 16 == to.minute % 10
            &&& next.second / 16 == to.second / 10
            &&& next.second % 16 == to.second % 10
            &&& next.weekday == (10 * (state.weekday / 16) + state.weekday % 16 + days) % 7
            &&& next.status == 0x40
        }),
{
    let from = state.date_time();
    let to = crate::calendar::moved_by(from, seconds);
    crate::calendar::law_moved_by(from, seconds);
    assert(to.month < 100 && to.day < 100 && to.hour < 100 && to.minute < 100 && to.second < 100)
        by {
        law_month_lengths(to.year as int, to.month as int);
    }
    let start = state.sunday_offset() as int;
    law_clock_is_set_by_digits(to, start);
    law_weekday_is_counted_from_sunday(state);
    let (m, n) = (from.day_number(), to.day_number());
    let w = 10 * (state.weekday / 16) + state.weekday % 16;
    lemma_weekday_moves_on(start, m, n, w);
}

/// Two counts that agree by sevens still agree once the same days have passed.
proof fn lemma_weekday_moves_on(start: int, m: int, n: int, w: int)
    requires
        (start + m) % 7 == w % 7,
    ensures
        (n + start) % 7 == (w + (n - m)) % 7,
{
    let weeks = (start + m) / 7 - w / 7;
    assert(n + start == 7 * weeks + (w + (n - m)));
    vstd::arithmetic::div_mod::lemma_mod_multiples_vanish(weeks, w + (n - m), 7);
}

/// The year of a clock that advances shows the last two digits of the year that it comes to.
pub proof fn law_year_advances_by_digits(state: RtcState, seconds: int)
    ensures
        ({
            let year = crate::calendar::moved_by(state.date_time(), seconds).year as int;
            let register = state.advanced(seconds).year as int;
            &&& year >= 0 ==> register / 16 == year / 10 % 10 && register % 16 == year % 10
            &&& year < 0 && year % 100 == 0 ==> register == 0
            &&& year < 0 && year % 100 != 0 ==> register / 16 == (156 + year % 100) / 10 % 16
                && register % 16 == (156 + year % 100) % 10
        }),
{
    law_year_is_set_by_digits(
        crate::calendar::moved_by(state.date_time(), seconds),
        state.sunday_offset() as int,
    );
}

/// What stands behind a save is eight registers and eight bytes of the time at which they were
/// read. A clock is restored from it exactly where the registers show a time, and it has then
/// advanced by the seconds since.
#[verifier::spinoff_prover]
#[verifier::rlimit(40)]
pub proof fn law_clock_is_restored_from_bytes(trailer: Seq<u8>, now: OffsetDateTime)
    requires
        trailer.len() == 16,
    ensures
        ({
            let saved = RtcState {
                year: trailer[0],
                month: trailer[1],
                day: trailer[2],
                weekday: trailer[3],
                hour: trailer[4],
                minute: trailer[5],
                second: trailer[6],
                status: trailer[7],
            };
            let then = trailer[8] + 0x100 * trailer[9] + 0x1_0000 * trailer[10] + 0x100_0000
                * trailer[11] + 0x1_0000_0000 * trailer[12] + 0x100_0000_0000 * trailer[13]
                + 0x1_0000_0000_0000 * trailer[14] + 0x100_0000_0000_0000 * trailer[15];
            let elapsed = now.unix_seconds() - then;
            let restored = RtcState::restored(trailer, now);
            &&& restored is Some <==> saved.shows_time()
            &&& restored is Some && elapsed >= -0x8000_0000_0000_0000 ==> restored == Some(
                saved.advanced(elapsed),
            )
            &&& restored is Some && elapsed < -0x8000_0000_0000_0000 ==> restored == Some(
                saved.advanced(-0x8000_0000_0000_0000),
            )
        }),
{
    law_joined_eight_bytes(trailer.skip(8));
    law_elapsed_time(now.unix_seconds(), crate::words::le_u64(trailer.skip(8)));
}

/// A clock of this century that is restored within it shows the time that it had been saved with
/// plus the time since, second for second: its own digits, read back, say so.
#[verifier::spinoff_prover]
#[verifier::rlimit(40)]
pub proof fn law_restored_digits_tell_the_time(state: RtcState, seconds: int)
    requires
        state.shows_time(),
        2000 <= crate::calendar::moved_by(state.date_time(), seconds).year <= 2099,
    ensures
        ({
            let next = state.advanced(seconds);
            let from = state.date_time();
            let (year, month, day) = (
                2000 + 10 * (next.year / 16) + next.year % 16,
                10 * (next.month / 16) + next.month % 16,
                10 * (next.day / 16) + next.day % 16,
            );
            let (hour, minute, second) = (
                10 * (next.hour / 16) + next.hour % 16,
                10 * (next.minute / 16) + next.minute % 16,
                10 * (next.second / 16) + next.second % 16,
            );
            crate::calendar::day_number(year, month, day) * 86_400 + hour * 3_600 + minute * 60
                + second == crate::calendar::day_number(
                from.year as int,
                from.month as int,
                from.day as int,
            ) * 86_400 + from.hour * 3_600 + from.minute * 60 + from.second + seconds
        }),
{
    let from = state.date_time();
    let to = crate::calendar::moved_by(from, seconds);
    crate::calendar::law_inner_year_is_not_clamped(from, seconds);
    law_clock_advances_by_digits(state, seconds);
    law_year_advances_by_digits(state, seconds);
    let next = state.advanced(seconds);
    assert(2000 + 10 * (next.year / 16) + next.year % 16 == to.year) by {
        lemma_century(to.year as int);
    }
}

/// A year from 2000 to 2099 is told by its last two digits.
proof fn lemma_century(year: int)
    requires
        2000 <= year <= 2099,
    ensures
        2000 + 10 * (year / 10 % 10) + year % 10 == year,
{
}

} // verus!

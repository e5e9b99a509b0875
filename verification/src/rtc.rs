//! The real-time clock of a cartridge: its registers, their packed forms, and what time they show.
use vstd::prelude::*;

use crate::bcd::{decode_bcd, encode_bcd};
use crate::calendar::OffsetDateTime;
use crate::clock::{
    calendar_date, number_days_from_sunday, saturating_add_seconds, time_of_day, unix_timestamp,
};
use crate::words::{join_u32, join_u64, split_u32, split_u64};

verus! {

/// GBA Rtc state
///
/// All in BCD
#[derive(Copy, Clone, Debug, PartialEq, Eq, Structural)]
pub struct RtcState {
    /// 00 to 99 (representing 2000 to 2099)
    pub year: u8,
    /// 01 to 12
    pub month: u8,
    /// 01 to 31 (adjusted for month length)
    pub day: u8,
    /// 00 to 06
    pub weekday: u8,
    /// 00 to 23 (24-hour) or 00 to 11 (12-hour). Upper bit is AM (0) or PM (1) when 12-hour.
    pub hour: u8,
    /// 00 to 59
    pub minute: u8,
    /// 00 to 59
    pub second: u8,
    /// Status / control
    pub status: u8,
}

/// The remainder of a year by one hundred, as a byte. That of a year before year 0 is negative and
/// is counted back from 256.
pub open spec fn year_byte(year: int) -> u8 {
    if year >= 0 {
        (year % 100) as u8
    } else {
        ((256 - (-year) % 100) % 256) as u8
    }
}

/// The seconds from `then` to `now`, as far back as an `i64` reaches.
pub open spec fn elapsed_seconds(now: int, then: u64) -> int {
    if now - then < i64::MIN {
        i64::MIN as int
    } else {
        now - then
    }
}

/// How a timestamp is stored in an unsigned word: a negative one counts back from the top.
pub open spec fn stored_timestamp(timestamp: i64) -> u64 {
    if timestamp >= 0 {
        timestamp as u64
    } else {
        (timestamp + 0x1_0000_0000_0000_0000) as u64
    }
}

/// The remainder of a year by one hundred, cast to a byte.
fn year_remainder(year: i32) -> (byte: u8)
    ensures
        byte == year_byte(year as int),
{
    let remainder: i32 = year % 100;
    assert(remainder as u8 == if remainder >= 0 {
        remainder as int
    } else {
        256 + remainder
    }) by (bit_vector)
        requires
            -100 < remainder < 100,
    ;
    remainder as u8
}

impl RtcState {
    pub const STATUS_24H: u8 = 0x40;

    pub const STATUS_12H: u8 = 0x0;

    /// The registers, in the order in which they are stored.
    pub open spec fn registers(self) -> Seq<u8> {
        seq![
            self.year,
            self.month,
            self.day,
            self.weekday,
            self.hour,
            self.minute,
            self.second,
            self.status,
        ]
    }

    /// The state with the given registers.
    pub open spec fn with_registers(registers: Seq<u8>) -> RtcState {
        RtcState {
            year: registers[0],
            month: registers[1],
            day: registers[2],
            weekday: registers[3],
            hour: registers[4],
            minute: registers[5],
            second: registers[6],
            status: registers[7],
        }
    }

    /// The state whose registers are the bytes of two words, the lowest first.
    pub open spec fn with_words(lo: u32, hi: u32) -> RtcState {
        RtcState {
            year: crate::words::byte_of_u32(lo, 0),
            month: crate::words::byte_of_u32(lo, 1),
            day: crate::words::byte_of_u32(lo, 2),
            weekday: crate::words::byte_of_u32(lo, 3),
            hour: crate::words::byte_of_u32(hi, 0),
            minute: crate::words::byte_of_u32(hi, 1),
            second: crate::words::byte_of_u32(hi, 2),
            status: crate::words::byte_of_u32(hi, 3),
        }
    }

    /// The registers joined to two words, the lowest byte first.
    pub open spec fn words(self) -> (u32, u32) {
        (
            crate::words::le_u32(self.year, self.month, self.day, self.weekday),
            crate::words::le_u32(self.hour, self.minute, self.second, self.status),
        )
    }

    /// The state that shows `dt` in the 24-hour format, on a clock whose weekday counts
    /// `sunday_offset` on a Sunday.
    pub open spec fn showing(dt: OffsetDateTime, sunday_offset: int) -> RtcState {
        RtcState {
            year: crate::bcd::bcd_byte(year_byte(dt.year as int)),
            month: crate::bcd::bcd_byte(dt.month),
            day: crate::bcd::bcd_byte(dt.day),
            weekday: crate::bcd::bcd_byte(((dt.days_from_sunday() + sunday_offset) % 7) as u8),
            hour: crate::bcd::bcd_byte(dt.hour),
            minute: crate::bcd::bcd_byte(dt.minute),
            second: crate::bcd::bcd_byte(dt.second),
            status: RtcState::STATUS_24H,
        }
    }

    /// The hour register counts to 23. Otherwise it counts to 11, and its upper bit tells the
    /// afternoon.
    pub open spec fn is_24h(self) -> bool {
        self.status / 0x40 % 2 == 1
    }

    /// The hour of the day in the registers, in the format that the status tells.
    pub open spec fn hour_of_day(self) -> u8 {
        if !self.is_24h() && self.hour >= 0x80 {
            (12 + crate::bcd::bcd_value((self.hour - 0x80) as u8)) as u8
        } else {
            crate::bcd::bcd_value(self.hour)
        }
    }

    /// The date and time in the registers, taken as UTC.
    pub open spec fn date_time(self) -> OffsetDateTime {
        OffsetDateTime {
            year: (2000 + crate::bcd::bcd_value(self.year)) as i32,
            month: crate::bcd::bcd_value(self.month),
            day: crate::bcd::bcd_value(self.day),
            hour: self.hour_of_day(),
            minute: crate::bcd::bcd_value(self.minute),
            second: crate::bcd::bcd_value(self.second),
            offset: 0,
        }
    }

    /// The registers hold a date and a time of day that exist.
    pub open spec fn shows_time(self) -> bool {
        self.date_time().valid()
    }

    /// What the weekday register counts on a Sunday, judged by the date beside it.
    pub open spec fn sunday_offset(self) -> u8 {
        ((crate::bcd::bcd_value(self.weekday) + 7 - self.date_time().days_from_sunday()) % 7) as u8
    }

    /// The state once `seconds` have passed.
    pub open spec fn advanced(self, seconds: int) -> RtcState {
        RtcState::showing(
            crate::calendar::moved_by(self.date_time(), seconds),
            self.sunday_offset() as int,
        )
    }

    /// The state at `now` of a clock of which `trailer` was saved: eight registers, and the
    /// timestamp at which they were read. A state that shows no time is not restored.
    pub open spec fn restored(trailer: Seq<u8>, now: OffsetDateTime) -> Option<RtcState> {
        let saved = RtcState::with_registers(trailer);
        let then = crate::words::le_u64(trailer.skip(8));
        if saved.shows_time() {
            Some(saved.advanced(elapsed_seconds(now.unix_seconds(), then)))
        } else {
            None
        }
    }

    /// Every register is in decimal digits and in its documented range, in the 24-hour format.
    pub open spec fn well_set(self) -> bool {
        &&& crate::bcd::is_bcd(self.year)
        &&& crate::bcd::is_bcd(self.month)
        &&& crate::bcd::is_bcd(self.day)
        &&& self.weekday <= 6
        &&& crate::bcd::is_bcd(self.hour)
        &&& crate::bcd::is_bcd(self.minute)
        &&& crate::bcd::is_bcd(self.second)
        &&& self.status == RtcState::STATUS_24H
        &&& self.shows_time()
    }

    /// The state that shows `dt`, for a clock that counts its weekdays from `sunday_offset` on a
    /// Sunday.
    pub fn from_offset_date_time(dt: OffsetDateTime, sunday_offset: u8) -> (state: Self)
        requires
            dt.valid(),
            dt.days_from_sunday() + sunday_offset <= u8::MAX,
        ensures
            state == RtcState::showing(dt, sunday_offset as int),
    {
        RtcState {
            year: encode_bcd(year_remainder(dt.year)),
            month: encode_bcd(dt.month),
            day: encode_bcd(dt.day),
            weekday: encode_bcd((number_days_from_sunday(dt) + sunday_offset) % 7),
            hour: encode_bcd(dt.hour),
            minute: encode_bcd(dt.minute),
            second: encode_bcd(dt.second),
            status: Self::STATUS_24H,
        }
    }

    /// The hour of the day, in the format that the status tells.
    fn decode_hour(self) -> (hour: u8)
        ensures
            hour == self.hour_of_day(),
    {
        let status: u8 = self.status;
        assert(status & 0x40 == 0 <==> status / 0x40 % 2 == 0) by (bit_vector);
        if self.status & Self::STATUS_24H == 0 && self.hour >= 0x80 {
            12 + decode_bcd(self.hour - 0x80)
        } else {
            decode_bcd(self.hour)
        }
    }

    /// The date and time in the registers, and what the weekday register counts on a Sunday. An
    /// error where there is no such date or no such time of day.
    pub fn to_offset_date_time(self) -> (shown: Result<(OffsetDateTime, u8), ()>)
        ensures
            shown is Ok <==> self.shows_time(),
            shown matches Ok((dt, sunday_offset)) ==> dt == self.date_time() && sunday_offset
                == self.sunday_offset(),
    {
        let date = calendar_date(
            2000 + decode_bcd(self.year) as i32,
            decode_bcd(self.month),
            decode_bcd(self.day),
        );
        let time = time_of_day(
            self.decode_hour(),
            decode_bcd(self.minute),
            decode_bcd(self.second),
        );
        match (date, time) {
            (Ok((year, month, day)), Ok((hour, minute, second))) => {
                let dt = OffsetDateTime { year, month, day, hour, minute, second, offset: 0 };
                let stored_weekday: u8 = decode_bcd(self.weekday);
                let actual_weekday: u8 = number_days_from_sunday(dt);
                Ok((dt, (stored_weekday + 7 - actual_weekday) % 7))
            },
            _ => Err(()),
        }
    }

    /// Convert from FPGA state
    pub fn from_fpga(lo: u32, hi: u32) -> (state: Self)
        ensures
            state == RtcState::with_words(lo, hi),
    {
        // lo=kkddmmyy hi=ccssmmhh
        let low: [u8; 4] = split_u32(lo);
        let high: [u8; 4] = split_u32(hi);
        RtcState {
            year: low[0],
            month: low[1],
            day: low[2],
            weekday: low[3],
            hour: high[0],
            minute: high[1],
            second: high[2],
            status: high[3],
        }
    }

    /// Convert to FPGA state
    pub fn to_fpga(self) -> (words: (u32, u32))
        ensures
            words == self.words(),
    {
        let lo: u32 = join_u32(self.year, self.month, self.day, self.weekday);
        let hi: u32 = join_u32(self.hour, self.minute, self.second, self.status);
        (lo, hi)
    }

    pub fn to_disk(self) -> (data: [u8; 8])
        ensures
            data@ == self.registers(),
    {
        [
            self.year,
            self.month,
            self.day,
            self.weekday,
            self.hour,
            self.minute,
            self.second,
            self.status,
        ]
    }

    pub fn from_disk(data: [u8; 8]) -> (state: Self)
        ensures
            state == RtcState::with_registers(data@),
    {
        RtcState {
            year: data[0],
            month: data[1],
            day: data[2],
            weekday: data[3],
            hour: data[4],
            minute: data[5],
            second: data[6],
            status: data[7],
        }
    }

    /// The state once `elapsed` seconds have passed, if this one shows a time.
    pub fn advance(self, elapsed: i64) -> (state: Option<Self>)
        ensures
            state == if self.shows_time() {
                Some(self.advanced(elapsed as int))
            } else {
                None
            },
    {
        match self.to_offset_date_time() {
            Ok((time, sunday_offset)) => {
                let moved = saturating_add_seconds(time, elapsed);
                proof {
                    crate::calendar::law_moved_by(time, elapsed as int);
                }
                Some(Self::from_offset_date_time(moved, sunday_offset))
            },
            Err(_) => None,
        }
    }

    /// The seconds from when the clock in `trailer` was saved to `now`.
    pub fn elapsed_since(trailer: [u8; 16], now: OffsetDateTime) -> (elapsed: i64)
        requires
            now.valid(),
        ensures
            elapsed == elapsed_seconds(
                now.unix_seconds(),
                crate::words::le_u64(trailer@.skip(8)),
            ),
    {
        let stamp: [u8; 8] = [
            trailer[8],
            trailer[9],
            trailer[10],
            trailer[11],
            trailer[12],
            trailer[13],
            trailer[14],
            trailer[15],
        ];
        assert(stamp@ == trailer@.skip(8));
        let then: u64 = join_u64(stamp);
        match unix_timestamp(now).checked_sub_unsigned(then) {
            Some(elapsed) => elapsed,
            None => i64::MIN,
        }
    }

    /// The state at `now` of the clock that was saved in `trailer`, if it showed a time.
    pub fn restore(trailer: [u8; 16], now: OffsetDateTime) -> (state: Option<Self>)
        requires
            now.valid(),
        ensures
            state == RtcState::restored(trailer@, now),
    {
        let saved = Self::from_disk(
            [
                trailer[0],
                trailer[1],
                trailer[2],
                trailer[3],
                trailer[4],
                trailer[5],
                trailer[6],
                trailer[7],
            ],
        );
        saved.advance(Self::elapsed_since(trailer, now))
    }
}

/// The bytes in which a timestamp is saved beside the registers.
pub fn timestamp_to_disk(timestamp: i64) -> (data: [u8; 8])
    ensures
        data@ == crate::words::le_bytes_of_u64(stored_timestamp(timestamp)),
{
    assert(timestamp as u64 == if timestamp >= 0 {
        timestamp as int
    } else {
        timestamp + 0x1_0000_0000_0000_0000
    }) by (bit_vector);
    split_u64(timestamp as u64)
}

/// What goes to the FPGA comes back from it unchanged.
pub proof fn law_fpga_returns_state(state: RtcState)
    ensures
        RtcState::with_words(state.words().0, state.words().1) == state,
{
    crate::words::law_split_undoes_join_u32(state.year, state.month, state.day, state.weekday);
    crate::words::law_split_undoes_join_u32(state.hour, state.minute, state.second, state.status);
}

/// Two words of the FPGA survive being read into a state and written back.
pub proof fn law_fpga_returns_words(lo: u32, hi: u32)
    ensures
        RtcState::with_words(lo, hi).words() == (lo, hi),
{
    crate::words::law_join_undoes_split_u32(lo);
    crate::words::law_join_undoes_split_u32(hi);
}

/// What goes to disk comes back from it unchanged.
pub proof fn law_disk_returns_state(state: RtcState)
    ensures
        RtcState::with_registers(state.registers()) == state,
{
}

/// Eight bytes from disk survive being read into a state and written back.
pub proof fn law_disk_returns_bytes(data: Seq<u8>)
    requires
        data.len() == 8,
    ensures
        RtcState::with_registers(data).registers() == data,
{
}

/// Counting `n` days on from the weekday that lies `n` days before `weekday` ends at `weekday`.
#[verifier::spinoff_prover]
#[verifier::rlimit(40)]
proof fn lemma_weekday_returns(n: int, weekday: int)
    requires
        0 <= weekday <= 6,
    ensures
        (n % 7 + (weekday + 7 - n % 7) % 7) % 7 == weekday,
{
    let rest = weekday + 7 - n % 7;
    vstd::arithmetic::div_mod::lemma_add_mod_noop(n, rest, 7);
    assert(n + rest == 7 * (n / 7 + 1) + weekday);
    vstd::arithmetic::div_mod::lemma_mod_multiples_vanish(n / 7 + 1, weekday, 7);
}

/// The year register survives being read as a year from 2000 on.
#[verifier::spinoff_prover]
#[verifier::rlimit(40)]
proof fn lemma_year_returns(year: u8)
    requires
        crate::bcd::is_bcd(year),
    ensures
        crate::bcd::bcd_byte(year_byte(2000 + crate::bcd::bcd_value(year))) == year,
{
    crate::bcd::law_encode_undoes_decode(year);
    crate::bcd::law_digits_give_two_digit_number(year);
    assert((2000 + crate::bcd::bcd_value(year)) % 100 == crate::bcd::bcd_value(year));
}

/// The weekday register survives being split into a weekday and a count on Sunday.
#[verifier::spinoff_prover]
#[verifier::rlimit(40)]
proof fn lemma_weekday_register_returns(n: int, weekday: u8)
    requires
        weekday <= 6,
    ensures
        crate::bcd::bcd_byte(
            ((n % 7 + ((crate::bcd::bcd_value(weekday) + 7 - n % 7) % 7) as u8) % 7) as u8,
        ) == weekday,
{
    assert(crate::bcd::bcd_value(weekday) == weekday);
    lemma_weekday_returns(n, weekday as int);
}

/// A well-set clock is rebuilt from the time and the weekday count that are read off it.
#[verifier::spinoff_prover]
#[verifier::rlimit(40)]
pub proof fn law_reading_keeps_state(state: RtcState)
    requires
        state.well_set(),
    ensures
        RtcState::showing(state.date_time(), state.sunday_offset() as int) == state,
{
    lemma_year_returns(state.year);
    crate::bcd::law_encode_undoes_decode(state.month);
    crate::bcd::law_encode_undoes_decode(state.day);
    lemma_weekday_register_returns(state.date_time().day_number(), state.weekday);
    crate::bcd::law_encode_undoes_decode(state.hour);
    crate::bcd::law_encode_undoes_decode(state.minute);
    crate::bcd::law_encode_undoes_decode(state.second);
}

/// The count on Sunday is found again, modulo 7, from the weekday that it led to.
#[verifier::spinoff_prover]
#[verifier::rlimit(40)]
proof fn lemma_sunday_offset_returns(n: int, sunday_offset: int)
    ensures
        (crate::bcd::bcd_value(crate::bcd::bcd_byte(((n % 7 + sunday_offset) % 7) as u8)) + 7 - n
            % 7) % 7 == sunday_offset % 7,
{
    let weekday = ((n % 7 + sunday_offset) % 7) as u8;
    assert(crate::bcd::bcd_value(crate::bcd::bcd_byte(weekday)) == weekday);
    let weeks = 1 - (n % 7 + sunday_offset) / 7;
    assert(weekday + 7 - n % 7 == 7 * weeks + sunday_offset);
    vstd::arithmetic::div_mod::lemma_mod_multiples_vanish(weeks, sunday_offset, 7);
}

/// A year of this century is found again from its register.
#[verifier::spinoff_prover]
#[verifier::rlimit(40)]
proof fn lemma_century_returns(year: int)
    requires
        2000 <= year <= 2099,
    ensures
        2000 + crate::bcd::bcd_value(crate::bcd::bcd_byte(year_byte(year))) == year,
        crate::bcd::is_bcd(crate::bcd::bcd_byte(year_byte(year))),
{
    crate::bcd::law_decode_undoes_encode(year_byte(year));
    crate::bcd::law_encode_gives_digits(year_byte(year));
}

/// A time of this century is read off the clock that it sets, as the same local time in UTC, and
/// the weekday count modulo 7.
#[verifier::spinoff_prover]
#[verifier::rlimit(40)]
pub proof fn law_setting_keeps_time(dt: OffsetDateTime, sunday_offset: int)
    requires
        dt.valid(),
        2000 <= dt.year <= 2099,
    ensures
        RtcState::showing(dt, sunday_offset).shows_time(),
        RtcState::showing(dt, sunday_offset).date_time() == (OffsetDateTime { offset: 0, ..dt }),
        RtcState::showing(dt, sunday_offset).sunday_offset() == sunday_offset % 7,
{
    let state = RtcState::showing(dt, sunday_offset);
    assert(state.date_time() == (OffsetDateTime { offset: 0, ..dt })) by {
        lemma_century_returns(dt.year as int);
        crate::bcd::law_decode_undoes_encode(dt.month);
        crate::bcd::law_decode_undoes_encode(dt.day);
        crate::bcd::law_decode_undoes_encode(dt.hour);
        crate::bcd::law_decode_undoes_encode(dt.minute);
        crate::bcd::law_decode_undoes_encode(dt.second);
    }
    lemma_sunday_offset_returns(dt.day_number(), sunday_offset);
}

/// An afternoon hour of the 12-hour format shows the same time as its hour of the 24-hour format.
#[verifier::spinoff_prover]
#[verifier::rlimit(40)]
pub proof fn law_formats_agree_in_the_afternoon(state: RtcState, hour: u8)
    requires
        hour <= 11,
    ensures
        (RtcState {
            hour: (0x80 + crate::bcd::bcd_byte(hour)) as u8,
            status: RtcState::STATUS_12H,
            ..state
        }).date_time() == (RtcState {
            hour: crate::bcd::bcd_byte((12 + hour) as u8),
            status: RtcState::STATUS_24H,
            ..state
        }).date_time(),
{
    crate::bcd::law_decode_undoes_encode(hour);
    crate::bcd::law_decode_undoes_encode((12 + hour) as u8);
}

/// A morning hour shows the same time in both formats.
pub proof fn law_formats_agree_in_the_morning(state: RtcState, hour: u8)
    requires
        hour <= 11,
    ensures
        (RtcState {
            hour: crate::bcd::bcd_byte(hour),
            status: RtcState::STATUS_12H,
            ..state
        }).date_time() == (RtcState {
            hour: crate::bcd::bcd_byte(hour),
            status: RtcState::STATUS_24H,
            ..state
        }).date_time(),
{
}

/// Every time of this century sets the clock well, whatever the offset from UTC.
#[verifier::spinoff_prover]
#[verifier::rlimit(40)]
pub proof fn law_setting_is_well_set(dt: OffsetDateTime, sunday_offset: int)
    requires
        dt.valid(),
        2000 <= dt.year <= 2099,
    ensures
        RtcState::showing(dt, sunday_offset).well_set(),
{
    let state = RtcState::showing(dt, sunday_offset);
    assert(state.shows_time()) by {
        law_setting_keeps_time(dt, sunday_offset);
    }
    assert(crate::bcd::is_bcd(state.year)) by {
        lemma_century_returns(dt.year as int);
    }
    assert(state.weekday <= 6) by {
        crate::bcd::law_decode_undoes_encode(((dt.days_from_sunday() + sunday_offset) % 7) as u8);
    }
    assert(crate::bcd::is_bcd(state.month) && crate::bcd::is_bcd(state.day)) by {
        crate::bcd::law_encode_gives_digits(dt.month);
        crate::bcd::law_encode_gives_digits(dt.day);
    }
    assert(crate::bcd::is_bcd(state.hour)) by {
        crate::bcd::law_encode_gives_digits(dt.hour);
    }
    assert(crate::bcd::is_bcd(state.minute) && crate::bcd::is_bcd(state.second)) by {
        crate::bcd::law_encode_gives_digits(dt.minute);
        crate::bcd::law_encode_gives_digits(dt.second);
    }
}

/// Every time sets every register of the clock in decimal digits, but for the year register in the
/// years before year 0 that end in 97, 98 or 99.
#[verifier::spinoff_prover]
#[verifier::rlimit(40)]
pub proof fn law_setting_is_bcd(dt: OffsetDateTime, sunday_offset: int)
    requires
        dt.valid(),
        dt.year >= 0 || (-dt.year) % 100 <= 96,
    ensures
        forall|i: int|
            0 <= i < 8 ==> crate::bcd::is_bcd(
                #[trigger] RtcState::showing(dt, sunday_offset).registers()[i],
            ),
{
    let state = RtcState::showing(dt, sunday_offset);
    crate::bcd::law_encode_gives_digits(year_byte(dt.year as int));
    crate::bcd::law_encode_gives_digits(dt.month);
    crate::bcd::law_encode_gives_digits(dt.day);
    crate::bcd::law_encode_gives_digits(((dt.days_from_sunday() + sunday_offset) % 7) as u8);
    crate::bcd::law_encode_gives_digits(dt.hour);
    crate::bcd::law_encode_gives_digits(dt.minute);
    crate::bcd::law_encode_gives_digits(dt.second);
    assert(crate::bcd::is_bcd(state.status));
}

/// Where no time has passed, a well-set clock stands as it was.
#[verifier::spinoff_prover]
#[verifier::rlimit(40)]
pub proof fn law_no_time_passes(state: RtcState)
    requires
        state.well_set(),
    ensures
        state.advanced(0) == state,
{
    let dt = state.date_time();
    crate::calendar::law_within_calendar(dt);
    crate::calendar::law_moved_by(dt, 0);
    assert(dt.local_seconds() == crate::calendar::clamp_local_seconds(dt.local_seconds() + 0));
    law_reading_keeps_state(state);
}

/// The count on Sunday is at most six.
proof fn lemma_sunday_offset_is_a_weekday(state: RtcState)
    ensures
        state.sunday_offset() <= 6,
{
}

/// A time of this century in UTC, and a weekday count, are read off the clock that they set.
#[verifier::spinoff_prover]
#[verifier::rlimit(40)]
proof fn lemma_setting_keeps_utc(dt: OffsetDateTime, sunday_offset: u8)
    requires
        dt.valid(),
        dt.offset == 0,
        2000 <= dt.year <= 2099,
        sunday_offset <= 6,
    ensures
        RtcState::showing(dt, sunday_offset as int).well_set(),
        RtcState::showing(dt, sunday_offset as int).date_time() == dt,
        RtcState::showing(dt, sunday_offset as int).sunday_offset() == sunday_offset,
{
    let count = sunday_offset as int;
    assert(count % 7 == count);
    assert(dt == (OffsetDateTime { offset: 0, ..dt }));
    assert(RtcState::showing(dt, count).well_set()) by {
        law_setting_is_well_set(dt, count);
    }
    law_setting_keeps_time(dt, count);
}

/// A clock that advances within its century shows the time that it has moved to, whatever its
/// format was, and counts its weekdays as before.
#[verifier::spinoff_prover]
#[verifier::rlimit(40)]
pub proof fn law_advancing_moves_time(state: RtcState, seconds: int)
    requires
        state.shows_time(),
        2000 <= crate::calendar::moved_by(state.date_time(), seconds).year <= 2099,
    ensures
        state.advanced(seconds).well_set(),
        state.advanced(seconds).date_time() == crate::calendar::moved_by(
            state.date_time(),
            seconds,
        ),
        state.advanced(seconds).sunday_offset() == state.sunday_offset(),
{
    let moved = crate::calendar::moved_by(state.date_time(), seconds);
    crate::calendar::law_moved_by(state.date_time(), seconds);
    lemma_sunday_offset_is_a_weekday(state);
    lemma_setting_keeps_utc(moved, state.sunday_offset());
}

/// A clock that advances twice, and stays within its century at the first stop, stands where it
/// would after advancing once by both times together.
#[verifier::spinoff_prover]
#[verifier::rlimit(40)]
pub proof fn law_advances_add_up(state: RtcState, first: int, second: int)
    requires
        state.shows_time(),
        2000 <= crate::calendar::moved_by(state.date_time(), first).year <= 2099,
    ensures
        state.advanced(first).shows_time(),
        state.advanced(first).advanced(second) == state.advanced(first + second),
{
    let dt = state.date_time();
    let mid = crate::calendar::moved_by(dt, first);
    law_advancing_moves_time(state, first);
    assert(crate::calendar::moved_by(mid, second) == crate::calendar::moved_by(
        dt,
        first + second,
    )) by {
        crate::calendar::law_moved_by(dt, first);
        crate::calendar::law_inner_year_is_not_clamped(dt, first);
        assert(mid.local_seconds() + second == dt.local_seconds() + (first + second));
    }
}

/// Weekdays are as far apart as the days that they belong to.
#[verifier::spinoff_prover]
#[verifier::rlimit(40)]
proof fn lemma_weekday_moves(stored: int, before: int, after: int)
    ensures
        (after % 7 + (stored + 7 - before % 7) % 7) % 7 == (stored + after - before) % 7,
{
    let start = stored + 7 - before % 7;
    let moved = stored + after - before;
    vstd::arithmetic::div_mod::lemma_add_mod_noop(after, start, 7);
    assert(after + start == 7 * (before / 7 + 1) + moved);
    vstd::arithmetic::div_mod::lemma_mod_multiples_vanish(before / 7 + 1, moved, 7);
}

/// The weekday moves on by as many days as the date does.
#[verifier::spinoff_prover]
#[verifier::rlimit(40)]
pub proof fn law_weekday_follows_date(state: RtcState, seconds: int)
    requires
        state.shows_time(),
    ensures
        crate::bcd::bcd_value(state.advanced(seconds).weekday) == (crate::bcd::bcd_value(
            state.weekday,
        ) + crate::calendar::moved_by(state.date_time(), seconds).day_number()
            - state.date_time().day_number()) % 7,
{
    let before = state.date_time().day_number();
    let after = crate::calendar::moved_by(state.date_time(), seconds).day_number();
    let stored = crate::bcd::bcd_value(state.weekday) as int;
    crate::bcd::law_decode_undoes_encode(((after % 7 + state.sunday_offset()) % 7) as u8);
    lemma_weekday_moves(stored, before, after);
}

/// The bytes that are saved with a clock: its registers, and when they were read.
pub open spec fn saved_trailer(state: RtcState, timestamp: i64) -> Seq<u8> {
    state.registers() + crate::words::le_bytes_of_u64(stored_timestamp(timestamp))
}

/// The timestamp in a saved trailer is the one that was put there.
proof fn lemma_trailer_timestamp(state: RtcState, then: i64)
    ensures
        crate::words::le_u64(saved_trailer(state, then).skip(8)) == stored_timestamp(then),
{
    let stored = stored_timestamp(then);
    assert(saved_trailer(state, then).skip(8) == crate::words::le_bytes_of_u64(stored));
    crate::words::law_join_undoes_split_u64(stored);
}

/// The registers in a saved trailer are the ones that were put there.
proof fn lemma_trailer_registers(state: RtcState, then: i64)
    ensures
        RtcState::with_registers(saved_trailer(state, then)) == state,
{
}

/// A clock that was saved at `then` and is restored at `now` has advanced by the time between.
pub proof fn law_restoring_catches_up(state: RtcState, then: i64, now: OffsetDateTime)
    requires
        state.shows_time(),
        then >= 0,
        now.valid(),
    ensures
        RtcState::restored(saved_trailer(state, then), now) == Some(
            state.advanced(now.unix_seconds() - then),
        ),
{
    lemma_trailer_timestamp(state, then);
    lemma_trailer_registers(state, then);
    let seconds = now.unix_seconds() - then;
    if seconds < i64::MIN {
        crate::calendar::law_stops_at_first_second(state.date_time(), seconds);
        crate::calendar::law_stops_at_first_second(state.date_time(), i64::MIN as int);
    }
}

/// A well-set clock that is restored at the second at which it was saved is unchanged.
pub proof fn law_restoring_at_once(state: RtcState, now: OffsetDateTime)
    requires
        state.well_set(),
        now.valid(),
        now.unix_seconds() >= 0,
    ensures
        RtcState::restored(saved_trailer(state, now.unix_seconds() as i64), now) == Some(state),
{
    crate::calendar::law_unix_seconds_fit(now);
    law_restoring_catches_up(state, now.unix_seconds() as i64, now);
    law_no_time_passes(state);
}

/// A saved clock that shows no time is never restored.
pub proof fn law_unset_clock_is_not_restored(state: RtcState, then: i64, now: OffsetDateTime)
    requires
        !state.shows_time(),
    ensures
        RtcState::restored(saved_trailer(state, then), now) is None,
{
    lemma_trailer_registers(state, then);
}

} // verus!

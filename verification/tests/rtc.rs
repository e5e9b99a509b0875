use gamebub_gba::bcd::{decode_bcd, encode_bcd};
use gamebub_gba::calendar::OffsetDateTime;
use gamebub_gba::rtc::{timestamp_to_disk, RtcState};

fn utc(year: i32, month: u8, day: u8, hour: u8, minute: u8, second: u8) -> OffsetDateTime {
    OffsetDateTime { year, month, day, hour, minute, second, offset: 0 }
}

fn from_time(dt: time::OffsetDateTime) -> OffsetDateTime {
    OffsetDateTime {
        year: dt.year(),
        month: u8::from(dt.month()),
        day: dt.day(),
        hour: dt.hour(),
        minute: dt.minute(),
        second: dt.second(),
        offset: dt.offset().whole_seconds(),
    }
}

fn sample() -> RtcState {
    RtcState {
        year: 0x26,
        month: 0x09,
        day: 0x14,
        weekday: 0x01,
        hour: 0x21,
        minute: 0x06,
        second: 0x05,
        status: 0x40,
    }
}

fn trailer(state: RtcState, timestamp: i64) -> [u8; 16] {
    let mut bytes = [0u8; 16];
    bytes[..8].copy_from_slice(&state.to_disk());
    bytes[8..].copy_from_slice(&timestamp_to_disk(timestamp));
    bytes
}

#[test]
fn test_sunday_based() {
    let rtc = RtcState {
        year: 0x26,
        month: 0x09,
        day: 0x14,
        weekday: 0x01,
        hour: 0x21,
        minute: 0x06,
        second: 0x05,
        status: 0x40,
    };
    let (dt, off) = rtc.to_offset_date_time().unwrap();
    let expected = time::OffsetDateTime::new_utc(
        time::Date::from_calendar_date(2026, time::Month::September, 14).unwrap(),
        time::Time::from_hms(21, 06, 05).unwrap(),
    );
    assert_eq!(dt, from_time(expected));
    assert_eq!(dt, utc(2026, 9, 14, 21, 06, 05));
    assert_eq!(off, 0);
    let rtc2 = RtcState::from_offset_date_time(dt, off);
    assert_eq!(rtc, rtc2);
}

#[test]
fn test_monday_based() {
    let rtc = RtcState {
        year: 0x26,
        month: 0x09,
        day: 0x14,
        weekday: 0x00,
        hour: 0x21,
        minute: 0x06,
        second: 0x05,
        status: 0x40,
    };
    let (dt, off) = rtc.to_offset_date_time().unwrap();
    let expected = time::OffsetDateTime::new_utc(
        time::Date::from_calendar_date(2026, time::Month::September, 14).unwrap(),
        time::Time::from_hms(21, 06, 05).unwrap(),
    );
    assert_eq!(dt, from_time(expected));
    assert_eq!(dt, utc(2026, 9, 14, 21, 06, 05));
    assert_eq!(off, 6);
    let rtc2 = RtcState::from_offset_date_time(dt, off);
    assert_eq!(rtc, rtc2);
}

#[test]
fn bcd_of_two_digits() {
    assert_eq!(encode_bcd(59), 0x59);
    assert_eq!(encode_bcd(0), 0);
    assert_eq!(decode_bcd(0x31), 31);
    for n in 0..160u8 {
        assert_eq!(decode_bcd(encode_bcd(n)), n);
    }
}

#[test]
fn bcd_of_other_bytes() {
    assert_eq!(decode_bcd(0xFF), 165);
    assert_eq!(encode_bcd(159), 0xF9);
    assert_eq!(encode_bcd(160), 0x00);
    assert_eq!(encode_bcd(251), 0x91);
}

#[test]
fn fpga_words() {
    let rtc = sample();
    assert_eq!(rtc.to_fpga(), (0x0114_0926, 0x4005_0621));
    assert_eq!(RtcState::from_fpga(0x0114_0926, 0x4005_0621), rtc);
    let odd = RtcState::from_fpga(0xFEDC_BA98, 0x7654_3210);
    assert_eq!(odd.weekday, 0xFE);
    assert_eq!(odd.to_fpga(), (0xFEDC_BA98, 0x7654_3210));
}

#[test]
fn disk_bytes() {
    let rtc = sample();
    assert_eq!(rtc.to_disk(), [0x26, 0x09, 0x14, 0x01, 0x21, 0x06, 0x05, 0x40]);
    assert_eq!(RtcState::from_disk(rtc.to_disk()), rtc);
}

#[test]
fn timestamp_bytes() {
    assert_eq!(timestamp_to_disk(0x0102_0304_0506_0708), [8, 7, 6, 5, 4, 3, 2, 1]);
    assert_eq!(timestamp_to_disk(-2), [0xFE, 0xFF, 0xFF, 0xFF, 0xFF, 0xFF, 0xFF, 0xFF]);
}

#[test]
fn registers_without_a_time() {
    assert_eq!(RtcState { month: 0x13, ..sample() }.to_offset_date_time(), Err(()));
    assert_eq!(RtcState { month: 0x00, ..sample() }.to_offset_date_time(), Err(()));
    assert_eq!(RtcState { day: 0x31, ..sample() }.to_offset_date_time(), Err(()));
    assert_eq!(RtcState { month: 0x02, day: 0x29, ..sample() }.to_offset_date_time(), Err(()));
    assert_eq!(RtcState { hour: 0x24, ..sample() }.to_offset_date_time(), Err(()));
    assert_eq!(RtcState { minute: 0x60, ..sample() }.to_offset_date_time(), Err(()));
    assert_eq!(RtcState { second: 0x60, ..sample() }.to_offset_date_time(), Err(()));
    // The upper bit of the hour tells nothing in the 24-hour format.
    assert_eq!(RtcState { hour: 0x83, ..sample() }.to_offset_date_time(), Err(()));
    // There is no thirteenth hour of the afternoon.
    assert_eq!(RtcState { hour: 0x92, status: 0x00, ..sample() }.to_offset_date_time(), Err(()));
}

#[test]
fn afternoon_in_the_twelve_hour_format() {
    let rtc = RtcState { hour: 0x83, status: RtcState::STATUS_12H, ..sample() };
    assert_eq!(rtc.to_offset_date_time(), Ok((utc(2026, 9, 14, 15, 6, 5), 0)));
    let rtc = RtcState { hour: 0x89, status: RtcState::STATUS_12H, ..sample() };
    assert_eq!(rtc.to_offset_date_time(), Ok((utc(2026, 9, 14, 21, 6, 5), 0)));
    let rtc = RtcState { hour: 0x80, status: RtcState::STATUS_12H, ..sample() };
    assert_eq!(rtc.to_offset_date_time(), Ok((utc(2026, 9, 14, 12, 6, 5), 0)));
    let rtc = RtcState { hour: 0x91, status: RtcState::STATUS_12H, ..sample() };
    assert_eq!(rtc.to_offset_date_time(), Ok((utc(2026, 9, 14, 23, 6, 5), 0)));
}

#[test]
fn morning_in_the_twelve_hour_format() {
    let rtc = RtcState { hour: 0x00, status: RtcState::STATUS_12H, ..sample() };
    assert_eq!(rtc.to_offset_date_time(), Ok((utc(2026, 9, 14, 0, 6, 5), 0)));
    let rtc = RtcState { hour: 0x11, status: RtcState::STATUS_12H, ..sample() };
    assert_eq!(rtc.to_offset_date_time(), Ok((utc(2026, 9, 14, 11, 6, 5), 0)));
}

#[test]
fn other_bits_of_the_status_leave_the_format_alone() {
    let rtc = RtcState { hour: 0x89, status: 0xBF, ..sample() };
    assert_eq!(rtc.to_offset_date_time(), Ok((utc(2026, 9, 14, 21, 6, 5), 0)));
    let rtc = RtcState { status: 0xFF, ..sample() };
    assert_eq!(rtc.to_offset_date_time(), Ok((utc(2026, 9, 14, 21, 6, 5), 0)));
}

#[test]
fn twelve_hour_clock_is_restored() {
    let rtc = RtcState { hour: 0x89, status: RtcState::STATUS_12H, ..sample() };
    let now = utc(2026, 9, 14, 21, 6, 15);
    let restored = RtcState::restore(trailer(rtc, 1_789_419_965), now).unwrap();
    assert_eq!(restored, RtcState { second: 0x15, ..sample() });
    assert_eq!(rtc.advance(0), Some(sample()));
}

#[test]
fn weekday_count_is_kept_modulo_seven() {
    let dt = OffsetDateTime { offset: -3600, ..utc(2026, 9, 14, 21, 6, 5) };
    let rtc = RtcState::from_offset_date_time(dt, 45);
    assert_eq!(rtc.to_offset_date_time(), Ok((utc(2026, 9, 14, 21, 6, 5), 3)));
}

#[test]
fn time_since_the_save() {
    let now = utc(2026, 9, 14, 21, 6, 5);
    assert_eq!(RtcState::elapsed_since(trailer(sample(), 1_789_419_900), now), 65);
    assert_eq!(RtcState::elapsed_since(trailer(sample(), 1_789_419_966), now), -1);
    assert_eq!(RtcState::elapsed_since([0xFF; 16], now), i64::MIN);
}

#[test]
fn leap_day_shows_a_time() {
    let rtc = RtcState { year: 0x24, month: 0x02, day: 0x29, ..sample() };
    let (dt, _) = rtc.to_offset_date_time().unwrap();
    assert_eq!((dt.year, dt.month, dt.day), (2024, 2, 29));
}

#[test]
fn state_at_another_offset_shows_local_time() {
    let dt = OffsetDateTime { offset: 7200, ..utc(2000, 1, 1, 0, 30, 0) };
    let rtc = RtcState::from_offset_date_time(dt, 0);
    assert_eq!(rtc.to_disk(), [0x00, 0x01, 0x01, 0x06, 0x00, 0x30, 0x00, 0x40]);
}

#[test]
fn state_before_year_zero() {
    let rtc = RtcState::from_offset_date_time(utc(-5, 1, 1, 0, 0, 0), 0);
    assert_eq!(rtc.year, 0x91);
    let rtc = RtcState::from_offset_date_time(utc(-1, 1, 1, 0, 0, 0), 0);
    assert_eq!(rtc.year, 0x95);
    let rtc = RtcState::from_offset_date_time(utc(-97, 1, 1, 0, 0, 0), 0);
    assert_eq!(rtc.year, 0xF9);
    let rtc = RtcState::from_offset_date_time(utc(-100, 1, 1, 0, 0, 0), 0);
    assert_eq!(rtc.year, 0x00);
}

#[test]
fn weekdays_agree_over_the_whole_calendar() {
    let mut day = time::Date::MIN.to_julian_day();
    while day <= time::Date::MAX.to_julian_day() {
        let date = time::Date::from_julian_day(day).unwrap();
        let dt = from_time(time::OffsetDateTime::new_utc(date, time::Time::MIDNIGHT));
        let rtc = RtcState::from_offset_date_time(dt, 0);
        assert_eq!(rtc.weekday, date.weekday().number_days_from_sunday());
        assert_eq!(i32::from(rtc.weekday), (day + 1).rem_euclid(7));
        day += 97;
    }
}

#[test]
fn every_day_of_the_century_is_kept() {
    let mut date = time::Date::from_calendar_date(2000, time::Month::January, 1).unwrap();
    while date.year() <= 2099 {
        let dt = from_time(time::OffsetDateTime::new_utc(date, time::Time::MIDNIGHT));
        let rtc = RtcState::from_offset_date_time(dt, 3);
        assert_eq!(rtc.to_offset_date_time(), Ok((dt, 3)));
        date = date.next_day().unwrap();
    }
}

#[test]
fn advancing_over_midnight() {
    let rtc = RtcState::from_offset_date_time(utc(2023, 12, 31, 23, 59, 59), 0);
    assert_eq!(rtc.weekday, 0);
    let next = rtc.advance(1).unwrap();
    assert_eq!(next.to_disk(), [0x24, 0x01, 0x01, 0x01, 0x00, 0x00, 0x00, 0x40]);
    assert_eq!(next.advance(-1), Some(rtc));
    assert_eq!(rtc.advance(0), Some(rtc));
}

#[test]
fn advancing_adds_up() {
    let rtc = sample();
    let twice = rtc.advance(40_000_000).unwrap().advance(-3_000_001).unwrap();
    assert_eq!(Some(twice), rtc.advance(36_999_999));
}

#[test]
fn advancing_agrees_with_the_calendar() {
    let start = time::OffsetDateTime::new_utc(
        time::Date::from_calendar_date(2026, time::Month::September, 14).unwrap(),
        time::Time::from_hms(21, 6, 5).unwrap(),
    );
    for seconds in [1i64, 59, 3600, 86_399, 86_400, 12_345_678, 1_000_000_000, -1, -800_000_000] {
        let later = from_time(start + time::Duration::seconds(seconds));
        let expected = RtcState::from_offset_date_time(later, 0);
        assert_eq!(sample().advance(seconds), Some(expected));
    }
}

#[test]
fn advancing_stops_at_the_ends() {
    let last = sample().advance(i64::MAX).unwrap();
    assert_eq!(last.to_disk(), [0x99, 0x12, 0x31, last.weekday, 0x23, 0x59, 0x59, 0x40]);
    let first = sample().advance(i64::MIN).unwrap();
    assert_eq!(first.to_disk()[1..3], [0x01, 0x01]);
    assert_eq!(first.to_disk()[4..7], [0, 0, 0]);
    // The year is -9999, whose remainder counts back from 256.
    assert_eq!(first.year, 0xF7);
}

#[test]
fn advancing_without_a_time() {
    assert_eq!(RtcState { day: 0x00, ..sample() }.advance(5), None);
}

#[test]
fn restoring_at_once() {
    let now = utc(2026, 9, 14, 21, 6, 5);
    let stamp = 1_789_419_965;
    assert_eq!(RtcState::restore(trailer(sample(), stamp), now), Some(sample()));
}

#[test]
fn restoring_catches_up() {
    let now = OffsetDateTime { offset: 3600, ..utc(2026, 9, 15, 22, 6, 7) };
    let restored = RtcState::restore(trailer(sample(), 1_789_419_965), now).unwrap();
    assert_eq!(restored.to_disk(), [0x26, 0x09, 0x15, 0x02, 0x21, 0x06, 0x07, 0x40]);
}

#[test]
fn restoring_a_later_clock_goes_back() {
    let now = utc(2026, 9, 14, 21, 6, 5);
    let restored = RtcState::restore(trailer(sample(), 1_789_419_966), now).unwrap();
    assert_eq!(restored, sample().advance(-1).unwrap());
}

#[test]
fn restoring_from_far_ahead_stops_at_the_first_second() {
    let now = utc(1960, 1, 1, 0, 0, 0);
    let restored = RtcState::restore(trailer(sample(), i64::MAX), now).unwrap();
    assert_eq!(Some(restored), sample().advance(i64::MIN));
    let restored = RtcState::restore([0xFF; 16], now);
    assert_eq!(restored, None);
}

#[test]
fn restoring_without_a_time() {
    let unset = RtcState { hour: 0x83, ..sample() };
    assert_eq!(RtcState::restore(trailer(unset, 0), utc(2026, 9, 14, 21, 6, 5)), None);
}

#[test]
fn status_formats() {
    assert_eq!(RtcState::STATUS_24H, 0x40);
    assert_eq!(RtcState::STATUS_12H, 0x00);
}

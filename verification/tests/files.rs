use gamebub_gba::calendar::OffsetDateTime;
use gamebub_gba::cartridge::{EmulatedCartridgeConfig, SaveType};
use gamebub_gba::files::{LoadReply, LoadStep, SaveReply, SaveStep};
use gamebub_gba::gba::{Gba, FILE_BIOS, FILE_ROM, FILE_SAVE};
use gamebub_gba::rtc::RtcState;

fn at(day: u8, hour: u8) -> OffsetDateTime {
    OffsetDateTime { year: 2026, month: 9, day, hour, minute: 6, second: 5, offset: 0 }
}

fn with_clock() -> Gba {
    let mut gba = Gba::new();
    gba.emu_cart_config = Some(EmulatedCartridgeConfig {
        has_rtc: true,
        ..EmulatedCartridgeConfig::from_save_type(SaveType::Flash128K)
    });
    gba
}

fn rom_header_bytes() -> [u8; 192] {
    let mut bytes = [0u8; 192];
    bytes[0xA0..0xAC].copy_from_slice(b"POKEMON EMER");
    bytes[0xAC..0xB0].copy_from_slice(b"BPEE");
    bytes
}

#[test]
fn rom_is_read_and_looked_up() {
    let mut gba = Gba::new();
    let step = gba.on_before_file_load(FILE_ROM);
    assert!(matches!(step, LoadStep::QueryLength));
    let step = gba.resume_file_load(step, LoadReply::Length(0x1_0000_1000));
    assert!(matches!(step, LoadStep::ReadHeader));
    assert_eq!(gba.rom_file_size, 0x1000);
    let step = gba.resume_file_load(step, LoadReply::Header(rom_header_bytes()));
    assert!(matches!(step, LoadStep::RewindRom(_)));
    let step = gba.resume_file_load(step, LoadReply::Moved);
    match &step {
        LoadStep::LookUp(header) => assert_eq!(&header.game_code, b"BPEE"),
        _ => panic!("no look-up"),
    }
    let entry = with_clock().emu_cart_config;
    let step = gba.resume_file_load(step, LoadReply::Entry(entry));
    assert!(matches!(step, LoadStep::Done));
    assert_eq!(step.answer(), Ok(()));
    assert_eq!(gba.emu_cart_config, entry);
    assert_eq!(&gba.rom_header.unwrap().game_title, b"POKEMON EMER");
}

#[test]
fn rom_that_cannot_be_read() {
    for failing in 0..3 {
        let mut gba = Gba::new();
        let mut step = gba.on_before_file_load(FILE_ROM);
        if failing > 0 {
            step = gba.resume_file_load(step, LoadReply::Length(77));
        }
        if failing > 1 {
            step = gba.resume_file_load(step, LoadReply::Header(rom_header_bytes()));
        }
        step = gba.resume_file_load(step, LoadReply::IoError);
        assert!(matches!(step, LoadStep::Failed));
        assert_eq!(step.answer(), Err("I/O".to_string()));
        assert_eq!(gba.rom_file_size, if failing > 0 { 77 } else { 0 });
        assert!(gba.rom_header.is_none());
    }
}

#[test]
fn files_that_need_nothing_read() {
    let gba = with_clock();
    assert!(matches!(gba.on_before_file_load(FILE_BIOS), LoadStep::Done));
    let mut gba = Gba::new();
    gba.on_after_file_load(FILE_ROM, SaveType::Sram);
    assert!(matches!(gba.on_before_file_load(FILE_SAVE), LoadStep::Done));
    assert!(matches!(gba.on_after_file_save(FILE_SAVE), SaveStep::Done));
    assert!(matches!(Gba::new().on_after_file_save(FILE_SAVE), SaveStep::Done));
}

#[test]
fn clock_is_saved_and_restored() {
    let mut gba = with_clock();
    let step = gba.on_after_file_save(FILE_SAVE);
    assert!(matches!(step, SaveStep::ReadClock { lo: 0x200, hi: 0x204 }));
    let step = step.resume(SaveReply::Clock { lo: 0x0114_0926, hi: 0x4005_0621, now: at(14, 20) });
    let mut bytes = [0u8; 16];
    match &step {
        SaveStep::WriteRegisters { registers, .. } => bytes[..8].copy_from_slice(registers),
        _ => panic!("no registers"),
    }
    let step = step.resume(SaveReply::Written);
    match &step {
        SaveStep::WriteTimestamp(timestamp) => bytes[8..].copy_from_slice(timestamp),
        _ => panic!("no timestamp"),
    }
    let step = step.resume(SaveReply::Written);
    assert!(matches!(step, SaveStep::Done));
    assert_eq!(step.answer(), Ok(()));
    assert_eq!(bytes[..8], [0x26, 0x09, 0x14, 0x01, 0x21, 0x06, 0x05, 0x40]);
    assert_eq!(u64::from_le_bytes(bytes[8..].try_into().unwrap()), 1_789_416_365);

    let step = gba.on_before_file_load(FILE_SAVE);
    assert!(matches!(step, LoadStep::SeekTrailer(131072)));
    let step = gba.resume_file_load(step, LoadReply::Moved);
    assert!(matches!(step, LoadStep::ReadTrailer));
    let step = gba.resume_file_load(step, LoadReply::Trailer(bytes, 16));
    assert!(matches!(step, LoadStep::ReadClock(_)));
    let step = gba.resume_file_load(step, LoadReply::Clock(at(16, 20)));
    assert!(matches!(step, LoadStep::RewindSave));
    assert_eq!(
        gba.rtc_state.unwrap().to_disk(),
        [0x26, 0x09, 0x16, 0x03, 0x21, 0x06, 0x05, 0x40]
    );
    let step = gba.resume_file_load(step, LoadReply::Moved);
    assert!(matches!(step, LoadStep::Done));
}

#[test]
fn clock_that_is_incomplete_or_unset() {
    let kept = RtcState::from_fpga(1, 2);
    let mut gba = with_clock();
    gba.rtc_state = Some(kept);
    let step = gba.resume_file_load(LoadStep::ReadTrailer, LoadReply::Trailer([0; 16], 15));
    assert!(matches!(step, LoadStep::RewindSave));
    assert_eq!(gba.rtc_state, Some(kept));
    let step = gba.resume_file_load(LoadStep::ReadTrailer, LoadReply::Trailer([0; 16], 16));
    let step = gba.resume_file_load(step, LoadReply::Clock(at(14, 20)));
    assert!(matches!(step, LoadStep::RewindSave));
    assert_eq!(gba.rtc_state, Some(kept));
}

#[test]
fn save_that_cannot_be_read() {
    let mut gba = with_clock();
    let step = gba.on_before_file_load(FILE_SAVE);
    let step = gba.resume_file_load(step, LoadReply::IoError);
    assert_eq!(step.answer(), Err("I/O".to_string()));
    let step = gba.resume_file_load(LoadStep::ReadTrailer, LoadReply::IoError);
    assert_eq!(step.answer(), Err("I/O".to_string()));
    let step = gba.resume_file_load(LoadStep::RewindSave, LoadReply::IoError);
    assert_eq!(step.answer(), Err("I/O".to_string()));
}

#[test]
fn save_that_cannot_be_written() {
    let first = SaveStep::WriteRegisters { registers: [0; 8], timestamp: [0; 8] };
    assert_eq!(first.resume(SaveReply::IoError).answer(), Err("I/O".to_string()));
    let second = SaveStep::WriteTimestamp([0; 8]);
    assert_eq!(second.resume(SaveReply::IoError).answer(), Err("I/O".to_string()));
}

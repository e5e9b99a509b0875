use gamebub_gba::calendar::OffsetDateTime;
use gamebub_gba::cartridge::{EmulatedCartridgeConfig, SaveType};
use gamebub_gba::gba::{bios_warning, Gba, FILE_BIOS, FILE_ROM, FILE_SAVE};
use gamebub_gba::hardware::{
    advance_steps, start_steps, ColorPreset, Command, GbaError, OnFailure, Progress, Step,
    SYSTEM_CLOCK_RATE,
};
use gamebub_gba::rom_header::RomHeader;
use gamebub_gba::rtc::RtcState;

fn now() -> OffsetDateTime {
    OffsetDateTime { year: 2026, month: 9, day: 14, hour: 21, minute: 6, second: 5, offset: 0 }
}

fn write(address: u32, value: u32) -> Step {
    Step { command: Command::WriteRegister { address, value }, on_failure: OnFailure::Ignore }
}

fn required(command: Command) -> Step {
    Step { command, on_failure: OnFailure::Panic }
}

fn loaded(config: EmulatedCartridgeConfig) -> Gba {
    Gba {
        emu_cart_config: Some(config),
        rom_header: Some(RomHeader::default()),
        rom_file_size: 0x40_0000,
        rtc_state: None,
    }
}

fn sensors(has_gyro: bool, has_accel: bool) -> EmulatedCartridgeConfig {
    EmulatedCartridgeConfig {
        has_gyro,
        has_accel,
        ..EmulatedCartridgeConfig::from_save_type(SaveType::Sram)
    }
}

#[test]
fn new_driver_knows_nothing() {
    let gba = Gba::new();
    assert_eq!(gba.emu_cart_config, None);
    assert!(gba.rom_header.is_none());
    assert_eq!(gba.rom_file_size, 0);
    assert_eq!(gba.rtc_state, None);
    assert_eq!(gba.get_file_size(FILE_SAVE), Some(0));
    assert_eq!(gba.on_vblank_irq(), (false, false));
}

#[test]
fn bios_names() {
    assert_eq!(Gba::get_bios_path(true), "gba.bios-fast.bin");
    assert_eq!(Gba::get_bios_path(false), "gba.bios.bin");
    let gba = Gba::new();
    assert_eq!(gba.get_file_path_override(FILE_BIOS, Some(true)), Some("gba.bios-fast.bin"));
    assert_eq!(gba.get_file_path_override(FILE_BIOS, Some(false)), Some("gba.bios.bin"));
    assert_eq!(gba.get_file_path_override(FILE_ROM, None), None);
    assert_eq!(gba.get_file_path_override(FILE_SAVE, Some(true)), None);
}

#[test]
fn initialization() {
    let report = |command| Step { command, on_failure: OnFailure::Report };
    assert_eq!(
        Gba::initialize(true, 2),
        vec![
            required(Command::DisableGyro),
            required(Command::DisableAccel),
            report(Command::WriteRegister { address: 8, value: 1 }),
            report(Command::DisableVblankInterrupt),
            report(Command::ConfigureColors {
                preset: ColorPreset::GbaAgs101,
                base: 0x5000_0000,
            }),
        ]
    );
}

#[test]
fn initialization_in_parts() {
    let mut steps = Gba::rest_sensors();
    steps.append(&mut Gba::prepare_fpga(false));
    steps.append(&mut Gba::prepare_colors(5));
    assert_eq!(steps, Gba::initialize(false, 5));
    assert_eq!(Gba::rest_sensors().len(), 2);
}

#[test]
fn color_presets_by_number() {
    assert_eq!(ColorPreset::from_number(0), ColorPreset::Identity);
    assert_eq!(ColorPreset::from_number(1), ColorPreset::GbcGba);
    assert_eq!(ColorPreset::from_number(2), ColorPreset::GbaAgs101);
    assert_eq!(ColorPreset::from_number(3), ColorPreset::Nds);
    assert_eq!(ColorPreset::from_number(4), ColorPreset::NdsLite);
    assert_eq!(ColorPreset::from_number(5), ColorPreset::NsoGba);
    assert_eq!(ColorPreset::from_number(6), ColorPreset::Identity);
    assert_eq!(ColorPreset::from_number(u32::MAX), ColorPreset::Identity);
    let steps = Gba::initialize(false, -1);
    assert_eq!(
        steps[4].command,
        Command::ConfigureColors { preset: ColorPreset::Identity, base: 0x5000_0000 }
    );
}

#[test]
fn run_of_steps_stops_where_it_must() {
    let steps = Gba::initialize(false, 0);
    assert_eq!(start_steps(&steps), Progress::At(0));
    assert_eq!(start_steps(&Vec::new()), Progress::Finished);
    assert_eq!(advance_steps(&steps, 0, true), Progress::At(1));
    assert_eq!(advance_steps(&steps, 0, false), Progress::Panicked);
    assert_eq!(advance_steps(&steps, 2, false), Progress::Failed(GbaError::FpgaError));
    assert_eq!(advance_steps(&steps, 4, true), Progress::Finished);
    let ignored = vec![write(0, 0), write(4, 1)];
    assert_eq!(advance_steps(&ignored, 0, false), Progress::At(1));
    assert_eq!(advance_steps(&ignored, 1, false), Progress::Finished);
}

#[test]
fn errors_in_words() {
    assert_eq!(GbaError::IoError.to_string(), "I/O error");
    assert_eq!(GbaError::FpgaError.to_string(), "FPGA error");
}

#[test]
fn failed_initialization_hands_nothing_over() {
    let gba = loaded(sensors(true, true));
    assert!(gba.asks_for_clock(Progress::Finished));
    assert!(!gba.asks_for_clock(Progress::Failed(GbaError::FpgaError)));
    assert_eq!(
        gba.on_before_run(Progress::Failed(GbaError::FpgaError), None),
        Err("FPGA error".to_string())
    );
}

#[test]
fn run_with_a_rom() {
    let gba = loaded(sensors(true, true));
    assert!(gba.asks_for_clock(Progress::Finished));
    assert!(!gba.asks_for_clock(Progress::Failed(GbaError::FpgaError)));
    assert_eq!(
        gba.on_before_run(Progress::Finished, Some(now())).unwrap(),
        vec![
            write(0x000, 0x323),
            write(0x004, 0x3F_FFFF),
            write(0x200, 0x0114_0926),
            write(0x204, 0x4005_0621),
            required(Command::EnableGyro),
            required(Command::EnableAccel),
            required(Command::EnableVblankInterrupt),
        ]
    );
    let gba = loaded(sensors(false, true));
    let steps = gba.on_before_run(Progress::Finished, Some(now())).unwrap();
    assert_eq!(
        steps[4..],
        [required(Command::EnableAccel), required(Command::EnableVblankInterrupt)]
    );
    let gba = loaded(sensors(false, false));
    assert_eq!(gba.on_before_run(Progress::Finished, Some(now())).unwrap().len(), 4);
}

#[test]
fn run_with_a_restored_clock() {
    let mut gba = loaded(sensors(false, false));
    gba.rtc_state = Some(RtcState::from_fpga(0x0403_0201, 0x0807_0605));
    assert!(!gba.asks_for_clock(Progress::Finished));
    let steps = gba.on_before_run(Progress::Finished, None).unwrap();
    assert_eq!(steps[2..], [write(0x200, 0x0403_0201), write(0x204, 0x0807_0605)]);
}

#[test]
fn run_with_a_physical_cartridge() {
    let gba = Gba::new();
    assert!(!gba.asks_for_clock(Progress::Finished));
    assert_eq!(gba.on_before_run(Progress::Finished, None).unwrap(), vec![write(0, 0)]);
}

#[test]
fn sensors_at_vertical_blank() {
    assert_eq!(loaded(sensors(true, false)).on_vblank_irq(), (true, false));
    assert_eq!(loaded(sensors(false, true)).on_vblank_irq(), (false, true));
    assert_eq!(
        Gba::gyro_steps(0x6C0),
        vec![required(Command::WriteRegister { address: 0x100, value: 0x6C0 })]
    );
    assert_eq!(
        Gba::accel_steps(0x3A0, 0x1D0),
        vec![
            required(Command::WriteRegister { address: 0x104, value: 0x3A0 }),
            required(Command::WriteRegister { address: 0x108, value: 0x1D0 }),
        ]
    );
}

#[test]
fn save_type_is_detected_where_the_game_is_unknown() {
    let mut gba = Gba::new();
    assert!(gba.on_during_file_load(FILE_ROM));
    assert!(!gba.on_during_file_load(FILE_SAVE));
    assert!(!gba.on_during_file_load(FILE_BIOS));
    gba.on_after_file_load(FILE_BIOS, SaveType::Sram);
    assert_eq!(gba.emu_cart_config, None);
    gba.on_after_file_load(FILE_ROM, SaveType::Flash128K);
    assert_eq!(
        gba.emu_cart_config,
        Some(EmulatedCartridgeConfig::from_save_type(SaveType::Flash128K))
    );
    assert!(!gba.on_during_file_load(FILE_ROM));
    gba.on_after_file_load(FILE_ROM, SaveType::Sram);
    assert_eq!(gba.get_file_size(FILE_SAVE), Some(131072));
}

#[test]
fn focus_lost_and_regained() {
    let gba = loaded(sensors(true, true));
    assert_eq!(
        gba.on_focus_changed(true),
        vec![required(Command::EnableGyro), required(Command::EnableAccel)]
    );
    assert_eq!(
        gba.on_focus_changed(false),
        vec![
            required(Command::DisableGyro),
            required(Command::DisableAccel),
            required(Command::ReadRegister { address: 0x1004 }),
            required(Command::ReadRegister { address: 0x1000 }),
            write(0x1004, 0),
            write(0x1000, 0),
        ]
    );
    assert_eq!(Gba::new().on_focus_changed(true), vec![]);
}

#[test]
fn settings_loaded() {
    assert_eq!(Gba::load_settings(3, true), vec![(1, 3), (2, 1)]);
    assert_eq!(Gba::load_settings(-1, false), vec![(1, u32::MAX), (2, 0)]);
}

#[test]
fn settings_changed() {
    let ignore = |command| Step { command, on_failure: OnFailure::Ignore };
    assert_eq!(
        Gba::on_setting_changed(1, 4),
        vec![
            ignore(Command::StoreColorProfile { profile: 4 }),
            ignore(Command::ConfigureColors {
                preset: ColorPreset::NdsLite,
                base: 0x5000_0000,
            }),
        ]
    );
    assert_eq!(
        Gba::on_setting_changed(1, 0x8000_0000)[0],
        ignore(Command::StoreColorProfile { profile: i32::MIN })
    );
    assert_eq!(
        Gba::on_setting_changed(2, 1),
        vec![ignore(Command::StoreGameBoyPlayer { enabled: true }), write(8, 1)]
    );
    assert_eq!(
        Gba::on_setting_changed(2, 7),
        vec![ignore(Command::StoreGameBoyPlayer { enabled: false }), write(8, 7)]
    );
    assert_eq!(Gba::on_setting_changed(0, 1), vec![]);
    assert_eq!(Gba::on_setting_changed(9, 1), vec![]);
}

#[test]
fn settings_survive() {
    for value in [0u32, 1, 5, 0x7FFF_FFFF, 0x8000_0001, u32::MAX] {
        let steps = Gba::on_setting_changed(1, value);
        match steps[0].command {
            Command::StoreColorProfile { profile } => {
                assert_eq!(Gba::load_settings(profile, true)[0], (1, value));
                assert_eq!(Gba::initialize(true, profile)[4].command, steps[1].command);
            }
            _ => panic!("not stored"),
        }
    }
    for value in [0u32, 1] {
        let steps = Gba::on_setting_changed(2, value);
        match steps[0].command {
            Command::StoreGameBoyPlayer { enabled } => {
                assert_eq!(Gba::load_settings(0, enabled)[1], (2, value));
                assert_eq!(Gba::initialize(enabled, 0)[2].command, steps[1].command);
            }
            _ => panic!("not stored"),
        }
    }
}

#[test]
fn warning_without_a_bios() {
    let text = "No GBA BIOS provided:\nsome games may have bugs\n(see User Guide)";
    assert_eq!(bios_warning(Progress::Finished, None, false), Some(text));
    assert_eq!(bios_warning(Progress::Finished, Some(true), false), Some(text));
    assert_eq!(bios_warning(Progress::Finished, Some(false), false), None);
    assert_eq!(bios_warning(Progress::Finished, None, true), None);
    assert_eq!(bios_warning(Progress::Failed(GbaError::FpgaError), None, false), None);
}

#[test]
fn clock_rate_of_the_module() {
    assert_eq!(SYSTEM_CLOCK_RATE, 16_777_216);
}

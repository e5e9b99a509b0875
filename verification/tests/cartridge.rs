use gamebub_gba::cartridge::{EmulatedCartridgeConfig, SaveType};
use gamebub_gba::rom_header::{describe_rom, RomHeader, ROM_HEADER_LENGTH};

fn with(save_type: SaveType) -> EmulatedCartridgeConfig {
    EmulatedCartridgeConfig::from_save_type(save_type)
}

#[test]
fn save_sizes() {
    assert_eq!(SaveType::NoBackup.get_size(), 0);
    assert_eq!(SaveType::EepromAuto.get_size(), 8192);
    assert_eq!(SaveType::Eeprom512.get_size(), 512);
    assert_eq!(SaveType::Eeprom8K.get_size(), 8192);
    assert_eq!(SaveType::Sram.get_size(), 32768);
    assert_eq!(SaveType::Flash64K.get_size(), 65536);
    assert_eq!(SaveType::Flash128K.get_size(), 131072);
    assert_eq!(SaveType::default(), SaveType::NoBackup);
}

#[test]
fn config_words_of_save_types() {
    assert_eq!(with(SaveType::NoBackup).as_config_u32(), 0b0_0001);
    assert_eq!(with(SaveType::Sram).as_config_u32(), 0b0_0011);
    assert_eq!(with(SaveType::Flash64K).as_config_u32(), 0b0_0101);
    assert_eq!(with(SaveType::Flash128K).as_config_u32(), 0b0_1101);
    assert_eq!(with(SaveType::EepromAuto).as_config_u32(), 0b1_0111);
    assert_eq!(with(SaveType::Eeprom512).as_config_u32(), 0b0_0111);
    assert_eq!(with(SaveType::Eeprom8K).as_config_u32(), 0b0_1111);
}

#[test]
fn config_words_of_hardware() {
    let base = with(SaveType::NoBackup);
    assert_eq!(EmulatedCartridgeConfig { has_rumble: true, ..base }.as_config_u32(), 0x61);
    assert_eq!(EmulatedCartridgeConfig { has_rtc: true, ..base }.as_config_u32(), 0xA1);
    assert_eq!(EmulatedCartridgeConfig { has_accel: true, ..base }.as_config_u32(), 0x101);
    assert_eq!(EmulatedCartridgeConfig { has_gyro: true, ..base }.as_config_u32(), 0x221);
    assert_eq!(EmulatedCartridgeConfig { has_solar: true, ..base }.as_config_u32(), 0x001);
    assert_eq!(EmulatedCartridgeConfig::DISABLED, 0);
}

#[test]
fn header_fields() {
    let mut bytes = [0u8; ROM_HEADER_LENGTH];
    bytes[0x9F] = b'x';
    bytes[0xA0..0xAC].copy_from_slice(b"POKEMON RUBY");
    bytes[0xAC..0xB0].copy_from_slice(b"AXVE");
    bytes[0xB0] = b'x';
    let header = RomHeader::parse(bytes);
    assert_eq!(&header.game_title, b"POKEMON RUBY");
    assert_eq!(&header.game_code, b"AXVE");
    assert_eq!(header.to_string(), "'POKEMON RUBY' (AXVE)");
}

#[test]
fn header_that_is_no_text() {
    let header = RomHeader { game_title: *b"\xFFBC\0\0\0\0\0\0\0\0\0", game_code: *b"A\xC3\xA9B" };
    assert_eq!(header.to_string(), "'\u{FFFD}BC\0\0\0\0\0\0\0\0\0' (A\u{e9}B)");
}

#[test]
fn default_header_is_zero() {
    let header = RomHeader::default();
    assert_eq!(header.game_title, [0; 12]);
    assert_eq!(header.game_code, [0; 4]);
}

#[test]
fn description_of_a_rom() {
    assert_eq!(describe_rom("Title", "CODE"), "'Title' (CODE)");
}

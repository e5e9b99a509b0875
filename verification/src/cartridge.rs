//! The emulated cartridge: how it keeps saves, and what hardware it carries.
use vstd::prelude::*;

verus! {

/// How a cartridge keeps its save.
#[derive(Copy, Clone, Debug, PartialEq, Eq, Structural)]
pub enum SaveType {
    /// No backup
    NoBackup,
    /// EEPROM - Autodetect Size
    EepromAuto,
    /// EEPROM, 512B
    Eeprom512,
    /// EEPROM, 8KiB
    Eeprom8K,
    /// SRAM or FRAM, 32 KiB
    Sram,
    /// Flash 64KiB
    Flash64K,
    /// Flash 128KiB
    Flash128K,
}

impl Default for SaveType {
    fn default() -> (save_type: Self)
        ensures
            save_type == SaveType::NoBackup,
    {
        SaveType::NoBackup
    }
}

impl SaveType {
    /// The bytes that the save takes. An EEPROM of unknown size is given the larger one.
    pub open spec fn size(self) -> nat {
        match self {
            SaveType::NoBackup => 0,
            SaveType::EepromAuto => 0x2000,
            SaveType::Eeprom512 => 0x200,
            SaveType::Eeprom8K => 0x2000,
            SaveType::Sram => 0x8000,
            SaveType::Flash64K => 0x1_0000,
            SaveType::Flash128K => 0x2_0000,
        }
    }

    /// The four bits that tell the FPGA how the save is kept. The lower two tell the kind (none,
    /// SRAM, flash, EEPROM), the third the larger size, the fourth that the size is to be found
    /// out.
    pub open spec fn backup_code(self) -> nat {
        match self {
            SaveType::NoBackup => 0,
            SaveType::Sram => 1,
            SaveType::Flash64K => 2,
            SaveType::Eeprom512 => 3,
            SaveType::Flash128K => 2 + 4,
            SaveType::Eeprom8K => 3 + 4,
            SaveType::EepromAuto => 3 + 8,
        }
    }

    pub fn get_size(self) -> (size: usize)
        ensures
            size == self.size(),
    {
        match self {
            SaveType::NoBackup => 0,
            SaveType::EepromAuto | SaveType::Eeprom8K => 8 * 1024,
            SaveType::Eeprom512 => 512,
            SaveType::Sram => 32 * 1024,
            SaveType::Flash64K => 64 * 1024,
            SaveType::Flash128K => 128 * 1024,
        }
    }
}

/// What the emulated cartridge carries.
#[derive(Copy, Clone, Debug, PartialEq, Eq, Structural)]
pub struct EmulatedCartridgeConfig {
    pub save_type: SaveType,
    pub has_rumble: bool,
    pub has_rtc: bool,
    pub has_accel: bool,
    pub has_gyro: bool,
    pub has_solar: bool,
}

pub open spec fn bit(set: bool) -> nat {
    if set {
        1
    } else {
        0
    }
}

impl EmulatedCartridgeConfig {
    pub const DISABLED: u32 = 0;

    /// The cartridge has a port through which the game drives hardware.
    pub open spec fn has_gpio(self) -> bool {
        self.has_rumble || self.has_rtc || self.has_gyro
    }

    /// The configuration word of the FPGA: enabled, backup, port, rumble, clock, accelerometer and
    /// gyroscope, from the lowest bit up. The solar sensor has no bit.
    pub open spec fn config_word(self) -> nat {
        1 + self.save_type.backup_code() * 2 + bit(self.has_gpio()) * 0x20 + bit(self.has_rumble)
            * 0x40 + bit(self.has_rtc) * 0x80 + bit(self.has_accel) * 0x100 + bit(self.has_gyro)
            * 0x200
    }

    /// A cartridge that keeps saves and carries nothing else.
    pub fn from_save_type(save_type: SaveType) -> (config: Self)
        ensures
            config == (EmulatedCartridgeConfig {
                save_type,
                has_rumble: false,
                has_rtc: false,
                has_accel: false,
                has_gyro: false,
                has_solar: false,
            }),
    {
        EmulatedCartridgeConfig {
            save_type,
            has_rumble: false,
            has_rtc: false,
            has_accel: false,
            has_gyro: false,
            has_solar: false,
        }
    }

    pub fn as_config_u32(self) -> (word: u32)
        ensures
            word == self.config_word(),
    {
        let backup: u32 = match self.save_type {
            SaveType::NoBackup => 0b0000,
            SaveType::Sram => 0b0001,
            SaveType::Flash64K => 0b0010,
            SaveType::Flash128K => 0b0110,
            SaveType::EepromAuto => 0b1011,
            SaveType::Eeprom512 => 0b0011,
            SaveType::Eeprom8K => 0b0111,
        };
        let has_gpio = self.has_rumble || self.has_rtc || self.has_gyro;
        let gpio: u32 = has_gpio as u32;
        let rumble: u32 = self.has_rumble as u32;
        let rtc: u32 = self.has_rtc as u32;
        let accel: u32 = self.has_accel as u32;
        let gyro: u32 = self.has_gyro as u32;
        assert(1 | (backup << 1) | (gpio << 5) | (rumble << 6) | (rtc << 7) | (accel << 8) | (gyro
            << 9) == 1 + backup * 2 + gpio * 0x20 + rumble * 0x40 + rtc * 0x80 + accel * 0x100
            + gyro * 0x200) by (bit_vector)
            requires
                backup < 16,
                gpio <= 1,
                rumble <= 1,
                rtc <= 1,
                accel <= 1,
                gyro <= 1,
        ;
        1 | (backup << 1) | (gpio << 5) | (rumble << 6) | (rtc << 7) | (accel << 8) | (gyro << 9)
    }
}

/// No cartridge is configured by the word that switches emulation off.
pub proof fn law_config_is_not_disabled(config: EmulatedCartridgeConfig)
    ensures
        config.config_word() != EmulatedCartridgeConfig::DISABLED,
{
}

/// The configuration word tells cartridges apart by everything but the solar sensor.
pub proof fn law_config_word_tells_apart(a: EmulatedCartridgeConfig, b: EmulatedCartridgeConfig)
    ensures
        a.config_word() == b.config_word() <==> a == (EmulatedCartridgeConfig {
            has_solar: a.has_solar,
            ..b
        }),
{
}

} // verus!

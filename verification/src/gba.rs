//! The driver of the GBA module: what it knows of the cartridge, and what it asks for when.
use vstd::prelude::*;

use crate::calendar::OffsetDateTime;
use crate::cartridge::{EmulatedCartridgeConfig, SaveType};
use crate::hardware::{
    ColorPreset, Command, OnFailure, Progress, Step, COLOR_CORRECTION_BASE, REG_EMU_CART_CONFIG,
    REG_EMU_CART_ROM_SIZE, REG_GB_PLAYER, REG_IMU_ACCEL_X, REG_IMU_ACCEL_Y, REG_IMU_GYRO_Z,
    REG_RTC_HI, REG_RTC_LO, REG_STAT_CYCLES, REG_STAT_STALLS,
};
use crate::rom_header::RomHeader;
use crate::rtc::RtcState;

verus! {

pub const FILE_ROM: u16 = 0;

pub const FILE_SAVE: u16 = 1;

pub const FILE_BIOS: u16 = 2;

pub const SETTING_RESET: u16 = 0;

pub const SETTING_COLOR_CORRECTIONS: u16 = 1;

pub const SETTING_GAME_BOY_PLAYER: u16 = 2;

/// Driver for GBA FPGA module
#[derive(Debug)]
pub struct Gba {
    /// Emulated cartridge config.
    pub emu_cart_config: Option<EmulatedCartridgeConfig>,
    pub rom_header: Option<RomHeader>,
    pub rom_file_size: u32,
    pub rtc_state: Option<RtcState>,
}

/// A number is stored in an `i32` bit by bit.
pub open spec fn bits_as_i32(value: u32) -> i32 {
    if value < 0x8000_0000 {
        value as i32
    } else {
        (value - 0x1_0000_0000) as i32
    }
}

/// A stored number is read back bit by bit.
pub open spec fn bits_as_u32(value: i32) -> u32 {
    if value >= 0 {
        value as u32
    } else {
        (value + 0x1_0000_0000) as u32
    }
}

/// A cast to `u32` keeps the bits.
proof fn lemma_cast_keeps_bits(value: i32)
    ensures
        value as u32 == bits_as_u32(value),
{
    assert(value as u32 == if value >= 0 {
        value as int
    } else {
        value + 0x1_0000_0000
    }) by (bit_vector);
}

pub open spec fn bool_as_u32(value: bool) -> u32 {
    if value {
        1
    } else {
        0
    }
}

/// The steps that put the sensors to rest.
pub open spec fn rest_steps() -> Seq<Step> {
    seq![
        crate::hardware::step(Command::DisableGyro, OnFailure::Panic),
        crate::hardware::step(Command::DisableAccel, OnFailure::Panic),
    ]
}

/// The steps that prepare the FPGA for a cartridge.
pub open spec fn prepare_steps(enable_gbp: bool) -> Seq<Step> {
    seq![
        crate::hardware::step(
            Command::WriteRegister { address: REG_GB_PLAYER, value: bool_as_u32(enable_gbp) },
            OnFailure::Report,
        ),
        crate::hardware::step(Command::DisableVblankInterrupt, OnFailure::Report),
    ]
}

/// The steps that set the color correction.
pub open spec fn color_steps(color_profile: i32) -> Seq<Step> {
    seq![
        crate::hardware::step(
            Command::ConfigureColors {
                preset: crate::hardware::numbered_preset(bits_as_u32(color_profile)),
                base: COLOR_CORRECTION_BASE,
            },
            OnFailure::Report,
        ),
    ]
}

/// The steps that bring the hardware to rest before a cartridge is loaded.
pub open spec fn initialize_steps(enable_gbp: bool, color_profile: i32) -> Seq<Step> {
    rest_steps() + prepare_steps(enable_gbp) + color_steps(color_profile)
}

/// One step, where it is called for.
pub open spec fn when_needed(needed: bool, command: Command) -> Seq<Step> {
    if needed {
        seq![crate::hardware::step(command, OnFailure::Panic)]
    } else {
        seq![]
    }
}

/// The settings as they are handed to the user interface.
pub open spec fn loaded_settings(color_profile: i32, enable_gbp: bool) -> Seq<(u16, u32)> {
    seq![
        (SETTING_COLOR_CORRECTIONS, bits_as_u32(color_profile)),
        (SETTING_GAME_BOY_PLAYER, bool_as_u32(enable_gbp)),
    ]
}

/// The steps that put a changed setting into effect.
pub open spec fn setting_steps(id: u16, value: u32) -> Seq<Step> {
    if id == SETTING_COLOR_CORRECTIONS {
        seq![
            crate::hardware::step(
                Command::StoreColorProfile { profile: bits_as_i32(value) },
                OnFailure::Ignore,
            ),
            crate::hardware::step(
                Command::ConfigureColors {
                    preset: crate::hardware::numbered_preset(value),
                    base: COLOR_CORRECTION_BASE,
                },
                OnFailure::Ignore,
            ),
        ]
    } else if id == SETTING_GAME_BOY_PLAYER {
        seq![
            crate::hardware::step(
                Command::StoreGameBoyPlayer { enabled: value == 1 },
                OnFailure::Ignore,
            ),
            crate::hardware::write_ignored(REG_GB_PLAYER, value),
        ]
    } else {
        seq![]
    }
}

impl Gba {
    pub open spec fn has_gyro(self) -> bool {
        self.emu_cart_config matches Some(config) && config.has_gyro
    }

    pub open spec fn has_accel(self) -> bool {
        self.emu_cart_config matches Some(config) && config.has_accel
    }

    pub open spec fn has_rtc(self) -> bool {
        self.emu_cart_config matches Some(config) && config.has_rtc
    }

    /// The bytes of the save, without what is kept behind it.
    pub open spec fn save_size(self) -> nat {
        match self.emu_cart_config {
            Some(config) => config.save_type.size(),
            None => 0,
        }
    }

    /// A loaded ROM is not empty, and it is known what its cartridge carries.
    pub open spec fn ready_to_run(self) -> bool {
        self.rom_header is Some ==> self.emu_cart_config is Some && self.rom_file_size >= 1
    }

    /// The cartridge starts with a clock that has to be set to the present time.
    pub open spec fn needs_clock(self) -> bool {
        self.rom_header is Some && self.rtc_state is None
    }

    /// The clock that the cartridge starts with: the restored one, or one that shows `now`.
    pub open spec fn starting_clock(self, now: Option<OffsetDateTime>) -> RtcState {
        match self.rtc_state {
            Some(state) => state,
            None => RtcState::showing(now->0, 0),
        }
    }

    /// The steps that hand the cartridge to the hardware.
    pub open spec fn run_steps(self, now: Option<OffsetDateTime>) -> Seq<Step> {
        if self.rom_header is Some {
            seq![
                crate::hardware::write_ignored(
                    REG_EMU_CART_CONFIG,
                    self.emu_cart_config->0.config_word() as u32,
                ),
                crate::hardware::write_ignored(
                    REG_EMU_CART_ROM_SIZE,
                    (self.rom_file_size - 1) as u32,
                ),
                crate::hardware::write_ignored(REG_RTC_LO, self.starting_clock(now).words().0),
                crate::hardware::write_ignored(REG_RTC_HI, self.starting_clock(now).words().1),
            ] + when_needed(self.has_gyro(), Command::EnableGyro) + when_needed(
                self.has_accel(),
                Command::EnableAccel,
            ) + when_needed(
                self.has_gyro() || self.has_accel(),
                Command::EnableVblankInterrupt,
            )
        } else {
            seq![
                crate::hardware::write_ignored(
                    REG_EMU_CART_CONFIG,
                    EmulatedCartridgeConfig::DISABLED,
                ),
            ]
        }
    }

    /// The steps that follow a change of focus.
    pub open spec fn focus_steps(self, has_focus: bool) -> Seq<Step> {
        if has_focus {
            when_needed(self.has_gyro(), Command::EnableGyro) + when_needed(
                self.has_accel(),
                Command::EnableAccel,
            )
        } else {
            when_needed(self.has_gyro(), Command::DisableGyro) + when_needed(
                self.has_accel(),
                Command::DisableAccel,
            ) + seq![
                crate::hardware::step(
                    Command::ReadRegister { address: REG_STAT_CYCLES },
                    OnFailure::Panic,
                ),
                crate::hardware::step(
                    Command::ReadRegister { address: REG_STAT_STALLS },
                    OnFailure::Panic,
                ),
                crate::hardware::write_ignored(REG_STAT_CYCLES, 0),
                crate::hardware::write_ignored(REG_STAT_STALLS, 0),
            ]
        }
    }

    /// What the driver knows once a file has been loaded, where `detected` was found in it.
    pub open spec fn after_file_load(self, id: u16, detected: SaveType) -> Gba {
        if id == FILE_ROM && self.emu_cart_config is None {
            Gba {
                emu_cart_config: Some(
                    EmulatedCartridgeConfig {
                        save_type: detected,
                        has_rumble: false,
                        has_rtc: false,
                        has_accel: false,
                        has_gyro: false,
                        has_solar: false,
                    },
                ),
                ..self
            }
        } else {
            self
        }
    }

    /// A driver that knows of no cartridge.
    pub fn new() -> (gba: Self)
        ensures
            gba == (Gba {
                emu_cart_config: None,
                rom_header: None,
                rom_file_size: 0,
                rtc_state: None,
            }),
    {
        Gba { emu_cart_config: None, rom_header: None, rom_file_size: 0, rtc_state: None }
    }

    /// The system file with the BIOS, with or without its boot animation.
    pub fn get_bios_path(skip_boot_anim: bool) -> (name: &'static str)
        ensures
            name@ == if skip_boot_anim {
                "gba.bios-fast.bin"@
            } else {
                "gba.bios.bin"@
            },
    {
        if skip_boot_anim {
            "gba.bios-fast.bin"
        } else {
            "gba.bios.bin"
        }
    }

    /// Puts the sensors to rest.
    pub fn rest_sensors() -> (steps: Vec<Step>)
        ensures
            steps@ == rest_steps(),
    {
        vec![
            Step::new(Command::DisableGyro, OnFailure::Panic),
            Step::new(Command::DisableAccel, OnFailure::Panic),
        ]
    }

    /// Prepares the FPGA for a cartridge, once the sensors rest.
    pub fn prepare_fpga(enable_gbp: bool) -> (steps: Vec<Step>)
        ensures
            steps@ == prepare_steps(enable_gbp),
    {
        vec![
            Step::write(REG_GB_PLAYER, enable_gbp as u32, OnFailure::Report),
            // Disable Vblank IRQ
            Step::new(Command::DisableVblankInterrupt, OnFailure::Report),
        ]
    }

    /// Sets the color correction, once the FPGA is prepared.
    pub fn prepare_colors(color_profile: i32) -> (steps: Vec<Step>)
        ensures
            steps@ == color_steps(color_profile),
    {
        let number: u32 = color_profile as u32;
        proof {
            lemma_cast_keeps_bits(color_profile);
        }
        let preset = ColorPreset::from_number(number);
        vec![
            Step::new(
                Command::ConfigureColors { preset, base: COLOR_CORRECTION_BASE },
                OnFailure::Report,
            ),
        ]
    }

    /// Prepare to load a new cartridge (physical or emulated)
    pub fn initialize(enable_gbp: bool, color_profile: i32) -> (steps: Vec<Step>)
        ensures
            steps@ == initialize_steps(enable_gbp, color_profile),
    {
        let mut steps: Vec<Step> = Self::rest_sensors();
        let mut prepare: Vec<Step> = Self::prepare_fpga(enable_gbp);
        let mut colors: Vec<Step> = Self::prepare_colors(color_profile);
        steps.append(&mut prepare);
        steps.append(&mut colors);
        steps
    }

    /// Which sensors are to be read at a vertical blank: the gyroscope, the accelerometer.
    pub fn on_vblank_irq(&self) -> (reads: (bool, bool))
        ensures
            reads == (self.has_gyro(), self.has_accel()),
            self.emu_cart_config matches Some(config) ==> reads == (
                config.has_gyro,
                config.has_accel,
            ),
            self.emu_cart_config is None ==> reads == (false, false),
    {
        match self.emu_cart_config {
            Some(config) => (config.has_gyro, config.has_accel),
            None => (false, false),
        }
    }

    /// Hands a turning rate to the cartridge.
    pub fn gyro_steps(z: u16) -> (steps: Vec<Step>)
        ensures
            steps@ == seq![crate::hardware::write_required(REG_IMU_GYRO_Z, z as u32)],
    {
        vec![Step::write(REG_IMU_GYRO_Z, z as u32, OnFailure::Panic)]
    }

    /// Hands a tilt to the cartridge.
    pub fn accel_steps(x: u16, y: u16) -> (steps: Vec<Step>)
        ensures
            steps@ == seq![
                crate::hardware::write_required(REG_IMU_ACCEL_X, x as u32),
                crate::hardware::write_required(REG_IMU_ACCEL_Y, y as u32),
            ],
    {
        vec![
            Step::write(REG_IMU_ACCEL_X, x as u32, OnFailure::Panic),
            Step::write(REG_IMU_ACCEL_Y, y as u32, OnFailure::Panic),
        ]
    }

    /// The system file that takes the place of the file `id`. Only the BIOS has one, and which one
    /// rests on the stored setting, which is there.
    pub fn get_file_path_override(&self, id: u16, skip_boot_anim: Option<bool>) -> (name: Option<
        &'static str,
    >)
        requires
            id == FILE_BIOS ==> skip_boot_anim is Some,
        ensures
            name is Some <==> id == FILE_BIOS,
            name matches Some(name) ==> name@ == if skip_boot_anim->0 {
                "gba.bios-fast.bin"@
            } else {
                "gba.bios.bin"@
            },
    {
        if id == FILE_BIOS {
            match skip_boot_anim {
                Some(skip_boot_anim) => Some(Self::get_bios_path(skip_boot_anim)),
                None => None,
            }
        } else {
            None
        }
    }

    /// Whether a part of the file `id` that is being loaded tells how the cartridge keeps saves.
    pub fn on_during_file_load(&self, id: u16) -> (detect: bool)
        ensures
            detect <==> id == FILE_ROM && self.emu_cart_config is None,
    {
        if id != FILE_ROM {
            return false;
        }
        self.emu_cart_config.is_none()
    }

    /// Settles what the cartridge carries, once its ROM is loaded.
    pub fn on_after_file_load(&mut self, id: u16, detected: SaveType)
        ensures
            *final(self) == old(self).after_file_load(id, detected),
    {
        if id != FILE_ROM {
            return;
        }
        if self.emu_cart_config.is_none() {
            self.emu_cart_config = Some(EmulatedCartridgeConfig::from_save_type(detected));
        }
    }

    /// Whether the present time is needed, once the hardware was brought to rest or failed to be.
    pub fn asks_for_clock(&self, initialized: Progress) -> (ask: bool)
        ensures
            ask <==> initialized is Finished && self.needs_clock(),
    {
        match initialized {
            Progress::Finished => self.rom_header.is_some() && self.rtc_state.is_none(),
            _ => false,
        }
    }

    /// The steps that hand the cartridge to the hardware, where it was brought to rest. Where that
    /// run failed, its error is passed on, and nothing is handed over. The present time is there
    /// where it is needed.
    pub fn on_before_run(
        &self,
        initialized: Progress,
        now: Option<OffsetDateTime>,
    ) -> (steps: Result<Vec<Step>, String>)
        requires
            initialized is Finished || initialized is Failed,
            initialized is Finished ==> self.ready_to_run(),
            initialized is Finished && self.needs_clock() ==> now is Some && (now->0).valid(),
        ensures
            steps is Ok <==> initialized is Finished,
            steps matches Ok(steps) ==> steps@ == self.run_steps(now),
            steps matches Err(text) ==> text@ == (initialized->Failed_0).text(),
    {
        if let Progress::Failed(error) = initialized {
            return Err(error.to_string());
        }
        let mut steps: Vec<Step> = Vec::new();
        match (&self.rom_header, self.emu_cart_config) {
            (Some(_), Some(config)) => {
                // Configure emulated cartridge control registers
                steps.push(
                    Step::write(REG_EMU_CART_CONFIG, config.as_config_u32(), OnFailure::Ignore),
                );
                steps.push(
                    Step::write(REG_EMU_CART_ROM_SIZE, self.rom_file_size - 1, OnFailure::Ignore),
                );
                // Update RTC state
                let rtc_state = match (self.rtc_state, now) {
                    (Some(state), _) => Some(state),
                    (None, Some(now)) => Some(RtcState::from_offset_date_time(now, 0)),
                    (None, None) => None,
                };
                if let Some(rtc_state) = rtc_state {
                    let (rtc_lo, rtc_hi): (u32, u32) = rtc_state.to_fpga();
                    steps.push(Step::write(REG_RTC_LO, rtc_lo, OnFailure::Ignore));
                    steps.push(Step::write(REG_RTC_HI, rtc_hi, OnFailure::Ignore));
                }
                // If IMU is needed, enable vsync IRQ
                if config.has_gyro {
                    steps.push(Step::new(Command::EnableGyro, OnFailure::Panic));
                }
                if config.has_accel {
                    steps.push(Step::new(Command::EnableAccel, OnFailure::Panic));
                }
                if config.has_gyro || config.has_accel {
                    steps.push(Step::new(Command::EnableVblankInterrupt, OnFailure::Panic));
                }
            },
            _ => {
                // Switch to physical cartridge.
                steps.push(
                    Step::write(
                        REG_EMU_CART_CONFIG,
                        EmulatedCartridgeConfig::DISABLED,
                        OnFailure::Ignore,
                    ),
                );
            },
        }
        assert(steps@ =~= self.run_steps(now));
        Ok(steps)
    }

    /// The bytes of the save file that the cartridge is given.
    pub fn get_file_size(&self, id: u16) -> (size: Option<u32>)
        requires
            id == FILE_SAVE,
        ensures
            size == Some(self.save_size() as u32),
            self.emu_cart_config matches Some(config) ==> size == Some(
                config.save_type.size() as u32,
            ),
            self.emu_cart_config is None ==> size == Some(0u32),
    {
        match self.emu_cart_config {
            Some(config) => Some(config.save_type.get_size() as u32),
            None => Some(0),
        }
    }

    /// The steps that follow a change of focus: the sensors rest while the game is paused, and the
    /// counters of the memory are read and start again.
    pub fn on_focus_changed(&self, has_focus: bool) -> (steps: Vec<Step>)
        ensures
            steps@ == self.focus_steps(has_focus),
    {
        let paused = !has_focus;
        let (has_gyro, has_accel) = self.on_vblank_irq();
        let mut steps: Vec<Step> = Vec::new();
        // Enable/disable IMU as needed
        if has_gyro {
            if paused {
                steps.push(Step::new(Command::DisableGyro, OnFailure::Panic));
            } else {
                steps.push(Step::new(Command::EnableGyro, OnFailure::Panic));
            }
        }
        if has_accel {
            if paused {
                steps.push(Step::new(Command::DisableAccel, OnFailure::Panic));
            } else {
                steps.push(Step::new(Command::EnableAccel, OnFailure::Panic));
            }
        }
        if paused {
            steps.push(
                Step::new(Command::ReadRegister { address: REG_STAT_CYCLES }, OnFailure::Panic),
            );
            steps.push(
                Step::new(Command::ReadRegister { address: REG_STAT_STALLS }, OnFailure::Panic),
            );
            steps.push(Step::write(REG_STAT_CYCLES, 0, OnFailure::Ignore));
            steps.push(Step::write(REG_STAT_STALLS, 0, OnFailure::Ignore));
        }
        assert(steps@ =~= self.focus_steps(has_focus));
        steps
    }

    /// The stored settings, as they are handed to the user interface.
    pub fn load_settings(color_profile: i32, enable_gbp: bool) -> (settings: Vec<(u16, u32)>)
        ensures
            settings@ == loaded_settings(color_profile, enable_gbp),
    {
        proof {
            lemma_cast_keeps_bits(color_profile);
        }
        vec![
            (SETTING_COLOR_CORRECTIONS, color_profile as u32),
            (SETTING_GAME_BOY_PLAYER, enable_gbp as u32),
        ]
    }

    /// The steps that put a changed setting into effect.
    pub fn on_setting_changed(id: u16, value: u32) -> (steps: Vec<Step>)
        ensures
            steps@ == setting_steps(id, value),
    {
        if id == SETTING_COLOR_CORRECTIONS {
            let profile: i32 = value as i32;
            assert(value as i32 == if value < 0x8000_0000 {
                value as int
            } else {
                value - 0x1_0000_0000
            }) by (bit_vector);
            let preset = ColorPreset::from_number(value);
            vec![
                Step::new(Command::StoreColorProfile { profile }, OnFailure::Ignore),
                Step::new(
                    Command::ConfigureColors { preset, base: COLOR_CORRECTION_BASE },
                    OnFailure::Ignore,
                ),
            ]
        } else if id == SETTING_GAME_BOY_PLAYER {
            vec![
                Step::new(
                    Command::StoreGameBoyPlayer { enabled: value == 1 },
                    OnFailure::Ignore,
                ),
                Step::write(REG_GB_PLAYER, value, OnFailure::Ignore),
            ]
        } else {
            Vec::new()
        }
    }
}

/// The warning that is due when the game runs on the BIOS that comes with the firmware. It is
/// given unless the user has switched it off, and only where the hardware was brought to rest.
pub fn bios_warning(
    initialized: Progress,
    warn: Option<bool>,
    bios_provided: bool,
) -> (warning: Option<&'static str>)
    ensures
        warning is Some <==> initialized is Finished && warn != Some(false) && !bios_provided,
        warning matches Some(text) ==> text@
            == "No GBA BIOS provided:\nsome games may have bugs\n(see User Guide)"@,
{
    let warn = match warn {
        Some(warn) => warn,
        None => true,
    };
    match initialized {
        Progress::Finished => {
            if warn && !bios_provided {
                Some("No GBA BIOS provided:\nsome games may have bugs\n(see User Guide)")
            } else {
                None
            }
        },
        _ => None,
    }
}

/// The hardware is told to serve exactly the sensors that the cartridge has, and to report the
/// vertical blank exactly where one of them is to be read then.
pub proof fn law_sensors_follow_cartridge(gba: Gba, now: Option<OffsetDateTime>)
    requires
        gba.ready_to_run(),
        gba.rom_header is Some,
    ensures
        gba.run_steps(now).contains(crate::hardware::step(Command::EnableGyro, OnFailure::Panic))
            <==> gba.has_gyro(),
        gba.run_steps(now).contains(crate::hardware::step(Command::EnableAccel, OnFailure::Panic))
            <==> gba.has_accel(),
        gba.run_steps(now).contains(
            crate::hardware::step(Command::EnableVblankInterrupt, OnFailure::Panic),
        ) <==> gba.has_gyro() || gba.has_accel(),
{
    let steps = gba.run_steps(now);
    let gyro: int = if gba.has_gyro() {
        1
    } else {
        0
    };
    let accel: int = if gba.has_accel() {
        1
    } else {
        0
    };
    if gba.has_gyro() {
        assert(steps[4] == crate::hardware::step(Command::EnableGyro, OnFailure::Panic));
    }
    if gba.has_accel() {
        assert(steps[4 + gyro] == crate::hardware::step(Command::EnableAccel, OnFailure::Panic));
    }
    if gba.has_gyro() || gba.has_accel() {
        assert(steps[4 + gyro + accel] == crate::hardware::step(
            Command::EnableVblankInterrupt,
            OnFailure::Panic,
        ));
    }
}

/// Once the hardware is at rest, no refusal of the FPGA keeps a game from running.
pub proof fn law_started_run_does_not_fail(
    gba: Gba,
    now: Option<OffsetDateTime>,
    succeeded: Seq<bool>,
    count: nat,
)
    requires
        count <= gba.run_steps(now).len(),
    ensures
        !(crate::hardware::progress_at(gba.run_steps(now), succeeded, count) is Failed),
    decreases count,
{
    if count > 0 {
        law_started_run_does_not_fail(gba, now, succeeded, (count - 1) as nat);
        crate::hardware::law_progress_stays_within(
            gba.run_steps(now),
            succeeded,
            (count - 1) as nat,
        );
    }
}

/// A physical cartridge is told nothing but that emulation is off.
pub proof fn law_physical_cartridge(gba: Gba, now: Option<OffsetDateTime>)
    requires
        gba.rom_header is None,
    ensures
        gba.run_steps(now) == seq![
            crate::hardware::write_ignored(REG_EMU_CART_CONFIG, EmulatedCartridgeConfig::DISABLED),
        ],
{
}

/// The sensors that a pause puts to rest are those that the end of the pause wakes.
pub proof fn law_focus_returns_sensors(gba: Gba)
    ensures
        gba.focus_steps(false).contains(
            crate::hardware::step(Command::DisableGyro, OnFailure::Panic),
        ) <==> gba.focus_steps(true).contains(
            crate::hardware::step(Command::EnableGyro, OnFailure::Panic),
        ),
        gba.focus_steps(false).contains(
            crate::hardware::step(Command::DisableAccel, OnFailure::Panic),
        ) <==> gba.focus_steps(true).contains(
            crate::hardware::step(Command::EnableAccel, OnFailure::Panic),
        ),
{
    let gyro: int = if gba.has_gyro() {
        1
    } else {
        0
    };
    let (paused, resumed) = (gba.focus_steps(false), gba.focus_steps(true));
    if gba.has_gyro() {
        assert(paused[0] == crate::hardware::step(Command::DisableGyro, OnFailure::Panic));
        assert(resumed[0] == crate::hardware::step(Command::EnableGyro, OnFailure::Panic));
    }
    if gba.has_accel() {
        assert(paused[gyro] == crate::hardware::step(Command::DisableAccel, OnFailure::Panic));
        assert(resumed[gyro] == crate::hardware::step(Command::EnableAccel, OnFailure::Panic));
    }
}

/// What was found in a ROM counts only where the ROM was searched.
pub proof fn law_detection_counts_where_asked(gba: Gba, id: u16, a: SaveType, b: SaveType)
    requires
        !(id == FILE_ROM && gba.emu_cart_config is None),
    ensures
        gba.after_file_load(id, a) == gba,
        gba.after_file_load(id, a) == gba.after_file_load(id, b),
{
}

/// A color profile that is set is the one that is loaded again and the one that the next
/// cartridge starts with.
pub proof fn law_color_profile_survives(value: u32, enable_gbp: bool)
    ensures
        setting_steps(SETTING_COLOR_CORRECTIONS, value)[0].command == (Command::StoreColorProfile {
            profile: bits_as_i32(value),
        }),
        loaded_settings(bits_as_i32(value), enable_gbp)[0] == (SETTING_COLOR_CORRECTIONS, value),
        setting_steps(SETTING_COLOR_CORRECTIONS, value)[1].command == initialize_steps(
            enable_gbp,
            bits_as_i32(value),
        )[4].command,
{
}

/// A switch of the Game Boy Player that is set to on or off is loaded again as it was set, and is
/// what the next cartridge starts with.
pub proof fn law_game_boy_player_survives(value: u32, color_profile: i32)
    requires
        value <= 1,
    ensures
        setting_steps(SETTING_GAME_BOY_PLAYER, value)[0].command == (Command::StoreGameBoyPlayer {
            enabled: value == 1,
        }),
        loaded_settings(color_profile, value == 1)[1] == (SETTING_GAME_BOY_PLAYER, value),
        setting_steps(SETTING_GAME_BOY_PLAYER, value)[1].command == initialize_steps(
            value == 1,
            color_profile,
        )[2].command,
{
}

/// Where a sensor cannot be put to rest the firmware stops; where the FPGA refuses anything else
/// before a cartridge is loaded, the run fails and makes no further request.
pub proof fn law_initialize_failures(
    enable_gbp: bool,
    color_profile: i32,
    succeeded: Seq<bool>,
    index: nat,
)
    requires
        index < 5,
        forall|i: int| 0 <= i < index ==> succeeded[i],
        !succeeded[index as int],
    ensures
        crate::hardware::progress_at(initialize_steps(enable_gbp, color_profile), succeeded, 5)
            == if index < 2 {
            Progress::Panicked
        } else {
            Progress::Failed(crate::hardware::GbaError::FpgaError)
        },
{
    let steps = initialize_steps(enable_gbp, color_profile);
    assert(forall|i: int|
        0 <= i < index ==> !crate::hardware::stops_at(steps, succeeded, i));
    crate::hardware::law_stopped_run_stays_stopped(steps, succeeded, index, 5);
}

} // verus!

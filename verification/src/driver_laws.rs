//! What the driver comes to: each law relates what the driver knows, and what it is told, to the
//! requests that it makes, bit by bit and step by step.
use vstd::prelude::*;

use crate::calendar::OffsetDateTime;
use crate::cartridge::{EmulatedCartridgeConfig, SaveType};
use crate::files::{LoadReply, LoadStep, SaveReply, SaveStep};
use crate::gba::Gba;
use crate::hardware::{Command, GbaError, OnFailure, Progress, Step};
use crate::rom_header::{RomHeader, ROM_HEADER_LENGTH};
use crate::rtc::RtcState;

verus! {

/// A save takes as many bytes as its chip holds: SRAM 32 KiB, EEPROM 512 bytes or 8 KiB, flash
/// 64 KiB or 128 KiB. An EEPROM of unknown size takes the larger one.
pub proof fn law_save_sizes(save_type: SaveType)
    ensures
        save_type is NoBackup <==> save_type.size() == 0,
        save_type is Eeprom512 <==> save_type.size() == 512,
        save_type is EepromAuto || save_type is Eeprom8K <==> save_type.size() == 8 * 1024,
        save_type is Sram <==> save_type.size() == 32 * 1024,
        save_type is Flash64K <==> save_type.size() == 64 * 1024,
        save_type is Flash128K <==> save_type.size() == 128 * 1024,
{
}

/// The configuration word bit by bit. The lowest bit tells that there is an emulated cartridge.
/// The next two tell the kind of backup, the fourth the larger size, the fifth that the size is to
/// be found out. Then come the port, which rumble, clock and gyroscope are driven through, and
/// rumble, clock, accelerometer and gyroscope themselves.
#[verifier::spinoff_prover]
#[verifier::rlimit(40)]
pub proof fn law_config_bits(config: EmulatedCartridgeConfig)
    ensures
        ({
            let word = config.config_word();
            let (save, flash, eeprom) = (
                config.save_type,
                config.save_type is Flash64K || config.save_type is Flash128K,
                config.save_type is Eeprom512 || config.save_type is Eeprom8K
                    || config.save_type is EepromAuto,
            );
            &&& word < 0x400
            &&& word % 2 == 1
            &&& word / 2 % 2 == 1 <==> save is Sram || eeprom
            &&& word / 4 % 2 == 1 <==> flash || eeprom
            &&& word / 8 % 2 == 1 <==> save is Flash128K || save is Eeprom8K
            &&& word / 0x10 % 2 == 1 <==> save is EepromAuto
            &&& word / 0x20 % 2 == 1 <==> config.has_rumble || config.has_rtc || config.has_gyro
            &&& word / 0x40 % 2 == 1 <==> config.has_rumble
            &&& word / 0x80 % 2 == 1 <==> config.has_rtc
            &&& word / 0x100 % 2 == 1 <==> config.has_accel
            &&& word / 0x200 % 2 == 1 <==> config.has_gyro
        }),
{
}

/// What the driver knows of the hardware of a cartridge is what the cartridge's description says;
/// an undescribed cartridge has none of it and keeps no save.
pub proof fn law_driver_knows_cartridge(gba: Gba)
    ensures
        gba.emu_cart_config matches Some(config) ==> {
            &&& gba.has_gyro() == config.has_gyro
            &&& gba.has_accel() == config.has_accel
            &&& gba.has_rtc() == config.has_rtc
            &&& gba.save_size() == config.save_type.size()
        },
        gba.emu_cart_config is None ==> !gba.has_gyro() && !gba.has_accel() && !gba.has_rtc()
            && gba.save_size() == 0,
{
}

/// A save file is given as many bytes as the chip of its cartridge holds, and none without one.
pub proof fn law_save_file_size(gba: Gba, config: EmulatedCartridgeConfig)
    requires
        gba.emu_cart_config == Some(config),
    ensures
        config.save_type is NoBackup ==> gba.save_size() == 0,
        config.save_type is Eeprom512 ==> gba.save_size() == 512,
        config.save_type is EepromAuto || config.save_type is Eeprom8K ==> gba.save_size() == 8192,
        config.save_type is Sram ==> gba.save_size() == 32768,
        config.save_type is Flash64K ==> gba.save_size() == 65536,
        config.save_type is Flash128K ==> gba.save_size() == 131072,
{
}

/// The clock of a save is sought right behind as many bytes as the chip of its cartridge holds.
pub proof fn law_clock_stands_behind_save(gba: Gba, config: EmulatedCartridgeConfig)
    requires
        gba.emu_cart_config == Some(config),
        config.has_rtc,
    ensures
        crate::files::first_load_step(gba, 1) matches LoadStep::SeekTrailer(position) && {
            &&& config.save_type is NoBackup ==> position == 0
            &&& config.save_type is Eeprom512 ==> position == 512
            &&& config.save_type is EepromAuto || config.save_type is Eeprom8K ==> position == 8192
            &&& config.save_type is Sram ==> position == 32768
            &&& config.save_type is Flash64K ==> position == 65536
            &&& config.save_type is Flash128K ==> position == 131072
        },
{
}

/// Before a ROM is loaded its length is asked for, and before a save its clock, where the cartridge
/// has one. Nothing is asked of a save without a clock, nor of any other file.
pub proof fn law_first_request(gba: Gba, id: u16)
    ensures
        crate::files::first_load_step(gba, id) is QueryLength <==> id == 0,
        crate::files::first_load_step(gba, id) is SeekTrailer <==> id == 1 && (
        gba.emu_cart_config matches Some(config) && config.has_rtc),
        crate::files::first_load_step(gba, id) is Done <==> id != 0 && !(id == 1 && (
        gba.emu_cart_config matches Some(config) && config.has_rtc)),
{
}

/// Every request of a load takes its own kind of reply, and those on the file an I/O error too; a
/// load that has ended takes none.
pub proof fn law_load_replies(step: LoadStep, reply: LoadReply)
    ensures
        step.takes(reply) <==> {
            ||| step is QueryLength && reply is Length
            ||| step is ReadHeader && reply is Header
            ||| (step is RewindRom || step is SeekTrailer || step is RewindSave) && reply is Moved
            ||| step is LookUp && reply is Entry
            ||| step is ReadTrailer && reply is Trailer
            ||| step is ReadClock && (reply matches LoadReply::Clock(now) && now.valid())
            ||| reply is IoError && (step is QueryLength || step is ReadHeader || step is RewindRom
                || step is SeekTrailer || step is ReadTrailer || step is RewindSave)
        },
{
}

/// Every request of a save takes its own kind of reply, and those that write an I/O error too; a
/// save that has ended takes none.
pub proof fn law_save_replies(step: SaveStep, reply: SaveReply)
    ensures
        step.takes(reply) <==> {
            ||| step is ReadClock && (reply matches SaveReply::Clock { now, .. } && now.valid())
            ||| (step is WriteRegisters || step is WriteTimestamp) && (reply is Written
                || reply is IoError)
        },
{
}

/// The length of a ROM is kept in 32 bits: what is kept differs from it by a multiple of 4 GiB.
pub proof fn law_rom_length_is_kept(gba: Gba, length: u64)
    ensures
        ({
            let (after, next) = crate::files::next_load_step(
                gba,
                LoadStep::QueryLength,
                LoadReply::Length(length),
            );
            &&& length < 0x1_0000_0000 ==> after.rom_file_size == length
            &&& (length - after.rom_file_size) % 0x1_0000_0000 == 0
            &&& after.emu_cart_config == gba.emu_cart_config
            &&& after.rom_header == gba.rom_header
            &&& after.rtc_state == gba.rtc_state
            &&& next is ReadHeader
        }),
{
}

/// The title and the code of a ROM are its bytes from 0xA0 and from 0xAC on. They are found before
/// the ROM is gone back to, and the driver learns nothing by that.
pub proof fn law_header_is_found(gba: Gba, bytes: [u8; ROM_HEADER_LENGTH])
    ensures
        ({
            let (after, next) = crate::files::next_load_step(
                gba,
                LoadStep::ReadHeader,
                LoadReply::Header(bytes),
            );
            &&& after == gba
            &&& next matches LoadStep::RewindRom(header)
            &&& header.game_title@ == bytes@.subrange(0xA0, 0xAC)
            &&& header.game_code@ == bytes@.subrange(0xAC, 0xB0)
        }),
{
    let header = crate::rom_header::header_in(bytes);
    assert(header.game_title@ =~= bytes@.subrange(0xA0, 0xAC));
    assert(header.game_code@ =~= bytes@.subrange(0xAC, 0xB0));
}

/// The game is looked up by the header that was read, and what is found of it is what the driver
/// knows from then on, beside that header.
pub proof fn law_game_is_looked_up(
    gba: Gba,
    header: RomHeader,
    entry: Option<EmulatedCartridgeConfig>,
)
    ensures
        crate::files::next_load_step(gba, LoadStep::RewindRom(header), LoadReply::Moved) == (
            gba,
            LoadStep::LookUp(header),
        ),
        ({
            let (after, next) = crate::files::next_load_step(
                gba,
                LoadStep::LookUp(header),
                LoadReply::Entry(entry),
            );
            &&& after.emu_cart_config == entry
            &&& after.rom_header == Some(header)
            &&& after.rom_file_size == gba.rom_file_size
            &&& after.rtc_state == gba.rtc_state
            &&& next is Done
        }),
{
}

/// A clock is restored only from sixteen bytes, and from the very bytes that were read. The save is
/// gone back to either way.
pub proof fn law_trailer_is_read(
    gba: Gba,
    position: u64,
    bytes: [u8; 16],
    count: usize,
    now: OffsetDateTime,
)
    ensures
        crate::files::next_load_step(gba, LoadStep::SeekTrailer(position), LoadReply::Moved) == (
            gba,
            LoadStep::ReadTrailer,
        ),
        crate::files::next_load_step(gba, LoadStep::ReadTrailer, LoadReply::Trailer(bytes, count))
            == (
            gba,
            if count == 16 {
                LoadStep::ReadClock(bytes)
            } else {
                LoadStep::RewindSave
            },
        ),
        ({
            let (after, next) = crate::files::next_load_step(
                gba,
                LoadStep::ReadClock(bytes),
                LoadReply::Clock(now),
            );
            let restored = RtcState::restored(bytes@, now);
            &&& after.rtc_state == if restored is Some {
                restored
            } else {
                gba.rtc_state
            }
            &&& after.emu_cart_config == gba.emu_cart_config
            &&& after.rom_header == gba.rom_header
            &&& after.rom_file_size == gba.rom_file_size
            &&& next is RewindSave
        }),
        crate::files::next_load_step(gba, LoadStep::RewindSave, LoadReply::Moved) == (
            gba,
            LoadStep::Done,
        ),
{
}

/// What is written behind a save is every byte of the two words of the clock, the lowest first, and
/// then every byte of the time at which they were read.
#[verifier::spinoff_prover]
#[verifier::rlimit(40)]
pub proof fn law_clock_is_saved_in_bytes(
    first: SaveStep,
    lo: u32,
    hi: u32,
    now: OffsetDateTime,
    next: SaveStep,
)
    requires
        now.valid(),
        first is ReadClock,
        first.leads_to(SaveReply::Clock { lo, hi, now }, next),
    ensures
        next matches SaveStep::WriteRegisters { registers: r, timestamp: t } && {
            let sum = t@[0] + 0x100 * t@[1] + 0x1_0000 * t@[2] + 0x100_0000 * t@[3] + 0x1_0000_0000
                * t@[4] + 0x100_0000_0000 * t@[5] + 0x1_0000_0000_0000 * t@[6]
                + 0x100_0000_0000_0000 * t@[7];
            &&& r@[0] + 0x100 * r@[1] + 0x1_0000 * r@[2] + 0x100_0000 * r@[3] == lo
            &&& r@[4] + 0x100 * r@[5] + 0x1_0000 * r@[6] + 0x100_0000 * r@[7] == hi
            &&& now.unix_seconds() >= 0 ==> sum == now.unix_seconds()
            &&& now.unix_seconds() < 0 ==> sum - 0x1_0000_0000_0000_0000 == now.unix_seconds()
        },
{
    crate::calendar::law_unix_seconds_fit(now);
    crate::time_laws::law_clock_from_words(lo, hi);
    crate::time_laws::law_timestamp_on_disk(now.unix_seconds() as i64);
}

/// The registers are written before the timestamp, and the save ends with it.
pub proof fn law_clock_is_saved_in_order(
    registers: [u8; 8],
    timestamp: [u8; 8],
    second: SaveStep,
    third: SaveStep,
)
    requires
        (SaveStep::WriteRegisters { registers, timestamp }).leads_to(SaveReply::Written, second),
        second.leads_to(SaveReply::Written, third),
    ensures
        second == SaveStep::WriteTimestamp(timestamp),
        third is Done,
{
}

/// The settings number the presets from 0 to 5; no other number has one, and then the colors are
/// left alone.
pub proof fn law_numbered_presets(number: u32)
    ensures
        number == 1 <==> crate::hardware::numbered_preset(number) is GbcGba,
        number == 2 <==> crate::hardware::numbered_preset(number) is GbaAgs101,
        number == 3 <==> crate::hardware::numbered_preset(number) is Nds,
        number == 4 <==> crate::hardware::numbered_preset(number) is NdsLite,
        number == 5 <==> crate::hardware::numbered_preset(number) is NsoGba,
        number == 0 || number > 5 <==> crate::hardware::numbered_preset(number) is Identity,
        number < 6 <==> number < crate::hardware::color_presets().len(),
        number < 6 ==> crate::hardware::numbered_preset(number)
            == crate::hardware::color_presets()[number as int],
{
}

/// A request that is to be made, and what follows when it fails, are what a step holds.
pub proof fn law_steps_hold_requests(
    command: Command,
    on_failure: OnFailure,
    address: u32,
    value: u32,
)
    ensures
        crate::hardware::step(command, on_failure).command == command,
        crate::hardware::step(command, on_failure).on_failure == on_failure,
        crate::hardware::write_required(address, value) == (Step {
            command: Command::WriteRegister { address, value },
            on_failure: OnFailure::Panic,
        }),
        crate::hardware::write_ignored(address, value) == (Step {
            command: Command::WriteRegister { address, value },
            on_failure: OnFailure::Ignore,
        }),
{
}

/// The next step follows one that succeeded, or one whose failure is of no account, and the run is
/// finished after the last. A failure that is reported ends the run with the error of the FPGA, and
/// one that must not happen ends it for good.
pub proof fn law_progress_of_one_step(steps: Seq<Step>, index: usize, succeeded: bool)
    requires
        index < steps.len() <= usize::MAX,
    ensures
        ({
            let after = crate::hardware::progress_after(steps, index, succeeded);
            let goes_on = succeeded || steps[index as int].on_failure is Ignore;
            &&& after is Panicked <==> !succeeded && steps[index as int].on_failure is Panic
            &&& after is Failed <==> !succeeded && steps[index as int].on_failure is Report
            &&& after is Failed ==> after == Progress::Failed(GbaError::FpgaError)
            &&& after is Finished <==> goes_on && index == steps.len() - 1
            &&& after is At <==> goes_on && index < steps.len() - 1
            &&& after matches Progress::At(next) ==> next == index + 1
        }),
        crate::hardware::start_of(steps) == Progress::At(0),
{
}

/// A run without steps is finished before it starts.
pub proof fn law_empty_run(steps: Seq<Step>)
    ensures
        crate::hardware::start_of(steps) is Finished <==> steps.len() == 0,
        crate::hardware::start_of(steps) is At <==> steps.len() > 0,
{
}

/// The errors are told apart in words.
pub proof fn law_error_texts(error: GbaError)
    ensures
        error is IoError <==> error.text() == "I/O error"@,
        error is FpgaError <==> error.text() == "FPGA error"@,
{
    reveal_strlit("I/O error");
    reveal_strlit("FPGA error");
    assert("I/O error"@.len() != "FPGA error"@.len());
}

/// A description is the title in quotes, a space, and the code in brackets: both can be read off
/// it.
pub proof fn law_description_holds_title_and_code(title: Seq<char>, code: Seq<char>)
    ensures
        ({
            let text = crate::rom_header::title_and_code(title, code);
            let (t, c) = (title.len() as int, code.len() as int);
            &&& text.len() == t + c + 5
            &&& text[0] == '\''
            &&& text.subrange(1, 1 + t) == title
            &&& text[1 + t] == '\'' && text[2 + t] == ' ' && text[3 + t] == '('
            &&& text.subrange(4 + t, 4 + t + c) == code
            &&& text[4 + t + c] == ')'
        }),
{
    let text = crate::rom_header::title_and_code(title, code);
    let (t, c) = (title.len() as int, code.len() as int);
    assert(text.subrange(1, 1 + t) =~= title);
    assert(text.subrange(4 + t, 4 + t + c) =~= code);
}

/// Before a cartridge is loaded both sensors are put to rest, the Game Boy Player is switched as
/// stored, the interrupt is switched off and the colors are set, in this order. Nothing else is
/// asked for.
pub proof fn law_hardware_is_brought_to_rest(enable_gbp: bool, color_profile: i32)
    ensures
        ({
            let steps = crate::gba::initialize_steps(enable_gbp, color_profile);
            &&& steps.len() == 5
            &&& steps[0] == (Step { command: Command::DisableGyro, on_failure: OnFailure::Panic })
            &&& steps[1] == (Step { command: Command::DisableAccel, on_failure: OnFailure::Panic })
            &&& steps[2] == (Step {
                command: Command::WriteRegister {
                    address: 0x8,
                    value: if enable_gbp {
                        1
                    } else {
                        0
                    },
                },
                on_failure: OnFailure::Report,
            })
            &&& steps[3] == (Step {
                command: Command::DisableVblankInterrupt,
                on_failure: OnFailure::Report,
            })
            &&& steps[4].command is ConfigureColors
            &&& steps[4].on_failure is Report
            &&& crate::gba::rest_steps() == steps.take(2)
            &&& crate::gba::prepare_steps(enable_gbp) == steps.subrange(2, 4)
            &&& crate::gba::color_steps(color_profile) == steps.skip(4)
        }),
{
    let steps = crate::gba::initialize_steps(enable_gbp, color_profile);
    assert(crate::gba::rest_steps() =~= steps.take(2));
    assert(crate::gba::prepare_steps(enable_gbp) =~= steps.subrange(2, 4));
    assert(crate::gba::color_steps(color_profile) =~= steps.skip(4));
}

/// The colors before a cartridge are those of the stored profile: a profile from 0 to 5 gives the
/// preset of that number, and any other one leaves the colors alone.
pub proof fn law_stored_profile_sets_colors(enable_gbp: bool, color_profile: i32)
    ensures
        crate::gba::initialize_steps(
            enable_gbp,
            color_profile,
        )[4].command matches Command::ConfigureColors { preset, base } && {
            &&& base == 0x5000_0000
            &&& 0 <= color_profile < 6 ==> preset
                == crate::hardware::color_presets()[color_profile as int]
            &&& color_profile < 0 || color_profile >= 6 ==> preset is Identity
            &&& color_profile == 1 <==> preset is GbcGba
            &&& color_profile == 2 <==> preset is GbaAgs101
            &&& color_profile == 3 <==> preset is Nds
            &&& color_profile == 4 <==> preset is NdsLite
            &&& color_profile == 5 <==> preset is NsoGba
        },
{
}

/// A chosen color correction is stored under its number and put into effect at once: a number from
/// 0 to 5 gives the preset of that number, and any other one leaves the colors alone.
pub proof fn law_chosen_setting_sets_colors(value: u32)
    ensures
        ({
            let steps = crate::gba::setting_steps(1, value);
            &&& steps.len() == 2
            &&& steps[0].on_failure is Ignore
            &&& steps[1].on_failure is Ignore
            &&& steps[0].command matches Command::StoreColorProfile { profile } && (profile == value
                || profile + 0x1_0000_0000 == value)
            &&& steps[1].command matches Command::ConfigureColors { preset, base } && {
                &&& base == 0x5000_0000
                &&& value < 6 ==> preset == crate::hardware::color_presets()[value as int]
                &&& value >= 6 ==> preset is Identity
                &&& value == 1 <==> preset is GbcGba
                &&& value == 2 <==> preset is GbaAgs101
                &&& value == 3 <==> preset is Nds
                &&& value == 4 <==> preset is NdsLite
                &&& value == 5 <==> preset is NsoGba
            }
        }),
{
}

/// The colors that a choice puts into effect are those that come back before the next cartridge.
pub proof fn law_chosen_colors_come_back(enable_gbp: bool, value: u32, profile: i32)
    requires
        crate::gba::setting_steps(1, value)[0].command == (Command::StoreColorProfile { profile }),
    ensures
        crate::gba::initialize_steps(enable_gbp, profile)[4].command == crate::gba::setting_steps(
            1,
            value,
        )[1].command,
{
}

/// The Game Boy Player is stored as switched on for the value 1 alone, and its register takes the
/// value as it is. No other setting asks for anything.
pub proof fn law_other_settings(id: u16, value: u32)
    ensures
        crate::gba::setting_steps(2, value) == seq![
            Step {
                command: Command::StoreGameBoyPlayer { enabled: value == 1 },
                on_failure: OnFailure::Ignore,
            },
            Step {
                command: Command::WriteRegister { address: 0x8, value },
                on_failure: OnFailure::Ignore,
            },
        ],
        id != 1 && id != 2 ==> crate::gba::setting_steps(id, value).len() == 0,
{
}

/// The stored settings are shown as they are: the color correction first, bit by bit, and then the
/// Game Boy Player as 0 or 1.
pub proof fn law_settings_are_shown(color_profile: i32, enable_gbp: bool)
    ensures
        ({
            let settings = crate::gba::loaded_settings(color_profile, enable_gbp);
            &&& settings.len() == 2
            &&& settings[0].0 == 1
            &&& color_profile >= 0 ==> settings[0].1 == color_profile
            &&& color_profile < 0 ==> settings[0].1 == color_profile + 0x1_0000_0000
            &&& settings[1].0 == 2
            &&& enable_gbp ==> settings[1].1 == 1
            &&& !enable_gbp ==> settings[1].1 == 0
        }),
{
}

/// A description that the game's entry did not give is made from the save that was found in the
/// ROM, with no other hardware. One that there is already stands, and so does everything else.
pub proof fn law_detected_save_completes_cartridge(gba: Gba, id: u16, detected: SaveType)
    ensures
        ({
            let after = gba.after_file_load(id, detected);
            &&& id != 0 || gba.emu_cart_config is Some ==> after == gba
            &&& id == 0 && gba.emu_cart_config is None ==> (
            after.emu_cart_config matches Some(config) && config.save_type == detected
                && !config.has_rumble && !config.has_rtc && !config.has_accel && !config.has_gyro
                && !config.has_solar)
            &&& after.rom_header == gba.rom_header
            &&& after.rom_file_size == gba.rom_file_size
            &&& after.rtc_state == gba.rtc_state
        }),
{
}

/// The present time is needed exactly for a ROM whose clock was not restored. A ROM can be run once
/// its cartridge is described and its length is not zero, and without a ROM nothing is needed.
pub proof fn law_when_a_run_is_ready(gba: Gba)
    ensures
        gba.needs_clock() <==> gba.rom_header is Some && gba.rtc_state is None,
        gba.ready_to_run() <==> gba.rom_header is None || (gba.emu_cart_config is Some
            && gba.rom_file_size > 0),
{
}

/// A run starts with four register writes, whatever the cartridge carries: its configuration, the
/// last address of its ROM, and the two words of its clock. Each of these registers is written once
/// and no other one is written.
pub proof fn law_run_writes_registers(gba: Gba, now: Option<OffsetDateTime>)
    requires
        gba.rom_header is Some,
        gba.emu_cart_config is Some,
        gba.rom_file_size > 0,
    ensures
        ({
            let steps = gba.run_steps(now);
            let config = gba.emu_cart_config->0;
            &&& steps.len() >= 4
            &&& steps[0] == (Step {
                command: Command::WriteRegister {
                    address: 0x0,
                    value: config.config_word() as u32,
                },
                on_failure: OnFailure::Ignore,
            })
            &&& steps[1].command matches Command::WriteRegister { address, value } && address == 0x4
                && value + 1 == gba.rom_file_size
            &&& steps[2].command matches Command::WriteRegister { address, .. } && address == 0x200
            &&& steps[3].command matches Command::WriteRegister { address, .. } && address == 0x204
            &&& forall|i: int| 0 <= i < 4 ==> (#[trigger] steps[i]).on_failure is Ignore
            &&& forall|i: int|
                4 <= i < steps.len() ==> !((#[trigger] steps[i]).command is WriteRegister)
        }),
{
}

/// The clock that a run hands over is the restored one, where there is one, with every register in
/// its place.
#[verifier::spinoff_prover]
#[verifier::rlimit(40)]
pub proof fn law_run_hands_over_restored_clock(gba: Gba, now: Option<OffsetDateTime>)
    requires
        gba.rom_header is Some,
        gba.rtc_state is Some,
    ensures
        ({
            let clock = gba.rtc_state->0;
            let steps = gba.run_steps(now);
            &&& steps[2].command matches Command::WriteRegister { address, value } && address
                == 0x200 && value == clock.year + 0x100 * clock.month + 0x1_0000 * clock.day
                + 0x100_0000 * clock.weekday
            &&& steps[3].command matches Command::WriteRegister { address, value } && address
                == 0x204 && value == clock.hour + 0x100 * clock.minute + 0x1_0000 * clock.second
                + 0x100_0000 * clock.status
        }),
{
    crate::time_laws::law_clock_in_words(gba.rtc_state->0);
}

/// Without a restored clock, the one that a run hands over shows the present: its words hold the
/// digits of the date, the days from Sunday, the digits of the time of day, and the 24-hour format.
#[verifier::spinoff_prover]
#[verifier::rlimit(40)]
pub proof fn law_run_hands_over_present_time(gba: Gba, now: OffsetDateTime)
    requires
        gba.rom_header is Some,
        gba.rtc_state is None,
        now.valid(),
    ensures
        ({
            let steps = gba.run_steps(Some(now));
            let clock = RtcState::showing(now, 0);
            &&& steps[2].command matches Command::WriteRegister { address, value } && address
                == 0x200 && value == clock.year + 0x100 * clock.month + 0x1_0000 * clock.day
                + 0x100_0000 * clock.weekday
            &&& steps[3].command matches Command::WriteRegister { address, value } && address
                == 0x204 && value == clock.hour + 0x100 * clock.minute + 0x1_0000 * clock.second
                + 0x100_0000 * clock.status
            &&& 10 * (clock.minute / 16) + clock.minute % 16 == now.minute
            &&& 10 * (clock.second / 16) + clock.second % 16 == now.second
            &&& 10 * (clock.hour / 16) + clock.hour % 16 == now.hour
            &&& 10 * (clock.day / 16) + clock.day % 16 == now.day
            &&& 10 * (clock.month / 16) + clock.month % 16 == now.month
            &&& clock.weekday == now.days_from_sunday()
            &&& clock.status == 0x40
        }),
{
    let clock = RtcState::showing(now, 0);
    crate::time_laws::law_month_lengths(now.year as int, now.month as int);
    crate::time_laws::law_clock_is_set_by_digits(now, 0);
    crate::time_laws::law_clock_in_words(clock);
}

/// Behind its register writes a run switches on the sensors that the cartridge has, the gyroscope
/// first, and the interrupt at which they are read. It asks for nothing else.
pub proof fn law_run_switches_sensors_on(
    gba: Gba,
    config: EmulatedCartridgeConfig,
    now: Option<OffsetDateTime>,
)
    requires
        gba.rom_header is Some,
        gba.emu_cart_config == Some(config),
    ensures
        ({
            let gyro = Step { command: Command::EnableGyro, on_failure: OnFailure::Panic };
            let accel = Step { command: Command::EnableAccel, on_failure: OnFailure::Panic };
            let irq = Step {
                command: Command::EnableVblankInterrupt,
                on_failure: OnFailure::Panic,
            };
            let sensors = gba.run_steps(now).skip(4);
            &&& config.has_gyro && config.has_accel ==> sensors == seq![gyro, accel, irq]
            &&& config.has_gyro && !config.has_accel ==> sensors == seq![gyro, irq]
            &&& !config.has_gyro && config.has_accel ==> sensors == seq![accel, irq]
            &&& !config.has_gyro && !config.has_accel ==> sensors.len() == 0
        }),
{
    let gyro = Step { command: Command::EnableGyro, on_failure: OnFailure::Panic };
    let accel = Step { command: Command::EnableAccel, on_failure: OnFailure::Panic };
    let irq = Step { command: Command::EnableVblankInterrupt, on_failure: OnFailure::Panic };
    let sensors = gba.run_steps(now).skip(4);
    if config.has_gyro && config.has_accel {
        assert(sensors =~= seq![gyro, accel, irq]);
    } else if config.has_gyro {
        assert(sensors =~= seq![gyro, irq]);
    } else if config.has_accel {
        assert(sensors =~= seq![accel, irq]);
    } else {
        assert(sensors =~= seq![]);
    }
}

/// Without a ROM one register is written: the emulated cartridge is switched off.
pub proof fn law_run_without_rom(gba: Gba, now: Option<OffsetDateTime>)
    requires
        gba.rom_header is None,
    ensures
        gba.run_steps(now) == seq![
            Step {
                command: Command::WriteRegister { address: 0x0, value: 0 },
                on_failure: OnFailure::Ignore,
            },
        ],
{
}

/// A game that is resumed has its sensors switched on again, and nothing else is asked for.
pub proof fn law_resumed_game(gba: Gba)
    ensures
        ({
            let gyro = Step { command: Command::EnableGyro, on_failure: OnFailure::Panic };
            let accel = Step { command: Command::EnableAccel, on_failure: OnFailure::Panic };
            let steps = gba.focus_steps(true);
            let has_gyro = gba.emu_cart_config matches Some(config) && config.has_gyro;
            let has_accel = gba.emu_cart_config matches Some(config) && config.has_accel;
            &&& has_gyro && has_accel ==> steps == seq![gyro, accel]
            &&& has_gyro && !has_accel ==> steps == seq![gyro]
            &&& !has_gyro && has_accel ==> steps == seq![accel]
            &&& !has_gyro && !has_accel ==> steps.len() == 0
        }),
{
    let gyro = Step { command: Command::EnableGyro, on_failure: OnFailure::Panic };
    let accel = Step { command: Command::EnableAccel, on_failure: OnFailure::Panic };
    let steps = gba.focus_steps(true);
    if gba.has_gyro() && gba.has_accel() {
        assert(steps =~= seq![gyro, accel]);
    } else if gba.has_gyro() {
        assert(steps =~= seq![gyro]);
    } else if gba.has_accel() {
        assert(steps =~= seq![accel]);
    }
}

/// A game that is paused has its sensors switched off. Then the counters of cycles and of stalls
/// are read, and both are set to zero, in this order.
pub proof fn law_paused_game(gba: Gba)
    ensures
        ({
            let gyro = Step { command: Command::DisableGyro, on_failure: OnFailure::Panic };
            let accel = Step { command: Command::DisableAccel, on_failure: OnFailure::Panic };
            let counters = seq![
                Step {
                    command: Command::ReadRegister { address: 0x1004 },
                    on_failure: OnFailure::Panic,
                },
                Step {
                    command: Command::ReadRegister { address: 0x1000 },
                    on_failure: OnFailure::Panic,
                },
                Step {
                    command: Command::WriteRegister { address: 0x1004, value: 0 },
                    on_failure: OnFailure::Ignore,
                },
                Step {
                    command: Command::WriteRegister { address: 0x1000, value: 0 },
                    on_failure: OnFailure::Ignore,
                },
            ];
            let steps = gba.focus_steps(false);
            let has_gyro = gba.emu_cart_config matches Some(config) && config.has_gyro;
            let has_accel = gba.emu_cart_config matches Some(config) && config.has_accel;
            &&& has_gyro && has_accel ==> steps == seq![gyro, accel] + counters
            &&& has_gyro && !has_accel ==> steps == seq![gyro] + counters
            &&& !has_gyro && has_accel ==> steps == seq![accel] + counters
            &&& !has_gyro && !has_accel ==> steps == counters
        }),
{
    let gyro = Step { command: Command::DisableGyro, on_failure: OnFailure::Panic };
    let accel = Step { command: Command::DisableAccel, on_failure: OnFailure::Panic };
    let steps = gba.focus_steps(false);
    let counters = steps.skip(steps.len() - 4);
    if gba.has_gyro() && gba.has_accel() {
        assert(steps =~= seq![gyro, accel] + counters);
    } else if gba.has_gyro() {
        assert(steps =~= seq![gyro] + counters);
    } else if gba.has_accel() {
        assert(steps =~= seq![accel] + counters);
    } else {
        assert(steps =~= counters);
    }
}

} // verus!

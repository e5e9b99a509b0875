//! What the driver does with the files of a game: what it reads before one is loaded, and what it
//! writes behind one that was saved. Each step is a request; its reply leads to the next step.
use vstd::prelude::*;

use crate::calendar::OffsetDateTime;
use crate::cartridge::EmulatedCartridgeConfig;
use crate::gba::{Gba, FILE_ROM, FILE_SAVE};
use crate::hardware::{REG_RTC_HI, REG_RTC_LO};
use crate::rom_header::{RomHeader, ROM_HEADER_LENGTH};
use crate::rtc::{timestamp_to_disk, RtcState};

verus! {

/// The bytes behind a save that keep its clock.
pub const RTC_TRAILER_LENGTH: usize = 16;

/// What a file is asked for before it is loaded.
#[derive(Debug)]
pub enum LoadStep {
    /// The length of the ROM.
    QueryLength,
    /// The first bytes of the ROM, as many as a header takes. Bytes that are not there are zero.
    ReadHeader,
    /// To go back to the start of the ROM with this header.
    RewindRom(RomHeader),
    /// What is known of the game with this header.
    LookUp(RomHeader),
    /// To go to where the save ends.
    SeekTrailer(u64),
    /// The bytes behind the save.
    ReadTrailer,
    /// The present time, to restore the clock in these bytes.
    ReadClock([u8; RTC_TRAILER_LENGTH]),
    /// To go back to the start of the save.
    RewindSave,
    /// Nothing more: the file can be loaded.
    Done,
    /// Nothing more: the file cannot be loaded.
    Failed,
}

/// The reply to a step.
#[derive(Debug)]
pub enum LoadReply {
    /// The file could not be read or moved in.
    IoError,
    Length(u64),
    Header([u8; ROM_HEADER_LENGTH]),
    Moved,
    Entry(Option<EmulatedCartridgeConfig>),
    /// The bytes, and how many of them were there.
    Trailer([u8; RTC_TRAILER_LENGTH], usize),
    Clock(OffsetDateTime),
}

impl LoadStep {
    /// The reply is one to this step.
    pub open spec fn takes(self, reply: LoadReply) -> bool {
        match self {
            LoadStep::QueryLength => reply is Length || reply is IoError,
            LoadStep::ReadHeader => reply is Header || reply is IoError,
            LoadStep::RewindRom(_) => reply is Moved || reply is IoError,
            LoadStep::LookUp(_) => reply is Entry,
            LoadStep::SeekTrailer(_) => reply is Moved || reply is IoError,
            LoadStep::ReadTrailer => reply is Trailer || reply is IoError,
            LoadStep::ReadClock(_) => reply matches LoadReply::Clock(now) && now.valid(),
            LoadStep::RewindSave => reply is Moved || reply is IoError,
            LoadStep::Done => false,
            LoadStep::Failed => false,
        }
    }

    /// The answer that a finished load gives.
    pub fn answer(&self) -> (answer: Result<(), String>)
        requires
            self is Done || self is Failed,
        ensures
            answer is Ok <==> self is Done,
            answer matches Err(text) ==> text@ == "I/O"@,
    {
        match self {
            LoadStep::Done => Ok(()),
            _ => Err(String::from_str("I/O")),
        }
    }
}

/// What a file is asked for first.
pub open spec fn first_load_step(gba: Gba, id: u16) -> LoadStep {
    if id == FILE_ROM {
        LoadStep::QueryLength
    } else if id == FILE_SAVE && gba.has_rtc() {
        LoadStep::SeekTrailer(gba.save_size() as u64)
    } else {
        LoadStep::Done
    }
}

/// What the driver knows once `step` was replied to, and what it asks for next.
pub open spec fn next_load_step(gba: Gba, step: LoadStep, reply: LoadReply) -> (Gba, LoadStep) {
    match (step, reply) {
        (LoadStep::QueryLength, LoadReply::Length(length)) => (
            Gba { rom_file_size: (length % 0x1_0000_0000) as u32, ..gba },
            LoadStep::ReadHeader,
        ),
        (LoadStep::ReadHeader, LoadReply::Header(bytes)) => (
            gba,
            LoadStep::RewindRom(crate::rom_header::header_in(bytes)),
        ),
        (LoadStep::RewindRom(header), LoadReply::Moved) => (gba, LoadStep::LookUp(header)),
        (LoadStep::LookUp(header), LoadReply::Entry(entry)) => (
            Gba { emu_cart_config: entry, rom_header: Some(header), ..gba },
            LoadStep::Done,
        ),
        (LoadStep::SeekTrailer(_), LoadReply::Moved) => (gba, LoadStep::ReadTrailer),
        (LoadStep::ReadTrailer, LoadReply::Trailer(bytes, count)) => (
            gba,
            if count == RTC_TRAILER_LENGTH {
                LoadStep::ReadClock(bytes)
            } else {
                LoadStep::RewindSave
            },
        ),
        (LoadStep::ReadClock(bytes), LoadReply::Clock(now)) => (
            match RtcState::restored(bytes@, now) {
                Some(state) => Gba { rtc_state: Some(state), ..gba },
                None => gba,
            },
            LoadStep::RewindSave,
        ),
        (LoadStep::RewindSave, LoadReply::Moved) => (gba, LoadStep::Done),
        _ => (gba, LoadStep::Failed),
    }
}

impl Gba {
    /// What the file `id` is asked for before it is loaded. A save is loaded only once it is known
    /// what the cartridge carries.
    pub fn on_before_file_load(&self, id: u16) -> (first: LoadStep)
        requires
            id == FILE_SAVE ==> self.emu_cart_config is Some,
        ensures
            first == first_load_step(*self, id),
    {
        if id == FILE_ROM {
            return LoadStep::QueryLength;
        }
        if id == FILE_SAVE {
            if let Some(config) = self.emu_cart_config {
                if config.has_rtc {
                    return LoadStep::SeekTrailer(config.save_type.get_size() as u64);
                }
            }
        }
        LoadStep::Done
    }

    /// Takes the reply to a step, and says what is asked for next.
    pub fn resume_file_load(&mut self, step: LoadStep, reply: LoadReply) -> (next: LoadStep)
        requires
            step.takes(reply),
        ensures
            (*final(self), next) == next_load_step(*old(self), step, reply),
    {
        match (step, reply) {
            (LoadStep::QueryLength, LoadReply::Length(length)) => {
                assert(length as u32 == length % 0x1_0000_0000) by (bit_vector);
                self.rom_file_size = length as u32;
                LoadStep::ReadHeader
            },
            (LoadStep::ReadHeader, LoadReply::Header(bytes)) => {
                LoadStep::RewindRom(RomHeader::parse(bytes))
            },
            (LoadStep::RewindRom(header), LoadReply::Moved) => LoadStep::LookUp(header),
            (LoadStep::LookUp(header), LoadReply::Entry(entry)) => {
                self.emu_cart_config = entry;
                self.rom_header = Some(header);
                LoadStep::Done
            },
            (LoadStep::SeekTrailer(_), LoadReply::Moved) => LoadStep::ReadTrailer,
            (LoadStep::ReadTrailer, LoadReply::Trailer(bytes, count)) => {
                if count == RTC_TRAILER_LENGTH {
                    LoadStep::ReadClock(bytes)
                } else {
                    LoadStep::RewindSave
                }
            },
            (LoadStep::ReadClock(bytes), LoadReply::Clock(now)) => {
                if let Some(state) = RtcState::restore(bytes, now) {
                    self.rtc_state = Some(state);
                }
                LoadStep::RewindSave
            },
            (LoadStep::RewindSave, LoadReply::Moved) => LoadStep::Done,
            _ => LoadStep::Failed,
        }
    }
}

/// What is asked for behind a file that was saved.
#[derive(Debug)]
pub enum SaveStep {
    /// The two words of the clock, from the register at `lo` and then from that at `hi`, and the
    /// present time.
    ReadClock { lo: u32, hi: u32 },
    /// To write `registers`, before `timestamp`.
    WriteRegisters { registers: [u8; 8], timestamp: [u8; 8] },
    /// To write the timestamp.
    WriteTimestamp([u8; 8]),
    /// Nothing more: the file is complete.
    Done,
    /// Nothing more: the file could not be written.
    Failed,
}

/// The reply to a step.
#[derive(Debug)]
pub enum SaveReply {
    /// The file could not be written.
    IoError,
    Clock { lo: u32, hi: u32, now: OffsetDateTime },
    Written,
}

impl SaveStep {
    /// The reply is one to this step.
    pub open spec fn takes(self, reply: SaveReply) -> bool {
        match self {
            SaveStep::ReadClock { .. } => reply matches SaveReply::Clock { now, .. } && now.valid(),
            SaveStep::WriteRegisters { .. } => reply is Written || reply is IoError,
            SaveStep::WriteTimestamp(_) => reply is Written || reply is IoError,
            SaveStep::Done => false,
            SaveStep::Failed => false,
        }
    }

    /// What is asked for once this step was replied to.
    pub open spec fn leads_to(self, reply: SaveReply, next: SaveStep) -> bool {
        match (self, reply) {
            (SaveStep::ReadClock { .. }, SaveReply::Clock { lo, hi, now }) => {
                &&& next matches SaveStep::WriteRegisters { registers, timestamp }
                &&& registers@ == RtcState::with_words(lo, hi).registers()
                &&& timestamp@ == crate::words::le_bytes_of_u64(
                    crate::rtc::stored_timestamp(now.unix_seconds() as i64),
                )
            },
            (SaveStep::WriteRegisters { timestamp, .. }, SaveReply::Written) => next
                == SaveStep::WriteTimestamp(timestamp),
            (SaveStep::WriteTimestamp(_), SaveReply::Written) => next == SaveStep::Done,
            _ => next == SaveStep::Failed,
        }
    }

    /// Takes the reply to a step, and says what is asked for next.
    pub fn resume(self, reply: SaveReply) -> (next: SaveStep)
        requires
            self.takes(reply),
        ensures
            self.leads_to(reply, next),
    {
        match (self, reply) {
            (SaveStep::ReadClock { .. }, SaveReply::Clock { lo, hi, now }) => {
                let rtc_state = RtcState::from_fpga(lo, hi);
                let timestamp: i64 = crate::clock::unix_timestamp(now);
                SaveStep::WriteRegisters {
                    registers: rtc_state.to_disk(),
                    timestamp: timestamp_to_disk(timestamp),
                }
            },
            (SaveStep::WriteRegisters { timestamp, .. }, SaveReply::Written) => {
                SaveStep::WriteTimestamp(timestamp)
            },
            (SaveStep::WriteTimestamp(_), SaveReply::Written) => SaveStep::Done,
            _ => SaveStep::Failed,
        }
    }

    /// The answer that a finished save gives.
    pub fn answer(&self) -> (answer: Result<(), String>)
        requires
            self is Done || self is Failed,
        ensures
            answer is Ok <==> self is Done,
            answer matches Err(text) ==> text@ == "I/O"@,
    {
        match self {
            SaveStep::Done => Ok(()),
            _ => Err(String::from_str("I/O")),
        }
    }
}

impl Gba {
    /// What is asked for behind a save that was written: its clock, where the cartridge has one.
    pub fn on_after_file_save(&self, id: u16) -> (first: SaveStep)
        requires
            id == FILE_SAVE,
        ensures
            first == if self.has_rtc() {
                SaveStep::ReadClock { lo: REG_RTC_LO, hi: REG_RTC_HI }
            } else {
                SaveStep::Done
            },
    {
        match self.emu_cart_config {
            Some(config) => {
                if config.has_rtc {
                    SaveStep::ReadClock { lo: REG_RTC_LO, hi: REG_RTC_HI }
                } else {
                    SaveStep::Done
                }
            },
            None => SaveStep::Done,
        }
    }
}

/// A file that cannot be read or moved in is not loaded, and the driver learns nothing from it.
pub proof fn law_io_error_fails_load(gba: Gba, step: LoadStep)
    requires
        step.takes(LoadReply::IoError),
    ensures
        next_load_step(gba, step, LoadReply::IoError) == (gba, LoadStep::Failed),
{
}

/// A file that cannot be written is not saved.
pub proof fn law_io_error_fails_save(step: SaveStep, next: SaveStep)
    requires
        step.takes(SaveReply::IoError),
        step.leads_to(SaveReply::IoError, next),
    ensures
        next == SaveStep::Failed,
{
}

/// How many replies a load still takes at most.
pub open spec fn steps_left(step: LoadStep) -> nat {
    match step {
        LoadStep::QueryLength => 4,
        LoadStep::ReadHeader => 3,
        LoadStep::RewindRom(_) => 2,
        LoadStep::LookUp(_) => 1,
        LoadStep::SeekTrailer(_) => 4,
        LoadStep::ReadTrailer => 3,
        LoadStep::ReadClock(_) => 2,
        LoadStep::RewindSave => 1,
        LoadStep::Done => 0,
        LoadStep::Failed => 0,
    }
}

/// Every reply brings a load nearer to its end, and only an I/O error makes it fail.
pub proof fn law_load_comes_to_an_end(gba: Gba, step: LoadStep, reply: LoadReply)
    requires
        step.takes(reply),
    ensures
        steps_left(next_load_step(gba, step, reply).1) < steps_left(step),
        next_load_step(gba, step, reply).1 is Failed <==> reply is IoError,
{
}

/// What the driver knows, and asks for, once every request of a ROM's load was granted.
pub open spec fn rom_load(
    gba: Gba,
    length: u64,
    bytes: [u8; ROM_HEADER_LENGTH],
    entry: Option<EmulatedCartridgeConfig>,
) -> (Gba, LoadStep) {
    let step = first_load_step(gba, FILE_ROM);
    let (gba, step) = next_load_step(gba, step, LoadReply::Length(length));
    let (gba, step) = next_load_step(gba, step, LoadReply::Header(bytes));
    let (gba, step) = next_load_step(gba, step, LoadReply::Moved);
    next_load_step(gba, step, LoadReply::Entry(entry))
}

/// A ROM that can be read leaves behind its length, its header and what is known of the game, and
/// nothing else.
pub proof fn law_rom_load(
    gba: Gba,
    length: u64,
    bytes: [u8; ROM_HEADER_LENGTH],
    entry: Option<EmulatedCartridgeConfig>,
)
    ensures
        rom_load(gba, length, bytes, entry) == (
            Gba {
                emu_cart_config: entry,
                rom_header: Some(crate::rom_header::header_in(bytes)),
                rom_file_size: (length % 0x1_0000_0000) as u32,
                rtc_state: gba.rtc_state,
            },
            LoadStep::Done,
        ),
{
}

/// A ROM that was loaded can be run, unless its length is lost in 32 bits: what its cartridge
/// carries is known by then, if not from the game's entry then from the ROM itself.
pub proof fn law_loaded_rom_can_run(
    gba: Gba,
    length: u64,
    bytes: [u8; ROM_HEADER_LENGTH],
    entry: Option<EmulatedCartridgeConfig>,
    detected: crate::cartridge::SaveType,
)
    requires
        length % 0x1_0000_0000 != 0,
    ensures
        rom_load(gba, length, bytes, entry).0.after_file_load(FILE_ROM, detected).ready_to_run(),
{
    law_rom_load(gba, length, bytes, entry);
}

/// A save whose clock can be read sets the driver's clock and nothing else. Where the clock is
/// incomplete or shows no time, the driver's clock stands as it was.
pub proof fn law_save_load(
    gba: Gba,
    bytes: [u8; RTC_TRAILER_LENGTH],
    count: usize,
    now: OffsetDateTime,
)
    requires
        gba.has_rtc(),
        now.valid(),
    ensures
        ({
            let s0 = first_load_step(gba, FILE_SAVE);
            let (g1, s1) = next_load_step(gba, s0, LoadReply::Moved);
            let (g2, s2) = next_load_step(g1, s1, LoadReply::Trailer(bytes, count));
            let (g3, s3) = if s2 is ReadClock {
                next_load_step(g2, s2, LoadReply::Clock(now))
            } else {
                (g2, s2)
            };
            let (g4, s4) = next_load_step(g3, s3, LoadReply::Moved);
            &&& s0 == LoadStep::SeekTrailer(gba.save_size() as u64)
            &&& s2 is ReadClock <==> count == RTC_TRAILER_LENGTH
            &&& s4 == LoadStep::Done
            &&& g4 == Gba {
                rtc_state: if count == RTC_TRAILER_LENGTH && RtcState::restored(
                    bytes@,
                    now,
                ) is Some {
                    RtcState::restored(bytes@, now)
                } else {
                    gba.rtc_state
                },
                ..gba
            }
        }),
{
}

/// The clock that is written behind a save is the one that a later load restores, advanced by the
/// seconds between the two.
pub proof fn law_saved_clock_is_restored(
    gba: Gba,
    lo: u32,
    hi: u32,
    then: OffsetDateTime,
    first: SaveStep,
    next: SaveStep,
    bytes: [u8; RTC_TRAILER_LENGTH],
    now: OffsetDateTime,
)
    requires
        then.valid(),
        then.unix_seconds() >= 0,
        now.valid(),
        RtcState::with_words(lo, hi).shows_time(),
        first is ReadClock,
        first.leads_to(SaveReply::Clock { lo, hi, now: then }, next),
        next matches SaveStep::WriteRegisters { registers, timestamp } && bytes@ == registers@
            + timestamp@,
    ensures
        next_load_step(gba, LoadStep::ReadClock(bytes), LoadReply::Clock(now)).0.rtc_state == Some(
            RtcState::with_words(lo, hi).advanced(now.unix_seconds() - then.unix_seconds()),
        ),
{
    let state = RtcState::with_words(lo, hi);
    crate::calendar::law_unix_seconds_fit(then);
    let stamp = then.unix_seconds() as i64;
    assert(bytes@ == crate::rtc::saved_trailer(state, stamp));
    crate::rtc::law_restoring_catches_up(state, stamp, now);
}

} // verus!

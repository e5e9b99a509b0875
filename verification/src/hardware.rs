//! What the driver asks of the hardware around it, and what follows when a request fails.
use vstd::prelude::*;

verus! {

/// The rate at which the FPGA module runs, in hertz.
pub const SYSTEM_CLOCK_RATE: u32 = 16 * 1024 * 1024;

pub const REG_EMU_CART_CONFIG: u32 = 0x0000_0000;

pub const REG_EMU_CART_ROM_SIZE: u32 = 0x0000_0004;

pub const REG_GB_PLAYER: u32 = 0x0000_0008;

pub const REG_IMU_GYRO_Z: u32 = 0x0000_0100;

pub const REG_IMU_ACCEL_X: u32 = 0x0000_0104;

pub const REG_IMU_ACCEL_Y: u32 = 0x0000_0108;

pub const REG_RTC_LO: u32 = 0x0000_0200;

pub const REG_RTC_HI: u32 = 0x0000_0204;

pub const REG_STAT_STALLS: u32 = 0x0000_1000;

pub const REG_STAT_CYCLES: u32 = 0x0000_1004;

pub const COLOR_CORRECTION_BASE: u32 = 0x5000_0000;

/// An error of the driver.
#[derive(Copy, Clone, Debug, PartialEq, Eq, Structural)]
pub enum GbaError {
    IoError,
    FpgaError,
}

impl GbaError {
    /// The error in words.
    pub open spec fn text(self) -> Seq<char> {
        match self {
            GbaError::IoError => "I/O error"@,
            GbaError::FpgaError => "FPGA error"@,
        }
    }

    /// The error in words, for a reader.
    pub fn to_string(&self) -> (text: String)
        ensures
            text@ == self.text(),
    {
        match self {
            GbaError::IoError => String::from_str("I/O error"),
            GbaError::FpgaError => String::from_str("FPGA error"),
        }
    }
}

/// A color correction that comes with the firmware.
#[derive(Copy, Clone, Debug, PartialEq, Eq, Structural)]
pub enum ColorPreset {
    Identity,
    GbcGba,
    GbaAgs101,
    Nds,
    NdsLite,
    NsoGba,
}

/// The presets in the order in which the settings number them.
pub open spec fn color_presets() -> Seq<ColorPreset> {
    seq![
        ColorPreset::Identity,
        ColorPreset::GbcGba,
        ColorPreset::GbaAgs101,
        ColorPreset::Nds,
        ColorPreset::NdsLite,
        ColorPreset::NsoGba,
    ]
}

/// The preset with the given number. A number without a preset leaves the colors alone.
pub open spec fn numbered_preset(number: u32) -> ColorPreset {
    if number < color_presets().len() {
        color_presets()[number as int]
    } else {
        ColorPreset::Identity
    }
}

impl ColorPreset {
    /// The preset with the given number.
    pub fn from_number(number: u32) -> (preset: Self)
        ensures
            preset == numbered_preset(number),
    {
        match number {
            1 => ColorPreset::GbcGba,
            2 => ColorPreset::GbaAgs101,
            3 => ColorPreset::Nds,
            4 => ColorPreset::NdsLite,
            5 => ColorPreset::NsoGba,
            _ => ColorPreset::Identity,
        }
    }
}

/// One request to the hardware or to the stored settings.
#[derive(Copy, Clone, Debug, PartialEq, Eq, Structural)]
pub enum Command {
    EnableGyro,
    DisableGyro,
    EnableAccel,
    DisableAccel,
    EnableVblankInterrupt,
    DisableVblankInterrupt,
    ReadRegister { address: u32 },
    WriteRegister { address: u32, value: u32 },
    ConfigureColors { preset: ColorPreset, base: u32 },
    StoreColorProfile { profile: i32 },
    StoreGameBoyPlayer { enabled: bool },
}

/// What follows when a request fails.
#[derive(Copy, Clone, Debug, PartialEq, Eq, Structural)]
pub enum OnFailure {
    /// Nothing: the next request is made.
    Ignore,
    /// The whole run fails, and says why.
    Report,
    /// The firmware cannot go on.
    Panic,
}

/// A request, and what follows when it fails.
#[derive(Copy, Clone, Debug, PartialEq, Eq, Structural)]
pub struct Step {
    pub command: Command,
    pub on_failure: OnFailure,
}

/// Where a run of steps stands.
#[derive(Copy, Clone, Debug, PartialEq, Eq, Structural)]
pub enum Progress {
    /// The step with this index is next.
    At(usize),
    /// Every step was made.
    Finished,
    /// A step failed whose failure is reported; no later step is made.
    Failed(GbaError),
    /// A step failed that must not.
    Panicked,
}

/// A request, and what follows when it fails.
pub open spec fn step(command: Command, on_failure: OnFailure) -> Step {
    Step { command, on_failure }
}

/// A register write whose failure is of no account.
pub open spec fn write_ignored(address: u32, value: u32) -> Step {
    step(Command::WriteRegister { address, value }, OnFailure::Ignore)
}

/// A register write that must succeed.
pub open spec fn write_required(address: u32, value: u32) -> Step {
    step(Command::WriteRegister { address, value }, OnFailure::Panic)
}

impl Step {
    /// The step with this command and this consequence.
    pub fn new(command: Command, on_failure: OnFailure) -> (made: Step)
        ensures
            made == step(command, on_failure),
    {
        Step { command, on_failure }
    }

    /// A register write with this consequence.
    pub fn write(address: u32, value: u32, on_failure: OnFailure) -> (made: Step)
        ensures
            made == step(Command::WriteRegister { address, value }, on_failure),
    {
        Step { command: Command::WriteRegister { address, value }, on_failure }
    }
}

/// Where a run of `steps` stands before its first step.
pub open spec fn start_of(steps: Seq<Step>) -> Progress {
    if steps.len() == 0 {
        Progress::Finished
    } else {
        Progress::At(0)
    }
}

/// Where a run of `steps` stands once the step at `index` has succeeded or failed.
pub open spec fn progress_after(steps: Seq<Step>, index: usize, succeeded: bool) -> Progress {
    if !succeeded && steps[index as int].on_failure == OnFailure::Panic {
        Progress::Panicked
    } else if !succeeded && steps[index as int].on_failure == OnFailure::Report {
        Progress::Failed(GbaError::FpgaError)
    } else if index + 1 < steps.len() {
        Progress::At((index + 1) as usize)
    } else {
        Progress::Finished
    }
}

/// Where a run of steps stands before its first step.
pub fn start_steps(steps: &Vec<Step>) -> (progress: Progress)
    ensures
        progress == start_of(steps@),
{
    if steps.len() == 0 {
        Progress::Finished
    } else {
        Progress::At(0)
    }
}

/// Where a run of steps stands once the step at `index` has succeeded or failed.
pub fn advance_steps(steps: &Vec<Step>, index: usize, succeeded: bool) -> (progress: Progress)
    requires
        index < steps@.len(),
    ensures
        progress == progress_after(steps@, index, succeeded),
{
    if !succeeded {
        match steps[index].on_failure {
            OnFailure::Panic => {
                return Progress::Panicked;
            },
            OnFailure::Report => {
                return Progress::Failed(GbaError::FpgaError);
            },
            OnFailure::Ignore => {},
        }
    }
    if index < steps.len() - 1 {
        Progress::At(index + 1)
    } else {
        Progress::Finished
    }
}

/// Where a run stands after `count` steps, where `succeeded` tells of each step whether it came out
/// well.
pub open spec fn progress_at(steps: Seq<Step>, succeeded: Seq<bool>, count: nat) -> Progress
    decreases count,
{
    if count == 0 {
        start_of(steps)
    } else {
        match progress_at(steps, succeeded, (count - 1) as nat) {
            Progress::At(index) => progress_after(steps, index, succeeded[index as int]),
            stopped => stopped,
        }
    }
}

/// A run that goes on is at one of its steps.
pub proof fn law_progress_stays_within(steps: Seq<Step>, succeeded: Seq<bool>, count: nat)
    requires
        steps.len() <= usize::MAX,
    ensures
        progress_at(steps, succeeded, count) matches Progress::At(index) ==> index < steps.len(),
    decreases count,
{
    if count > 0 {
        law_progress_stays_within(steps, succeeded, (count - 1) as nat);
    }
}

/// The step at `index` stops the run.
pub open spec fn stops_at(steps: Seq<Step>, succeeded: Seq<bool>, index: int) -> bool {
    !succeeded[index] && steps[index].on_failure != OnFailure::Ignore
}

/// A run makes its steps in order and one by one, as long as none of them stops it.
pub proof fn law_steps_run_in_order(steps: Seq<Step>, succeeded: Seq<bool>, count: nat)
    requires
        count <= steps.len() <= usize::MAX,
        forall|i: int| 0 <= i < count ==> !stops_at(steps, succeeded, i),
    ensures
        progress_at(steps, succeeded, count) == if count < steps.len() {
            Progress::At(count as usize)
        } else {
            Progress::Finished
        },
    decreases count,
{
    if count > 0 {
        law_steps_run_in_order(steps, succeeded, (count - 1) as nat);
        assert(!stops_at(steps, succeeded, count - 1));
    }
}

/// The first step that stops a run ends it for good: no later step is made.
pub proof fn law_stopped_run_stays_stopped(
    steps: Seq<Step>,
    succeeded: Seq<bool>,
    index: nat,
    count: nat,
)
    requires
        index < count <= steps.len() <= usize::MAX,
        forall|i: int| 0 <= i < index ==> !stops_at(steps, succeeded, i),
        stops_at(steps, succeeded, index as int),
    ensures
        progress_at(steps, succeeded, count) == if steps[index as int].on_failure
            == OnFailure::Panic {
            Progress::Panicked
        } else {
            Progress::Failed(GbaError::FpgaError)
        },
    decreases count,
{
    if count == index + 1 {
        law_steps_run_in_order(steps, succeeded, index);
    } else {
        law_stopped_run_stays_stopped(steps, succeeded, index, (count - 1) as nat);
    }
}

} // verus!

//! What the GBA core tells the firmware of itself: its files, and what the user can set.
use vstd::prelude::*;

use crate::gba::{
    Gba, FILE_BIOS, FILE_ROM, FILE_SAVE, SETTING_COLOR_CORRECTIONS, SETTING_GAME_BOY_PLAYER,
    SETTING_RESET,
};

verus! {

/// When a core uses the cartridge slot.
#[derive(Copy, Clone, Debug, PartialEq, Eq, Structural)]
pub enum CoreCartridgeMode {
    /// Where the user picks the cartridge.
    IfSelected,
}

/// The words in which a file is sent to the FPGA.
#[derive(Copy, Clone, Debug, PartialEq, Eq, Structural)]
pub enum FpgaSpiWordSize {
    Bits16,
    Bits32,
}

/// A file that a core uses.
#[derive(Debug)]
pub struct CoreFile {
    pub id: u16,
    pub label: String,
    pub extensions: Vec<String>,
    pub filename: Option<String>,
    pub optional: bool,
    pub read_only: bool,
    pub user_selected: bool,
    pub dependent_on_0: bool,
    pub initialize: bool,
    pub address: u32,
    /// The most bytes that the file may have, or zero.
    pub max_size: u32,
    /// The bytes that the file must have, or zero.
    pub exact_size: u32,
    /// In kilobytes per second.
    pub max_transfer_speed: u32,
    pub transfer_word_size: FpgaSpiWordSize,
}

/// One of the values that a setting can have.
#[derive(Debug)]
pub struct CoreSettingListItem {
    pub value: u32,
    pub label: String,
}

/// How the user changes a setting.
#[derive(Debug)]
pub enum CoreSettingType {
    Action { value: u32 },
    List { items: Vec<CoreSettingListItem> },
    Checkbox { value: u32 },
}

/// Something that the user can set.
#[derive(Debug)]
pub struct CoreSetting {
    pub id: u16,
    pub label: String,
    pub address: u32,
    pub mask: u32,
    pub default: u32,
    pub inner: CoreSettingType,
}

/// What a core tells of itself.
#[derive(Debug)]
pub struct CoreInfo {
    pub id: String,
    pub name: String,
    pub author: String,
    pub is_built_in: bool,
    /// The directory of the core; a built-in core has none.
    pub core_dir: String,
    pub uses_cartridge: CoreCartridgeMode,
    pub files: Vec<CoreFile>,
    pub settings: Vec<CoreSetting>,
    /// The system file with the bitstream.
    pub bitstream: String,
}

/// A [`CoreFile`], with its texts as sequences.
#[verifier::ext_equal]
pub struct CoreFileModel {
    pub id: u16,
    pub label: Seq<char>,
    pub extensions: Seq<Seq<char>>,
    pub filename: Option<Seq<char>>,
    pub optional: bool,
    pub read_only: bool,
    pub user_selected: bool,
    pub dependent_on_0: bool,
    pub initialize: bool,
    pub address: u32,
    pub max_size: u32,
    pub exact_size: u32,
    pub max_transfer_speed: u32,
    pub transfer_word_size: FpgaSpiWordSize,
}

/// A [`CoreSettingType`], with its texts as sequences.
#[verifier::ext_equal]
pub enum CoreSettingTypeModel {
    Action { value: u32 },
    /// Values and labels.
    List { items: Seq<(u32, Seq<char>)> },
    Checkbox { value: u32 },
}

/// A [`CoreSetting`], with its texts as sequences.
#[verifier::ext_equal]
pub struct CoreSettingModel {
    pub id: u16,
    pub label: Seq<char>,
    pub address: u32,
    pub mask: u32,
    pub default: u32,
    pub inner: CoreSettingTypeModel,
}

impl View for CoreFile {
    type V = CoreFileModel;

    open spec fn view(&self) -> CoreFileModel {
        CoreFileModel {
            id: self.id,
            label: self.label@,
            extensions: self.extensions@.map_values(|text: String| text@),
            filename: match self.filename {
                Some(text) => Some(text@),
                None => None,
            },
            optional: self.optional,
            read_only: self.read_only,
            user_selected: self.user_selected,
            dependent_on_0: self.dependent_on_0,
            initialize: self.initialize,
            address: self.address,
            max_size: self.max_size,
            exact_size: self.exact_size,
            max_transfer_speed: self.max_transfer_speed,
            transfer_word_size: self.transfer_word_size,
        }
    }
}

impl View for CoreSettingType {
    type V = CoreSettingTypeModel;

    open spec fn view(&self) -> CoreSettingTypeModel {
        match self {
            CoreSettingType::Action { value } => CoreSettingTypeModel::Action { value: *value },
            CoreSettingType::List { items } => CoreSettingTypeModel::List {
                items: items@.map_values(|item: CoreSettingListItem| (item.value, item.label@)),
            },
            CoreSettingType::Checkbox { value } => CoreSettingTypeModel::Checkbox { value: *value },
        }
    }
}

impl View for CoreSetting {
    type V = CoreSettingModel;

    open spec fn view(&self) -> CoreSettingModel {
        CoreSettingModel {
            id: self.id,
            label: self.label@,
            address: self.address,
            mask: self.mask,
            default: self.default,
            inner: self.inner@,
        }
    }
}

/// The ROM goes to the SDRAM. The user picks it, and may do without.
pub open spec fn rom_file() -> CoreFileModel {
    CoreFileModel {
        id: FILE_ROM,
        label: "ROM"@,
        extensions: seq!["gba"@],
        filename: None,
        optional: true,
        read_only: true,
        user_selected: true,
        dependent_on_0: false,
        initialize: false,
        address: 0x3000_0000,
        max_size: 0x200_0000,
        exact_size: 0,
        max_transfer_speed: 20_000,
        transfer_word_size: FpgaSpiWordSize::Bits32,
    }
}

/// The save goes to the SRAM. It belongs to the ROM and is made where it is missing.
pub open spec fn save_file() -> CoreFileModel {
    CoreFileModel {
        id: FILE_SAVE,
        label: "Save"@,
        extensions: seq!["sav"@],
        filename: None,
        optional: true,
        read_only: false,
        user_selected: false,
        dependent_on_0: true,
        initialize: true,
        address: 0x4000_0000,
        max_size: 0x2_0010,
        exact_size: 0,
        max_transfer_speed: 10_000,
        transfer_word_size: FpgaSpiWordSize::Bits16,
    }
}

/// The BIOS has to be there, and has to have its size.
pub open spec fn bios_file() -> CoreFileModel {
    CoreFileModel {
        id: FILE_BIOS,
        label: "BIOS"@,
        extensions: seq!["bin"@],
        filename: None,
        optional: false,
        read_only: true,
        user_selected: false,
        dependent_on_0: false,
        initialize: false,
        address: 0x1000_0000,
        max_size: 0,
        exact_size: 0x4000,
        max_transfer_speed: 20_000,
        transfer_word_size: FpgaSpiWordSize::Bits32,
    }
}

pub open spec fn reset_setting() -> CoreSettingModel {
    CoreSettingModel {
        id: SETTING_RESET,
        label: "Reset Core"@,
        address: 0x0000_2000,
        mask: 0,
        default: 0,
        inner: CoreSettingTypeModel::Action { value: 1 },
    }
}

/// The labels of the color corrections, in the order of their numbers.
pub open spec fn color_labels() -> Seq<Seq<char>> {
    seq!["None"@, "GBA"@, "GBA SP"@, "NDS"@, "NDS Lite"@, "NSO GBA"@]
}

pub open spec fn color_setting() -> CoreSettingModel {
    CoreSettingModel {
        id: SETTING_COLOR_CORRECTIONS,
        label: "Color Corrections"@,
        address: 0xFFFF_FFFF,
        mask: 0,
        default: 1,
        inner: CoreSettingTypeModel::List {
            items: Seq::new(color_labels().len(), |i: int| (i as u32, color_labels()[i])),
        },
    }
}

pub open spec fn game_boy_player_setting() -> CoreSettingModel {
    CoreSettingModel {
        id: SETTING_GAME_BOY_PLAYER,
        label: "Enable Game Boy Player"@,
        address: 0xFFFF_FFFF,
        mask: 0,
        default: 1,
        inner: CoreSettingTypeModel::Checkbox { value: 1 },
    }
}

/// The items of a list, numbered in order.
fn numbered_items(labels: &[&str]) -> (items: Vec<CoreSettingListItem>)
    requires
        labels@.len() <= u32::MAX,
    ensures
        items@.len() == labels@.len(),
        forall|i: int|
            0 <= i < labels@.len() ==> (#[trigger] items@[i]).value == i && items@[i].label@
                == labels@[i]@,
{
    let mut items: Vec<CoreSettingListItem> = Vec::new();
    let mut i: usize = 0;
    while i < labels.len()
        invariant
            i <= labels@.len() <= u32::MAX,
            items@.len() == i,
            forall|j: int|
                0 <= j < i ==> (#[trigger] items@[j]).value == j && items@[j].label@
                    == labels@[j]@,
        decreases labels@.len() - i,
    {
        items.push(CoreSettingListItem { value: i as u32, label: String::from_str(labels[i]) });
        i = i + 1;
    }
    items
}

/// A list of one extension.
fn one_extension(extension: &str) -> (extensions: Vec<String>)
    ensures
        extensions@.map_values(|text: String| text@) == seq![extension@],
{
    let extensions: Vec<String> = vec![String::from_str(extension)];
    assert(extensions@.map_values(|text: String| text@) =~= seq![extension@]);
    extensions
}

fn make_rom_file() -> (file: CoreFile)
    ensures
        file@ == rom_file(),
{
    CoreFile {
        id: FILE_ROM,
        label: String::from_str("ROM"),
        extensions: one_extension("gba"),
        filename: None,
        optional: true,
        read_only: true,
        user_selected: true,
        dependent_on_0: false,
        initialize: false,
        address: 0x3000_0000,  // SDRAM
        max_size: 32 * 1024 * 1024,
        exact_size: 0,
        max_transfer_speed: 20_000,  // 20 MB/s
        transfer_word_size: FpgaSpiWordSize::Bits32,
    }
}

fn make_save_file() -> (file: CoreFile)
    ensures
        file@ == save_file(),
{
    CoreFile {
        id: FILE_SAVE,
        label: String::from_str("Save"),
        extensions: one_extension("sav"),
        filename: None,
        optional: true,
        read_only: false,
        user_selected: false,
        dependent_on_0: true,
        initialize: true,
        address: 0x4000_0000,  // SRAM
        max_size: 128 * 1024 + 16,
        exact_size: 0,
        max_transfer_speed: 10_000,  // 10 MB/s
        transfer_word_size: FpgaSpiWordSize::Bits16,
    }
}

fn make_bios_file() -> (file: CoreFile)
    ensures
        file@ == bios_file(),
{
    CoreFile {
        id: FILE_BIOS,
        label: String::from_str("BIOS"),
        extensions: one_extension("bin"),
        filename: None,
        optional: false,
        read_only: true,
        user_selected: false,
        dependent_on_0: false,
        initialize: false,
        address: 0x1000_0000,
        max_size: 0,
        exact_size: 16 * 1024,
        max_transfer_speed: 20_000,  // 20 MB/s
        transfer_word_size: FpgaSpiWordSize::Bits32,
    }
}

fn make_reset_setting() -> (setting: CoreSetting)
    ensures
        setting@ == reset_setting(),
{
    CoreSetting {
        id: SETTING_RESET,
        label: String::from_str("Reset Core"),
        address: 0x0000_2000,
        mask: 0,
        default: 0,
        inner: CoreSettingType::Action { value: 1 },
    }
}

fn make_color_setting() -> (setting: CoreSetting)
    ensures
        setting@ == color_setting(),
{
    let labels: [&str; 6] = ["None", "GBA", "GBA SP", "NDS", "NDS Lite", "NSO GBA"];
    let items = numbered_items(labels.as_slice());
    assert(items@.map_values(|item: CoreSettingListItem| (item.value, item.label@)) =~= Seq::new(
        color_labels().len(),
        |i: int| (i as u32, color_labels()[i]),
    ));
    CoreSetting {
        id: SETTING_COLOR_CORRECTIONS,
        label: String::from_str("Color Corrections"),
        address: 0xFFFF_FFFF,
        mask: 0,
        default: 1,
        inner: CoreSettingType::List { items },
    }
}

fn make_game_boy_player_setting() -> (setting: CoreSetting)
    ensures
        setting@ == game_boy_player_setting(),
{
    CoreSetting {
        id: SETTING_GAME_BOY_PLAYER,
        label: String::from_str("Enable Game Boy Player"),
        address: 0xFFFF_FFFF,
        mask: 0,
        default: 1,
        inner: CoreSettingType::Checkbox { value: 1 },
    }
}

impl Gba {
    /// What the core tells of itself.
    pub fn get_core_info() -> (info: CoreInfo)
        ensures
            info.id@ == "Game-Bub.GBA"@,
            info.name@ == "Game Boy Advance"@,
            info.author@ == "Game Bub"@,
            info.is_built_in,
            info.core_dir@ == Seq::<char>::empty(),
            info.uses_cartridge == CoreCartridgeMode::IfSelected,
            info.files@.map_values(|file: CoreFile| file@) == seq![
                rom_file(),
                save_file(),
                bios_file(),
            ],
            info.settings@.map_values(|setting: CoreSetting| setting@) == seq![
                reset_setting(),
                color_setting(),
                game_boy_player_setting(),
            ],
            info.bitstream@ == "gba.bit.hs"@,
    {
        let files: Vec<CoreFile> = vec![make_rom_file(), make_save_file(), make_bios_file()];
        let settings: Vec<CoreSetting> = vec![
            make_reset_setting(),
            make_color_setting(),
            make_game_boy_player_setting(),
        ];
        assert(files@.map_values(|file: CoreFile| file@) =~= seq![
            rom_file(),
            save_file(),
            bios_file(),
        ]);
        assert(settings@.map_values(|setting: CoreSetting| setting@) =~= seq![
            reset_setting(),
            color_setting(),
            game_boy_player_setting(),
        ]);
        CoreInfo {
            id: String::from_str("Game-Bub.GBA"),
            name: String::from_str("Game Boy Advance"),
            author: String::from_str("Game Bub"),
            is_built_in: true,
            core_dir: String::new(),
            uses_cartridge: CoreCartridgeMode::IfSelected,
            files,
            settings,
            bitstream: String::from_str("gba.bit.hs"),
        }
    }
}

/// The save of every cartridge fits in the save file, with the clock behind it.
pub proof fn law_save_file_has_room(save_type: crate::cartridge::SaveType)
    ensures
        save_type.size() + crate::files::RTC_TRAILER_LENGTH <= save_file().max_size,
{
}

/// The list of color corrections offers every preset once, under the number that selects it.
pub proof fn law_color_list_offers_presets(number: u32)
    requires
        number < crate::hardware::color_presets().len(),
    ensures
        ({
            &&& color_setting().inner matches CoreSettingTypeModel::List { items }
            &&& items.len() == crate::hardware::color_presets().len()
            &&& items[number as int].0 == number
            &&& crate::hardware::numbered_preset(items[number as int].0)
                == crate::hardware::color_presets()[number as int]
        }),
{
}

} // verus!

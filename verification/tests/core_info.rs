use gamebub_gba::cartridge::SaveType;
use gamebub_gba::core_info::{CoreCartridgeMode, CoreSettingType, FpgaSpiWordSize};
use gamebub_gba::files::RTC_TRAILER_LENGTH;
use gamebub_gba::gba::Gba;

#[test]
fn core_names_itself() {
    let info = Gba::get_core_info();
    assert_eq!(info.id, "Game-Bub.GBA");
    assert_eq!(info.name, "Game Boy Advance");
    assert_eq!(info.author, "Game Bub");
    assert!(info.is_built_in);
    assert_eq!(info.core_dir, "");
    assert_eq!(info.uses_cartridge, CoreCartridgeMode::IfSelected);
    assert_eq!(info.bitstream, "gba.bit.hs");
}

#[test]
fn core_files() {
    let info = Gba::get_core_info();
    assert_eq!(info.files.len(), 3);
    let (rom, save, bios) = (&info.files[0], &info.files[1], &info.files[2]);
    assert_eq!((rom.id, save.id, bios.id), (0, 1, 2));
    assert_eq!((rom.label.as_str(), save.label.as_str(), bios.label.as_str()), ("ROM", "Save", "BIOS"));
    assert_eq!(rom.extensions, ["gba"]);
    assert_eq!(save.extensions, ["sav"]);
    assert_eq!(bios.extensions, ["bin"]);
    assert!(info.files.iter().all(|file| file.filename.is_none()));
    assert_eq!((rom.optional, save.optional, bios.optional), (true, true, false));
    assert_eq!((rom.read_only, save.read_only, bios.read_only), (true, false, true));
    assert_eq!((rom.user_selected, save.user_selected, bios.user_selected), (true, false, false));
    assert_eq!((rom.dependent_on_0, save.dependent_on_0, bios.dependent_on_0), (false, true, false));
    assert_eq!((rom.initialize, save.initialize, bios.initialize), (false, true, false));
    assert_eq!((rom.address, save.address, bios.address), (0x3000_0000, 0x4000_0000, 0x1000_0000));
    assert_eq!((rom.max_size, save.max_size, bios.max_size), (33_554_432, 131_088, 0));
    assert_eq!((rom.exact_size, save.exact_size, bios.exact_size), (0, 0, 16_384));
    assert_eq!(
        (rom.max_transfer_speed, save.max_transfer_speed, bios.max_transfer_speed),
        (20_000, 10_000, 20_000)
    );
    assert_eq!(rom.transfer_word_size, FpgaSpiWordSize::Bits32);
    assert_eq!(save.transfer_word_size, FpgaSpiWordSize::Bits16);
    assert_eq!(bios.transfer_word_size, FpgaSpiWordSize::Bits32);
}

#[test]
fn core_settings() {
    let info = Gba::get_core_info();
    assert_eq!(info.settings.len(), 3);
    let (reset, colors, player) = (&info.settings[0], &info.settings[1], &info.settings[2]);
    assert_eq!((reset.id, colors.id, player.id), (0, 1, 2));
    assert_eq!(reset.label, "Reset Core");
    assert_eq!(colors.label, "Color Corrections");
    assert_eq!(player.label, "Enable Game Boy Player");
    assert_eq!((reset.address, colors.address, player.address), (0x2000, 0xFFFF_FFFF, 0xFFFF_FFFF));
    assert_eq!((reset.mask, colors.mask, player.mask), (0, 0, 0));
    assert_eq!((reset.default, colors.default, player.default), (0, 1, 1));
    assert!(matches!(reset.inner, CoreSettingType::Action { value: 1 }));
    assert!(matches!(player.inner, CoreSettingType::Checkbox { value: 1 }));
    match &colors.inner {
        CoreSettingType::List { items } => {
            let labels = ["None", "GBA", "GBA SP", "NDS", "NDS Lite", "NSO GBA"];
            assert_eq!(items.len(), labels.len());
            for (i, item) in items.iter().enumerate() {
                assert_eq!(item.value, i as u32);
                assert_eq!(item.label, labels[i]);
            }
        }
        _ => panic!("no list"),
    }
}

#[test]
fn largest_save_fits_with_its_clock() {
    let info = Gba::get_core_info();
    let needed = SaveType::Flash128K.get_size() + RTC_TRAILER_LENGTH;
    assert_eq!(needed, info.files[1].max_size as usize);
}

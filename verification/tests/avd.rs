use xero_core::avd::{avd_entry, classify_kind, collect_names, humanize_name, parse_ini_meta, AvdKind};

#[test]
fn parses_standard_config_ini() {
    let ini = b"\
avd.ini.displayname = Pixel 8\n\
hw.lcd.width = 1080\n\
hw.lcd.height = 2400\n\
hw.lcd.density = 420\n\
";
    let meta = parse_ini_meta(ini).expect("parsed");
    assert_eq!(meta.display_name.as_deref(), Some("Pixel 8"));
    assert_eq!(meta.width, Some(1080));
    assert_eq!(meta.height, Some(2400));
    assert_eq!(meta.density, Some(420));
    assert_eq!(meta.kind, AvdKind::Phone);
}

#[test]
fn tablet_detected_from_dimensions() {
    let ini = b"\
hw.lcd.width = 1600\n\
hw.lcd.height = 2560\n\
";
    let meta = parse_ini_meta(ini).expect("parsed");
    assert_eq!(meta.kind, AvdKind::Tablet);
}

#[test]
fn humanize_name_replaces_separators() {
    assert_eq!(humanize_name("Pixel_8_API_34"), "Pixel 8 API 34");
}

#[test]
fn ini_reader_skips_comments_and_keeps_first_display_name() {
    let ini = b"# comment\r\n\nhw.device.name=first\r\navd.ini.displayname = second\nno equals here\nhw.lcd.width=+12\nhw.lcd.height=99999999999\nhw.lcd.density=4x\n";
    let meta = parse_ini_meta(ini).expect("parsed");
    assert_eq!(meta.display_name.as_deref(), Some("first"));
    assert_eq!(meta.width, Some(12));
    assert_eq!(meta.height, None);
    assert_eq!(meta.density, None);
    assert_eq!(meta.kind, AvdKind::Phone);
    assert_eq!(parse_ini_meta(b"").unwrap().width, None);
}

#[test]
fn avd_entries_fall_back_to_humanized_names() {
    assert_eq!(classify_kind(Some(1200), Some(1300), None), AvdKind::Tablet);
    assert_eq!(classify_kind(Some(1199), Some(3000), None), AvdKind::Phone);
    assert_eq!(classify_kind(None, Some(3000), None), AvdKind::Phone);
    let a = avd_entry("Tab-S_9".to_string(), None);
    assert_eq!(a.display_name, "Tab S 9");
    assert_eq!(a.kind, AvdKind::Phone);
    let meta = parse_ini_meta(b"hw.lcd.width=1600\nhw.lcd.height=2560").unwrap();
    let a = avd_entry("Tab".to_string(), Some(meta));
    assert_eq!(a.display_name, "Tab");
    assert_eq!(a.kind, AvdKind::Tablet);
}

#[test]
fn avd_names_merge_emulator_and_manager_listings() {
    let emulator = b"Pixel_8\r\n  \nTablet_A \n".to_vec();
    let manager = b"Tablet_A\nWear_OS\n\nPixel_8\n".to_vec();
    let names = collect_names(Some(emulator), Some(manager));
    assert_eq!(names, vec!["Pixel_8".to_string(), "Tablet_A".to_string(), "Wear_OS".to_string()]);
}

#[test]
fn avd_names_without_listings_are_empty_or_one_sided() {
    assert!(collect_names(None, None).is_empty());
    let only_manager = collect_names(None, Some(b"A\nA\nB".to_vec()));
    assert_eq!(only_manager, vec!["A".to_string(), "B".to_string()]);
    let only_emulator = collect_names(Some(b"A\nA\n".to_vec()), None);
    assert_eq!(only_emulator, vec!["A".to_string(), "A".to_string()]);
}

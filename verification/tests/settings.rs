use vibe_extract_core::paths::{settings_dir, settings_path, settings_tmp_name, HostOs};
use vibe_extract_core::settings::{get_electron_pref, set_electron_pref, ElectronRelaunchPref, VibeExtractSettings};

#[test]
fn prefs_default_to_ask_and_read_back() {
    let mut s = VibeExtractSettings::new();
    assert_eq!(get_electron_pref(&s, "com.tinyspeck.slackmacgap"), ElectronRelaunchPref::Ask);
    set_electron_pref(&mut s, "com.tinyspeck.slackmacgap", ElectronRelaunchPref::AlwaysYes);
    set_electron_pref(&mut s, "com.hnc.Discord", ElectronRelaunchPref::AlwaysNo);
    assert_eq!(get_electron_pref(&s, "com.tinyspeck.slackmacgap"), ElectronRelaunchPref::AlwaysYes);
    assert_eq!(get_electron_pref(&s, "com.hnc.Discord"), ElectronRelaunchPref::AlwaysNo);
    set_electron_pref(&mut s, "com.tinyspeck.slackmacgap", ElectronRelaunchPref::Ask);
    assert_eq!(get_electron_pref(&s, "com.tinyspeck.slackmacgap"), ElectronRelaunchPref::Ask);
    assert_eq!(get_electron_pref(&s, "com.hnc.Discord"), ElectronRelaunchPref::AlwaysNo);
    assert_eq!(s.len(), 2);
    assert_eq!(ElectronRelaunchPref::default(), ElectronRelaunchPref::Ask);
}

#[test]
fn entries_round_trip() {
    let e = vec![
        ("a".to_string(), ElectronRelaunchPref::AlwaysYes),
        ("b".to_string(), ElectronRelaunchPref::AlwaysNo),
        ("a".to_string(), ElectronRelaunchPref::AlwaysNo),
    ];
    let s = VibeExtractSettings::from_entries(&e);
    assert_eq!(s.len(), 2);
    assert_eq!(get_electron_pref(&s, "a"), ElectronRelaunchPref::AlwaysNo);
    let back = VibeExtractSettings::from_entries(&s.entries());
    assert_eq!(get_electron_pref(&back, "a"), ElectronRelaunchPref::AlwaysNo);
    assert_eq!(get_electron_pref(&back, "b"), ElectronRelaunchPref::AlwaysNo);
    assert_eq!(back.len(), 2);
}

#[test]
fn settings_file_location() {
    assert_eq!(
        settings_path(Some("/Users/me"), HostOs::MacOs),
        "/Users/me/Library/Application Support/VibeExtract/settings.json"
    );
    assert_eq!(settings_dir(None, HostOs::MacOs), "./Library/Application Support/VibeExtract");
    assert_eq!(settings_tmp_name(42), "settings.json.tmp.42");
}

#[test]
fn settings_file_location_elsewhere() {
    assert_eq!(settings_path(Some("/home/me"), HostOs::Other), "/home/me/.config/VibeExtract/settings.json");
    assert_eq!(settings_dir(Some("/home/me"), HostOs::Windows), "/home/me/.config/VibeExtract");
}

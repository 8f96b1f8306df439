use vibe_extract_core::framework::{
    detect, detect_macos, detect_windows, frameworks_dir_verdict, mac_probe_paths, macho_verdict,
    pe_imports_framework, win_probe_path, ExecutableProbe, Framework, MacBundleProbe, WinProbe,
};
use vibe_extract_core::pe::pe_summary_of_bytes;

fn strings(v: &[&str]) -> Vec<String> {
    v.iter().map(|s| s.to_string()).collect()
}

fn empty_mac() -> MacBundleProbe {
    MacBundleProbe {
        frameworks_dir_exists: false,
        electron_framework_exists: false,
        frameworks_entries: vec![],
        app_asar_exists: false,
        resources_dir_exists: false,
        resources_entries: vec![],
        executable_bytes: None,
    }
}

#[test]
fn probe_paths_around_a_mac_executable() {
    let p = mac_probe_paths("/Applications/Foo.app/Contents/MacOS/Foo").unwrap();
    assert_eq!(p.frameworks_dir, "/Applications/Foo.app/Contents/Frameworks");
    assert_eq!(p.electron_framework, "/Applications/Foo.app/Contents/Frameworks/Electron Framework.framework");
    assert_eq!(p.resources_dir, "/Applications/Foo.app/Contents/Resources");
    assert_eq!(p.app_asar, "/Applications/Foo.app/Contents/Resources/app.asar");
    assert!(mac_probe_paths("Foo").is_none());
    assert_eq!(win_probe_path("/opt/App/app.exe").unwrap(), "/opt/App/resources/app.asar");
}

#[test]
fn electron_framework_folder_decides_first() {
    let mut p = empty_mac();
    p.frameworks_dir_exists = true;
    p.electron_framework_exists = true;
    p.resources_dir_exists = true;
    p.resources_entries = strings(&["MainMenu.nib"]);
    assert_eq!(detect_macos(&p), Framework::Electron);
}

#[test]
fn framework_entries_are_read_lowercased_in_order() {
    let mut p = empty_mac();
    p.frameworks_dir_exists = true;
    p.frameworks_entries = strings(&["Sparkle.framework", "QtCore.framework", "MyElectronHelper.framework"]);
    assert_eq!(detect_macos(&p), Framework::Qt);
    p.frameworks_entries = strings(&["Squirrel.framework", "Some ELECTRON Thing"]);
    assert_eq!(detect_macos(&p), Framework::Electron);
    assert_eq!(frameworks_dir_verdict(&strings(&["qt6gui", "electron"])), Some(Framework::Qt));
    assert_eq!(frameworks_dir_verdict(&strings(&["Qt6Gui"])), None);
}

#[test]
fn asar_then_nibs_then_binary() {
    let mut p = empty_mac();
    p.app_asar_exists = true;
    assert_eq!(detect_macos(&p), Framework::Electron);
    let mut p = empty_mac();
    p.resources_dir_exists = true;
    p.resources_entries = strings(&["Assets.car", "Main.storyboardc"]);
    assert_eq!(detect_macos(&p), Framework::AppKitNative);
    let mut p = empty_mac();
    p.resources_entries = strings(&["Main.nib"]);
    assert_eq!(detect_macos(&p), Framework::Unknown);
    let mut p = empty_mac();
    p.executable_bytes = Some(vec![0u8; 4]);
    assert_eq!(detect_macos(&p), Framework::Unknown);
}

#[test]
fn dylib_verdicts() {
    assert_eq!(macho_verdict(&strings(&["@rpath/Electron Framework.framework/Electron Framework"])), Framework::Electron);
    assert_eq!(macho_verdict(&strings(&["@rpath/QtCore.framework/QtCore"])), Framework::Qt);
    assert_eq!(macho_verdict(&strings(&["/usr/lib/QtCore.framework/Versions/5/QtCore"])), Framework::Qt);
    assert_eq!(
        macho_verdict(&strings(&["/System/Library/Frameworks/AppKit.framework/Versions/C/AppKit"])),
        Framework::AppKitNative
    );
    assert_eq!(macho_verdict(&strings(&["/usr/lib/libSystem.B.dylib"])), Framework::Unknown);
}

#[test]
fn pe_import_verdicts() {
    assert_eq!(pe_imports_framework(&strings(&["kernel32.dll", "mscoree.dll"])), Framework::DotNet);
    assert_eq!(pe_imports_framework(&strings(&["qt5core.dll", "node.dll"])), Framework::Qt);
    assert_eq!(pe_imports_framework(&strings(&["chrome_elf.dll"])), Framework::Electron);
    assert_eq!(pe_imports_framework(&strings(&["user32.dll"])), Framework::Win32Native);
    assert_eq!(pe_imports_framework(&strings(&["MSCOREE.DLL"])), Framework::Win32Native);
}

#[test]
fn windows_and_whole_probe() {
    assert_eq!(detect_windows(&WinProbe { sibling_asar_exists: true, executable_bytes: None }), Framework::Electron);
    assert_eq!(detect_windows(&WinProbe { sibling_asar_exists: false, executable_bytes: None }), Framework::Unknown);
    assert_eq!(
        detect_windows(&WinProbe { sibling_asar_exists: false, executable_bytes: Some(vec![0u8; 16]) }),
        Framework::Unknown
    );
    assert_eq!(detect(&ExecutableProbe::Missing), Framework::Unknown);
    assert_eq!(detect(&ExecutableProbe::Other), Framework::Unknown);
    assert_eq!(detect(&ExecutableProbe::MacOs(None)), Framework::Unknown);
    let mut p = empty_mac();
    p.app_asar_exists = true;
    assert_eq!(detect(&ExecutableProbe::MacOs(Some(p))), Framework::Electron);
    assert_eq!(Framework::AppKitNative.name(), "AppKitNative");
}

#[test]
fn pe_summary_of_small_and_foreign_files() {
    assert_eq!(pe_summary_of_bytes(&[0u8; 4]).unwrap_err(), "Malformed entity: Object is too small.");
    let s = pe_summary_of_bytes(&[0u8; 16]).unwrap();
    assert!(!s.is_dotnet);
    assert!(s.imports.is_empty());
    assert_eq!(s.manifest_xml, None);
    assert_eq!(s.diagnostics, vec!["not a PE file — expected on macOS executable".to_string()]);
}

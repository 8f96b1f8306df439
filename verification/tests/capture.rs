use vibe_extract_core::bundle::{summarize_bundle, InfoPlist, ResourcesScan, ToolRun};
use vibe_extract_core::capture::{merge_extractions, screenshot_fallback, CaptureResult, ExtractError, FrontmostWindowFailure};

fn capture(strategy: &str, toon: &str, html: &str, diag: &[&str]) -> CaptureResult {
    let mut c = CaptureResult::empty(strategy, "F");
    c.toon = toon.to_string();
    c.html = html.to_string();
    c.diagnostics = diag.iter().map(|s| s.to_string()).collect();
    c
}

fn labels(v: &[(&str, &str)]) -> Vec<(String, String)> {
    v.iter().map(|(a, b)| (a.to_string(), b.to_string())).collect()
}

#[test]
fn extract_error_messages() {
    assert_eq!(
        ExtractError::NoAxPermission.message(),
        "AX permission denied — grant Accessibility access in System Settings and retry."
    );
    assert_eq!(
        ExtractError::AllStrategiesFailed("x".to_string()).message(),
        "no extractor succeeded; last error: x"
    );
    assert_eq!(ExtractError::Other("y".to_string()).message(), "y");
}

#[test]
fn screenshot_fallback_outcomes() {
    let c = screenshot_fallback("cdp: boom", None).unwrap();
    assert_eq!(c.strategy, "screenshot_only");
    assert_eq!(c.diagnostics, vec!["All structural strategies failed.".to_string(), "Last error: cdp: boom".to_string()]);
    match screenshot_fallback("cdp: boom", Some("denied")) {
        Err(ExtractError::AllStrategiesFailed(m)) => assert_eq!(m, "cdp: boom; screenshot: denied"),
        _ => panic!("expected an error"),
    }
}

#[test]
fn merging_needs_a_selection() {
    match merge_extractions(&vec![], vec![]) {
        Err(ExtractError::AllStrategiesFailed(m)) => assert_eq!(m, "no elements selected"),
        _ => panic!("expected an error"),
    }
    let one = merge_extractions(&labels(&[("AXButton", "OK")]), vec![Ok(capture("cdp", "T", "H", &[]))]).unwrap();
    assert_eq!(one.strategy, "cdp");
    assert_eq!(one.toon, "T");
}

#[test]
fn merging_two_successes_and_a_failure() {
    let r = merge_extractions(
        &labels(&[("AXButton", "OK"), ("AXText", "Hi"), ("AXImage", "")]),
        vec![
            Ok(capture("native_ax", "T1", "<b>\"1\"</b>", &["d1"])),
            Ok(capture("cdp", "T2", "h2", &[])),
            Err(ExtractError::Other("boom".to_string())),
        ],
    )
    .unwrap();
    assert_eq!(r.strategy, "native_ax (×2)");
    assert_eq!(r.fidelity, "F");
    assert_eq!(
        r.toon,
        "# VibeExtract — multi-element capture (2 elements)\n\n## Element 1 of 2 — AXButton \"OK\"\n\nT1\n\n---\n\n## Element 2 of 2 — AXText \"Hi\"\n\nT2\n\n---\n\n"
    );
    assert_eq!(
        r.diagnostics,
        vec![
            "--- element 1 (AXButton) ---".to_string(),
            "d1".to_string(),
            "--- element 2 (AXText) ---".to_string(),
            "element 2: boom".to_string(),
        ]
    );
    assert!(r.html.contains("<title>VibeExtract — Multi-element Capture (2 elements)</title>"));
    assert!(r.html.contains("srcdoc=\"&lt;b&gt;&quot;1&quot;&lt;/b&gt;\""));
    assert!(r.html.contains("<section class=\"ve-elem\" data-idx=\"1\">"));
}

#[test]
fn merging_only_failures() {
    match merge_extractions(
        &labels(&[("A", "a"), ("B", "b")]),
        vec![Err(ExtractError::Other("x".to_string())), Err(ExtractError::NoAxPermission)],
    ) {
        Err(ExtractError::AllStrategiesFailed(m)) => assert_eq!(
            m,
            "element 0: x; element 1: AX permission denied — grant Accessibility access in System Settings and retry."
        ),
        _ => panic!("expected an error"),
    }
}

#[test]
fn bundle_summary_from_plist_and_resources() {
    let plist = InfoPlist::Dict(vec![
        ("CFBundleIdentifier".to_string(), Some("com.example.App".to_string())),
        ("CFBundleName".to_string(), Some("Example".to_string())),
        ("CFBundleExecutable".to_string(), Some("Example".to_string())),
    ]);
    let res = ResourcesScan {
        nibs: vec![
            ("MainMenu.nib".to_string(), ToolRun::Done("<xml/>".to_string())),
            ("Broken.nib".to_string(), ToolRun::Failed("exit 1".to_string())),
        ],
        assets_car: Some(ToolRun::Failed("no assetutil".to_string())),
    };
    let s = summarize_bundle(true, plist, Some(res));
    assert_eq!(s.bundle_id.as_deref(), Some("com.example.App"));
    assert_eq!(s.display_name.as_deref(), Some("Example"));
    assert_eq!(s.executable_name.as_deref(), Some("Example"));
    assert_eq!(s.nibs.len(), 1);
    assert_eq!(s.nibs[0].name, "MainMenu.nib");
    assert_eq!(s.nibs[0].hierarchy_xml, "<xml/>");
    assert_eq!(s.assets_car_summary, None);
    assert_eq!(
        s.diagnostics,
        vec!["ibtool failed on Broken.nib: exit 1".to_string(), "assetutil failed: no assetutil".to_string()]
    );
    let none = summarize_bundle(false, InfoPlist::Missing, None);
    assert_eq!(none.diagnostics, vec!["couldn't locate .app bundle for executable".to_string()]);
    let missing = summarize_bundle(true, InfoPlist::Missing, None);
    assert_eq!(missing.diagnostics, vec!["no Info.plist in Contents/".to_string()]);
}

#[test]
fn info_plist_bytes_are_read() {
    let xml = b"<?xml version=\"1.0\" encoding=\"UTF-8\"?>\n<plist version=\"1.0\"><dict><key>CFBundleIdentifier</key><string>com.example.App</string><key>CFBundleDisplayName</key><integer>3</integer><key>CFBundleName</key><string>Ex</string></dict></plist>";
    match vibe_extract_core::bundle::info_plist_from_bytes(xml) {
        InfoPlist::Dict(d) => {
            assert_eq!(
                d,
                vec![
                    ("CFBundleIdentifier".to_string(), Some("com.example.App".to_string())),
                    ("CFBundleDisplayName".to_string(), None),
                    ("CFBundleName".to_string(), Some("Ex".to_string())),
                ]
            );
            let s = summarize_bundle(true, InfoPlist::Dict(d), None);
            assert_eq!(s.bundle_id.as_deref(), Some("com.example.App"));
            assert_eq!(s.display_name, None);
        },
        _ => panic!("expected a dictionary"),
    }
    let arr = b"<?xml version=\"1.0\" encoding=\"UTF-8\"?>\n<plist version=\"1.0\"><array><string>x</string></array></plist>";
    assert!(matches!(vibe_extract_core::bundle::info_plist_from_bytes(arr), InfoPlist::NotADict));
    assert!(matches!(vibe_extract_core::bundle::info_plist_from_bytes(b"<?xml version=\"1.0\" encoding=\"UTF-8\"?>\n<plist version=\"1.0\"><dict><key>x</key></plist>"), InfoPlist::ParseError(_)));
    let s = summarize_bundle(true, InfoPlist::NotADict, None);
    assert_eq!(s.diagnostics, vec!["Info.plist top-level wasn't a dict".to_string()]);
    let s = summarize_bundle(true, InfoPlist::ParseError("bad".to_string()), None);
    assert_eq!(s.diagnostics, vec!["Info.plist parse error: bad".to_string()]);
}

#[test]
fn frontmost_window_failures() {
    assert!(matches!(FrontmostWindowFailure::NoPermission.to_error(), ExtractError::NoAxPermission));
    assert_eq!(
        FrontmostWindowFailure::NoElementAtCursor.to_error().message(),
        "no extractor succeeded; last error: no AX element at cursor — hover over the target window before pressing Cmd+Shift+X"
    );
    assert_eq!(FrontmostWindowFailure::NoWindowBounds.to_error().message(), "no extractor succeeded; last error: window has no bounds");
    assert_eq!(FrontmostWindowFailure::NoEnclosingWindow.to_error().message(), "no extractor succeeded; last error: no enclosing AXWindow");
    assert_eq!(
        FrontmostWindowFailure::Unsupported.to_error().message(),
        "no extractor succeeded; last error: extract_frontmost_window not implemented on this platform yet"
    );
}

#[test]
fn nib_resources_in_directory_order() {
    let names: Vec<String> = ["Assets.car", "Main.nib", "Info.plist", "Prefs.storyboardc", "x.nib.bak"]
        .iter()
        .map(|s| s.to_string())
        .collect();
    assert_eq!(
        vibe_extract_core::bundle::nib_resources(&names),
        vec!["Main.nib".to_string(), "Prefs.storyboardc".to_string()]
    );
}

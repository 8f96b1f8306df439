use vibe_extract_core::electron::{
    cdp_scan_ports, debug_port_arg, known_electron_apps, lookup_known, make_target, no_alias_worked,
    pick_free_debug_port, quit_script, still_alive, targets_have_page, RelaunchError, TargetError,
};

#[test]
fn lookup_known_apps() {
    assert_eq!(
        lookup_known("com.tinyspeck.slackmacgap").map(|k| k.display_name),
        Some("Slack")
    );
    assert!(lookup_known("com.does.not.exist").is_none());
}

#[test]
fn whatsapp_uses_correct_bundle_id() {
    let found = lookup_known("net.whatsapp.WhatsApp");
    assert!(
        found.is_some(),
        "WhatsApp must be in KNOWN_ELECTRON_APPS under its real bundle id"
    );
    assert_eq!(found.unwrap().display_name, "WhatsApp");
    assert!(
        lookup_known("desktop.WhatsApp").is_none(),
        "legacy WhatsApp bundle id must no longer match"
    );
}

#[test]
fn make_target_known() {
    let t = make_target(Some("com.hnc.Discord"), "Discord").unwrap();
    assert_eq!(t.display_name, "Discord");
    assert_eq!(t.aliases, vec!["Discord".to_string()]);
}

#[test]
fn make_target_unknown_uses_fallback() {
    let t = make_target(Some("dev.unknown.electron"), "Unknown").unwrap();
    assert_eq!(t.display_name, "Unknown");
    assert_eq!(t.bundle_id, "dev.unknown.electron");
}

#[test]
fn pick_free_debug_port_returns_something_in_range() {
    let p = pick_free_debug_port(|_| true);
    assert!((9220..=9230).contains(&p));
}

#[test]
fn pick_free_debug_port_prefers_9222_and_falls_back_to_it() {
    assert_eq!(pick_free_debug_port(|_| true), 9222);
    assert_eq!(pick_free_debug_port(|_| false), 9222);
    assert_eq!(pick_free_debug_port(|p| p == 9221), 9221);
    assert_eq!(pick_free_debug_port(|p| p >= 9225), 9225);
}

#[test]
fn make_target_without_bundle_id_uses_display_name() {
    let t = make_target(None, "Figma").unwrap();
    assert_eq!(t.bundle_id, "Figma");
    assert_eq!(t.display_name, "Figma");
    assert_eq!(t.aliases, vec!["Figma".to_string()]);
}

#[test]
fn make_target_without_any_identity_fails() {
    let e = make_target(None, "").unwrap_err();
    assert!(matches!(e, TargetError::NoIdentity));
    assert_eq!(e.message(), "no bundle id and no display name — can't build RelaunchTarget");
}

#[test]
fn make_target_known_ignores_fallback_name() {
    let t = make_target(Some("com.tinyspeck.slackmacgap"), "whatever").unwrap();
    assert_eq!(t.display_name, "Slack");
    assert_eq!(t.bundle_id, "com.tinyspeck.slackmacgap");
}

#[test]
fn known_apps_have_distinct_bundle_ids() {
    let apps = known_electron_apps();
    for (i, a) in apps.iter().enumerate() {
        for b in apps.iter().skip(i + 1) {
            assert_ne!(a.bundle_id, b.bundle_id);
        }
        assert_eq!(lookup_known(a.bundle_id).unwrap().display_name, a.display_name);
    }
}

#[test]
fn scan_ports_cover_9220_to_9230() {
    assert_eq!(cdp_scan_ports(), (9220u16..=9230).collect::<Vec<u16>>());
}

#[test]
fn relaunch_texts() {
    assert_eq!(debug_port_arg(9222), "--remote-debugging-port=9222");
    assert_eq!(quit_script("Slack"), "tell application \"Slack\" to quit");
    match no_alias_worked("boom") {
        RelaunchError::QuitRefused(m) => assert_eq!(m, "no AppleScript alias worked (boom)"),
        other => panic!("unexpected {:?}", other),
    }
    match still_alive("com.x") {
        RelaunchError::QuitRefused(m) => {
            assert_eq!(m, "com.x still alive after 5s — likely a modal save dialog is blocking quit")
        }
        other => panic!("unexpected {:?}", other),
    }
}

#[test]
fn page_targets_detected() {
    assert!(targets_have_page(&vec![Some("iframe".to_string()), Some("page".to_string())]));
    assert!(!targets_have_page(&vec![None, Some("service_worker".to_string())]));
    assert!(!targets_have_page(&vec![]));
}

use vibe_extract_core::session::{
    choose_target_pid, click_message, element_name, export_failed_notice, hotkey_action, hover_tick, next_last_foreign,
    non_empty, selection_summary, target_label, ClickError, HotkeyAction, HoverTick, PickSession, NO_TARGET_NOTICE,
};

#[test]
fn clicks_select_within_one_process() {
    let mut s: PickSession<&str> = PickSession::new();
    assert!(matches!(s.click("a", 10, false), Err(ClickError::NotActive)));
    s.start(Some(10));
    assert!(s.active());
    assert_eq!(s.target_pid(), Some(10));
    assert_eq!(s.click("a", 10, false).unwrap(), 1);
    assert_eq!(s.click("b", 10, true).unwrap(), 2);
    assert_eq!(s.selected(), &vec!["a", "b"]);
    let e = s.click("c", 11, true).unwrap_err();
    assert!(matches!(e, ClickError::CrossApp(10)));
    assert_eq!(e.message(), "Cross-app selection not allowed (locked to pid 10). Press Escape to start over.");
    assert_eq!(s.selected(), &vec!["a", "b"]);
    assert_eq!(s.click("c", 11, false).unwrap(), 1);
    assert_eq!(s.selected(), &vec!["c"]);
    s.stop();
    assert!(!s.active());
    assert!(s.selected().is_empty());
    assert_eq!(ClickError::NotActive.message(), "pick mode not active");
}

#[test]
fn each_process_is_woken_once_per_session() {
    let mut s: PickSession<u8> = PickSession::new();
    s.start(None);
    assert!(s.needs_wake(42));
    assert!(!s.needs_wake(42));
    assert!(!s.needs_wake(0));
    assert!(!s.needs_wake(-3));
    s.start(None);
    assert!(s.needs_wake(42));
}

#[test]
fn hover_is_remembered() {
    let mut s: PickSession<u8> = PickSession::new();
    assert!(s.last_hover().is_none());
    s.set_hover(7);
    assert_eq!(s.last_hover(), &Some(7));
}

#[test]
fn target_choice_prefers_launch_services() {
    assert_eq!(choose_target_pid(1, Some(5), Some(6), Some(7)), Some(6));
    assert_eq!(choose_target_pid(1, Some(5), Some(1), Some(7)), Some(5));
    assert_eq!(choose_target_pid(1, Some(1), None, Some(7)), Some(7));
    assert_eq!(choose_target_pid(1, None, None, None), None);
    assert_eq!(next_last_foreign(Some(3), Some(9), 1), Some(9));
    assert_eq!(next_last_foreign(Some(3), Some(1), 1), Some(3));
    assert_eq!(next_last_foreign(Some(3), Some(0), 1), Some(3));
    assert_eq!(next_last_foreign(None, None, 1), None);
}

#[test]
fn labels_and_messages() {
    assert_eq!(target_label(Some("Slack".to_string()), Some(5)), "Slack");
    assert_eq!(target_label(None, Some(5)), "pid 5");
    assert_eq!(target_label(None, None), "pid -1");
    assert_eq!(click_message(2, "AXButton"), "selected 2 (AXButton)");
    assert_eq!(
        selection_summary(&vec![
            ("AXButton".to_string(), "OK".to_string()),
            ("AXTextField".to_string(), "".to_string())
        ]),
        "AXButton \"OK\" + AXTextField \"\""
    );
    assert_eq!(selection_summary(&vec![]), "");
    assert_eq!(element_name(vec![None, Some("Desc".to_string()), Some("Label".to_string())]), "Desc");
    assert_eq!(element_name(vec![None, None]), "");
    assert_eq!(non_empty(Some(String::new())), None);
    assert_eq!(non_empty(Some("x".to_string())), Some("x".to_string()));
}

#[test]
fn hotkeys_toggle_export_and_extract() {
    assert_eq!(hotkey_action(true, "shift+super+KeyS", false), HotkeyAction::StartPick);
    assert_eq!(hotkey_action(true, "shift+super+KeyS", true), HotkeyAction::StopPick);
    assert_eq!(hotkey_action(true, "shift+super+KeyE", true), HotkeyAction::Export);
    assert_eq!(hotkey_action(true, "shift+super+KeyX", false), HotkeyAction::ExtractWindow);
    assert_eq!(hotkey_action(false, "shift+super+KeyS", false), HotkeyAction::Ignore);
    assert_eq!(hotkey_action(true, "shift+super+KeyQ", false), HotkeyAction::Ignore);
}

#[test]
fn hover_ticks() {
    assert_eq!(hover_tick(false, false, Some(5), 1), HoverTick::Stop);
    assert_eq!(hover_tick(true, true, Some(5), 1), HoverTick::Skip);
    assert_eq!(hover_tick(true, false, Some(5), 1), HoverTick::InApp(5));
    assert_eq!(hover_tick(true, false, None, 1), HoverTick::Excluding(1));
}

#[test]
fn notices() {
    assert_eq!(
        export_failed_notice("nothing selected"),
        "Export failed: nothing selected — select at least one element with Cmd+Shift+S then click on it."
    );
    assert!(NO_TARGET_NOTICE.starts_with("No recent target app."));
}

#[test]
fn start_needs_a_target_and_export_needs_a_selection() {
    let mut s: PickSession<u8> = PickSession::new();
    let e = s.start_for(None).unwrap_err();
    assert_eq!(e.message(), "no target app");
    assert!(!s.active());
    assert!(s.start_for(Some(7)).is_ok());
    assert!(s.active());
    assert_eq!(s.target_pid(), Some(7));
    assert_eq!(s.export_check().unwrap_err().message(), "nothing selected");
    s.click(1, 7, false).unwrap();
    s.click(2, 7, true).unwrap();
    assert_eq!(s.export_check().unwrap(), 2);
    s.finish_export(false);
    assert!(s.active());
    assert_eq!(s.selected(), &vec![1, 2]);
    s.finish_export(true);
    assert!(!s.active());
    assert!(s.selected().is_empty());
}

use vibe_extract_core::cdp::{
    body_has_page, capture_from_export, capture_from_export_reply, choose_page_target, evaluation_outcome_of_reply, reply_step_of_text, evaluation_outcome, looks_like_chromium_window, reply_step, wrap_injection, CdpError, ExportPayload,
    IncomingFrame, PageTarget, ReplyStep,
};

fn target(t: &str, ws: Option<&str>) -> PageTarget {
    PageTarget {
        target_type: t.to_string(),
        title: "t".to_string(),
        url: "u".to_string(),
        ws_url: ws.map(|s| s.to_string()),
    }
}

#[test]
fn page_targets_are_chosen_among_pages_with_debugger_urls() {
    let ts = vec![
        target("service_worker", Some("ws://sw")),
        target("page", None),
        target("page", Some("ws://a")),
        target("iframe", Some("ws://f")),
        target("page", Some("ws://b")),
    ];
    assert_eq!(choose_page_target(&ts, 9222, 0).unwrap(), "ws://a");
    assert_eq!(choose_page_target(&ts, 9222, 1).unwrap(), "ws://b");
    let e = choose_page_target(&ts, 9222, 2).unwrap_err();
    assert!(matches!(e, CdpError::TargetOutOfRange(2)));
    assert_eq!(e.message(), "target_index 2 out of range");
    let e = choose_page_target(&vec![target("iframe", Some("ws://f"))], 9225, 0).unwrap_err();
    assert!(matches!(e, CdpError::NoPageTargets(9225)));
    assert_eq!(e.message(), "no page targets on port 9225");
}

#[test]
fn injection_wraps_script_in_try_catch() {
    assert_eq!(
        wrap_injection("go();"),
        "(function(){try{go();\n}catch(e){console.warn('[VibeExtract cdp] inject:',e);}})();"
    );
}

#[test]
fn replies_are_matched_by_id() {
    let f = IncomingFrame::Text { id: Some(3), error: None };
    assert!(matches!(reply_step(3, "Page.enable", &f), ReplyStep::Reply));
    assert!(matches!(reply_step(4, "Page.enable", &f), ReplyStep::Wait));
    let f = IncomingFrame::Text { id: None, error: Some("x".to_string()) };
    assert!(matches!(reply_step(3, "Page.enable", &f), ReplyStep::Wait));
    let f = IncomingFrame::Text { id: Some(3), error: Some("{\"code\":-32000}".to_string()) };
    match reply_step(3, "Runtime.evaluate", &f) {
        ReplyStep::Fail(e) => assert_eq!(e.message(), "CDP Runtime.evaluate returned error: {\"code\":-32000}"),
        _ => panic!("expected a failure"),
    }
    assert!(matches!(reply_step(3, "m", &IncomingFrame::Other), ReplyStep::Wait));
    match reply_step(3, "m", &IncomingFrame::Close) {
        ReplyStep::Fail(e) => assert_eq!(e.message(), "CDP socket closed"),
        _ => panic!("expected a failure"),
    }
}

#[test]
fn evaluation_exceptions_fail() {
    assert!(evaluation_outcome(None).is_ok());
    assert_eq!(evaluation_outcome(Some("boom".to_string())).unwrap_err().message(), "Runtime.evaluate threw: boom");
}

#[test]
fn export_payload_becomes_capture() {
    assert!(matches!(capture_from_export(None), Err(CdpError::NoResult)));
    let p = ExportPayload { error: Some("nothing picked".to_string()), toon: Some("t".to_string()), html: None };
    let e = capture_from_export(Some(p)).unwrap_err();
    assert_eq!(e.message(), "export failed: nothing picked");
    let p = ExportPayload { error: None, toon: Some(String::new()), html: None };
    assert_eq!(capture_from_export(Some(p)).unwrap_err().message(), "export returned empty");
    let p = ExportPayload { error: None, toon: None, html: Some("<p>".to_string()) };
    let c = capture_from_export(Some(p)).unwrap();
    assert_eq!(c.strategy, "cdp");
    assert_eq!(c.fidelity, "Pixel-perfect (runtime CDP)");
    assert_eq!(c.toon, "");
    assert_eq!(c.html, "<p>");
    assert_eq!(c.screenshot_png_b64, None);
    assert!(c.diagnostics.is_empty());
}

#[test]
fn cdp_error_messages() {
    assert_eq!(CdpError::StreamClosed.message(), "CDP stream closed");
    assert_eq!(CdpError::NoResult.message(), "no result");
    assert_eq!(CdpError::ExportEmpty.message(), "export returned empty");
}

#[test]
fn chromium_window_titles() {
    assert!(looks_like_chromium_window("general - Acme - SLACK"));
    assert!(looks_like_chromium_window("main.rs — Visual Studio Code"));
    assert!(looks_like_chromium_window("Google Chrome"));
    assert!(!looks_like_chromium_window("Finder"));
    assert!(!looks_like_chromium_window(""));
}

#[test]
fn reply_texts_are_parsed() {
    assert!(matches!(reply_step_of_text(3, "Page.enable", "{\"id\":3,\"result\":{}}"), Ok(ReplyStep::Reply)));
    assert!(matches!(reply_step_of_text(3, "Page.enable", "{\"id\":4,\"result\":{}}"), Ok(ReplyStep::Wait)));
    assert!(matches!(reply_step_of_text(3, "Page.enable", "{\"method\":\"Page.loadEventFired\"}"), Ok(ReplyStep::Wait)));
    match reply_step_of_text(3, "Runtime.evaluate", "{\"id\":3,\"error\":{\"code\":-32000}}") {
        Ok(ReplyStep::Fail(e)) => assert_eq!(e.message(), "CDP Runtime.evaluate returned error: {\"code\":-32000}"),
        _ => panic!("expected a failure"),
    }
    let e = reply_step_of_text(3, "m", "not json").unwrap_err();
    assert!(matches!(e, CdpError::Unparsable));
    assert_eq!(e.message(), "CDP JSON parse");
}

#[test]
fn evaluation_replies() {
    assert!(evaluation_outcome_of_reply("{\"id\":1,\"result\":{\"result\":{\"value\":1}}}").is_ok());
    let e = evaluation_outcome_of_reply("{\"id\":1,\"result\":{\"exceptionDetails\":{\"text\":\"boom\"}}}").unwrap_err();
    assert_eq!(e.message(), "Runtime.evaluate threw: {\"text\":\"boom\"}");
    assert!(matches!(evaluation_outcome_of_reply("}"), Err(CdpError::Unparsable)));
}

#[test]
fn export_replies() {
    let ok = capture_from_export_reply("{\"id\":9,\"result\":{\"result\":{\"type\":\"object\",\"value\":{\"toon\":\"T\",\"html\":\"<p>\"}}}}").unwrap();
    assert_eq!((ok.strategy.as_str(), ok.toon.as_str(), ok.html.as_str()), ("cdp", "T", "<p>"));
    let e = capture_from_export_reply("{\"id\":9,\"result\":{\"result\":{\"value\":{\"error\":\"EXPORT_SELECTION timed out\"}}}}").unwrap_err();
    assert_eq!(e.message(), "export failed: EXPORT_SELECTION timed out");
    let e = capture_from_export_reply("{\"id\":9,\"result\":{\"result\":{\"value\":{\"toon\":\"\",\"html\":5}}}}").unwrap_err();
    assert_eq!(e.message(), "export returned empty");
    let e = capture_from_export_reply("{\"id\":9,\"result\":{\"result\":{\"type\":\"undefined\"}}}").unwrap_err();
    assert_eq!(e.message(), "no result");
}

#[test]
fn target_list_bodies() {
    assert!(body_has_page("[{\"type\":\"service_worker\"},{\"type\":\"page\",\"url\":\"x\"}]"));
    assert!(!body_has_page("[{\"type\":\"iframe\"},{\"kind\":\"page\"}]"));
    assert!(!body_has_page("{\"type\":\"page\"}"));
    assert!(!body_has_page("<html>"));
}

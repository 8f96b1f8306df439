use vibe_extract_core::electron::RelaunchError;
use vibe_extract_core::relaunch::{
    launch_args, launch_outcome, launching_progress, quitting_progress, CdpWait, GentleQuit, QuitAction, WaitAction,
    CDP_POLL_MS, CDP_READY_TIMEOUT_MS, QUIT_POLL_MS,
};

fn strings(v: &[&str]) -> Vec<String> {
    v.iter().map(|s| s.to_string()).collect()
}

#[test]
fn quit_tries_aliases_in_order_then_polls() {
    let (mut q, a) = GentleQuit::new(strings(&["Slack", "Slack Beta"]), "com.tinyspeck.slackmacgap".to_string());
    assert!(matches!(a, QuitAction::RunScript(ref s) if s.as_str() == "tell application \"Slack\" to quit"));
    let a = q.script_done(Err("execution error".to_string()));
    assert!(matches!(a, QuitAction::RunScript(ref s) if s.as_str() == "tell application \"Slack Beta\" to quit"));
    assert!(matches!(q.script_done(Ok(())), QuitAction::ReadClock));
    assert!(matches!(q.clock(0), QuitAction::CheckAlive));
    assert!(matches!(q.alive(true), QuitAction::Sleep(ms) if ms == QUIT_POLL_MS));
    assert!(matches!(q.clock(4999), QuitAction::CheckAlive));
    assert!(matches!(q.alive(false), QuitAction::Done(Ok(()))));
}

#[test]
fn quit_fails_when_no_alias_works_or_time_runs_out() {
    let (mut q, _) = GentleQuit::new(strings(&["A"]), "b.id".to_string());
    match q.script_done(Err("nope".to_string())) {
        QuitAction::Done(Err(RelaunchError::QuitRefused(m))) => assert_eq!(m, "no AppleScript alias worked (nope)"),
        _ => panic!("expected a refusal"),
    }
    let (_, a) = GentleQuit::new(vec![], "b.id".to_string());
    match a {
        QuitAction::Done(Err(RelaunchError::QuitRefused(m))) => assert_eq!(m, "no AppleScript alias worked ()"),
        _ => panic!("expected a refusal"),
    }
    let (mut q, _) = GentleQuit::new(strings(&["A"]), "b.id".to_string());
    q.script_done(Ok(()));
    match q.clock(5000) {
        QuitAction::Done(Err(RelaunchError::QuitRefused(m))) => {
            assert_eq!(m, "b.id still alive after 5s — likely a modal save dialog is blocking quit")
        },
        _ => panic!("expected a refusal"),
    }
}

#[test]
fn wait_ticks_until_a_page_appears() {
    let mut w = CdpWait::new("Slack".to_string(), 9224, CDP_READY_TIMEOUT_MS);
    let s = w.clock(0);
    let p = s.progress.unwrap();
    assert_eq!((p.phase, p.elapsed_ms, p.port), ("waiting", 0, 9224));
    assert!(matches!(s.action, WaitAction::ProbeTargets));
    let s = w.probe_done(false);
    assert!(s.progress.is_none());
    assert!(matches!(s.action, WaitAction::Sleep(ms) if ms == CDP_POLL_MS));
    let s = w.clock(260);
    assert!(matches!(s.action, WaitAction::ProbeTargets));
    let s = w.probe_done(true);
    let p = s.progress.unwrap();
    assert_eq!((p.phase, p.elapsed_ms, p.port), ("ready", 260, 9224));
    assert!(matches!(s.action, WaitAction::Done(Ok(()))));
}

#[test]
fn wait_times_out() {
    let mut w = CdpWait::new("Slack".to_string(), 9224, 10000);
    let s = w.clock(10000);
    assert_eq!(s.progress.unwrap().phase, "waiting");
    match s.action {
        WaitAction::Done(Err(RelaunchError::CdpTimeout(n, t))) => {
            assert_eq!(n, "Slack");
            assert_eq!(t, 10000);
        },
        _ => panic!("expected a timeout"),
    }
}

#[test]
fn launch_arguments_and_outcome() {
    assert_eq!(
        launch_args("Slack", 9222),
        strings(&["-a", "Slack", "--args", "--remote-debugging-port=9222"])
    );
    assert!(launch_outcome("Slack", Ok(())).is_ok());
    match launch_outcome("Slack", Err("Unable to find application".to_string())) {
        Err(RelaunchError::LaunchFailed(n, m)) => {
            assert_eq!(n, "Slack");
            assert_eq!(m, "Unable to find application");
        },
        _ => panic!("expected a launch failure"),
    }
    let q = quitting_progress();
    assert_eq!((q.phase, q.elapsed_ms, q.port), ("quitting", 0, 0));
    let l = launching_progress(9230);
    assert_eq!((l.phase, l.elapsed_ms, l.port), ("launching", 0, 9230));
}

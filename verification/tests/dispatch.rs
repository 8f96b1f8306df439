use vibe_extract_core::capture::{CaptureResult, ExtractError};
use vibe_extract_core::dispatch::{Dispatch, Next, Step, StepOutcome};
use vibe_extract_core::framework::Framework;
use vibe_extract_core::paths::HostOs;

fn run_step(d: &mut Dispatch, o: StepOutcome) -> Next {
    assert!(d.accepts(&o));
    d.advance(o)
}

#[test]
fn electron_on_mac_tries_cdp_first() {
    let (mut d, step) = Dispatch::start(Framework::Electron, HostOs::MacOs, true);
    assert_eq!(step, Step::ProbeCdpPort);
    assert!(!d.accepts(&StepOutcome::Translated(Ok(()))));
    assert!(matches!(run_step(&mut d, StepOutcome::Port(Some(9223))), Next::Run(Step::TranslateViewport(9223))));
    assert!(matches!(run_step(&mut d, StepOutcome::Translated(Ok(()))), Next::Run(Step::ExtractCdp(9223))));
    let c = CaptureResult::empty("cdp", "Pixel-perfect (runtime CDP)");
    match run_step(&mut d, StepOutcome::CdpExtracted(Ok(c))) {
        Next::Done(Ok(r)) => {
            assert_eq!(r.strategy, "cdp");
            assert_eq!(r.diagnostics, vec!["Auto-dispatched: framework=Electron, strategy=cdp@9223".to_string()]);
        },
        _ => panic!("expected the CDP capture"),
    }
}

#[test]
fn failures_fall_through_to_the_screenshot() {
    let (mut d, _) = Dispatch::start(Framework::Electron, HostOs::MacOs, true);
    run_step(&mut d, StepOutcome::Port(Some(9222)));
    assert!(matches!(run_step(&mut d, StepOutcome::Translated(Err("no page".to_string()))), Next::Run(Step::NativeAx)));
    assert!(matches!(
        run_step(&mut d, StepOutcome::NativeExtracted(Err("re-pick at center failed".to_string()))),
        Next::Run(Step::Screenshot)
    ));
    match run_step(&mut d, StepOutcome::ScreenshotTaken(None)) {
        Next::Done(Ok(r)) => {
            assert_eq!(r.strategy, "screenshot_only");
            assert_eq!(r.fidelity, "Visual only — no structure recovered");
            assert_eq!(
                r.diagnostics,
                vec![
                    "All structural strategies failed.".to_string(),
                    "Last error: native_ax: re-pick at center failed".to_string()
                ]
            );
        },
        _ => panic!("expected the screenshot-only capture"),
    }
}

#[test]
fn screenshot_failure_names_both_errors() {
    let (mut d, step) = Dispatch::start(Framework::Electron, HostOs::Windows, true);
    assert_eq!(step, Step::ProbeCdpPort);
    run_step(&mut d, StepOutcome::Port(Some(9222)));
    run_step(&mut d, StepOutcome::Translated(Ok(())));
    assert!(matches!(run_step(&mut d, StepOutcome::CdpExtracted(Err("export returned empty".to_string()))), Next::Run(Step::Screenshot)));
    match run_step(&mut d, StepOutcome::ScreenshotTaken(Some("zero-sized bounds".to_string()))) {
        Next::Done(Err(e)) => {
            assert!(matches!(&e, ExtractError::AllStrategiesFailed(_)));
            assert_eq!(e.message(), "no extractor succeeded; last error: cdp: export returned empty; screenshot: zero-sized bounds");
        },
        _ => panic!("expected an error"),
    }
}

#[test]
fn non_electron_and_missing_port_skip_cdp() {
    let (_, step) = Dispatch::start(Framework::AppKitNative, HostOs::MacOs, true);
    assert_eq!(step, Step::NativeAx);
    let (_, step) = Dispatch::start(Framework::Unknown, HostOs::Other, false);
    assert_eq!(step, Step::Screenshot);
    let (mut d, _) = Dispatch::start(Framework::Electron, HostOs::MacOs, false);
    assert!(matches!(run_step(&mut d, StepOutcome::Port(Some(9222))), Next::Run(Step::NativeAx)));
    let (mut d, _) = Dispatch::start(Framework::Electron, HostOs::Other, true);
    assert!(matches!(run_step(&mut d, StepOutcome::Port(None)), Next::Run(Step::Screenshot)));
    match run_step(&mut d, StepOutcome::ScreenshotTaken(None)) {
        Next::Done(Ok(r)) => assert_eq!(r.diagnostics[1], "Last error: "),
        _ => panic!("expected the screenshot-only capture"),
    }
}

#[test]
fn native_capture_is_returned_as_is() {
    let (mut d, _) = Dispatch::start(Framework::AppKitNative, HostOs::MacOs, true);
    let mut c = CaptureResult::empty("native_ax", "f");
    c.diagnostics.push("Captured 1 AX nodes".to_string());
    match run_step(&mut d, StepOutcome::NativeExtracted(Ok(c))) {
        Next::Done(Ok(r)) => assert_eq!(r.diagnostics, vec!["Captured 1 AX nodes".to_string()]),
        _ => panic!("expected the native capture"),
    }
}

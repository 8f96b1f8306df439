//! The strategy ladder of an extraction, as a state machine: it says which
//! strategy to run next, and, from what the run gave, whether to stop with a
//! capture, fall through to the next strategy, or stop with an error.
//!
//! The order is CDP (Electron apps with a debug port; first the element's
//! position is translated into the page's viewport, then the export runs),
//! the native accessibility capture (macOS), and last a screenshot alone.
use vstd::prelude::*;
use crate::capture::{screenshot_fallback, CaptureResult, CaptureView, ExtractError};
use crate::framework::{framework_name, Framework};
use crate::paths::HostOs;
use crate::text::{decimal, push_decimal, push_str, string_views};

verus! {

/// A strategy step the caller runs.
#[derive(Debug, Clone, Copy, PartialEq, Eq, Structural)]
pub enum Step {
    /// Look for a CDP debug port.
    ProbeCdpPort,
    /// Translate the element's window-local centre into the viewport of the
    /// page on this port.
    TranslateViewport(u16),
    /// Run the CDP export at that viewport position on this port.
    ExtractCdp(u16),
    /// Run the native accessibility capture.
    NativeAx,
    /// Capture a screenshot of the element.
    Screenshot,
}

/// What running a step gave.
pub enum StepOutcome {
    /// The debug port found, if any.
    Port(Option<u16>),
    /// The translation succeeded, or failed with this message.
    Translated(Result<(), String>),
    /// The CDP export's capture, or its failure message.
    CdpExtracted(Result<CaptureResult, String>),
    /// The native capture, or its failure message.
    NativeExtracted(Result<CaptureResult, String>),
    /// The screenshot was taken, or failed with this message.
    ScreenshotTaken(Option<String>),
}

/// What the caller does next.
pub enum Next {
    /// Run this step and hand its outcome back.
    Run(Step),
    /// The extraction is over.
    Done(Result<CaptureResult, ExtractError>),
}

/// An extraction in progress: the framework of the application, the host
/// platform, whether the element's window bounds are known, the last
/// failure so far, and the step whose outcome is awaited.
pub struct Dispatch {
    framework: Framework,
    os: HostOs,
    has_window_bounds: bool,
    last_error: String,
    awaiting: Step,
}

/// Whether an outcome answers a step.
pub open spec fn answers(step: Step, o: StepOutcome) -> bool {
    match step {
        Step::ProbeCdpPort => o is Port,
        Step::TranslateViewport(_) => o is Translated,
        Step::ExtractCdp(_) => o is CdpExtracted,
        Step::NativeAx => o is NativeExtracted,
        Step::Screenshot => o is ScreenshotTaken,
    }
}

/// The step after the CDP strategy: the native capture on macOS, else the
/// screenshot.
pub open spec fn after_cdp(os: HostOs) -> Step {
    if os == HostOs::MacOs { Step::NativeAx } else { Step::Screenshot }
}

/// The first step: CDP for Electron applications, else what follows it.
pub open spec fn first_step(framework: Framework, os: HostOs) -> Step {
    if framework == Framework::Electron { Step::ProbeCdpPort } else { after_cdp(os) }
}

/// The first step depends on the framework only through whether it is
/// Electron: Electron applications start by probing for a CDP port; every
/// other framework, a framework not recognised included, starts with the
/// native accessibility capture on macOS and with the screenshot elsewhere.
pub proof fn law_first_step_by_platform(f: Framework, g: Framework, os: HostOs)
    ensures
        f == Framework::Electron ==> first_step(f, os) == Step::ProbeCdpPort,
        f != Framework::Electron && os == HostOs::MacOs ==> first_step(f, os) == Step::NativeAx,
        f != Framework::Electron && os != HostOs::MacOs ==> first_step(f, os) == Step::Screenshot,
        f != Framework::Electron && g != Framework::Electron ==> first_step(f, os) == first_step(g, os),
{
}

/// How far a step is from the end of the ladder: every step leads only to
/// steps further down, so an extraction runs at most five steps.
pub open spec fn ladder_rank(step: Step) -> nat {
    match step {
        Step::ProbeCdpPort => 4,
        Step::TranslateViewport(_) => 3,
        Step::ExtractCdp(_) => 2,
        Step::NativeAx => 1,
        Step::Screenshot => 0,
    }
}

/// The diagnostic a CDP capture gets.
pub open spec fn cdp_note(framework: Framework, port: u16) -> Seq<char> {
    "Auto-dispatched: framework="@ + framework_name(framework) + ", strategy=cdp@"@ + decimal(port as nat)
}

impl Dispatch {
    pub closed spec fn framework(&self) -> Framework { self.framework }
    pub closed spec fn os(&self) -> HostOs { self.os }
    pub closed spec fn has_window_bounds(&self) -> bool { self.has_window_bounds }
    pub closed spec fn last_error(&self) -> Seq<char> { self.last_error@ }
    pub closed spec fn awaiting(&self) -> Step { self.awaiting }

    /// Starts an extraction and names its first step; nothing has failed yet.
    pub fn start(framework: Framework, os: HostOs, has_window_bounds: bool) -> (r: (Dispatch, Step))
        ensures
            r.1 == first_step(framework, os),
            r.0.awaiting() == r.1,
            r.0.framework() == framework,
            r.0.os() == os,
            r.0.has_window_bounds() == has_window_bounds,
            r.0.last_error().len() == 0,
    {
        let step = if framework == Framework::Electron {
            Step::ProbeCdpPort
        } else if os == HostOs::MacOs {
            Step::NativeAx
        } else {
            Step::Screenshot
        };
        (Dispatch { framework, os, has_window_bounds, last_error: String::new(), awaiting: step }, step)
    }

    /// Whether `o` is the outcome of the step awaited.
    pub fn accepts(&self, o: &StepOutcome) -> (r: bool)
        ensures
            r == answers(self.awaiting(), *o),
    {
        match self.awaiting {
            Step::ProbeCdpPort => matches!(o, StepOutcome::Port(_)),
            Step::TranslateViewport(_) => matches!(o, StepOutcome::Translated(_)),
            Step::ExtractCdp(_) => matches!(o, StepOutcome::CdpExtracted(_)),
            Step::NativeAx => matches!(o, StepOutcome::NativeExtracted(_)),
            Step::Screenshot => matches!(o, StepOutcome::ScreenshotTaken(_)),
        }
    }

    fn fail_over(&mut self, prefix: &str, e: &str, next: Step) -> (r: Next)
        ensures
            final(self).last_error() == prefix@ + e@,
            final(self).awaiting() == next,
            final(self).framework() == old(self).framework(),
            final(self).os() == old(self).os(),
            final(self).has_window_bounds() == old(self).has_window_bounds(),
            r == Next::Run(next),
    {
        let mut m = String::new();
        push_str(&mut m, prefix);
        push_str(&mut m, e);
        self.last_error = m;
        self.awaiting = next;
        Next::Run(next)
    }

    fn move_to(&mut self, next: Step) -> (r: Next)
        ensures
            final(self).last_error() == old(self).last_error(),
            final(self).awaiting() == next,
            final(self).framework() == old(self).framework(),
            final(self).os() == old(self).os(),
            final(self).has_window_bounds() == old(self).has_window_bounds(),
            r == Next::Run(next),
    {
        self.awaiting = next;
        Next::Run(next)
    }

    fn after_cdp_step(&self) -> (r: Step)
        ensures
            r == after_cdp(self.os()),
    {
        if self.os == HostOs::MacOs { Step::NativeAx } else { Step::Screenshot }
    }

    /// Takes the outcome of the awaited step and says what comes next.
    ///
    /// A port found leads to the translation when the window bounds are
    /// known; a translation to the export on the same port; a CDP capture
    /// ends the extraction, noted with the framework and port; a native
    /// capture ends it as it is. A missing port, or a failure of a CDP step,
    /// falls through to the step after CDP; a failed native capture to the
    /// screenshot. Each failure is kept, with the name of its step, as the
    /// last error, which the screenshot-only result reports, or the final
    /// error names when the screenshot fails too.
    pub fn advance(&mut self, o: StepOutcome) -> (r: Next)
        requires
            answers(old(self).awaiting(), o),
        ensures
            final(self).framework() == old(self).framework(),
            final(self).os() == old(self).os(),
            final(self).has_window_bounds() == old(self).has_window_bounds(),
            r matches Next::Run(s) ==> ladder_rank(s) < ladder_rank(old(self).awaiting()),
            match (old(self).awaiting(), o) {
                (Step::ProbeCdpPort, StepOutcome::Port(Some(p))) => if old(self).has_window_bounds() {
                    r == Next::Run(Step::TranslateViewport(p)) && final(self).awaiting() == Step::TranslateViewport(p)
                        && final(self).last_error() == old(self).last_error()
                } else {
                    r == Next::Run(after_cdp(old(self).os())) && final(self).awaiting() == after_cdp(old(self).os())
                        && final(self).last_error() == old(self).last_error()
                },
                (Step::ProbeCdpPort, StepOutcome::Port(None)) => r == Next::Run(after_cdp(old(self).os()))
                    && final(self).awaiting() == after_cdp(old(self).os()) && final(self).last_error() == old(self).last_error(),
                (Step::TranslateViewport(p), StepOutcome::Translated(Ok(_))) => r == Next::Run(Step::ExtractCdp(p))
                    && final(self).awaiting() == Step::ExtractCdp(p) && final(self).last_error() == old(self).last_error(),
                (Step::TranslateViewport(_), StepOutcome::Translated(Err(e))) => r == Next::Run(after_cdp(old(self).os()))
                    && final(self).awaiting() == after_cdp(old(self).os()) && final(self).last_error() == "cdp metrics: "@ + e@,
                (Step::ExtractCdp(p), StepOutcome::CdpExtracted(Ok(c))) => r matches Next::Done(Ok(d)) && ({
                    let cv = c.view_capture();
                    d.view_capture() == (CaptureView {
                        diagnostics: cv.diagnostics.push(cdp_note(old(self).framework(), p)),
                        ..cv
                    })
                }),
                (Step::ExtractCdp(_), StepOutcome::CdpExtracted(Err(e))) => r == Next::Run(after_cdp(old(self).os()))
                    && final(self).awaiting() == after_cdp(old(self).os()) && final(self).last_error() == "cdp: "@ + e@,
                (Step::NativeAx, StepOutcome::NativeExtracted(Ok(c))) => r == Next::Done(Ok(c)),
                (Step::NativeAx, StepOutcome::NativeExtracted(Err(e))) => r == Next::Run(Step::Screenshot)
                    && final(self).awaiting() == Step::Screenshot && final(self).last_error() == "native_ax: "@ + e@,
                (Step::Screenshot, StepOutcome::ScreenshotTaken(err)) => match err {
                    Some(e) => r matches Next::Done(Err(ExtractError::AllStrategiesFailed(m)))
                        && m@ == old(self).last_error() + "; screenshot: "@ + e@,
                    None => r matches Next::Done(Ok(c)) && c.view_capture() == (CaptureView {
                        strategy: "screenshot_only"@,
                        fidelity: "Visual only — no structure recovered"@,
                        toon: Seq::empty(),
                        html: Seq::empty(),
                        screenshot: None,
                        diagnostics: seq!["All structural strategies failed."@, "Last error: "@ + old(self).last_error()],
                    }),
                },
                _ => false,
            },
    {
        match o {
            StepOutcome::Port(Some(p)) => {
                if self.has_window_bounds {
                    self.move_to(Step::TranslateViewport(p))
                } else {
                    let n = self.after_cdp_step();
                    self.move_to(n)
                }
            },
            StepOutcome::Port(None) => {
                let n = self.after_cdp_step();
                self.move_to(n)
            },
            StepOutcome::Translated(Ok(_)) => {
                let p = match self.awaiting { Step::TranslateViewport(p) => p, _ => 0 };
                self.move_to(Step::ExtractCdp(p))
            },
            StepOutcome::Translated(Err(e)) => {
                let n = self.after_cdp_step();
                self.fail_over("cdp metrics: ", e.as_str(), n)
            },
            StepOutcome::CdpExtracted(Ok(c)) => {
                let p = match self.awaiting { Step::ExtractCdp(p) => p, _ => 0 };
                let mut c = c;
                let mut note = String::new();
                push_str(&mut note, "Auto-dispatched: framework=");
                push_str(&mut note, self.framework.name());
                push_str(&mut note, ", strategy=cdp@");
                push_decimal(&mut note, p as u64);
                let ghost before = c.view_capture();
                c.diagnostics.push(note);
                proof {
                    assert(string_views(c.diagnostics@) =~= before.diagnostics.push(cdp_note(self.framework, p)));
                }
                Next::Done(Ok(c))
            },
            StepOutcome::CdpExtracted(Err(e)) => {
                let n = self.after_cdp_step();
                self.fail_over("cdp: ", e.as_str(), n)
            },
            StepOutcome::NativeExtracted(Ok(c)) => Next::Done(Ok(c)),
            StepOutcome::NativeExtracted(Err(e)) => self.fail_over("native_ax: ", e.as_str(), Step::Screenshot),
            StepOutcome::ScreenshotTaken(err) => {
                let r = match &err {
                    Some(e) => screenshot_fallback(self.last_error.as_str(), Some(e.as_str())),
                    None => screenshot_fallback(self.last_error.as_str(), None),
                };
                Next::Done(r)
            },
        }
    }
}

} // verus!

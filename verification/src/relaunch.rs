//! The decisions of relaunching an Electron application with a DevTools
//! port, as state machines the caller drives: asking the application to quit
//! (AppleScript, alias by alias, then polling until its process is gone),
//! launching it with the port, and waiting for a page target to appear.
use vstd::prelude::*;
use crate::electron::{debug_port_arg, no_alias_worked, quit_script, still_alive, RelaunchError, RelaunchProgress};
use crate::text::{push_str, string_views, to_owned_string};

verus! {

/// How long the application gets to quit, in milliseconds.
pub const QUIT_BUDGET_MS: u64 = 5000;
/// The pause between two checks for the quitting process, in milliseconds.
pub const QUIT_POLL_MS: u64 = 200;
/// The pause between two looks at the DevTools target list, in milliseconds.
pub const CDP_POLL_MS: u64 = 250;
/// How long a relaunched application gets to open its DevTools port.
pub const CDP_READY_TIMEOUT_MS: u64 = 10000;

// ---------------------------------------------------------------------------
// Quitting

/// What the caller does next while an application is asked to quit.
pub enum QuitAction {
    /// Run this AppleScript with `osascript -e` and report whether it
    /// succeeded (else its error output).
    RunScript(String),
    /// Report the milliseconds elapsed since the first such request.
    ReadClock,
    /// Report whether a process of the bundle is still alive.
    CheckAlive,
    /// Sleep this many milliseconds, then report the clock again.
    Sleep(u64),
    /// The quit is over.
    Done(Result<(), RelaunchError>),
}

/// Where a quit stands.
#[derive(Debug, Clone, Copy, PartialEq, Eq, Structural)]
pub enum QuitPhase {
    /// Waiting for the outcome of the script for the alias at this index.
    Script(usize),
    /// Waiting for the clock.
    Clock,
    /// Waiting for the liveness check.
    Alive,
    /// Over.
    Over,
}

/// A gentle quit in progress.
pub struct GentleQuit {
    aliases: Vec<String>,
    bundle_id: String,
    last_err: String,
    phase: QuitPhase,
}

impl GentleQuit {
    pub closed spec fn aliases(&self) -> Seq<Seq<char>> { string_views(self.aliases@) }
    pub closed spec fn bundle_id(&self) -> Seq<char> { self.bundle_id@ }
    pub closed spec fn last_err(&self) -> Seq<char> { self.last_err@ }
    pub closed spec fn phase(&self) -> QuitPhase { self.phase }

    /// Starts a quit: the script for the first alias; with no alias at all
    /// the quit has failed already.
    pub fn new(aliases: Vec<String>, bundle_id: String) -> (r: (GentleQuit, QuitAction))
        ensures
            r.0.aliases() == string_views(aliases@),
            r.0.bundle_id() == bundle_id@,
            r.0.last_err().len() == 0,
            aliases@.len() == 0 ==> r.0.phase() == QuitPhase::Over && (r.1 matches QuitAction::Done(Err(RelaunchError::QuitRefused(m)))
                && m@ == "no AppleScript alias worked ("@ + ")"@),
            aliases@.len() > 0 ==> r.0.phase() == QuitPhase::Script(0) && (r.1 matches QuitAction::RunScript(s)
                && s@ == "tell application \""@ + aliases@[0]@ + "\" to quit"@),
    {
        if aliases.len() == 0 {
            let e = no_alias_worked("");
            proof { reveal_strlit(""); assert("no AppleScript alias worked ("@ + ""@ + ")"@ =~= "no AppleScript alias worked ("@ + ")"@); }
            (GentleQuit { aliases, bundle_id, last_err: String::new(), phase: QuitPhase::Over }, QuitAction::Done(Err(e)))
        } else {
            let s = quit_script(aliases[0].as_str());
            (GentleQuit { aliases, bundle_id, last_err: String::new(), phase: QuitPhase::Script(0) }, QuitAction::RunScript(s))
        }
    }

    /// Takes the outcome of the script for the current alias: success moves
    /// on to polling the process; a failure is kept as the last error and
    /// the next alias is tried, or, after the last one, the quit fails
    /// naming that error.
    pub fn script_done(&mut self, outcome: Result<(), String>) -> (r: QuitAction)
        requires
            old(self).phase() is Script,
            old(self).phase()->0 < old(self).aliases().len(),
        ensures
            final(self).aliases() == old(self).aliases(),
            final(self).bundle_id() == old(self).bundle_id(),
            ({
                let i = old(self).phase()->0;
                match outcome {
                    Ok(_) => final(self).phase() == QuitPhase::Clock && r is ReadClock
                        && final(self).last_err() == old(self).last_err(),
                    Err(e) => final(self).last_err() == e@ && if i + 1 < old(self).aliases().len() {
                        final(self).phase() == QuitPhase::Script((i + 1) as usize) && (r matches QuitAction::RunScript(s)
                            && s@ == "tell application \""@ + old(self).aliases()[i + 1] + "\" to quit"@)
                    } else {
                        final(self).phase() == QuitPhase::Over && (r matches QuitAction::Done(Err(RelaunchError::QuitRefused(m)))
                            && m@ == "no AppleScript alias worked ("@ + e@ + ")"@)
                    },
                }
            }),
    {
        let i = match self.phase { QuitPhase::Script(i) => i, _ => 0 };
        let n = self.aliases.len();
        proof { assert(i < n); }
        match outcome {
            Ok(()) => {
                self.phase = QuitPhase::Clock;
                QuitAction::ReadClock
            },
            Err(e) => {
                self.last_err = e;
                if i + 1 < n {
                    self.phase = QuitPhase::Script(i + 1);
                    let s = quit_script(self.aliases[i + 1].as_str());
                    QuitAction::RunScript(s)
                } else {
                    self.phase = QuitPhase::Over;
                    QuitAction::Done(Err(no_alias_worked(self.last_err.as_str())))
                }
            },
        }
    }

    /// Takes the elapsed polling time: within the budget the process is
    /// checked; past it the quit fails because the process is still alive.
    pub fn clock(&mut self, elapsed_ms: u64) -> (r: QuitAction)
        requires
            old(self).phase() == QuitPhase::Clock,
        ensures
            final(self).aliases() == old(self).aliases(),
            final(self).bundle_id() == old(self).bundle_id(),
            final(self).last_err() == old(self).last_err(),
            elapsed_ms < QUIT_BUDGET_MS ==> final(self).phase() == QuitPhase::Alive && r is CheckAlive,
            elapsed_ms >= QUIT_BUDGET_MS ==> final(self).phase() == QuitPhase::Over
                && (r matches QuitAction::Done(Err(RelaunchError::QuitRefused(m)))
                && m@ == old(self).bundle_id() + " still alive after 5s — likely a modal save dialog is blocking quit"@),
    {
        if elapsed_ms < QUIT_BUDGET_MS {
            self.phase = QuitPhase::Alive;
            QuitAction::CheckAlive
        } else {
            self.phase = QuitPhase::Over;
            QuitAction::Done(Err(still_alive(self.bundle_id.as_str())))
        }
    }

    /// Takes the liveness check: a process gone ends the quit well; one
    /// still alive means a pause and another look at the clock.
    pub fn alive(&mut self, alive: bool) -> (r: QuitAction)
        requires
            old(self).phase() == QuitPhase::Alive,
        ensures
            final(self).aliases() == old(self).aliases(),
            final(self).bundle_id() == old(self).bundle_id(),
            final(self).last_err() == old(self).last_err(),
            !alive ==> final(self).phase() == QuitPhase::Over && (r matches QuitAction::Done(Ok(_))),
            alive ==> final(self).phase() == QuitPhase::Clock && (r matches QuitAction::Sleep(ms) && ms == QUIT_POLL_MS),
    {
        if !alive {
            self.phase = QuitPhase::Over;
            QuitAction::Done(Ok(()))
        } else {
            self.phase = QuitPhase::Clock;
            QuitAction::Sleep(QUIT_POLL_MS)
        }
    }
}

// ---------------------------------------------------------------------------
// Launching

/// The arguments of `open` that launch an application with a DevTools port.
pub fn launch_args(display_name: &str, port: u16) -> (r: Vec<String>)
    ensures
        string_views(r@) == seq!["-a"@, display_name@, "--args"@, "--remote-debugging-port="@ + crate::text::decimal(port as nat)],
{
    let mut v: Vec<String> = Vec::new();
    v.push(to_owned_string("-a"));
    v.push(to_owned_string(display_name));
    v.push(to_owned_string("--args"));
    v.push(debug_port_arg(port));
    proof {
        assert(string_views(v@) =~= seq!["-a"@, display_name@, "--args"@, "--remote-debugging-port="@ + crate::text::decimal(port as nat)]);
    }
    v
}

/// The outcome of the launch: a failure of `open` (its message, or its error
/// output) is a launch failure naming the application.
pub fn launch_outcome(display_name: &str, outcome: Result<(), String>) -> (r: Result<(), RelaunchError>)
    ensures
        match outcome {
            Ok(_) => r is Ok,
            Err(e) => r matches Err(RelaunchError::LaunchFailed(n, m)) && n@ == display_name@ && m@ == e@,
        },
{
    match outcome {
        Ok(()) => Ok(()),
        Err(e) => Err(RelaunchError::LaunchFailed(to_owned_string(display_name), e)),
    }
}

// ---------------------------------------------------------------------------
// Waiting for DevTools

/// What the caller does next while waiting for DevTools.
pub enum WaitAction {
    /// Fetch the target list and report whether it holds a page.
    ProbeTargets,
    /// Sleep this many milliseconds, then report the clock again.
    Sleep(u64),
    /// The wait is over.
    Done(Result<(), RelaunchError>),
}

/// One step of the wait: a progress tick to emit, if any, and what next.
pub struct WaitStep {
    pub progress: Option<RelaunchProgress>,
    pub action: WaitAction,
}

/// A wait for DevTools in progress.
pub struct CdpWait {
    display_name: String,
    port: u16,
    timeout_ms: u64,
    last_elapsed: u64,
    probing: bool,
}

impl CdpWait {
    pub closed spec fn display_name(&self) -> Seq<char> { self.display_name@ }
    pub closed spec fn port(&self) -> u16 { self.port }
    pub closed spec fn timeout_ms(&self) -> u64 { self.timeout_ms }
    pub closed spec fn last_elapsed(&self) -> u64 { self.last_elapsed }
    pub closed spec fn probing(&self) -> bool { self.probing }

    /// Starts waiting for the application's DevTools on `port`; the caller
    /// reports the clock first.
    pub fn new(display_name: String, port: u16, timeout_ms: u64) -> (r: CdpWait)
        ensures
            r.display_name() == display_name@,
            r.port() == port,
            r.timeout_ms() == timeout_ms,
            !r.probing(),
    {
        CdpWait { display_name, port, timeout_ms, last_elapsed: 0, probing: false }
    }

    /// Takes the elapsed time: a `waiting` tick is emitted; past the timeout
    /// the wait fails, else the target list is fetched.
    pub fn clock(&mut self, elapsed_ms: u64) -> (r: WaitStep)
        requires
            !old(self).probing(),
        ensures
            final(self).display_name() == old(self).display_name(),
            final(self).port() == old(self).port(),
            final(self).timeout_ms() == old(self).timeout_ms(),
            final(self).last_elapsed() == elapsed_ms,
            r.progress matches Some(p) && p.phase@ == "waiting"@ && p.elapsed_ms == elapsed_ms && p.port == old(self).port(),
            elapsed_ms >= old(self).timeout_ms() ==> (r.action matches WaitAction::Done(Err(RelaunchError::CdpTimeout(n, t)))
                && n@ == old(self).display_name() && t == old(self).timeout_ms()) && !final(self).probing(),
            elapsed_ms < old(self).timeout_ms() ==> r.action is ProbeTargets && final(self).probing(),
    {
        self.last_elapsed = elapsed_ms;
        let progress = Some(RelaunchProgress { phase: "waiting", elapsed_ms, port: self.port });
        proof { reveal_strlit("waiting"); }
        if elapsed_ms >= self.timeout_ms {
            let mut n = String::new();
            push_str(&mut n, self.display_name.as_str());
            WaitStep { progress, action: WaitAction::Done(Err(RelaunchError::CdpTimeout(n, self.timeout_ms))) }
        } else {
            self.probing = true;
            WaitStep { progress, action: WaitAction::ProbeTargets }
        }
    }

    /// Takes whether the target list holds a page: one there ends the wait
    /// with a `ready` tick at the last elapsed time; else a pause.
    pub fn probe_done(&mut self, has_page: bool) -> (r: WaitStep)
        requires
            old(self).probing(),
        ensures
            final(self).display_name() == old(self).display_name(),
            final(self).port() == old(self).port(),
            final(self).timeout_ms() == old(self).timeout_ms(),
            final(self).last_elapsed() == old(self).last_elapsed(),
            !final(self).probing(),
            has_page ==> (r.progress matches Some(p) && p.phase@ == "ready"@ && p.elapsed_ms == old(self).last_elapsed()
                && p.port == old(self).port()) && (r.action matches WaitAction::Done(Ok(_))),
            !has_page ==> r.progress is None && (r.action matches WaitAction::Sleep(ms) && ms == CDP_POLL_MS),
    {
        self.probing = false;
        if has_page {
            proof { reveal_strlit("ready"); }
            WaitStep {
                progress: Some(RelaunchProgress { phase: "ready", elapsed_ms: self.last_elapsed, port: self.port }),
                action: WaitAction::Done(Ok(())),
            }
        } else {
            WaitStep { progress: None, action: WaitAction::Sleep(CDP_POLL_MS) }
        }
    }
}

/// The tick that opens a relaunch: quitting, nothing elapsed, no port yet.
pub fn quitting_progress() -> (r: RelaunchProgress)
    ensures
        r.phase@ == "quitting"@,
        r.elapsed_ms == 0,
        r.port == 0,
{
    RelaunchProgress { phase: "quitting", elapsed_ms: 0, port: 0 }
}

/// The tick before the launch on the chosen port.
pub fn launching_progress(port: u16) -> (r: RelaunchProgress)
    ensures
        r.phase@ == "launching"@,
        r.elapsed_ms == 0,
        r.port == port,
{
    RelaunchProgress { phase: "launching", elapsed_ms: 0, port }
}

} // verus!

//! A pick session: the elements the user has selected, the one-application
//! rule for multi-selection, and which processes have had their
//! accessibility tree woken.
use vstd::prelude::*;
use std::collections::HashSet;
use crate::text::{decimal, has_substring, push_decimal, push_str, str_contains};

verus! {

broadcast use vstd::std_specs::hash::group_hash_axioms;

/// Why a click does not change the selection.
#[derive(Debug, Clone, Copy, PartialEq, Eq, Structural)]
pub enum ClickError {
    /// Pick mode is off.
    NotActive,
    /// A shift-click on a process other than the one the selection is locked to.
    CrossApp(i32),
}

impl ClickError {
    /// The message shown to the user.
    pub fn message(&self) -> (r: String)
        ensures
            match *self {
                ClickError::NotActive => r@ == "pick mode not active"@,
                ClickError::CrossApp(p) => r@ == "Cross-app selection not allowed (locked to pid "@
                    + signed_decimal(p as int) + "). Press Escape to start over."@,
            },
    {
        let mut s = String::new();
        match *self {
            ClickError::NotActive => push_str(&mut s, "pick mode not active"),
            ClickError::CrossApp(p) => {
                push_str(&mut s, "Cross-app selection not allowed (locked to pid ");
                push_signed(&mut s, p);
                push_str(&mut s, "). Press Escape to start over.");
            },
        }
        s
    }
}

/// Decimal rendering of an integer, with a leading `-` when negative.
pub open spec fn signed_decimal(n: int) -> Seq<char> {
    if n < 0 { seq!['-'] + decimal((-n) as nat) } else { decimal(n as nat) }
}

/// Appends the decimal rendering of `n`, as `{}` formats an `i32`.
pub fn push_signed(s: &mut String, n: i32)
    ensures
        final(s)@ == old(s)@ + signed_decimal(n as int),
{
    if n < 0 {
        crate::text::push_char(s, '-');
        let m: u64 = (0i64 - n as i64) as u64;
        push_decimal(s, m);
        proof { assert(old(s)@.push('-') + decimal(m as nat) == old(s)@ + (seq!['-'] + decimal(m as nat))); }
    } else {
        push_decimal(s, n as u64);
    }
}

/// Whether a process still has to be woken: a real (positive) pid not woken yet.
pub open spec fn wake_needed(woken: Set<i32>, pid: i32) -> bool {
    pid > 0 && !woken.contains(pid)
}

/// The woken processes after asking about `pid`: it is recorded when it
/// needed waking.
pub open spec fn woken_after(woken: Set<i32>, pid: i32) -> Set<i32> {
    if wake_needed(woken, pid) { woken.insert(pid) } else { woken }
}

/// A process is woken at most once per session: once asked about, it never
/// needs waking again, whatever is asked about in between.
pub proof fn law_wake_at_most_once(woken: Set<i32>, pid: i32, others: Seq<i32>)
    ensures
        !wake_needed(woken_after_all(woken_after(woken, pid), others), pid),
    decreases others.len(),
{
    if others.len() > 0 {
        law_wake_at_most_once(woken, pid, others.drop_last());
    }
}

/// The woken processes after asking about each pid of `pids` in turn.
pub open spec fn woken_after_all(woken: Set<i32>, pids: Seq<i32>) -> Set<i32>
    decreases pids.len(),
{
    if pids.len() == 0 { woken } else { woken_after(woken_after_all(woken, pids.drop_last()), pids.last()) }
}

/// The elements picked during one pick session. `E` is the element record the
/// caller keeps; the session reads only the process id given with each element.
pub struct PickSession<E> {
    active: bool,
    selected: Vec<E>,
    pids: Vec<i32>,
    locked_pid: Option<i32>,
    woken_pids: HashSet<i32>,
    target_pid: Option<i32>,
    last_hover: Option<E>,
}

impl<E> PickSession<E> {
    /// The selection is consistent: one pid per selected element, and every
    /// selected element belongs to the locked process; with no lock, nothing
    /// is selected.
    pub closed spec fn wf(self) -> bool {
        &&& self.pids@.len() == self.selected@.len()
        &&& match self.locked_pid {
            Some(l) => forall|i: int| 0 <= i < self.pids@.len() ==> #[trigger] self.pids@[i] == l,
            None => self.pids@.len() == 0,
        }
    }

    /// Whether pick mode is on.
    pub closed spec fn is_active(&self) -> bool {
        self.active
    }

    /// The selected elements, in selection order.
    pub closed spec fn selection(&self) -> Seq<E> {
        self.selected@
    }

    /// The process id of each selected element.
    pub closed spec fn selection_pids(&self) -> Seq<i32> {
        self.pids@
    }

    /// The process the selection is locked to, if any.
    pub closed spec fn locked(&self) -> Option<i32> {
        self.locked_pid
    }

    /// Process ids whose accessibility tree has been woken this session.
    pub closed spec fn woken(&self) -> Set<i32> {
        self.woken_pids@
    }

    /// The application pick mode was started for.
    pub closed spec fn target(&self) -> Option<i32> {
        self.target_pid
    }

    /// The element most recently outlined under the cursor.
    pub closed spec fn hover(&self) -> Option<E> {
        self.last_hover
    }

    /// The one-process rule: there is one pid per selected element, and
    /// when anything is selected the selection is locked to a process that
    /// every selected element belongs to.
    pub open spec fn one_process(&self) -> bool {
        &&& self.selection_pids().len() == self.selection().len()
        &&& match self.locked() {
            Some(l) => forall|i: int| 0 <= i < self.selection_pids().len() ==> #[trigger] self.selection_pids()[i] == l,
            None => self.selection().len() == 0,
        }
    }

    /// A session with pick mode off and nothing selected.
    pub fn new() -> (r: Self)
        ensures
            r.wf(),
            r.one_process(),
            !r.is_active(),
            r.selection().len() == 0,
            r.locked() is None,
            r.woken() == Set::<i32>::empty(),
            r.target() is None,
            r.hover() is None,
    {
        PickSession {
            active: false,
            selected: Vec::new(),
            pids: Vec::new(),
            locked_pid: None,
            woken_pids: HashSet::new(),
            target_pid: None,
            last_hover: None,
        }
    }

    /// Turns pick mode on for `target`: empties the selection, drops the lock
    /// and forgets which processes were woken. The last hovered element stays.
    pub fn start(&mut self, target: Option<i32>)
        requires
            old(self).wf(),
        ensures
            final(self).wf(),
            final(self).one_process(),
            final(self).is_active(),
            final(self).selection().len() == 0,
            final(self).locked() is None,
            final(self).woken() == Set::<i32>::empty(),
            final(self).target() == target,
            final(self).hover() == old(self).hover(),
    {
        self.active = true;
        self.selected.clear();
        self.pids.clear();
        self.locked_pid = None;
        self.woken_pids.clear();
        self.target_pid = target;
    }

    /// Turns pick mode off and empties the selection.
    pub fn stop(&mut self)
        requires
            old(self).wf(),
        ensures
            final(self).wf(),
            final(self).one_process(),
            !final(self).is_active(),
            final(self).selection().len() == 0,
            final(self).locked() is None,
            final(self).woken() == old(self).woken(),
            final(self).target() == old(self).target(),
            final(self).hover() == old(self).hover(),
    {
        self.active = false;
        self.selected.clear();
        self.pids.clear();
        self.locked_pid = None;
    }

    /// Records a click on `element` of process `pid`. A plain click makes it
    /// the only selected element and locks the selection to its process; a
    /// shift-click adds it, provided it belongs to the locked process (or
    /// nothing is locked yet). Returns the number of selected elements.
    pub fn click(&mut self, element: E, pid: i32, shift: bool) -> (r: Result<usize, ClickError>)
        requires
            old(self).wf(),
        ensures
            final(self).wf(),
            final(self).one_process(),
            match r {
                Ok(n) => {
                    &&& old(self).is_active()
                    &&& n == final(self).selection().len()
                    &&& final(self).is_active()
                    &&& final(self).locked() == Some(pid)
                    &&& if shift {
                        &&& old(self).locked() matches Some(l) ==> l == pid
                        &&& final(self).selection() == old(self).selection().push(element)
                        &&& final(self).selection_pids() == old(self).selection_pids().push(pid)
                    } else {
                        &&& final(self).selection() == seq![element]
                        &&& final(self).selection_pids() == seq![pid]
                    }
                },
                Err(e) => {
                    &&& final(self).selection() == old(self).selection()
                    &&& final(self).selection_pids() == old(self).selection_pids()
                    &&& final(self).locked() == old(self).locked()
                    &&& final(self).is_active() == old(self).is_active()
                    &&& e == if !old(self).is_active() {
                        ClickError::NotActive
                    } else {
                        ClickError::CrossApp(old(self).locked()->0)
                    }
                    &&& old(self).is_active() ==> (shift && old(self).locked() is Some && old(self).locked()->0 != pid)
                },
            },
            final(self).woken() == old(self).woken(),
            final(self).target() == old(self).target(),
            final(self).hover() == old(self).hover(),
    {
        if !self.active {
            return Err(ClickError::NotActive);
        }
        if shift {
            match self.locked_pid {
                Some(l) => {
                    if pid != l {
                        return Err(ClickError::CrossApp(l));
                    }
                },
                None => {},
            }
            self.selected.push(element);
            self.pids.push(pid);
            self.locked_pid = Some(pid);
        } else {
            self.selected.clear();
            self.pids.clear();
            self.selected.push(element);
            self.pids.push(pid);
            self.locked_pid = Some(pid);
        }
        Ok(self.selected.len())
    }

    /// Whether the accessibility tree of process `pid` still has to be woken
    /// this session; a positive pid not yet woken is recorded as woken.
    pub fn needs_wake(&mut self, pid: i32) -> (r: bool)
        requires
            old(self).wf(),
        ensures
            final(self).wf(),
            final(self).one_process(),
            r == wake_needed(old(self).woken(), pid),
            final(self).woken() == woken_after(old(self).woken(), pid),
            final(self).selection() == old(self).selection(),
            final(self).selection_pids() == old(self).selection_pids(),
            final(self).locked() == old(self).locked(),
            final(self).is_active() == old(self).is_active(),
            final(self).target() == old(self).target(),
            final(self).hover() == old(self).hover(),
    {
        let r = pid > 0 && !self.woken_pids.contains(&pid);
        if r {
            self.woken_pids.insert(pid);
        }
        r
    }

    /// Remembers the element currently outlined under the cursor.
    pub fn set_hover(&mut self, element: E)
        requires
            old(self).wf(),
        ensures
            final(self).wf(),
            final(self).one_process(),
            final(self).hover() == Some(element),
            final(self).selection() == old(self).selection(),
            final(self).selection_pids() == old(self).selection_pids(),
            final(self).locked() == old(self).locked(),
            final(self).is_active() == old(self).is_active(),
            final(self).woken() == old(self).woken(),
            final(self).target() == old(self).target(),
    {
        self.last_hover = Some(element);
    }

    /// Whether pick mode is on.
    pub fn active(&self) -> (r: bool)
        ensures
            r == self.is_active(),
    {
        self.active
    }

    /// The selected elements.
    pub fn selected(&self) -> (r: &Vec<E>)
        ensures
            r@ == self.selection(),
    {
        &self.selected
    }

    /// The application pick mode was started for.
    pub fn target_pid(&self) -> (r: Option<i32>)
        ensures
            r == self.target(),
    {
        self.target_pid
    }

    /// The element most recently outlined under the cursor.
    pub fn last_hover(&self) -> (r: &Option<E>)
        ensures
            *r == self.hover(),
    {
        &self.last_hover
    }

    /// Starts pick mode for the application chosen to pick from (see
    /// `start`); with none, refuses and leaves the session as it is.
    pub fn start_for(&mut self, target: Option<i32>) -> (r: Result<(), StartRefusal>)
        requires
            old(self).wf(),
        ensures
            final(self).wf(),
            final(self).one_process(),
            target is None ==> r is Err && *final(self) == *old(self),
            target is Some ==> r is Ok && final(self).is_active() && final(self).selection().len() == 0
                && final(self).locked() is None && final(self).woken() == Set::<i32>::empty()
                && final(self).target() == target && final(self).hover() == old(self).hover(),
    {
        match target {
            None => Err(StartRefusal::NoTarget),
            Some(_) => {
                self.start(target);
                Ok(())
            },
        }
    }

    /// Whether the selection can be exported: it needs at least one
    /// element; gives how many there are.
    pub fn export_check(&self) -> (r: Result<usize, ExportRefusal>)
        ensures
            self.selection().len() == 0 ==> r is Err,
            self.selection().len() > 0 ==> r == Ok::<usize, ExportRefusal>(self.selection().len() as usize),
    {
        if self.selected.len() == 0 {
            Err(ExportRefusal::NothingSelected)
        } else {
            Ok(self.selected.len())
        }
    }

    /// After an export: a successful one ends pick mode (see `stop`); a
    /// failed one leaves the session as it is.
    pub fn finish_export(&mut self, succeeded: bool)
        requires
            old(self).wf(),
        ensures
            final(self).wf(),
            final(self).one_process(),
            !succeeded ==> *final(self) == *old(self),
            succeeded ==> !final(self).is_active() && final(self).selection().len() == 0 && final(self).locked() is None
                && final(self).woken() == old(self).woken() && final(self).target() == old(self).target()
                && final(self).hover() == old(self).hover(),
    {
        if succeeded {
            self.stop();
        }
    }
}

/// Why pick mode did not start.
#[derive(Debug, Clone, Copy, PartialEq, Eq, Structural)]
pub enum StartRefusal {
    /// No application is known to pick from.
    NoTarget,
}

impl StartRefusal {
    /// The error text.
    pub fn message(&self) -> (r: &'static str)
        ensures
            r@ == "no target app"@,
    {
        "no target app"
    }
}

/// Why the selection could not be exported.
#[derive(Debug, Clone, Copy, PartialEq, Eq, Structural)]
pub enum ExportRefusal {
    /// Nothing is selected.
    NothingSelected,
}

impl ExportRefusal {
    /// The error text.
    pub fn message(&self) -> (r: &'static str)
        ensures
            r@ == "nothing selected"@,
    {
        "nothing selected"
    }
}


/// The application to pick from when pick mode starts: the frontmost
/// application according to launch services, else according to the
/// accessibility API, unless it is this process; failing both, the last
/// other application seen in front.
pub open spec fn target_choice(our_pid: i32, ax: Option<i32>, ns: Option<i32>, last_other: Option<i32>) -> Option<i32> {
    if ns matches Some(p) && p != our_pid {
        ns
    } else if ax matches Some(p) && p != our_pid {
        ax
    } else {
        last_other
    }
}

/// Chooses the application to pick from (see `target_choice`).
pub fn choose_target_pid(our_pid: i32, ax: Option<i32>, ns: Option<i32>, last_other: Option<i32>) -> (r: Option<i32>)
    ensures
        r == target_choice(our_pid, ax, ns, last_other),
{
    match ns {
        Some(p) => if p != our_pid { return ns; },
        None => {},
    }
    match ax {
        Some(p) => if p != our_pid { return ax; },
        None => {},
    }
    last_other
}

/// The last application other than this one seen in front: updated when the
/// frontmost pid is positive and not ours, kept otherwise.
pub fn next_last_foreign(current: Option<i32>, observed: Option<i32>, our_pid: i32) -> (r: Option<i32>)
    ensures
        r == match observed {
            Some(p) => if p != our_pid && p > 0 { Some(p) } else { current },
            None => current,
        },
{
    match observed {
        Some(p) => if p != our_pid && p > 0 { Some(p) } else { current },
        None => current,
    }
}

/// How the target application is shown: its name, else `pid <n>` (`-1` when unknown).
pub fn target_label(name: Option<String>, pid: Option<i32>) -> (r: String)
    ensures
        r@ == match name {
            Some(n) => n@,
            None => "pid "@ + signed_decimal(match pid { Some(p) => p as int, None => -1 }),
        },
{
    match name {
        Some(n) => n,
        None => {
            let mut s = String::new();
            push_str(&mut s, "pid ");
            let p = match pid { Some(p) => p, None => -1 };
            push_signed(&mut s, p);
            s
        },
    }
}

/// The reply to an accepted click: `selected <count> (<role>)`.
pub fn click_message(count: usize, role: &str) -> (r: String)
    ensures
        r@ == "selected "@ + decimal(count as nat) + " ("@ + role@ + ")"@,
{
    let mut s = String::new();
    push_str(&mut s, "selected ");
    push_decimal(&mut s, count as u64);
    push_str(&mut s, " (");
    push_str(&mut s, role);
    push_str(&mut s, ")");
    s
}

/// `role "name"` for one selected element.
pub open spec fn element_label(role: Seq<char>, name: Seq<char>) -> Seq<char> {
    role + " \""@ + name + "\""@
}

/// The labels of the selected elements joined by ` + `.
pub open spec fn summary_of(items: Seq<(Seq<char>, Seq<char>)>) -> Seq<char>
    decreases items.len(),
{
    if items.len() == 0 {
        Seq::empty()
    } else if items.len() == 1 {
        element_label(items[0].0, items[0].1)
    } else {
        summary_of(items.drop_last()) + " + "@ + element_label(items.last().0, items.last().1)
    }
}

/// Plain view of (role, name) pairs.
pub open spec fn pair_views(items: Seq<(String, String)>) -> Seq<(Seq<char>, Seq<char>)> {
    items.map_values(|p: (String, String)| (p.0@, p.1@))
}

/// Summary of an exported selection: `role "name"` of each element, joined by ` + `.
pub fn selection_summary(items: &Vec<(String, String)>) -> (r: String)
    ensures
        r@ == summary_of(pair_views(items@)),
{
    let mut s = String::new();
    let mut i: usize = 0;
    while i < items.len()
        invariant
            i <= items@.len(),
            s@ == summary_of(pair_views(items@.take(i as int))),
        decreases items.len() - i,
    {
        if i > 0 {
            push_str(&mut s, " + ");
        }
        push_str(&mut s, items[i].0.as_str());
        push_str(&mut s, " \"");
        push_str(&mut s, items[i].1.as_str());
        push_str(&mut s, "\"");
        proof {
            let t = pair_views(items@.take(i + 1));
            assert(t.drop_last() =~= pair_views(items@.take(i as int)));
            assert(t.last() == (items@[i as int].0@, items@[i as int].1@));
        }
        i = i + 1;
    }
    proof { assert(items@.take(items@.len() as int) == items@); }
    s
}

/// The first present candidate, else the empty text: how an element's name is
/// chosen from its title, description, label and value attributes.
pub open spec fn first_present(c: Seq<Option<String>>) -> Seq<char>
    decreases c.len(),
{
    if c.len() == 0 {
        Seq::empty()
    } else {
        match c[0] {
            Some(s) => s@,
            None => first_present(c.drop_first()),
        }
    }
}

/// Picks an element's name: the first attribute that is present, else empty.
pub fn element_name(candidates: Vec<Option<String>>) -> (r: String)
    ensures
        r@ == first_present(candidates@),
{
    let mut i: usize = 0;
    proof { assert(candidates@.skip(0) == candidates@); }
    while i < candidates.len()
        invariant
            i <= candidates@.len(),
            first_present(candidates@) == first_present(candidates@.skip(i as int)),
        decreases candidates.len() - i,
    {
        proof {
            assert(candidates@.skip(i as int)[0] == candidates@[i as int]);
            assert(candidates@.skip(i as int).drop_first() == candidates@.skip(i + 1));
        }
        match &candidates[i] {
            Some(s) => {
                return s.clone();
            },
            None => {},
        }
        i = i + 1;
    }
    String::new()
}

/// An attribute with the empty value treated as absent.
pub fn non_empty(s: Option<String>) -> (r: Option<String>)
    ensures
        r == match s { Some(t) => if t@.len() > 0 { Some(t) } else { None }, None => None },
{
    match s {
        Some(t) => {
            if crate::text::chars_of(t.as_str()).len() > 0 { Some(t) } else { None }
        },
        None => None,
    }
}

/// What a global hotkey does.
#[derive(Debug, Clone, Copy, PartialEq, Eq, Structural)]
pub enum HotkeyAction {
    /// Start pick mode.
    StartPick,
    /// Stop pick mode.
    StopPick,
    /// Export the selection.
    Export,
    /// Extract the whole frontmost window.
    ExtractWindow,
    /// Nothing.
    Ignore,
}

/// The action of a hotkey event: only presses count; the S combination
/// toggles pick mode, E exports, X extracts the frontmost window.
pub open spec fn hotkey_action_of(pressed: bool, combo: Seq<char>, active: bool) -> HotkeyAction {
    if !pressed {
        HotkeyAction::Ignore
    } else if has_substring(combo, "KeyS"@) {
        if active { HotkeyAction::StopPick } else { HotkeyAction::StartPick }
    } else if has_substring(combo, "KeyE"@) {
        HotkeyAction::Export
    } else if has_substring(combo, "KeyX"@) {
        HotkeyAction::ExtractWindow
    } else {
        HotkeyAction::Ignore
    }
}

/// Decides what a hotkey event (pressed or released, its key combination as
/// text, whether pick mode is on) does.
pub fn hotkey_action(pressed: bool, combo: &str, active: bool) -> (r: HotkeyAction)
    ensures
        r == hotkey_action_of(pressed, combo@, active),
{
    if !pressed {
        HotkeyAction::Ignore
    } else if str_contains(combo, "KeyS") {
        if active { HotkeyAction::StopPick } else { HotkeyAction::StartPick }
    } else if str_contains(combo, "KeyE") {
        HotkeyAction::Export
    } else if str_contains(combo, "KeyX") {
        HotkeyAction::ExtractWindow
    } else {
        HotkeyAction::Ignore
    }
}

/// What one tick of the hover tracker does.
#[derive(Debug, Clone, Copy, PartialEq, Eq, Structural)]
pub enum HoverTick {
    /// Pick mode is off: the tracker ends.
    Stop,
    /// The cursor is off screen: wait for the next tick.
    Skip,
    /// Hit-test the cursor in this application's tree.
    InApp(i32),
    /// Hit-test system-wide, skipping this process.
    Excluding(i32),
}

/// The tick decision: stop when pick mode is off, skip while the cursor is
/// off screen, else hit-test in the target application when there is one,
/// otherwise system-wide without our own process.
pub open spec fn hover_tick_of(active: bool, cursor_off_screen: bool, target: Option<i32>, our_pid: i32) -> HoverTick {
    if !active {
        HoverTick::Stop
    } else if cursor_off_screen {
        HoverTick::Skip
    } else {
        match target {
            Some(p) => HoverTick::InApp(p),
            None => HoverTick::Excluding(our_pid),
        }
    }
}

/// Decides one tick of the hover tracker.
pub fn hover_tick(active: bool, cursor_off_screen: bool, target: Option<i32>, our_pid: i32) -> (r: HoverTick)
    ensures
        r == hover_tick_of(active, cursor_off_screen, target, our_pid),
{
    if !active {
        HoverTick::Stop
    } else if cursor_off_screen {
        HoverTick::Skip
    } else {
        match target {
            Some(p) => HoverTick::InApp(p),
            None => HoverTick::Excluding(our_pid),
        }
    }
}

/// The notice shown when pick mode starts with no application to pick from.
pub const NO_TARGET_NOTICE: &'static str =
    "No recent target app. Click on Slack / Finder / any app you want to extract from, then press ⌘⇧S.";

/// The notice shown when an export fails.
pub fn export_failed_notice(err: &str) -> (r: String)
    ensures
        r@ == "Export failed: "@ + err@ + " — select at least one element with Cmd+Shift+S then click on it."@,
{
    let mut s = String::new();
    push_str(&mut s, "Export failed: ");
    push_str(&mut s, err);
    push_str(&mut s, " — select at least one element with Cmd+Shift+S then click on it.");
    s
}

} // verus!

//! What an extraction produces, how extraction fails, and how the captures
//! of several selected elements merge into one.
use vstd::prelude::*;
use crate::text::{decimal, html_escape, html_escaped, push_decimal, push_str, to_owned_string};

verus! {

/// The extraction strategies, in the order the dispatcher tries them.
#[derive(Debug, Clone, Copy, PartialEq, Eq, Structural)]
pub enum Strategy {
    Asar,
    Cdp,
    DotNetXaml,
    MacosBundle,
    QtResources,
    NativeAx,
    ScreenshotOnly,
}

/// The outcome of one extraction: which strategy produced it, how faithful
/// it is, the TOON and HTML texts, an optional base64 PNG screenshot, and
/// diagnostic lines.
#[derive(Debug)]
pub struct CaptureResult {
    pub strategy: String,
    pub fidelity: String,
    pub toon: String,
    pub html: String,
    pub screenshot_png_b64: Option<String>,
    pub diagnostics: Vec<String>,
}

/// Plain view of a capture.
pub struct CaptureView {
    pub strategy: Seq<char>,
    pub fidelity: Seq<char>,
    pub toon: Seq<char>,
    pub html: Seq<char>,
    pub screenshot: Option<Seq<char>>,
    pub diagnostics: Seq<Seq<char>>,
}

/// The text of an optional string.
pub open spec fn opt_view(o: Option<String>) -> Option<Seq<char>> {
    match o {
        Some(s) => Some(s@),
        None => None,
    }
}

impl CaptureResult {
    pub open spec fn view_capture(&self) -> CaptureView {
        CaptureView {
            strategy: self.strategy@,
            fidelity: self.fidelity@,
            toon: self.toon@,
            html: self.html@,
            screenshot: opt_view(self.screenshot_png_b64),
            diagnostics: crate::text::string_views(self.diagnostics@),
        }
    }

    /// A capture with the given strategy and fidelity and nothing else.
    pub fn empty(strategy: &str, fidelity: &str) -> (r: Self)
        ensures
            r.strategy@ == strategy@,
            r.fidelity@ == fidelity@,
            r.toon@.len() == 0,
            r.html@.len() == 0,
            r.screenshot_png_b64 is None,
            r.diagnostics@.len() == 0,
    {
        CaptureResult {
            strategy: to_owned_string(strategy),
            fidelity: to_owned_string(fidelity),
            toon: String::new(),
            html: String::new(),
            screenshot_png_b64: None,
            diagnostics: Vec::new(),
        }
    }
}

/// Why an extraction failed.
#[derive(Debug)]
pub enum ExtractError {
    /// The accessibility permission is missing.
    NoAxPermission,
    /// Every strategy failed; the text describes the last failure.
    AllStrategiesFailed(String),
    /// Any other failure, by its message.
    Other(String),
}

pub const NO_AX_PERMISSION_MESSAGE: &'static str =
    "AX permission denied — grant Accessibility access in System Settings and retry.";

/// The message of an extraction error.
pub open spec fn extract_error_text(e: ExtractError) -> Seq<char> {
    match e {
        ExtractError::NoAxPermission => NO_AX_PERMISSION_MESSAGE@,
        ExtractError::AllStrategiesFailed(s) => "no extractor succeeded; last error: "@ + s@,
        ExtractError::Other(s) => s@,
    }
}

impl ExtractError {
    /// The message shown for this error.
    pub fn message(&self) -> (r: String)
        ensures
            r@ == extract_error_text(*self),
    {
        match self {
            ExtractError::NoAxPermission => to_owned_string(NO_AX_PERMISSION_MESSAGE),
            ExtractError::AllStrategiesFailed(s) => {
                let mut m = String::new();
                push_str(&mut m, "no extractor succeeded; last error: ");
                push_str(&mut m, s.as_str());
                m
            },
            ExtractError::Other(s) => s.clone(),
        }
    }
}

/// Why the frontmost window could not be taken as the picked element.
#[derive(Debug, Clone, Copy, PartialEq, Eq, Structural)]
pub enum FrontmostWindowFailure {
    /// The accessibility permission is missing.
    NoPermission,
    /// Nothing accessible lies under the cursor.
    NoElementAtCursor,
    /// The element under the cursor has no enclosing window.
    NoEnclosingWindow,
    /// The enclosing window reports no bounds.
    NoWindowBounds,
    /// The platform has no window capture.
    Unsupported,
}

/// The extraction error each failure is reported as.
pub open spec fn frontmost_failure_error(f: FrontmostWindowFailure) -> Option<Seq<char>> {
    match f {
        FrontmostWindowFailure::NoPermission => None,
        FrontmostWindowFailure::NoElementAtCursor =>
            Some("no AX element at cursor — hover over the target window before pressing Cmd+Shift+X"@),
        FrontmostWindowFailure::NoEnclosingWindow => Some("no enclosing AXWindow"@),
        FrontmostWindowFailure::NoWindowBounds => Some("window has no bounds"@),
        FrontmostWindowFailure::Unsupported => Some("extract_frontmost_window not implemented on this platform yet"@),
    }
}

impl FrontmostWindowFailure {
    /// The error an extraction of the frontmost window ends with: the missing
    /// permission as such, every other failure as a failure of all
    /// strategies with its reason.
    pub fn to_error(&self) -> (r: ExtractError)
        ensures
            match frontmost_failure_error(*self) {
                None => r is NoAxPermission,
                Some(m) => r matches ExtractError::AllStrategiesFailed(x) && x@ == m,
            },
    {
        match self {
            FrontmostWindowFailure::NoPermission => ExtractError::NoAxPermission,
            FrontmostWindowFailure::NoElementAtCursor => ExtractError::AllStrategiesFailed(to_owned_string(
                "no AX element at cursor — hover over the target window before pressing Cmd+Shift+X",
            )),
            FrontmostWindowFailure::NoEnclosingWindow => ExtractError::AllStrategiesFailed(to_owned_string("no enclosing AXWindow")),
            FrontmostWindowFailure::NoWindowBounds => ExtractError::AllStrategiesFailed(to_owned_string("window has no bounds")),
            FrontmostWindowFailure::Unsupported => ExtractError::AllStrategiesFailed(to_owned_string(
                "extract_frontmost_window not implemented on this platform yet",
            )),
        }
    }
}

/// The last resort of the dispatcher: a screenshot-only capture, or, when the
/// screenshot failed too, an error naming both failures.
pub fn screenshot_fallback(last_error: &str, screenshot_error: Option<&str>) -> (r: Result<CaptureResult, ExtractError>)
    ensures
        match screenshot_error {
            Some(e) => r matches Err(ExtractError::AllStrategiesFailed(m)) && m@ == last_error@ + "; screenshot: "@ + e@,
            None => r matches Ok(c) && c.view_capture() == (CaptureView {
                strategy: "screenshot_only"@,
                fidelity: "Visual only — no structure recovered"@,
                toon: Seq::empty(),
                html: Seq::empty(),
                screenshot: None,
                diagnostics: seq!["All structural strategies failed."@, "Last error: "@ + last_error@],
            }),
        },
{
    match screenshot_error {
        Some(e) => {
            let mut m = String::new();
            push_str(&mut m, last_error);
            push_str(&mut m, "; screenshot: ");
            push_str(&mut m, e);
            Err(ExtractError::AllStrategiesFailed(m))
        },
        None => {
            let mut c = CaptureResult::empty("screenshot_only", "Visual only — no structure recovered");
            c.diagnostics.push(to_owned_string("All structural strategies failed."));
            let mut l = String::new();
            push_str(&mut l, "Last error: ");
            push_str(&mut l, last_error);
            c.diagnostics.push(l);
            proof {
                assert(c.view_capture().diagnostics =~= seq!["All structural strategies failed."@, "Last error: "@ + last_error@]);
                assert(c.toon@ =~= Seq::<char>::empty());
                assert(c.html@ =~= Seq::<char>::empty());
            }
            Ok(c)
        },
    }
}


/// Part of the merged multi-element HTML page.
pub const MULTI_HTML_HEAD: &'static str = "<!DOCTYPE html>\n<html>\n<head>\n  <meta charset=\"UTF-8\">\n  <title>VibeExtract — Multi-element Capture (";

/// Part of the merged multi-element HTML page.
pub const MULTI_HTML_MID: &'static str = " elements)</title>\n  <style>\n    html, body { margin: 0; padding: 0; font-family: -apple-system, BlinkMacSystemFont, sans-serif; background: #f0f0f3; }\n    .ve-multi-header { position: sticky; top: 0; z-index: 10; padding: 14px 24px; background: #1a1a2e; color: #f5f3ff; font-size: 14px; font-weight: 600; border-bottom: 1px solid rgba(255,255,255,0.08); }\n    .ve-elem { margin: 20px; background: #fff; border-radius: 12px; box-shadow: 0 4px 16px rgba(0,0,0,0.08); overflow: hidden; }\n    .ve-elem-header { display: flex; gap: 12px; padding: 12px 18px; background: #fafafa; border-bottom: 1px solid #e0e0e0; font-size: 13px; align-items: center; }\n    .ve-elem-role { color: #6366f1; font-family: ui-monospace, Menlo, monospace; font-size: 11px; padding: 3px 8px; background: rgba(99,102,241,0.08); border-radius: 4px; }\n    .ve-elem-name { color: #555; flex: 1; font-style: italic; }\n    .ve-elem-frame { display: block; width: 100%; height: 600px; border: 0; background: white; }\n  </style>\n</head>\n<body>\n  <div class=\"ve-multi-header\">VibeExtract — ";

/// Part of the merged multi-element HTML page.
pub const MULTI_HTML_BODY: &'static str = " elements captured</div>\n  ";

/// Part of the merged multi-element HTML page.
pub const MULTI_HTML_TAIL: &'static str = "\n</body>\n</html>";

/// One successful element of a multi-element capture: role, name, capture.
pub type Merged = (Seq<char>, Seq<char>, CaptureView);

/// The plain outcome of one element's extraction.
pub open spec fn outcome_view(o: Result<CaptureResult, ExtractError>) -> Result<CaptureView, Seq<char>> {
    match o {
        Ok(c) => Ok(c.view_capture()),
        Err(e) => Err(extract_error_text(e)),
    }
}

pub open spec fn outcome_views(o: Seq<Result<CaptureResult, ExtractError>>) -> Seq<Result<CaptureView, Seq<char>>> {
    o.map_values(|x: Result<CaptureResult, ExtractError>| outcome_view(x))
}

/// The successful elements, in selection order, with their role and name.
pub open spec fn successes(labels: Seq<(Seq<char>, Seq<char>)>, outs: Seq<Result<CaptureView, Seq<char>>>) -> Seq<Merged>
    decreases outs.len(),
{
    if outs.len() == 0 || labels.len() == 0 {
        Seq::empty()
    } else {
        let rest = successes(labels.drop_last(), outs.drop_last());
        match outs.last() {
            Ok(c) => rest.push((labels.last().0, labels.last().1, c)),
            Err(_) => rest,
        }
    }
}

/// `element <i>: <message>` for each failed element, `i` counting from zero
/// over the whole selection.
pub open spec fn failures(outs: Seq<Result<CaptureView, Seq<char>>>) -> Seq<Seq<char>>
    decreases outs.len(),
{
    if outs.len() == 0 {
        Seq::empty()
    } else {
        let rest = failures(outs.drop_last());
        match outs.last() {
            Ok(_) => rest,
            Err(m) => rest.push("element "@ + decimal((outs.len() - 1) as nat) + ": "@ + m),
        }
    }
}

/// The texts joined by a separator.
pub open spec fn join(parts: Seq<Seq<char>>, sep: Seq<char>) -> Seq<char>
    decreases parts.len(),
{
    if parts.len() == 0 {
        Seq::empty()
    } else if parts.len() == 1 {
        parts[0]
    } else {
        join(parts.drop_last(), sep) + sep + parts.last()
    }
}

/// The TOON block of the `k`-th (from zero) of `n` merged elements.
pub open spec fn toon_item(k: nat, n: nat, m: Merged) -> Seq<char> {
    "## Element "@ + decimal(k + 1) + " of "@ + decimal(n) + " — "@ + m.0 + " \""@ + m.1 + "\"\n\n"@ + m.2.toon
        + "\n\n---\n\n"@
}

/// The TOON blocks of the merged elements.
pub open spec fn toon_items(ms: Seq<Merged>, n: nat) -> Seq<char>
    decreases ms.len(),
{
    if ms.len() == 0 {
        Seq::empty()
    } else {
        toon_items(ms.drop_last(), n) + toon_item((ms.len() - 1) as nat, n, ms.last())
    }
}

/// The merged TOON text.
pub open spec fn merged_toon(ms: Seq<Merged>) -> Seq<char> {
    "# VibeExtract — multi-element capture ("@ + decimal(ms.len()) + " elements)\n\n"@ + toon_items(ms, ms.len())
}

/// The HTML section of the `k`-th (from zero) of `n` merged elements: a header
/// and a sandboxed frame whose `srcdoc` is the element's escaped HTML.
pub open spec fn html_section(k: nat, n: nat, m: Merged) -> Seq<char> {
    "<section class=\"ve-elem\" data-idx=\""@ + decimal(k) + "\">\n  <header class=\"ve-elem-header\">\n    <strong>Element "@
        + decimal(k + 1) + " of "@ + decimal(n) + "</strong>\n    <span class=\"ve-elem-role\">"@ + html_escaped(m.0)
        + "</span>\n    <span class=\"ve-elem-name\">"@ + html_escaped(m.1)
        + "</span>\n  </header>\n  <iframe class=\"ve-elem-frame\" srcdoc=\""@ + html_escaped(m.2.html)
        + "\" sandbox=\"allow-scripts allow-same-origin\"></iframe>\n</section>"@
}

/// The HTML sections of the merged elements.
pub open spec fn html_sections(ms: Seq<Merged>, n: nat) -> Seq<char>
    decreases ms.len(),
{
    if ms.len() == 0 {
        Seq::empty()
    } else {
        html_sections(ms.drop_last(), n) + html_section((ms.len() - 1) as nat, n, ms.last())
    }
}

/// The merged HTML page.
pub open spec fn merged_html(ms: Seq<Merged>) -> Seq<char> {
    MULTI_HTML_HEAD@ + decimal(ms.len()) + MULTI_HTML_MID@ + decimal(ms.len()) + MULTI_HTML_BODY@
        + html_sections(ms, ms.len()) + MULTI_HTML_TAIL@
}

/// For each merged element a `--- element <k> (<role>) ---` line followed by
/// its own diagnostics.
pub open spec fn merged_diagnostics(ms: Seq<Merged>) -> Seq<Seq<char>>
    decreases ms.len(),
{
    if ms.len() == 0 {
        Seq::empty()
    } else {
        merged_diagnostics(ms.drop_last()).push("--- element "@ + decimal(ms.len()) + " ("@ + ms.last().0 + ") ---"@)
            + ms.last().2.diagnostics
    }
}

/// The merged capture: the first element's strategy marked with the count,
/// its fidelity and screenshot, the merged texts, and the diagnostics of every
/// element followed by the failures.
pub open spec fn merged_capture(ms: Seq<Merged>, errs: Seq<Seq<char>>) -> CaptureView {
    CaptureView {
        strategy: ms[0].2.strategy + " (×"@ + decimal(ms.len()) + ")"@,
        fidelity: ms[0].2.fidelity,
        toon: merged_toon(ms),
        html: merged_html(ms),
        screenshot: ms[0].2.screenshot,
        diagnostics: merged_diagnostics(ms) + errs,
    }
}

proof fn lemma_no_successes(labels: Seq<(Seq<char>, Seq<char>)>, outs: Seq<Result<CaptureView, Seq<char>>>)
    requires
        forall|k: int| 0 <= k < outs.len() ==> #[trigger] outs[k] is Err,
    ensures
        successes(labels, outs).len() == 0,
    decreases outs.len(),
{
    if outs.len() > 0 && labels.len() > 0 {
        let d = outs.drop_last();
        assert forall|k: int| 0 <= k < d.len() implies #[trigger] d[k] is Err by {
            assert(d[k] == outs[k]);
        }
        lemma_no_successes(labels.drop_last(), d);
        assert(outs.last() == outs[outs.len() - 1]);
    }
}

proof fn lemma_first_success(labels: Seq<(Seq<char>, Seq<char>)>, outs: Seq<Result<CaptureView, Seq<char>>>, j: int)
    requires
        labels.len() == outs.len(),
        0 <= j < outs.len(),
        outs[j] is Ok,
        forall|k: int| 0 <= k < j ==> #[trigger] outs[k] is Err,
    ensures
        successes(labels, outs).len() >= 1,
        successes(labels, outs)[0] == (labels[j].0, labels[j].1, outs[j]->Ok_0),
    decreases outs.len(),
{
    let d = outs.drop_last();
    let ld = labels.drop_last();
    let n = outs.len() - 1;
    assert(outs.last() == outs[n]);
    assert(labels.last() == labels[n]);
    if j == n {
        assert forall|k: int| 0 <= k < d.len() implies #[trigger] d[k] is Err by {
            assert(d[k] == outs[k]);
        }
        lemma_no_successes(ld, d);
    } else {
        assert forall|k: int| 0 <= k < j implies #[trigger] d[k] is Err by {
            assert(d[k] == outs[k]);
        }
        assert(d[j] == outs[j]);
        assert(ld[j] == labels[j]);
        lemma_first_success(ld, d, j);
    }
}

/// When at least one element succeeded, the merged capture takes its
/// strategy (marked with the number of successes), its fidelity and its
/// screenshot from the first element, in selection order, that succeeded.
pub proof fn law_merge_takes_first_success(
    labels: Seq<(Seq<char>, Seq<char>)>,
    outs: Seq<Result<CaptureView, Seq<char>>>,
    errs: Seq<Seq<char>>,
    j: int,
)
    requires
        labels.len() == outs.len(),
        0 <= j < outs.len(),
        outs[j] is Ok,
        forall|k: int| 0 <= k < j ==> #[trigger] outs[k] is Err,
    ensures
        ({
            let ms = successes(labels, outs);
            let m = merged_capture(ms, errs);
            &&& ms.len() >= 1
            &&& m.screenshot == outs[j]->Ok_0.screenshot
            &&& m.fidelity == outs[j]->Ok_0.fidelity
            &&& m.strategy == outs[j]->Ok_0.strategy + " (×"@ + decimal(ms.len()) + ")"@
        }),
{
    lemma_first_success(labels, outs, j);
}

fn clone_opt(o: &Option<String>) -> (r: Option<String>)
    ensures
        opt_view(r) == opt_view(*o),
{
    match o {
        Some(s) => Some(s.clone()),
        None => None,
    }
}

/// Appends copies of the texts of `src` to `dst`.
pub fn push_texts(dst: &mut Vec<String>, src: &Vec<String>)
    ensures
        crate::text::string_views(final(dst)@) == crate::text::string_views(old(dst)@) + crate::text::string_views(src@),
{
    let ghost start = dst@;
    let mut i: usize = 0;
    while i < src.len()
        invariant
            i <= src@.len(),
            crate::text::string_views(dst@) == crate::text::string_views(start) + crate::text::string_views(src@.take(i as int)),
        decreases src.len() - i,
    {
        let ghost before = dst@;
        dst.push(src[i].clone());
        proof {
            assert(crate::text::string_views(dst@) =~= crate::text::string_views(before).push(src@[i as int]@));
            assert(crate::text::string_views(src@.take(i + 1)) =~= crate::text::string_views(src@.take(i as int)).push(src@[i as int]@));
        }
        i = i + 1;
    }
    proof { assert(src@.take(src@.len() as int) == src@); }
}


fn push_toon_item(toon: &mut String, k: usize, n: usize, role: &str, name: &str, body: &str)
    requires
        k < n,
    ensures
        final(toon)@ == old(toon)@ + toon_item(k as nat, n as nat, (role@, name@, CaptureView {
            strategy: Seq::empty(), fidelity: Seq::empty(), toon: body@, html: Seq::empty(), screenshot: None, diagnostics: Seq::empty(),
        })),
{
    push_str(toon, "## Element ");
    push_decimal(toon, (k + 1) as u64);
    push_str(toon, " of ");
    push_decimal(toon, n as u64);
    push_str(toon, " — ");
    push_str(toon, role);
    push_str(toon, " \"");
    push_str(toon, name);
    push_str(toon, "\"\n\n");
    push_str(toon, body);
    push_str(toon, "\n\n---\n\n");
    proof {
        assert(final(toon)@ =~= old(toon)@ + toon_item(k as nat, n as nat, (role@, name@, CaptureView {
            strategy: Seq::empty(), fidelity: Seq::empty(), toon: body@, html: Seq::empty(), screenshot: None, diagnostics: Seq::empty(),
        })));
    }
}

fn push_html_section(out: &mut String, k: usize, n: usize, role: &str, name: &str, html: &str)
    requires
        k < n,
    ensures
        final(out)@ == old(out)@ + html_section(k as nat, n as nat, (role@, name@, CaptureView {
            strategy: Seq::empty(), fidelity: Seq::empty(), toon: Seq::empty(), html: html@, screenshot: None, diagnostics: Seq::empty(),
        })),
{
    push_str(out, "<section class=\"ve-elem\" data-idx=\"");
    push_decimal(out, k as u64);
    push_str(out, "\">\n  <header class=\"ve-elem-header\">\n    <strong>Element ");
    push_decimal(out, (k + 1) as u64);
    push_str(out, " of ");
    push_decimal(out, n as u64);
    push_str(out, "</strong>\n    <span class=\"ve-elem-role\">");
    let er = html_escape(role);
    push_str(out, er.as_str());
    push_str(out, "</span>\n    <span class=\"ve-elem-name\">");
    let en = html_escape(name);
    push_str(out, en.as_str());
    push_str(out, "</span>\n  </header>\n  <iframe class=\"ve-elem-frame\" srcdoc=\"");
    let eh = html_escape(html);
    push_str(out, eh.as_str());
    push_str(out, "\" sandbox=\"allow-scripts allow-same-origin\"></iframe>\n</section>");
    proof {
        assert(final(out)@ =~= old(out)@ + html_section(k as nat, n as nat, (role@, name@, CaptureView {
            strategy: Seq::empty(), fidelity: Seq::empty(), toon: Seq::empty(), html: html@, screenshot: None, diagnostics: Seq::empty(),
        })));
    }
}

fn element_header(k: usize, role: &str) -> (r: String)
    requires
        k < usize::MAX,
    ensures
        r@ == "--- element "@ + decimal((k + 1) as nat) + " ("@ + role@ + ") ---"@,
{
    let mut head = String::new();
    push_str(&mut head, "--- element ");
    push_decimal(&mut head, (k + 1) as u64);
    push_str(&mut head, " (");
    push_str(&mut head, role);
    push_str(&mut head, ") ---");
    head
}

proof fn lemma_successes_len(lv: Seq<(Seq<char>, Seq<char>)>, ov: Seq<Result<CaptureView, Seq<char>>>, j: int)
    requires
        0 <= j <= lv.len() == ov.len(),
    ensures
        successes(lv.take(j), ov.take(j)).len() <= successes(lv, ov).len(),
        successes(lv.take(j), ov.take(j)).len() <= j,
    decreases lv.len() - j,
{
    lemma_successes_bound(lv.take(j), ov.take(j));
    if j < lv.len() {
        lemma_successes_len(lv, ov, j + 1);
        lemma_successes_prefix(lv, ov, j + 1);
    } else {
        assert(lv.take(j) == lv);
        assert(ov.take(j) == ov);
        lemma_successes_bound(lv, ov);
    }
}

proof fn lemma_successes_bound(lv: Seq<(Seq<char>, Seq<char>)>, ov: Seq<Result<CaptureView, Seq<char>>>)
    ensures
        successes(lv, ov).len() <= ov.len(),
    decreases ov.len(),
{
    if ov.len() > 0 && lv.len() > 0 {
        lemma_successes_bound(lv.drop_last(), ov.drop_last());
    }
}

/// Combines the extractions of the selected elements (role and name of each,
/// with the outcome of its extraction): with nothing selected an error; with
/// one element its outcome as it is; otherwise one capture merging every
/// success, or, when all failed, an error listing every failure.
#[verifier::rlimit(50)]
pub fn merge_extractions(labels: &Vec<(String, String)>, outcomes: Vec<Result<CaptureResult, ExtractError>>) -> (r: Result<CaptureResult, ExtractError>)
    requires
        labels@.len() == outcomes@.len(),
    ensures
        labels@.len() == 0 ==> (r matches Err(ExtractError::AllStrategiesFailed(m)) && m@ == "no elements selected"@),
        labels@.len() == 1 ==> r == outcomes@[0],
        labels@.len() >= 2 ==> {
            let ms = successes(crate::session::pair_views(labels@), outcome_views(outcomes@));
            let errs = failures(outcome_views(outcomes@));
            if ms.len() == 0 {
                r matches Err(ExtractError::AllStrategiesFailed(m)) && m@ == join(errs, "; "@)
            } else {
                r matches Ok(c) && c.view_capture() == merged_capture(ms, errs)
            }
        },
{
    let n = outcomes.len();
    if n == 0 {
        return Err(ExtractError::AllStrategiesFailed(to_owned_string("no elements selected")));
    }
    if n == 1 {
        let mut outcomes = outcomes;
        return outcomes.remove(0);
    }
    let ghost lv = crate::session::pair_views(labels@);
    let ghost ov = outcome_views(outcomes@);
    // Failures and the number of successes.
    let mut errors: Vec<String> = Vec::new();
    let mut count: usize = 0;
    let mut i: usize = 0;
    while i < n
        invariant
            n == outcomes@.len() == labels@.len(),
            i <= n,
            lv == crate::session::pair_views(labels@),
            ov == outcome_views(outcomes@),
            crate::text::string_views(errors@) == failures(ov.take(i as int)),
            count == successes(lv.take(i as int), ov.take(i as int)).len(),
            count <= i,
        decreases n - i,
    {
        proof {
            assert(ov.take(i + 1).drop_last() == ov.take(i as int));
            assert(lv.take(i + 1).drop_last() == lv.take(i as int));
            assert(ov.take(i + 1).last() == outcome_view(outcomes@[i as int]));
        }
        match &outcomes[i] {
            Ok(_) => {
                count = count + 1;
            },
            Err(e) => {
                let mut m = String::new();
                push_str(&mut m, "element ");
                push_decimal(&mut m, i as u64);
                push_str(&mut m, ": ");
                let em = e.message();
                push_str(&mut m, em.as_str());
                let ghost before = errors@;
                errors.push(m);
                proof {
                    assert(crate::text::string_views(errors@) =~= crate::text::string_views(before).push(m@));
                }
            },
        }
        i = i + 1;
    }
    proof {
        assert(ov.take(n as int) == ov);
        assert(lv.take(n as int) == lv);
    }
    if count == 0 {
        let mut m = String::new();
        let mut j: usize = 0;
        while j < errors.len()
            invariant
                j <= errors@.len(),
                m@ == join(crate::text::string_views(errors@).take(j as int), "; "@),
            decreases errors.len() - j,
        {
            if j > 0 {
                push_str(&mut m, "; ");
            }
            push_str(&mut m, errors[j].as_str());
            proof {
                let t = crate::text::string_views(errors@).take(j + 1);
                assert(t.drop_last() =~= crate::text::string_views(errors@).take(j as int));
                assert(t.last() == errors@[j as int]@);
                if j == 0 {
                    assert(t.len() == 1);
                }
            }
            j = j + 1;
        }
        proof { assert(crate::text::string_views(errors@).take(errors@.len() as int) == crate::text::string_views(errors@)); }
        return Err(ExtractError::AllStrategiesFailed(m));
    }
    // Build the merged texts over the successes.
    let mut toon = String::new();
    push_str(&mut toon, "# VibeExtract — multi-element capture (");
    push_decimal(&mut toon, count as u64);
    push_str(&mut toon, " elements)\n\n");
    let ghost toon_head = toon@;
    let mut sections = String::new();
    let mut diags: Vec<String> = Vec::new();
    let mut strategy = String::new();
    let mut fidelity = String::new();
    let mut shot: Option<String> = None;
    let mut k: usize = 0;
    let mut i: usize = 0;
    while i < n
        invariant
            n == outcomes@.len() == labels@.len(),
            i <= n,
            lv == crate::session::pair_views(labels@),
            ov == outcome_views(outcomes@),
            count == successes(lv, ov).len(),
            k == successes(lv.take(i as int), ov.take(i as int)).len(),
            k <= count,
            toon_head == "# VibeExtract — multi-element capture ("@ + decimal(count as nat) + " elements)\n\n"@,
            toon@ == toon_head + toon_items(successes(lv.take(i as int), ov.take(i as int)), count as nat),
            sections@ == html_sections(successes(lv.take(i as int), ov.take(i as int)), count as nat),
            crate::text::string_views(diags@) == merged_diagnostics(successes(lv.take(i as int), ov.take(i as int))),
            k > 0 ==> strategy@ == successes(lv.take(i as int), ov.take(i as int))[0].2.strategy
                && fidelity@ == successes(lv.take(i as int), ov.take(i as int))[0].2.fidelity
                && opt_view(shot) == successes(lv.take(i as int), ov.take(i as int))[0].2.screenshot,
        decreases n - i,
    {
        let ghost prev = successes(lv.take(i as int), ov.take(i as int));
        proof {
            assert(ov.take(i + 1).drop_last() == ov.take(i as int));
            assert(lv.take(i + 1).drop_last() == lv.take(i as int));
            assert(ov.take(i + 1).last() == outcome_view(outcomes@[i as int]));
            assert(lv.take(i + 1).last() == (labels@[i as int].0@, labels@[i as int].1@));
            lemma_successes_prefix(lv, ov, i as int + 1);
        }
        match &outcomes[i] {
            Ok(c) => {
                let ghost item: Merged = (labels@[i as int].0@, labels@[i as int].1@, c.view_capture());
                let role = labels[i].0.as_str();
                let name = labels[i].1.as_str();
                proof { lemma_successes_len(lv, ov, i as int + 1); }
                push_toon_item(&mut toon, k, count, role, name, c.toon.as_str());
                push_html_section(&mut sections, k, count, role, name, c.html.as_str());
                let head = element_header(k, role);
                let ghost d0 = diags@;
                diags.push(head);
                proof {
                    assert(crate::text::string_views(diags@) =~= crate::text::string_views(d0).push(head@));
                }
                push_texts(&mut diags, &c.diagnostics);
                if k == 0 {
                    strategy = c.strategy.clone();
                    fidelity = c.fidelity.clone();
                    shot = clone_opt(&c.screenshot_png_b64);
                }
                proof {
                    let next = prev.push(item);
                    assert(successes(lv.take(i + 1), ov.take(i + 1)) == next);
                    assert(next.drop_last() == prev);
                    assert(toon@ =~= toon_head + toon_items(next, count as nat));
                    assert(sections@ =~= html_sections(next, count as nat));
                    assert(crate::text::string_views(diags@) =~= merged_diagnostics(next));
                    if k > 0 {
                        assert(next[0] == prev[0]);
                    }
                }
                k = k + 1;
            },
            Err(_) => {
                proof {
                    assert(successes(lv.take(i + 1), ov.take(i + 1)) == prev);
                }
            },
        }
        i = i + 1;
    }
    proof {
        assert(ov.take(n as int) == ov);
        assert(lv.take(n as int) == lv);
    }
    let mut html = String::new();
    push_str(&mut html, MULTI_HTML_HEAD);
    push_decimal(&mut html, count as u64);
    push_str(&mut html, MULTI_HTML_MID);
    push_decimal(&mut html, count as u64);
    push_str(&mut html, MULTI_HTML_BODY);
    push_str(&mut html, sections.as_str());
    push_str(&mut html, MULTI_HTML_TAIL);
    let mut strat = strategy;
    push_str(&mut strat, " (×");
    push_decimal(&mut strat, count as u64);
    push_str(&mut strat, ")");
    push_texts(&mut diags, &errors);
    let out = CaptureResult {
        strategy: strat,
        fidelity,
        toon,
        html,
        screenshot_png_b64: shot,
        diagnostics: diags,
    };
    proof {
        let ms = successes(lv, ov);
        assert(out.view_capture().toon =~= merged_toon(ms));
        assert(out.view_capture().html =~= merged_html(ms));
        assert(out.view_capture().diagnostics =~= merged_diagnostics(ms) + failures(ov));
    }
    Ok(out)
}

proof fn lemma_successes_prefix(lv: Seq<(Seq<char>, Seq<char>)>, ov: Seq<Result<CaptureView, Seq<char>>>, j: int)
    requires
        0 < j <= lv.len() == ov.len(),
    ensures
        successes(lv.take(j), ov.take(j)) == match ov[j - 1] {
            Ok(c) => successes(lv.take(j - 1), ov.take(j - 1)).push((lv[j - 1].0, lv[j - 1].1, c)),
            Err(_) => successes(lv.take(j - 1), ov.take(j - 1)),
        },
{
    assert(lv.take(j).drop_last() == lv.take(j - 1));
    assert(ov.take(j).drop_last() == ov.take(j - 1));
}

} // verus!

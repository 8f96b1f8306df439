//! The decisions of the Chrome DevTools Protocol strategy: which page target
//! to attach to, how the content script is wrapped for injection, how replies
//! are matched to commands, and how the export turns into a capture.
use vstd::prelude::*;
use crate::capture::{opt_view, CaptureResult, CaptureView};
use crate::text::{decimal, has_substring, lowercase, push_decimal, push_str, str_contains, to_lowercase, to_owned_string};

verus! {

/// One entry of the debugger's `/json` target list.
pub struct PageTarget {
    /// The `type` field (`page`, `iframe`, `service_worker`, ...).
    pub target_type: String,
    pub title: String,
    pub url: String,
    /// The `webSocketDebuggerUrl`, when the target offers one.
    pub ws_url: Option<String>,
}

/// Why the CDP strategy failed.
#[derive(Debug)]
pub enum CdpError {
    /// The port lists no page with a debugger URL.
    NoPageTargets(u16),
    /// The requested page index is past the pages listed.
    TargetOutOfRange(usize),
    /// The socket ended before the reply came.
    StreamClosed,
    /// The page closed the socket before the reply came.
    SocketClosed,
    /// The reply to a command carried an error: the method and the error.
    CommandFailed(String, String),
    /// The evaluated script threw: the exception details.
    Threw(String),
    /// The export evaluation gave no value.
    NoResult,
    /// The content script reported an export error.
    ExportFailed(String),
    /// The export had neither TOON nor HTML.
    ExportEmpty,
    /// A message from the debugger is not JSON.
    Unparsable,
}

/// The message of a CDP failure.
pub open spec fn cdp_error_text(e: CdpError) -> Seq<char> {
    match e {
        CdpError::NoPageTargets(port) => "no page targets on port "@ + decimal(port as nat),
        CdpError::TargetOutOfRange(i) => "target_index "@ + decimal(i as nat) + " out of range"@,
        CdpError::StreamClosed => "CDP stream closed"@,
        CdpError::SocketClosed => "CDP socket closed"@,
        CdpError::CommandFailed(m, err) => "CDP "@ + m@ + " returned error: "@ + err@,
        CdpError::Threw(x) => "Runtime.evaluate threw: "@ + x@,
        CdpError::NoResult => "no result"@,
        CdpError::ExportFailed(err) => "export failed: "@ + err@,
        CdpError::ExportEmpty => "export returned empty"@,
        CdpError::Unparsable => "CDP JSON parse"@,
    }
}

impl CdpError {
    /// The message shown for this failure.
    pub fn message(&self) -> (r: String)
        ensures
            r@ == cdp_error_text(*self),
    {
        let mut s = String::new();
        match self {
            CdpError::NoPageTargets(port) => {
                push_str(&mut s, "no page targets on port ");
                push_decimal(&mut s, *port as u64);
            },
            CdpError::TargetOutOfRange(i) => {
                push_str(&mut s, "target_index ");
                push_decimal(&mut s, *i as u64);
                push_str(&mut s, " out of range");
            },
            CdpError::StreamClosed => { push_str(&mut s, "CDP stream closed"); },
            CdpError::SocketClosed => { push_str(&mut s, "CDP socket closed"); },
            CdpError::CommandFailed(m, err) => {
                push_str(&mut s, "CDP ");
                push_str(&mut s, m.as_str());
                push_str(&mut s, " returned error: ");
                push_str(&mut s, err.as_str());
            },
            CdpError::Threw(x) => {
                push_str(&mut s, "Runtime.evaluate threw: ");
                push_str(&mut s, x.as_str());
            },
            CdpError::NoResult => { push_str(&mut s, "no result"); },
            CdpError::ExportFailed(err) => {
                push_str(&mut s, "export failed: ");
                push_str(&mut s, err.as_str());
            },
            CdpError::ExportEmpty => { push_str(&mut s, "export returned empty"); },
            CdpError::Unparsable => { push_str(&mut s, "CDP JSON parse"); },
        }
        proof {
            match self {
                CdpError::StreamClosed => { assert(s@ =~= "CDP stream closed"@); },
                CdpError::SocketClosed => { assert(s@ =~= "CDP socket closed"@); },
                CdpError::NoResult => { assert(s@ =~= "no result"@); },
                CdpError::ExportEmpty => { assert(s@ =~= "export returned empty"@); },
                CdpError::Unparsable => { assert(s@ =~= "CDP JSON parse"@); },
                _ => {},
            }
        }
        s
    }
}

// ---------------------------------------------------------------------------
// Choosing the page

/// A target the strategy can attach to: a page with a debugger URL.
pub open spec fn is_attachable(t: PageTarget) -> bool {
    t.target_type@ == "page"@ && t.ws_url is Some
}

/// The debugger URLs of the attachable targets, in list order.
pub open spec fn attachable_urls(ts: Seq<PageTarget>) -> Seq<Seq<char>>
    decreases ts.len(),
{
    if ts.len() == 0 {
        Seq::empty()
    } else {
        let rest = attachable_urls(ts.drop_last());
        let t = ts.last();
        if is_attachable(t) { rest.push(t.ws_url->0@) } else { rest }
    }
}

/// Picks the debugger URL of the `index`-th (from zero) page target that has
/// one: an error when there is no such page at all, or not that many.
pub fn choose_page_target(targets: &Vec<PageTarget>, port: u16, index: usize) -> (r: Result<String, CdpError>)
    ensures
        match r {
            Ok(u) => index < attachable_urls(targets@).len() && u@ == attachable_urls(targets@)[index as int],
            Err(e) => (attachable_urls(targets@).len() == 0 && e == CdpError::NoPageTargets(port))
                || (0 < attachable_urls(targets@).len() <= index && e == CdpError::TargetOutOfRange(index)),
        },
{
    let mut pages: Vec<String> = Vec::new();
    let mut i: usize = 0;
    while i < targets.len()
        invariant
            i <= targets@.len(),
            crate::text::string_views(pages@) == attachable_urls(targets@.take(i as int)),
        decreases targets.len() - i,
    {
        let t = &targets[i];
        let ghost before = pages@;
        proof { assert(targets@.take(i + 1).drop_last() =~= targets@.take(i as int)); }
        if crate::text::str_eq(t.target_type.as_str(), "page") {
            match &t.ws_url {
                Some(u) => {
                    pages.push(u.clone());
                    proof {
                        assert(crate::text::string_views(pages@) =~= crate::text::string_views(before).push(u@));
                    }
                },
                None => {},
            }
        }
        i = i + 1;
    }
    proof { assert(targets@.take(targets@.len() as int) =~= targets@); }
    if pages.len() == 0 {
        return Err(CdpError::NoPageTargets(port));
    }
    if index >= pages.len() {
        return Err(CdpError::TargetOutOfRange(index));
    }
    let u = pages[index].clone();
    proof { assert(crate::text::string_views(pages@)[index as int] == pages@[index as int]@); }
    Ok(u)
}

/// Whether a lowercased window title names a Chromium or Electron window
/// (Chrome, Electron, Slack, Discord, VS Code).
pub open spec fn chromium_title(lower: Seq<char>) -> bool {
    has_substring(lower, "chrome"@) || has_substring(lower, "electron"@) || has_substring(lower, "slack"@)
        || has_substring(lower, "discord"@) || has_substring(lower, "vs code"@)
        || has_substring(lower, "visual studio code"@)
}

/// Whether the window in front looks like a CDP target; when it does not,
/// another window is probably covering the target.
pub fn looks_like_chromium_window(title: &str) -> (r: bool)
    ensures
        r == chromium_title(lowercase(title@)),
{
    let l = to_lowercase(title);
    let t = l.as_str();
    str_contains(t, "chrome") || str_contains(t, "electron") || str_contains(t, "slack") || str_contains(t, "discord")
        || str_contains(t, "vs code") || str_contains(t, "visual studio code")
}

// ---------------------------------------------------------------------------
// Injection

/// The content script wrapped so that an exception it throws is logged, not
/// raised.
pub open spec fn injection_of(content_script: Seq<char>) -> Seq<char> {
    "(function(){try{"@ + content_script + "\n}catch(e){console.warn('[VibeExtract cdp] inject:',e);}})();"@
}

/// Wraps the content script for `Runtime.evaluate`.
pub fn wrap_injection(content_script: &str) -> (r: String)
    ensures
        r@ == injection_of(content_script@),
{
    let mut s = String::new();
    push_str(&mut s, "(function(){try{");
    push_str(&mut s, content_script);
    push_str(&mut s, "\n}catch(e){console.warn('[VibeExtract cdp] inject:',e);}})();");
    s
}

// ---------------------------------------------------------------------------
// Replies

/// A frame read from the debugger socket, as far as reply matching reads
/// it: a text frame with its `id` and the text of its `error`, another data
/// or control frame, or a close frame.
pub enum IncomingFrame {
    Text { id: Option<u64>, error: Option<String> },
    Other,
    Close,
}

/// What to do with a frame while waiting for the reply to a command.
#[derive(Debug)]
pub enum ReplyStep {
    /// Not the reply: keep reading.
    Wait,
    /// The reply, without error: take its `result`.
    Reply,
    /// Stop with this failure.
    Fail(CdpError),
}

/// Matches a frame against the command `cmd_id` (method `method`): only a
/// text frame with that id answers; an error in it fails the command, and a
/// close frame ends the wait.
pub fn reply_step(cmd_id: u64, method: &str, frame: &IncomingFrame) -> (r: ReplyStep)
    ensures
        match frame {
            IncomingFrame::Text { id, error } => if *id == Some(cmd_id) {
                match error {
                    Some(e) => r matches ReplyStep::Fail(CdpError::CommandFailed(m, x)) && m@ == method@ && x@ == e@,
                    None => r is Reply,
                }
            } else {
                r is Wait
            },
            IncomingFrame::Other => r is Wait,
            IncomingFrame::Close => r matches ReplyStep::Fail(CdpError::SocketClosed),
        },
{
    match frame {
        IncomingFrame::Text { id, error } => {
            match id {
                Some(i) => {
                    if *i == cmd_id {
                        match error {
                            Some(e) => ReplyStep::Fail(CdpError::CommandFailed(to_owned_string(method), e.clone())),
                            None => ReplyStep::Reply,
                        }
                    } else {
                        ReplyStep::Wait
                    }
                },
                None => ReplyStep::Wait,
            }
        },
        IncomingFrame::Other => ReplyStep::Wait,
        IncomingFrame::Close => ReplyStep::Fail(CdpError::SocketClosed),
    }
}

/// The outcome of an evaluation whose reply carried `exception_details`
/// (as text) or none: it threw, or it succeeded.
pub fn evaluation_outcome(exception_details: Option<String>) -> (r: Result<(), CdpError>)
    ensures
        match exception_details {
            Some(x) => r matches Err(CdpError::Threw(y)) && y@ == x@,
            None => r is Ok,
        },
{
    match exception_details {
        Some(x) => Err(CdpError::Threw(x)),
        None => Ok(()),
    }
}

// ---------------------------------------------------------------------------
// The export

/// The value the export evaluation returned, as far as it is read: its
/// `error`, `toon` and `html` fields when they are strings.
pub struct ExportPayload {
    pub error: Option<String>,
    pub toon: Option<String>,
    pub html: Option<String>,
}

/// The text of an optional field, empty when absent.
pub open spec fn field_text(o: Option<String>) -> Seq<char> {
    match o { Some(s) => s@, None => Seq::empty() }
}

/// The capture of a successful export.
pub open spec fn cdp_capture(toon: Seq<char>, html: Seq<char>) -> CaptureView {
    CaptureView {
        strategy: "cdp"@,
        fidelity: "Pixel-perfect (runtime CDP)"@,
        toon,
        html,
        screenshot: None,
        diagnostics: Seq::empty(),
    }
}

/// Turns the export's value into a capture: no value, a reported error, or
/// neither TOON nor HTML are failures.
pub fn capture_from_export(payload: Option<ExportPayload>) -> (r: Result<CaptureResult, CdpError>)
    ensures
        payload is None ==> (r matches Err(e) && e is NoResult),
        payload matches Some(p) ==> (p.error matches Some(e) ==> (r matches Err(CdpError::ExportFailed(m)) && m@ == e@)),
        payload matches Some(p) ==> (p.error is None && field_text(p.toon).len() == 0 && field_text(p.html).len() == 0
            ==> r matches Err(CdpError::ExportEmpty)),
        payload matches Some(p) ==> (p.error is None && !(field_text(p.toon).len() == 0 && field_text(p.html).len() == 0)
            ==> (r matches Ok(c) && c.view_capture() == cdp_capture(field_text(p.toon), field_text(p.html)))),
{
    match payload {
        None => Err(CdpError::NoResult),
        Some(p) => {
            match p.error {
                Some(e) => Err(CdpError::ExportFailed(e)),
                None => {
                    let toon = match p.toon { Some(t) => t, None => String::new() };
                    let html = match p.html { Some(h) => h, None => String::new() };
                    if crate::text::chars_of(toon.as_str()).len() == 0 && crate::text::chars_of(html.as_str()).len() == 0 {
                        return Err(CdpError::ExportEmpty);
                    }
                    let r = CaptureResult {
                        strategy: to_owned_string("cdp"),
                        fidelity: to_owned_string("Pixel-perfect (runtime CDP)"),
                        toon,
                        html,
                        screenshot_png_b64: None,
                        diagnostics: Vec::new(),
                    };
                    proof { assert(r.view_capture().diagnostics =~= Seq::<Seq<char>>::empty()); }
                    Ok(r)
                },
            }
        },
    }
}


// ---------------------------------------------------------------------------
// Reading the debugger's JSON

/// Name for what a DevTools message gives when parsed with
/// `serde_json::from_str::<serde_json::Value>`: its `id` (when an unsigned
/// integer) and its `error` (as JSON text); nothing when it is not JSON.
pub uninterp spec fn cdp_message_fields(text: Seq<char>) -> Option<(Option<u64>, Option<Seq<char>>)>;

/// Parses a DevTools message with `serde_json::from_str` and reads `id`
/// with `as_u64` and `error` with `to_string`. Trusted: the fields depend
/// on the text alone.
#[verifier::external_body]
fn cdp_message(text: &str) -> (r: Option<(Option<u64>, Option<String>)>)
    ensures
        match r {
            Some((id, e)) => cdp_message_fields(text@) == Some((id, opt_view(e))),
            None => cdp_message_fields(text@) is None,
        },
{
    match serde_json::from_str::<serde_json::Value>(text) {
        Ok(v) => Some((v.get("id").and_then(|i| i.as_u64()), v.get("error").map(|e| e.to_string()))),
        Err(_) => None,
    }
}

/// Matches a text frame against the command `cmd_id` (method `method`): a
/// frame that is not JSON fails; otherwise only the reply with that id
/// answers, and an error in it fails the command.
pub fn reply_step_of_text(cmd_id: u64, method: &str, text: &str) -> (r: Result<ReplyStep, CdpError>)
    ensures
        match cdp_message_fields(text@) {
            None => r matches Err(e) && e is Unparsable,
            Some((id, err)) => r matches Ok(s) && if id == Some(cmd_id) {
                match err {
                    Some(x) => s matches ReplyStep::Fail(CdpError::CommandFailed(m, y)) && m@ == method@ && y@ == x,
                    None => s is Reply,
                }
            } else {
                s is Wait
            },
        },
{
    match cdp_message(text) {
        None => Err(CdpError::Unparsable),
        Some((id, error)) => Ok(reply_step(cmd_id, method, &IncomingFrame::Text { id, error })),
    }
}

/// Name for what a reply to `Runtime.evaluate` says of an exception: the
/// JSON text of `result.exceptionDetails` when present; nothing when the
/// reply is not JSON.
pub uninterp spec fn result_exception_of(text: Seq<char>) -> Option<Option<Seq<char>>>;

/// Parses a reply with `serde_json::from_str` and reads
/// `result.exceptionDetails` as JSON text. Trusted: it depends on the text
/// alone.
#[verifier::external_body]
fn result_exception(text: &str) -> (r: Option<Option<String>>)
    ensures
        match r {
            Some(x) => result_exception_of(text@) == Some(opt_view(x)),
            None => result_exception_of(text@) is None,
        },
{
    match serde_json::from_str::<serde_json::Value>(text) {
        Ok(v) => Some(v.get("result").and_then(|r| r.get("exceptionDetails")).map(|x| x.to_string())),
        Err(_) => None,
    }
}

/// The outcome of an evaluation from its reply: an exception fails it.
pub fn evaluation_outcome_of_reply(text: &str) -> (r: Result<(), CdpError>)
    ensures
        match result_exception_of(text@) {
            None => r matches Err(e) && e is Unparsable,
            Some(None) => r is Ok,
            Some(Some(x)) => r matches Err(CdpError::Threw(y)) && y@ == x,
        },
{
    match result_exception(text) {
        None => Err(CdpError::Unparsable),
        Some(x) => evaluation_outcome(x),
    }
}

/// Name for the export a reply to the export evaluation carries: the
/// `error`, `toon` and `html` strings of `result.result.value`; nothing when
/// there is no such value (or the reply is not JSON).
pub uninterp spec fn export_fields(text: Seq<char>) -> Option<(Option<Seq<char>>, Option<Seq<char>>, Option<Seq<char>>)>;

/// Parses a reply with `serde_json::from_str` and reads the string fields
/// `error`, `toon` and `html` of `result.result.value`. Trusted: they depend
/// on the text alone.
#[verifier::external_body]
fn export_payload(text: &str) -> (r: Option<ExportPayload>)
    ensures
        match r {
            Some(p) => export_fields(text@) == Some((opt_view(p.error), opt_view(p.toon), opt_view(p.html))),
            None => export_fields(text@) is None,
        },
{
    let v = serde_json::from_str::<serde_json::Value>(text).ok()?;
    let p = v.get("result").and_then(|r| r.get("result")).and_then(|r| r.get("value"))?;
    let field = |k: &str| p.get(k).and_then(|x| x.as_str()).map(|x| x.to_string());
    Some(ExportPayload { error: field("error"), toon: field("toon"), html: field("html") })
}

/// The text of an optional field, empty when absent.
pub open spec fn opt_text(o: Option<Seq<char>>) -> Seq<char> {
    match o { Some(s) => s, None => Seq::empty() }
}

/// Turns the reply to the export evaluation into a capture (see
/// `capture_from_export`).
pub fn capture_from_export_reply(reply: &str) -> (r: Result<CaptureResult, CdpError>)
    ensures
        match export_fields(reply@) {
            None => r matches Err(e) && e is NoResult,
            Some((err, toon, html)) => match err {
                Some(x) => r matches Err(CdpError::ExportFailed(m)) && m@ == x,
                None => if opt_text(toon).len() == 0 && opt_text(html).len() == 0 {
                    r matches Err(e) && e is ExportEmpty
                } else {
                    r matches Ok(c) && c.view_capture() == cdp_capture(opt_text(toon), opt_text(html))
                },
            },
        },
{
    let p = export_payload(reply);
    proof {
        if p is Some {
            let q = p->0;
            assert(field_text(q.toon) == opt_text(opt_view(q.toon)));
            assert(field_text(q.html) == opt_text(opt_view(q.html)));
        }
    }
    capture_from_export(p)
}

/// Name for the `type` of each entry of a DevTools target list body (when a
/// string), parsed with `serde_json::from_str`: nothing when the body is not
/// JSON, no list when it is not an array.
pub uninterp spec fn target_types_of(body: Seq<char>) -> Option<Option<Seq<Option<Seq<char>>>>>;

/// Parses a target list with `serde_json::from_str` and reads each entry's
/// `type`. Trusted: it depends on the body alone.
#[verifier::external_body]
fn target_types(body: &str) -> (r: Option<Option<Vec<Option<String>>>>)
    ensures
        match r {
            Some(Some(ts)) => target_types_of(body@) == Some(Some(ts@.map_values(|t: Option<String>| opt_view(t)))),
            Some(None) => target_types_of(body@) == Some(None::<Seq<Option<Seq<char>>>>),
            None => target_types_of(body@) is None,
        },
{
    let v = serde_json::from_str::<serde_json::Value>(body).ok()?;
    Some(v.as_array().map(|a| a.iter().map(|t| t.get("type").and_then(|x| x.as_str()).map(|x| x.to_string())).collect()))
}

/// Whether a target list body shows a page: it is a JSON array and some
/// entry's `type` is `"page"`.
pub fn body_has_page(body: &str) -> (r: bool)
    ensures
        r == (target_types_of(body@) matches Some(Some(ts)) && exists|i: int| 0 <= i < ts.len() && ts[i] == Some("page"@)),
{
    match target_types(body) {
        Some(Some(ts)) => {
            let r = crate::electron::targets_have_page(&ts);
            proof {
                let v = ts@.map_values(|t: Option<String>| opt_view(t));
                if r {
                    let i = choose|i: int| 0 <= i < ts@.len() && (#[trigger] ts@[i] matches Some(t) && t@ == "page"@);
                    assert(v[i] == Some("page"@));
                } else {
                    assert forall|i: int| 0 <= i < v.len() implies v[i] != Some("page"@) by {
                        assert(!(ts@[i] matches Some(t) && t@ == "page"@));
                    }
                }
            }
            r
        },
        _ => false,
    }
}

} // verus!

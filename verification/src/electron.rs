//! Electron applications that can be relaunched with a DevTools port: the
//! table of known applications, how a relaunch target is formed, which debug
//! port is chosen, and the errors a relaunch can end in.
use vstd::prelude::*;
use crate::text::{string_views, str_views, chars_of, push_decimal, push_str, str_eq, to_owned_string, decimal};

verus! {

/// A known Electron application: its bundle id, display name, and the
/// AppleScript names it answers to, in the order they are tried.
#[derive(Debug, Clone, Copy)]
pub struct KnownElectronApp {
    pub bundle_id: &'static str,
    pub display_name: &'static str,
    pub aliases: &'static [&'static str],
}

/// Plain view of a known application: bundle id, display name, aliases.
pub type KnownAppView = (Seq<char>, Seq<char>, Seq<Seq<char>>);

impl KnownElectronApp {
    pub open spec fn view_tuple(&self) -> KnownAppView {
        (self.bundle_id@, self.display_name@, str_views(self.aliases@))
    }
}

/// The known Electron applications, in lookup order.
pub open spec fn known_apps() -> Seq<KnownAppView> {
    seq![
        ("com.tinyspeck.slackmacgap"@, "Slack"@, seq!["Slack"@]),
        ("com.hnc.Discord"@, "Discord"@, seq!["Discord"@]),
        ("com.microsoft.VSCode"@, "Visual Studio Code"@, seq!["Visual Studio Code"@, "Code"@]),
        ("com.todesktop.230313mzl4w4u92"@, "Cursor"@, seq!["Cursor"@]),
        ("notion.id"@, "Notion"@, seq!["Notion"@]),
        ("net.whatsapp.WhatsApp"@, "WhatsApp"@, seq!["WhatsApp"@]),
        ("com.microsoft.teams2"@, "Microsoft Teams"@, seq!["Microsoft Teams"@]),
        ("com.linear"@, "Linear"@, seq!["Linear"@]),
        ("md.obsidian"@, "Obsidian"@, seq!["Obsidian"@]),
        ("com.figma.Desktop"@, "Figma"@, seq!["Figma"@]),
    ]
}

/// The first entry of `apps` whose bundle id is `id`.
pub open spec fn find_known(apps: Seq<KnownAppView>, id: Seq<char>) -> Option<KnownAppView>
    decreases apps.len(),
{
    if apps.len() == 0 {
        None
    } else if apps[0].0 == id {
        Some(apps[0])
    } else {
        find_known(apps.drop_first(), id)
    }
}

/// The table of known Electron applications.
pub fn known_electron_apps() -> (r: Vec<KnownElectronApp>)
    ensures
        r@.map_values(|k: KnownElectronApp| k.view_tuple()) == known_apps(),
{
    let r = vec![
        KnownElectronApp { bundle_id: "com.tinyspeck.slackmacgap", display_name: "Slack", aliases: &["Slack"] },
        KnownElectronApp { bundle_id: "com.hnc.Discord", display_name: "Discord", aliases: &["Discord"] },
        KnownElectronApp {
            bundle_id: "com.microsoft.VSCode",
            display_name: "Visual Studio Code",
            aliases: &["Visual Studio Code", "Code"],
        },
        KnownElectronApp { bundle_id: "com.todesktop.230313mzl4w4u92", display_name: "Cursor", aliases: &["Cursor"] },
        KnownElectronApp { bundle_id: "notion.id", display_name: "Notion", aliases: &["Notion"] },
        KnownElectronApp { bundle_id: "net.whatsapp.WhatsApp", display_name: "WhatsApp", aliases: &["WhatsApp"] },
        KnownElectronApp { bundle_id: "com.microsoft.teams2", display_name: "Microsoft Teams", aliases: &["Microsoft Teams"] },
        KnownElectronApp { bundle_id: "com.linear", display_name: "Linear", aliases: &["Linear"] },
        KnownElectronApp { bundle_id: "md.obsidian", display_name: "Obsidian", aliases: &["Obsidian"] },
        KnownElectronApp { bundle_id: "com.figma.Desktop", display_name: "Figma", aliases: &["Figma"] },
    ];
    proof {
        assert(r@[0].view_tuple() =~~= known_apps()[0]);
        assert(r@[1].view_tuple() =~~= known_apps()[1]);
        assert(r@[2].view_tuple() =~~= known_apps()[2]);
        assert(r@[3].view_tuple() =~~= known_apps()[3]);
        assert(r@[4].view_tuple() =~~= known_apps()[4]);
        assert(r@[5].view_tuple() =~~= known_apps()[5]);
        assert(r@[6].view_tuple() =~~= known_apps()[6]);
        assert(r@[7].view_tuple() =~~= known_apps()[7]);
        assert(r@[8].view_tuple() =~~= known_apps()[8]);
        assert(r@[9].view_tuple() =~~= known_apps()[9]);
        assert(r@.map_values(|k: KnownElectronApp| k.view_tuple()) =~= known_apps());
    }
    r
}


/// Looks up a known Electron application by bundle id.
pub fn lookup_known(bundle_id: &str) -> (r: Option<KnownElectronApp>)
    ensures
        match r {
            Some(k) => find_known(known_apps(), bundle_id@) == Some(k.view_tuple()),
            None => find_known(known_apps(), bundle_id@) is None,
        },
{
    let apps = known_electron_apps();
    let ghost table = known_apps();
    let mut i: usize = 0;
    proof { assert(table.skip(0) == table); }
    while i < apps.len()
        invariant
            i <= apps.len(),
            apps@.map_values(|k: KnownElectronApp| k.view_tuple()) == table,
            table == known_apps(),
            find_known(table, bundle_id@) == find_known(table.skip(i as int), bundle_id@),
        decreases apps.len() - i,
    {
        proof {
            assert(table.skip(i as int)[0] == apps@[i as int].view_tuple());
            assert(table.skip(i as int).drop_first() == table.skip(i + 1));
        }
        if str_eq(apps[i].bundle_id, bundle_id) {
            return Some(apps[i]);
        }
        i = i + 1;
    }
    None
}

/// What a relaunch needs: the bundle id (also the settings key), the name to
/// launch by, and the AppleScript names to quit by.
#[derive(Debug, Clone)]
pub struct RelaunchTarget {
    pub bundle_id: String,
    pub display_name: String,
    pub aliases: Vec<String>,
}

/// Plain view of a relaunch target.
pub open spec fn target_view(t: RelaunchTarget) -> KnownAppView {
    (t.bundle_id@, t.display_name@, string_views(t.aliases@))
}

/// Why no relaunch target can be formed.
#[derive(Debug, Clone, Copy, PartialEq, Eq, Structural)]
pub enum TargetError {
    /// Neither a bundle id nor a display name is known.
    NoIdentity,
}

impl TargetError {
    /// The message shown for this error.
    pub fn message(&self) -> (r: &'static str)
        ensures
            r@ == "no bundle id and no display name — can't build RelaunchTarget"@,
    {
        "no bundle id and no display name — can't build RelaunchTarget"
    }
}

/// The relaunch target for an application: the known entry when the bundle id
/// is known; otherwise the bundle id with the fallback name as display name
/// and sole alias; without a bundle id, the fallback name in all three places.
pub open spec fn target_spec(bundle_id: Option<Seq<char>>, fallback: Seq<char>) -> Option<KnownAppView> {
    match bundle_id {
        Some(bid) => match find_known(known_apps(), bid) {
            Some(k) => Some(k),
            None => Some((bid, fallback, seq![fallback])),
        },
        None => if fallback.len() == 0 { None } else { Some((fallback, fallback, seq![fallback])) },
    }
}

fn owned_aliases(a: &'static [&'static str]) -> (r: Vec<String>)
    ensures
        string_views(r@) == str_views(a@),
{
    let mut out: Vec<String> = Vec::new();
    let mut i: usize = 0;
    while i < a.len()
        invariant
            i <= a@.len(),
            string_views(out@) == str_views(a@.take(i as int)),
        decreases a@.len() - i,
    {
        let ghost prev = out@;
        let item = to_owned_string(a[i]);
        out.push(item);
        proof {
            assert(a@.take(i + 1) == a@.take(i as int).push(a@[i as int]));
            assert(string_views(prev) == str_views(a@.take(i as int)));
            assert(string_views(prev).len() == prev.len());
            assert(str_views(a@.take(i as int)).len() == i);
            assert(out@ == prev.push(item));
            assert forall|j: int| 0 <= j < i + 1 implies #[trigger] string_views(out@)[j]
                == str_views(a@.take(i + 1))[j] by {
                if j < i {
                    assert(out@[j] == prev[j]);
                    assert(string_views(prev)[j] == str_views(a@.take(i as int))[j]);
                }
            }
            assert(string_views(out@) =~= str_views(a@.take(i + 1)));
        }
        i = i + 1;
    }
    proof { assert(a@.take(a@.len() as int) == a@); }
    out
}

/// Builds the relaunch target for an application from its bundle id (when
/// known) and a display name to fall back on.
pub fn make_target(bundle_id: Option<&str>, fallback_display: &str) -> (r: Result<RelaunchTarget, TargetError>)
    ensures
        match r {
            Ok(t) => target_spec(
                match bundle_id { Some(b) => Some(b@), None => None },
                fallback_display@,
            ) == Some(target_view(t)),
            Err(_) => target_spec(
                match bundle_id { Some(b) => Some(b@), None => None },
                fallback_display@,
            ) is None,
        },
{
    match bundle_id {
        Some(bid) => {
            match lookup_known(bid) {
                Some(known) => {
                    let t = RelaunchTarget {
                        bundle_id: to_owned_string(known.bundle_id),
                        display_name: to_owned_string(known.display_name),
                        aliases: owned_aliases(known.aliases),
                    };
                    Ok(t)
                },
                None => {
                    let t = RelaunchTarget {
                        bundle_id: to_owned_string(bid),
                        display_name: to_owned_string(fallback_display),
                        aliases: vec![to_owned_string(fallback_display)],
                    };
                    proof {
                        assert(string_views(t.aliases@) =~= seq![fallback_display@]);
                    }
                    Ok(t)
                },
            }
        },
        None => {
            if chars_of(fallback_display).len() == 0 {
                return Err(TargetError::NoIdentity);
            }
            let t = RelaunchTarget {
                bundle_id: to_owned_string(fallback_display),
                display_name: to_owned_string(fallback_display),
                aliases: vec![to_owned_string(fallback_display)],
            };
            proof {
                assert(string_views(t.aliases@) =~= seq![fallback_display@]);
            }
            Ok(t)
        },
    }
}


/// The ports offered to a relaunched application for DevTools, in the order
/// they are tried; all lie in the range the DevTools scan covers.
pub open spec fn debug_port_candidates() -> Seq<u16> {
    seq![9222u16, 9223, 9224, 9225, 9226, 9227, 9228, 9229, 9230, 9220, 9221]
}

/// The ports scanned for an open DevTools endpoint, in order.
pub open spec fn cdp_scan_ports_spec() -> Seq<u16> {
    Seq::new(11, |i: int| (9220 + i) as u16)
}

/// The ports scanned for an open DevTools endpoint: 9220 up to 9230.
pub fn cdp_scan_ports() -> (r: Vec<u16>)
    ensures
        r@ == cdp_scan_ports_spec(),
{
    let mut v: Vec<u16> = Vec::new();
    let mut p: u16 = 9220;
    while p <= 9230
        invariant
            9220 <= p <= 9231,
            v@ == cdp_scan_ports_spec().take(p - 9220),
        decreases 9231 - p,
    {
        v.push(p);
        proof {
            assert(cdp_scan_ports_spec().take(p + 1 - 9220) =~= cdp_scan_ports_spec().take(p - 9220).push(p));
        }
        p = p + 1;
    }
    proof { assert(cdp_scan_ports_spec().take(11) =~= cdp_scan_ports_spec()); }
    v
}

/// Chooses the DevTools port for a relaunch: the first candidate that
/// `is_free` accepts, probing the candidates in order, or 9222 when none is.
pub fn pick_free_debug_port<F: Fn(u16) -> bool>(is_free: F) -> (r: u16)
    requires
        forall|p: u16| #[trigger] is_free.requires((p,)),
    ensures
        9220 <= r <= 9230,
        (exists|i: int|
            0 <= i < debug_port_candidates().len() && debug_port_candidates()[i] == r
                && is_free.ensures((r,), true)
                && forall|j: int| 0 <= j < i ==> #[trigger] is_free.ensures((debug_port_candidates()[j],), false))
        || (r == 9222 && forall|j: int| 0 <= j < debug_port_candidates().len()
                ==> #[trigger] is_free.ensures((debug_port_candidates()[j],), false)),
{
    let cands: Vec<u16> = vec![9222u16, 9223, 9224, 9225, 9226, 9227, 9228, 9229, 9230, 9220, 9221];
    proof { assert(cands@ =~= debug_port_candidates()); }
    let mut i: usize = 0;
    while i < cands.len()
        invariant
            i <= cands.len(),
            cands@ == debug_port_candidates(),
            forall|p: u16| #[trigger] is_free.requires((p,)),
            forall|j: int| 0 <= j < i ==> #[trigger] is_free.ensures((debug_port_candidates()[j],), false),
        decreases cands.len() - i,
    {
        let p = cands[i];
        let free = is_free(p);
        if free {
            return p;
        }
        i = i + 1;
    }
    9222
}

/// `--remote-debugging-port=<port>`, the argument that opens DevTools.
pub fn debug_port_arg(port: u16) -> (r: String)
    ensures
        r@ == "--remote-debugging-port="@ + decimal(port as nat),
{
    let mut s = String::new();
    push_str(&mut s, "--remote-debugging-port=");
    push_decimal(&mut s, port as u64);
    s
}

/// The AppleScript that asks an application to quit.
pub fn quit_script(alias: &str) -> (r: String)
    ensures
        r@ == "tell application \""@ + alias@ + "\" to quit"@,
{
    let mut s = String::new();
    push_str(&mut s, "tell application \"");
    push_str(&mut s, alias);
    push_str(&mut s, "\" to quit");
    s
}

/// How a relaunch can fail.
#[derive(Debug)]
pub enum RelaunchError {
    /// The application did not quit; the text says why.
    QuitRefused(String),
    /// The application could not be launched: its name and the launcher's message.
    LaunchFailed(String, String),
    /// The application did not open its DevTools port within the timeout
    /// (in milliseconds).
    CdpTimeout(String, u64),
    /// Anything else.
    Other(String),
}

/// The quit failure when no AppleScript name was accepted.
pub fn no_alias_worked(last_err: &str) -> (r: RelaunchError)
    ensures
        r matches RelaunchError::QuitRefused(m) && m@ == "no AppleScript alias worked ("@ + last_err@ + ")"@,
{
    let mut s = String::new();
    push_str(&mut s, "no AppleScript alias worked (");
    push_str(&mut s, last_err);
    push_str(&mut s, ")");
    RelaunchError::QuitRefused(s)
}

/// The quit failure when the process outlives the five-second budget.
pub fn still_alive(bundle_id: &str) -> (r: RelaunchError)
    ensures
        r matches RelaunchError::QuitRefused(m)
            && m@ == bundle_id@ + " still alive after 5s — likely a modal save dialog is blocking quit"@,
{
    let mut s = String::new();
    push_str(&mut s, bundle_id);
    push_str(&mut s, " still alive after 5s — likely a modal save dialog is blocking quit");
    RelaunchError::QuitRefused(s)
}

/// One progress tick of a relaunch: the phase, milliseconds since the wait
/// began, and the port in use.
#[derive(Debug, Clone, Copy)]
pub struct RelaunchProgress {
    pub phase: &'static str,
    pub elapsed_ms: u64,
    pub port: u16,
}

/// Whether a DevTools target list holds a page: some entry's `type` is `"page"`.
pub fn targets_have_page(types: &Vec<Option<String>>) -> (r: bool)
    ensures
        r == exists|i: int| 0 <= i < types@.len() && (#[trigger] types@[i] matches Some(t) && t@ == "page"@),
{
    let page = to_owned_string("page");
    let mut i: usize = 0;
    while i < types.len()
        invariant
            i <= types.len(),
            page@ == "page"@,
            forall|j: int| 0 <= j < i ==> !(#[trigger] types@[j] matches Some(t) && t@ == "page"@),
        decreases types.len() - i,
    {
        match &types[i] {
            Some(t) => {
                if *t == page {
                    return true;
                }
            },
            None => {},
        }
        i = i + 1;
    }
    false
}

} // verus!

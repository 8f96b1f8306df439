//! Summaries of a macOS application bundle's resources: the identity read
//! from `Info.plist`, the NIB hierarchies dumped by `ibtool`, the `Assets.car`
//! listing from `assetutil`, and what went wrong along the way.
use vstd::prelude::*;
use crate::text::{chars_of, push_str, string_views, to_owned_string};

verus! {

/// One NIB (or compiled storyboard) and its `ibtool --hierarchy` output.
#[derive(Debug)]
pub struct NibFile {
    pub name: String,
    pub hierarchy_xml: String,
}

/// What the bundle's resources say about the application.
#[derive(Debug)]
pub struct BundleSummary {
    pub bundle_id: Option<String>,
    pub display_name: Option<String>,
    pub executable_name: Option<String>,
    pub nibs: Vec<NibFile>,
    pub assets_car_summary: Option<String>,
    pub diagnostics: Vec<String>,
}

/// Plain view of a bundle summary.
pub struct BundleView {
    pub bundle_id: Option<Seq<char>>,
    pub display_name: Option<Seq<char>>,
    pub executable_name: Option<Seq<char>>,
    pub nibs: Seq<(Seq<char>, Seq<char>)>,
    pub assets_car_summary: Option<Seq<char>>,
    pub diagnostics: Seq<Seq<char>>,
}

pub open spec fn opt_str(o: Option<String>) -> Option<Seq<char>> {
    match o { Some(s) => Some(s@), None => None }
}

pub open spec fn nib_views(n: Seq<NibFile>) -> Seq<(Seq<char>, Seq<char>)> {
    n.map_values(|f: NibFile| (f.name@, f.hierarchy_xml@))
}

impl BundleSummary {
    pub open spec fn view_bundle(&self) -> BundleView {
        BundleView {
            bundle_id: opt_str(self.bundle_id),
            display_name: opt_str(self.display_name),
            executable_name: opt_str(self.executable_name),
            nibs: nib_views(self.nibs@),
            assets_car_summary: opt_str(self.assets_car_summary),
            diagnostics: string_views(self.diagnostics@),
        }
    }

    /// A summary with nothing found.
    pub fn empty() -> (r: Self)
        ensures
            r.view_bundle() == (BundleView {
                bundle_id: None, display_name: None, executable_name: None, nibs: Seq::empty(),
                assets_car_summary: None, diagnostics: Seq::empty(),
            }),
    {
        let r = BundleSummary {
            bundle_id: None,
            display_name: None,
            executable_name: None,
            nibs: Vec::new(),
            assets_car_summary: None,
            diagnostics: Vec::new(),
        };
        proof {
            assert(nib_views(r.nibs@) =~= Seq::empty());
            assert(string_views(r.diagnostics@) =~= Seq::empty());
        }
        r
    }
}

/// What reading `Contents/Info.plist` gave.
pub enum InfoPlist {
    /// There is no `Info.plist`.
    Missing,
    /// It could not be parsed; the parser's message.
    ParseError(String),
    /// It parsed, but its top level is not a dictionary.
    NotADict,
    /// Its top-level dictionary: each key with its value when that is a string.
    Dict(Vec<(String, Option<String>)>),
}

/// Plain view of a dictionary read from a property list: each key with its
/// value when that is a string.
pub open spec fn plist_dict_view(d: Seq<(String, Option<String>)>) -> Seq<(Seq<char>, Option<Seq<char>>)> {
    d.map_values(|e: (String, Option<String>)| (e.0@, opt_str(e.1)))
}

/// Name for what `plist::Value::from_reader` makes of a byte string, as far
/// as the summary reads it: the top-level dictionary (each key, in order,
/// with its value when that is a string), nothing when the top level is not
/// a dictionary, or the text of its error.
pub uninterp spec fn plist_parsed(bytes: Seq<u8>) -> Result<Option<Seq<(Seq<char>, Option<Seq<char>>)>>, Seq<char>>;

/// Parses a property list with `plist::Value::from_reader`. Trusted: the
/// outcome depends on the bytes alone; a dictionary is listed key by key in
/// its order, with `as_string` of each value.
#[verifier::external_body]
fn parse_plist(bytes: &[u8]) -> (r: Result<Option<Vec<(String, Option<String>)>>, String>)
    ensures
        match r {
            Ok(Some(d)) => plist_parsed(bytes@) == Ok::<_, Seq<char>>(Some(plist_dict_view(d@))),
            Ok(None) => plist_parsed(bytes@) == Ok::<Option<Seq<(Seq<char>, Option<Seq<char>>)>>, Seq<char>>(None),
            Err(e) => plist_parsed(bytes@) == Err::<Option<Seq<(Seq<char>, Option<Seq<char>>)>>, _>(e@),
        },
{
    match plist::Value::from_reader(std::io::Cursor::new(bytes)) {
        Ok(plist::Value::Dictionary(d)) => Ok(Some(d.iter().map(|(k, v)| (k.clone(), v.as_string().map(|x| x.to_string()))).collect())),
        Ok(_) => Ok(None),
        Err(e) => Err(e.to_string()),
    }
}

/// What the bytes of an `Info.plist` give: its top-level dictionary, the
/// finding that the top level is something else, or the parse error.
pub fn info_plist_from_bytes(bytes: &[u8]) -> (r: InfoPlist)
    ensures
        match plist_parsed(bytes@) {
            Ok(Some(d)) => r matches InfoPlist::Dict(e) && plist_dict_view(e@) == d,
            Ok(None) => r is NotADict,
            Err(m) => r matches InfoPlist::ParseError(x) && x@ == m,
        },
{
    match parse_plist(bytes) {
        Ok(Some(d)) => InfoPlist::Dict(d),
        Ok(None) => InfoPlist::NotADict,
        Err(e) => InfoPlist::ParseError(e),
    }
}

/// The NIB-like names among `names`, in order.
pub open spec fn nib_names_among(names: Seq<Seq<char>>) -> Seq<Seq<char>>
    decreases names.len(),
{
    if names.len() == 0 {
        Seq::empty()
    } else if is_nib_name(names.last()) {
        nib_names_among(names.drop_last()).push(names.last())
    } else {
        nib_names_among(names.drop_last())
    }
}

/// The entries of `Contents/Resources` that `ibtool` is run on: the NIBs and
/// compiled storyboards, in directory order.
pub fn nib_resources(names: &Vec<String>) -> (r: Vec<String>)
    ensures
        string_views(r@) == nib_names_among(string_views(names@)),
{
    let mut out: Vec<String> = Vec::new();
    let mut i: usize = 0;
    while i < names.len()
        invariant
            i <= names@.len(),
            string_views(out@) == nib_names_among(string_views(names@.take(i as int))),
        decreases names.len() - i,
    {
        let ghost before = out@;
        proof {
            assert(string_views(names@.take(i + 1)).drop_last() =~= string_views(names@.take(i as int)));
            assert(string_views(names@.take(i + 1)).last() == names@[i as int]@);
        }
        if is_nib_resource(names[i].as_str()) {
            out.push(names[i].clone());
            proof { assert(string_views(out@) =~= string_views(before).push(names@[i as int]@)); }
        }
        i = i + 1;
    }
    proof { assert(names@.take(names@.len() as int) =~= names@); }
    out
}

/// What happened to one resource that was handed to `ibtool` or `assetutil`:
/// its output, or the failure's message.
pub enum ToolRun {
    Done(String),
    Failed(String),
}

/// What scanning `Contents/Resources` gave: every NIB-like entry (by file
/// name, in directory order) with its `ibtool` run, and the `assetutil` run on
/// `Assets.car` when that file exists.
pub struct ResourcesScan {
    pub nibs: Vec<(String, ToolRun)>,
    pub assets_car: Option<ToolRun>,
}

/// Whether `s` ends with `suffix`.
pub open spec fn ends_with(s: Seq<char>, suffix: Seq<char>) -> bool {
    suffix.len() <= s.len() && s.skip(s.len() - suffix.len()) == suffix
}

fn ends_with_exec(v: &Vec<char>, suffix: &str) -> (r: bool)
    ensures
        r == ends_with(v@, suffix@),
{
    let sv = chars_of(suffix);
    if sv.len() > v.len() {
        return false;
    }
    let off = v.len() - sv.len();
    let mut i: usize = 0;
    while i < sv.len()
        invariant
            sv.len() <= v.len(),
            off == v.len() - sv.len(),
            sv@ == suffix@,
            i <= sv.len(),
            forall|j: int| 0 <= j < i ==> v@[off + j] == sv@[j],
        decreases sv.len() - i,
    {
        if v[off + i] != sv[i] {
            proof { assert(v@.skip(off as int)[i as int] != sv@[i as int]); }
            return false;
        }
        i = i + 1;
    }
    proof { assert(v@.skip(off as int) =~= sv@); }
    true
}

/// A resource `ibtool` can dump: a `.nib` or a `.storyboardc`.
pub open spec fn is_nib_name(name: Seq<char>) -> bool {
    ends_with(name, ".nib"@) || ends_with(name, ".storyboardc"@)
}

/// Whether a resource file name is a NIB or a compiled storyboard.
pub fn is_nib_resource(name: &str) -> (r: bool)
    ensures
        r == is_nib_name(name@),
{
    let v = chars_of(name);
    ends_with_exec(&v, ".nib") || ends_with_exec(&v, ".storyboardc")
}

/// The value a plist dictionary holds for a key: absent when the key is
/// missing; present but `None` when the value is not a string.
pub open spec fn dict_get(d: Seq<(String, Option<String>)>, key: Seq<char>) -> Option<Option<Seq<char>>>
    decreases d.len(),
{
    if d.len() == 0 {
        None
    } else if d[0].0@ == key {
        Some(opt_str(d[0].1))
    } else {
        dict_get(d.drop_first(), key)
    }
}

fn dict_lookup(d: &Vec<(String, Option<String>)>, key: &str) -> (r: Option<Option<String>>)
    ensures
        match r {
            Some(v) => dict_get(d@, key@) == Some(opt_str(v)),
            None => dict_get(d@, key@) is None,
        },
{
    let mut i: usize = 0;
    proof { assert(d@.skip(0) == d@); }
    while i < d.len()
        invariant
            i <= d@.len(),
            dict_get(d@, key@) == dict_get(d@.skip(i as int), key@),
        decreases d.len() - i,
    {
        proof {
            assert(d@.skip(i as int)[0] == d@[i as int]);
            assert(d@.skip(i as int).drop_first() == d@.skip(i + 1));
        }
        if crate::text::str_eq(d[i].0.as_str(), key) {
            return Some(match &d[i].1 { Some(v) => Some(v.clone()), None => None });
        }
        i = i + 1;
    }
    None
}

/// The string a key holds, when present and a string.
pub open spec fn dict_string(d: Seq<(String, Option<String>)>, key: Seq<char>) -> Option<Seq<char>> {
    match dict_get(d, key) { Some(v) => v, None => None }
}

/// The display name: `CFBundleDisplayName` when that key is present (even
/// if its value is not a string), otherwise `CFBundleName`.
pub open spec fn display_name_of(d: Seq<(String, Option<String>)>) -> Option<Seq<char>> {
    match dict_get(d, "CFBundleDisplayName"@) {
        Some(v) => v,
        None => dict_string(d, "CFBundleName"@),
    }
}

/// The summary fields `Info.plist` gives, with the diagnostic it leaves.
pub open spec fn plist_part(p: InfoPlist) -> (Option<Seq<char>>, Option<Seq<char>>, Option<Seq<char>>, Seq<Seq<char>>) {
    match p {
        InfoPlist::Missing => (None, None, None, seq!["no Info.plist in Contents/"@]),
        InfoPlist::ParseError(e) => (None, None, None, seq!["Info.plist parse error: "@ + e@]),
        InfoPlist::NotADict => (None, None, None, seq!["Info.plist top-level wasn't a dict"@]),
        InfoPlist::Dict(d) => (
            dict_string(d@, "CFBundleIdentifier"@),
            display_name_of(d@),
            dict_string(d@, "CFBundleExecutable"@),
            Seq::empty(),
        ),
    }
}

/// The NIBs dumped successfully, in scan order.
pub open spec fn nibs_ok(n: Seq<(String, ToolRun)>) -> Seq<(Seq<char>, Seq<char>)>
    decreases n.len(),
{
    if n.len() == 0 {
        Seq::empty()
    } else {
        let rest = nibs_ok(n.drop_last());
        match n.last().1 {
            ToolRun::Done(x) => rest.push((n.last().0@, x@)),
            ToolRun::Failed(_) => rest,
        }
    }
}

/// `ibtool failed on <name>: <message>` for each NIB that could not be dumped.
pub open spec fn nibs_failed(n: Seq<(String, ToolRun)>) -> Seq<Seq<char>>
    decreases n.len(),
{
    if n.len() == 0 {
        Seq::empty()
    } else {
        let rest = nibs_failed(n.drop_last());
        match n.last().1 {
            ToolRun::Done(_) => rest,
            ToolRun::Failed(e) => rest.push("ibtool failed on "@ + n.last().0@ + ": "@ + e@),
        }
    }
}

/// The summary of a bundle: without a bundle only a diagnostic saying so;
/// otherwise the `Info.plist` fields, the dumped NIBs and the `Assets.car`
/// listing, and a diagnostic for each step that failed, in the order the
/// steps run.
pub open spec fn summary_of(bundle_found: bool, plist: InfoPlist, res: Option<ResourcesScan>) -> BundleView {
    if !bundle_found {
        BundleView {
            bundle_id: None, display_name: None, executable_name: None, nibs: Seq::empty(),
            assets_car_summary: None, diagnostics: seq!["couldn't locate .app bundle for executable"@],
        }
    } else {
        let p = plist_part(plist);
        match res {
            None => BundleView {
                bundle_id: p.0, display_name: p.1, executable_name: p.2, nibs: Seq::empty(),
                assets_car_summary: None, diagnostics: p.3,
            },
            Some(r) => {
                let (assets, assets_diag) = match r.assets_car {
                    Some(ToolRun::Done(x)) => (Some(x@), Seq::<Seq<char>>::empty()),
                    Some(ToolRun::Failed(e)) => (None, seq!["assetutil failed: "@ + e@]),
                    None => (None, Seq::<Seq<char>>::empty()),
                };
                BundleView {
                    bundle_id: p.0, display_name: p.1, executable_name: p.2, nibs: nibs_ok(r.nibs@),
                    assets_car_summary: assets, diagnostics: p.3 + nibs_failed(r.nibs@) + assets_diag,
                }
            },
        }
    }
}


fn push_diag(v: &mut Vec<String>, d: String)
    ensures
        string_views(final(v)@) == string_views(old(v)@).push(d@),
{
    v.push(d);
    proof { assert(string_views(v@) =~= string_views(old(v)@).push(d@)); }
}

/// Builds the summary of a bundle from what was found in it (see `summary_of`).
pub fn summarize_bundle(bundle_found: bool, plist: InfoPlist, resources: Option<ResourcesScan>) -> (r: BundleSummary)
    ensures
        r.view_bundle() == summary_of(bundle_found, plist, resources),
{
    let mut summary = BundleSummary::empty();
    if !bundle_found {
        push_diag(&mut summary.diagnostics, to_owned_string("couldn't locate .app bundle for executable"));
        proof { assert(summary.view_bundle().diagnostics =~= seq!["couldn't locate .app bundle for executable"@]); }
        return summary;
    }
    match &plist {
        InfoPlist::Missing => {
            push_diag(&mut summary.diagnostics, to_owned_string("no Info.plist in Contents/"));
        },
        InfoPlist::ParseError(e) => {
            let mut m = String::new();
            push_str(&mut m, "Info.plist parse error: ");
            push_str(&mut m, e.as_str());
            push_diag(&mut summary.diagnostics, m);
        },
        InfoPlist::NotADict => {
            push_diag(&mut summary.diagnostics, to_owned_string("Info.plist top-level wasn't a dict"));
        },
        InfoPlist::Dict(d) => {
            summary.bundle_id = match dict_lookup(d, "CFBundleIdentifier") { Some(v) => v, None => None };
            summary.display_name = match dict_lookup(d, "CFBundleDisplayName") {
                Some(v) => v,
                None => match dict_lookup(d, "CFBundleName") { Some(v) => v, None => None },
            };
            summary.executable_name = match dict_lookup(d, "CFBundleExecutable") { Some(v) => v, None => None };
        },
    }
    let ghost p = plist_part(plist);
    proof {
        assert(string_views(summary.diagnostics@) =~= p.3);
    }
    match resources {
        None => {},
        Some(scan) => {
            let ghost nibs_seq = scan.nibs@;
            let mut i: usize = 0;
            while i < scan.nibs.len()
                invariant
                    i <= scan.nibs@.len(),
                    nibs_seq == scan.nibs@,
                    nib_views(summary.nibs@) == nibs_ok(nibs_seq.take(i as int)),
                    string_views(summary.diagnostics@) == p.3 + nibs_failed(nibs_seq.take(i as int)),
                    opt_str(summary.bundle_id) == p.0,
                    opt_str(summary.display_name) == p.1,
                    opt_str(summary.executable_name) == p.2,
                    summary.assets_car_summary is None,
                decreases scan.nibs.len() - i,
            {
                proof {
                    assert(nibs_seq.take(i + 1).drop_last() == nibs_seq.take(i as int));
                    assert(nibs_seq.take(i + 1).last() == nibs_seq[i as int]);
                }
                match &scan.nibs[i].1 {
                    ToolRun::Done(x) => {
                        let ghost before = summary.nibs@;
                        summary.nibs.push(NibFile { name: scan.nibs[i].0.clone(), hierarchy_xml: x.clone() });
                        proof { assert(nib_views(summary.nibs@) =~= nib_views(before).push((scan.nibs@[i as int].0@, x@))); }
                    },
                    ToolRun::Failed(e) => {
                        let mut m = String::new();
                        push_str(&mut m, "ibtool failed on ");
                        push_str(&mut m, scan.nibs[i].0.as_str());
                        push_str(&mut m, ": ");
                        push_str(&mut m, e.as_str());
                        let ghost before = string_views(summary.diagnostics@);
                        push_diag(&mut summary.diagnostics, m);
                        proof { assert(string_views(summary.diagnostics@) =~= p.3 + nibs_failed(nibs_seq.take(i + 1))); }
                    },
                }
                i = i + 1;
            }
            proof { assert(nibs_seq.take(nibs_seq.len() as int) == nibs_seq); }
            match &scan.assets_car {
                Some(ToolRun::Done(x)) => {
                    summary.assets_car_summary = Some(x.clone());
                },
                Some(ToolRun::Failed(e)) => {
                    let mut m = String::new();
                    push_str(&mut m, "assetutil failed: ");
                    push_str(&mut m, e.as_str());
                    push_diag(&mut summary.diagnostics, m);
                },
                None => {},
            }
            proof {
                assert(summary.view_bundle().diagnostics =~= summary_of(bundle_found, plist, Some(scan)).diagnostics);
            }
        },
    }
    summary
}

} // verus!

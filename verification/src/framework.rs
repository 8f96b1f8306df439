//! Which UI framework an application is built on, judged from its files on
//! disk: the bundle layout around the executable, and the libraries its
//! binary links (Mach-O load commands or PE imports, read with `goblin`).
use vstd::prelude::*;
use crate::bundle::is_nib_name;
use crate::paths::{path_join, path_join_of, third_parent};
use crate::text::{has_substring, lowercase, starts_with, str_contains, str_starts_with, string_views, to_lowercase};

verus! {

/// The UI frameworks the extraction ladder distinguishes.
#[derive(Debug, Clone, Copy, PartialEq, Eq, Structural)]
pub enum Framework {
    /// Electron / Chromium-based: try asar, then CDP.
    Electron,
    /// .NET (WPF / WinUI / WinForms): try decompiling.
    DotNet,
    /// Qt: try resource extraction.
    Qt,
    /// Native AppKit / Cocoa: try NIBs, then accessibility.
    AppKitNative,
    /// Native Win32 without managed code: try PE resources.
    Win32Native,
    /// Could not tell: use the accessibility fallback.
    Unknown,
}

/// The name of a framework as `{:?}` prints it.
pub open spec fn framework_name(f: Framework) -> Seq<char> {
    match f {
        Framework::Electron => "Electron"@,
        Framework::DotNet => "DotNet"@,
        Framework::Qt => "Qt"@,
        Framework::AppKitNative => "AppKitNative"@,
        Framework::Win32Native => "Win32Native"@,
        Framework::Unknown => "Unknown"@,
    }
}

impl Framework {
    /// The variant's name, as `{:?}` prints it.
    pub fn name(&self) -> (r: &'static str)
        ensures
            r@ == framework_name(*self),
    {
        match self {
            Framework::Electron => "Electron",
            Framework::DotNet => "DotNet",
            Framework::Qt => "Qt",
            Framework::AppKitNative => "AppKitNative",
            Framework::Win32Native => "Win32Native",
            Framework::Unknown => "Unknown",
        }
    }
}

// ---------------------------------------------------------------------------
// Parsing the executable

/// What an executable's header says, as far as framework detection reads it.
pub enum ParsedBinary {
    /// A single-architecture Mach-O binary and the dylibs it loads.
    MachO(Vec<String>),
    /// A multi-architecture (fat) Mach-O container.
    MachFat,
    /// A PE image: the DLLs it imports and whether it has a CLR header.
    Pe { imports: Vec<String>, has_clr: bool },
    /// Any other object format.
    Other,
}

/// Plain view of a parsed header.
pub enum BinaryKind {
    MachO(Seq<Seq<char>>),
    MachFat,
    Pe(Seq<Seq<char>>, bool),
    Other,
}

impl ParsedBinary {
    pub open spec fn kind(&self) -> BinaryKind {
        match self {
            ParsedBinary::MachO(libs) => BinaryKind::MachO(string_views(libs@)),
            ParsedBinary::MachFat => BinaryKind::MachFat,
            ParsedBinary::Pe { imports, has_clr } => BinaryKind::Pe(string_views(imports@), *has_clr),
            ParsedBinary::Other => BinaryKind::Other,
        }
    }
}

/// The view of a parse outcome.
pub open spec fn parse_view(r: Result<ParsedBinary, String>) -> Result<BinaryKind, Seq<char>> {
    match r {
        Ok(b) => Ok(b.kind()),
        Err(e) => Err(e@),
    }
}

/// Name for what `goblin::Object::parse` makes of a byte string: the object
/// kind with the Mach-O dylibs, or the PE imports and CLR-header presence; or
/// the text of its error.
pub uninterp spec fn goblin_parse(bytes: Seq<u8>) -> Result<BinaryKind, Seq<char>>;

/// Parses an executable with `goblin::Object::parse`. Trusted: the outcome
/// depends on the bytes alone; for a Mach-O binary it lists `libs`, for a PE
/// image the `dll` of each import and whether the optional header's CLR
/// runtime data directory is present; an error is given by its text.
#[verifier::external_body]
pub(crate) fn parse_binary(bytes: &[u8]) -> (r: Result<ParsedBinary, String>)
    ensures
        parse_view(r) == goblin_parse(bytes@),
{
    match goblin::Object::parse(bytes) {
        Ok(goblin::Object::Mach(goblin::mach::Mach::Binary(m))) => Ok(ParsedBinary::MachO(m.libs.iter().map(|l| l.to_string()).collect())),
        Ok(goblin::Object::Mach(goblin::mach::Mach::Fat(_))) => Ok(ParsedBinary::MachFat),
        Ok(goblin::Object::PE(pe)) => Ok(ParsedBinary::Pe {
            imports: pe.imports.iter().map(|i| i.dll.to_string()).collect(),
            has_clr: pe.header.optional_header.as_ref().and_then(|oh| oh.data_directories.get_clr_runtime_header()).is_some(),
        }),
        Ok(_) => Ok(ParsedBinary::Other),
        Err(e) => Err(e.to_string()),
    }
}

// ---------------------------------------------------------------------------
// Verdicts from lists of names

/// Some element of `s` satisfies `f`.
pub open spec fn any_of(s: Seq<Seq<char>>, f: spec_fn(Seq<char>) -> bool) -> bool {
    exists|i: int| 0 <= i < s.len() && f(#[trigger] s[i])
}

/// What one lowercased entry of `Contents/Frameworks` says: Electron when
/// it mentions electron, Qt when it starts like a Qt framework.
pub open spec fn frameworks_entry_verdict(lower: Seq<char>) -> Option<Framework> {
    if has_substring(lower, "electron"@) {
        Some(Framework::Electron)
    } else if starts_with(lower, "qtcore"@) || starts_with(lower, "qt5"@) || starts_with(lower, "qt6"@) {
        Some(Framework::Qt)
    } else {
        None
    }
}

/// The verdict of the first entry, from position `i` on, that gives one.
pub open spec fn frameworks_verdict_from(lower: Seq<Seq<char>>, i: int) -> Option<Framework>
    decreases lower.len() - i,
{
    if i < 0 || i >= lower.len() {
        None
    } else {
        match frameworks_entry_verdict(lower[i]) {
            Some(f) => Some(f),
            None => frameworks_verdict_from(lower, i + 1),
        }
    }
}

fn frameworks_entry_verdict_exec(lower: &str) -> (r: Option<Framework>)
    ensures
        r == frameworks_entry_verdict(lower@),
{
    if str_contains(lower, "electron") {
        Some(Framework::Electron)
    } else if str_starts_with(lower, "qtcore") || str_starts_with(lower, "qt5") || str_starts_with(lower, "qt6") {
        Some(Framework::Qt)
    } else {
        None
    }
}

/// The verdict of the lowercased entries of `Contents/Frameworks`, in
/// directory order: the first entry that names Electron or Qt decides.
pub fn frameworks_dir_verdict(lower: &Vec<String>) -> (r: Option<Framework>)
    ensures
        r == frameworks_verdict_from(string_views(lower@), 0),
{
    let ghost v = string_views(lower@);
    let mut i: usize = 0;
    while i < lower.len()
        invariant
            i <= lower@.len(),
            v == string_views(lower@),
            frameworks_verdict_from(v, 0) == frameworks_verdict_from(v, i as int),
        decreases lower.len() - i,
    {
        let r = frameworks_entry_verdict_exec(lower[i].as_str());
        if r.is_some() {
            return r;
        }
        i = i + 1;
    }
    None
}

/// What the dylibs of a Mach-O binary say: Electron, then Qt, then AppKit.
pub open spec fn macho_libs_verdict(libs: Seq<Seq<char>>) -> Framework {
    if any_of(libs, |l: Seq<char>| has_substring(l, "Electron Framework"@)) {
        Framework::Electron
    } else if any_of(libs, |l: Seq<char>| starts_with(l, "@rpath/QtCore"@) || has_substring(l, "QtCore.framework"@)) {
        Framework::Qt
    } else if any_of(libs, |l: Seq<char>| has_substring(l, "AppKit.framework"@)) {
        Framework::AppKitNative
    } else {
        Framework::Unknown
    }
}

fn any_contains(s: &Vec<String>, needle: &str) -> (r: bool)
    ensures
        r == any_of(string_views(s@), |l: Seq<char>| has_substring(l, needle@)),
{
    let ghost v = string_views(s@);
    let mut i: usize = 0;
    while i < s.len()
        invariant
            i <= s@.len(),
            v == string_views(s@),
            forall|j: int| 0 <= j < i ==> !has_substring(#[trigger] v[j], needle@),
        decreases s.len() - i,
    {
        if str_contains(s[i].as_str(), needle) {
            proof { assert(has_substring(v[i as int], needle@)); }
            return true;
        }
        i = i + 1;
    }
    false
}

fn any_qt_core(s: &Vec<String>) -> (r: bool)
    ensures
        r == any_of(string_views(s@), |l: Seq<char>| starts_with(l, "@rpath/QtCore"@) || has_substring(l, "QtCore.framework"@)),
{
    let ghost v = string_views(s@);
    let mut i: usize = 0;
    while i < s.len()
        invariant
            i <= s@.len(),
            v == string_views(s@),
            forall|j: int| 0 <= j < i ==> !(starts_with(#[trigger] v[j], "@rpath/QtCore"@) || has_substring(v[j], "QtCore.framework"@)),
        decreases s.len() - i,
    {
        if str_starts_with(s[i].as_str(), "@rpath/QtCore") || str_contains(s[i].as_str(), "QtCore.framework") {
            proof { assert(starts_with(v[i as int], "@rpath/QtCore"@) || has_substring(v[i as int], "QtCore.framework"@)); }
            return true;
        }
        i = i + 1;
    }
    false
}

/// The framework the dylibs of a Mach-O binary point to.
pub fn macho_verdict(libs: &Vec<String>) -> (r: Framework)
    ensures
        r == macho_libs_verdict(string_views(libs@)),
{
    if any_contains(libs, "Electron Framework") {
        Framework::Electron
    } else if any_qt_core(libs) {
        Framework::Qt
    } else if any_contains(libs, "AppKit.framework") {
        Framework::AppKitNative
    } else {
        Framework::Unknown
    }
}

/// What the lowercased imports of a PE image say: .NET runtime hosts, then
/// Qt, then Node/Chromium (Electron); a PE image with none of them is
/// native Win32.
pub open spec fn pe_imports_verdict(lower: Seq<Seq<char>>) -> Framework {
    if any_of(lower, |d: Seq<char>| d == "mscoree.dll"@ || d == "coreclr.dll"@ || d == "hostfxr.dll"@) {
        Framework::DotNet
    } else if any_of(lower, |d: Seq<char>| starts_with(d, "qt5"@) || starts_with(d, "qt6"@)) {
        Framework::Qt
    } else if any_of(lower, |d: Seq<char>| has_substring(d, "node"@) || has_substring(d, "chrome_elf"@)) {
        Framework::Electron
    } else {
        Framework::Win32Native
    }
}

fn is_dotnet_host(d: &str) -> (r: bool)
    ensures
        r == (d@ == "mscoree.dll"@ || d@ == "coreclr.dll"@ || d@ == "hostfxr.dll"@),
{
    crate::text::str_eq(d, "mscoree.dll") || crate::text::str_eq(d, "coreclr.dll") || crate::text::str_eq(d, "hostfxr.dll")
}

/// The framework the lowercased DLL imports of a PE image point to.
pub fn pe_imports_framework(lower: &Vec<String>) -> (r: Framework)
    ensures
        r == pe_imports_verdict(string_views(lower@)),
{
    let ghost v = string_views(lower@);
    let mut i: usize = 0;
    while i < lower.len()
        invariant
            i <= lower@.len(),
            v == string_views(lower@),
            forall|j: int| 0 <= j < i ==> !(#[trigger] v[j] == "mscoree.dll"@ || v[j] == "coreclr.dll"@ || v[j] == "hostfxr.dll"@),
        decreases lower.len() - i,
    {
        if is_dotnet_host(lower[i].as_str()) {
            proof { assert(v[i as int] == "mscoree.dll"@ || v[i as int] == "coreclr.dll"@ || v[i as int] == "hostfxr.dll"@); }
            return Framework::DotNet;
        }
        i = i + 1;
    }
    let mut i: usize = 0;
    while i < lower.len()
        invariant
            i <= lower@.len(),
            v == string_views(lower@),
            forall|j: int| 0 <= j < i ==> !(starts_with(#[trigger] v[j], "qt5"@) || starts_with(v[j], "qt6"@)),
            forall|j: int| 0 <= j < v.len() ==> !(#[trigger] v[j] == "mscoree.dll"@ || v[j] == "coreclr.dll"@ || v[j] == "hostfxr.dll"@),
        decreases lower.len() - i,
    {
        if str_starts_with(lower[i].as_str(), "qt5") || str_starts_with(lower[i].as_str(), "qt6") {
            proof { assert(starts_with(v[i as int], "qt5"@) || starts_with(v[i as int], "qt6"@)); }
            return Framework::Qt;
        }
        i = i + 1;
    }
    let mut i: usize = 0;
    while i < lower.len()
        invariant
            i <= lower@.len(),
            v == string_views(lower@),
            forall|j: int| 0 <= j < i ==> !(has_substring(#[trigger] v[j], "node"@) || has_substring(v[j], "chrome_elf"@)),
            forall|j: int| 0 <= j < v.len() ==> !(#[trigger] v[j] == "mscoree.dll"@ || v[j] == "coreclr.dll"@ || v[j] == "hostfxr.dll"@),
            forall|j: int| 0 <= j < v.len() ==> !(starts_with(#[trigger] v[j], "qt5"@) || starts_with(v[j], "qt6"@)),
        decreases lower.len() - i,
    {
        if str_contains(lower[i].as_str(), "node") || str_contains(lower[i].as_str(), "chrome_elf") {
            proof { assert(has_substring(v[i as int], "node"@) || has_substring(v[i as int], "chrome_elf"@)); }
            return Framework::Electron;
        }
        i = i + 1;
    }
    Framework::Win32Native
}

/// The lowercased texts.
pub open spec fn lowered(s: Seq<Seq<char>>) -> Seq<Seq<char>> {
    s.map_values(|x: Seq<char>| lowercase(x))
}

fn lowercase_all(s: &Vec<String>) -> (r: Vec<String>)
    ensures
        string_views(r@) == lowered(string_views(s@)),
{
    let mut out: Vec<String> = Vec::new();
    let mut i: usize = 0;
    while i < s.len()
        invariant
            i <= s@.len(),
            string_views(out@) == lowered(string_views(s@.take(i as int))),
        decreases s.len() - i,
    {
        let l = to_lowercase(s[i].as_str());
        let ghost before = out@;
        out.push(l);
        proof {
            assert(string_views(out@) =~= string_views(before).push(lowercase(s@[i as int]@)));
            assert(lowered(string_views(s@.take(i + 1))) =~= lowered(string_views(s@.take(i as int))).push(lowercase(s@[i as int]@)));
        }
        i = i + 1;
    }
    proof { assert(s@.take(s@.len() as int) =~= s@); }
    out
}

// ---------------------------------------------------------------------------
// What the file system shows

/// The paths around a macOS executable that detection looks at.
pub struct MacProbePaths {
    /// `<bundle>/Contents/Frameworks`
    pub frameworks_dir: String,
    /// `<bundle>/Contents/Frameworks/Electron Framework.framework`
    pub electron_framework: String,
    /// `<bundle>/Contents/Resources`
    pub resources_dir: String,
    /// `<bundle>/Contents/Resources/app.asar`
    pub app_asar: String,
}

/// The paths to look at, from the bundle root three levels above the
/// executable (`Foo.app/Contents/MacOS/Foo`); none without such a root.
pub open spec fn mac_probe_paths_of(executable: Seq<char>) -> Option<(Seq<char>, Seq<char>, Seq<char>, Seq<char>)> {
    match third_parent(executable) {
        Some(root) => {
            let contents = path_join_of(root, "Contents"@);
            let fw = path_join_of(contents, "Frameworks"@);
            let res = path_join_of(contents, "Resources"@);
            Some((fw, path_join_of(fw, "Electron Framework.framework"@), res, path_join_of(res, "app.asar"@)))
        },
        None => None,
    }
}

/// Computes the paths to look at around a macOS executable.
pub fn mac_probe_paths(executable: &str) -> (r: Option<MacProbePaths>)
    ensures
        match r {
            Some(p) => mac_probe_paths_of(executable@) == Some(
                (p.frameworks_dir@, p.electron_framework@, p.resources_dir@, p.app_asar@),
            ),
            None => mac_probe_paths_of(executable@) is None,
        },
{
    match crate::paths::bundle_root_for_executable(executable) {
        Some(root) => {
            let contents = path_join(root.as_str(), "Contents");
            let fw = path_join(contents.as_str(), "Frameworks");
            let electron = path_join(fw.as_str(), "Electron Framework.framework");
            let res = path_join(contents.as_str(), "Resources");
            let asar = path_join(res.as_str(), "app.asar");
            Some(MacProbePaths { frameworks_dir: fw, electron_framework: electron, resources_dir: res, app_asar: asar })
        },
        None => None,
    }
}

/// What the file system showed at the paths of [`MacProbePaths`].
pub struct MacBundleProbe {
    pub frameworks_dir_exists: bool,
    pub electron_framework_exists: bool,
    /// File names in `Contents/Frameworks`, in directory order (empty when
    /// it could not be read).
    pub frameworks_entries: Vec<String>,
    pub app_asar_exists: bool,
    pub resources_dir_exists: bool,
    /// File names in `Contents/Resources`, in directory order (empty when it
    /// could not be read).
    pub resources_entries: Vec<String>,
    /// The executable's bytes, when they could be read.
    pub executable_bytes: Option<Vec<u8>>,
}

/// What the file system showed around a Windows executable.
pub struct WinProbe {
    /// `resources\app.asar` beside the executable exists.
    pub sibling_asar_exists: bool,
    /// The executable's bytes, when they could be read.
    pub executable_bytes: Option<Vec<u8>>,
}

/// The path of `resources\app.asar` beside a Windows executable; none when
/// the path has no parent.
pub fn win_probe_path(executable: &str) -> (r: Option<String>)
    ensures
        match r {
            Some(p) => match crate::paths::path_parent_of(executable@) {
                Some(parent) => p@ == path_join_of(path_join_of(parent, "resources"@), "app.asar"@),
                None => false,
            },
            None => crate::paths::path_parent_of(executable@) is None,
        },
{
    match crate::paths::path_parent(executable) {
        Some(parent) => {
            let res = path_join(parent.as_str(), "resources");
            Some(path_join(res.as_str(), "app.asar"))
        },
        None => None,
    }
}

/// What detection knows about an executable.
pub enum ExecutableProbe {
    /// The path does not exist.
    Missing,
    /// On macOS; `None` when the executable has no bundle root.
    MacOs(Option<MacBundleProbe>),
    /// On Windows.
    Windows(WinProbe),
    /// On another platform.
    Other,
}

/// Some resource is a NIB or a compiled storyboard.
pub open spec fn any_nib(names: Seq<Seq<char>>) -> bool {
    any_of(names, |n: Seq<char>| is_nib_name(n))
}

/// The framework of a parsed macOS executable: from its dylibs when it is a
/// single Mach-O binary (fat binaries are not looked into).
pub open spec fn macho_binary_verdict(parsed: Result<BinaryKind, Seq<char>>) -> Framework {
    match parsed {
        Ok(BinaryKind::MachO(libs)) => macho_libs_verdict(libs),
        Ok(BinaryKind::MachFat) => macho_libs_verdict(Seq::empty()),
        _ => Framework::Unknown,
    }
}

/// The framework a macOS bundle shows, in the order of the checks: the
/// Electron framework folder, the entries of `Contents/Frameworks`, an
/// `app.asar`, NIB resources, and last the executable's dylibs.
pub open spec fn mac_verdict(p: MacBundleProbe) -> Framework {
    if p.frameworks_dir_exists && p.electron_framework_exists {
        Framework::Electron
    } else if p.frameworks_dir_exists && frameworks_verdict_from(lowered(string_views(p.frameworks_entries@)), 0) is Some {
        frameworks_verdict_from(lowered(string_views(p.frameworks_entries@)), 0)->0
    } else if p.app_asar_exists {
        Framework::Electron
    } else if p.resources_dir_exists && any_nib(string_views(p.resources_entries@)) {
        Framework::AppKitNative
    } else {
        match p.executable_bytes {
            Some(b) => macho_binary_verdict(goblin_parse(b@)),
            None => Framework::Unknown,
        }
    }
}

/// The framework of a parsed macOS executable.
pub fn macho_framework(parsed: &Result<ParsedBinary, String>) -> (r: Framework)
    ensures
        r == macho_binary_verdict(parse_view(*parsed)),
{
    match parsed {
        Ok(ParsedBinary::MachO(libs)) => macho_verdict(libs),
        Ok(ParsedBinary::MachFat) => {
            let none: Vec<String> = Vec::new();
            let r = macho_verdict(&none);
            proof { assert(string_views(none@) =~= Seq::<Seq<char>>::empty()); }
            r
        },
        _ => Framework::Unknown,
    }
}

fn any_nib_exec(names: &Vec<String>) -> (r: bool)
    ensures
        r == any_nib(string_views(names@)),
{
    let ghost v = string_views(names@);
    let mut i: usize = 0;
    while i < names.len()
        invariant
            i <= names@.len(),
            v == string_views(names@),
            forall|j: int| 0 <= j < i ==> !is_nib_name(#[trigger] v[j]),
        decreases names.len() - i,
    {
        if crate::bundle::is_nib_resource(names[i].as_str()) {
            proof { assert(is_nib_name(v[i as int])); }
            return true;
        }
        i = i + 1;
    }
    false
}

/// Decides the framework of a macOS application from what its bundle shows.
pub fn detect_macos(p: &MacBundleProbe) -> (r: Framework)
    ensures
        r == mac_verdict(*p),
{
    if p.frameworks_dir_exists {
        if p.electron_framework_exists {
            return Framework::Electron;
        }
        let lower = lowercase_all(&p.frameworks_entries);
        let v = frameworks_dir_verdict(&lower);
        match v {
            Some(f) => { return f; },
            None => {},
        }
    }
    if p.app_asar_exists {
        return Framework::Electron;
    }
    if p.resources_dir_exists && any_nib_exec(&p.resources_entries) {
        return Framework::AppKitNative;
    }
    match &p.executable_bytes {
        Some(b) => {
            let parsed = parse_binary(b.as_slice());
            macho_framework(&parsed)
        },
        None => Framework::Unknown,
    }
}

/// The framework of a Windows application from what its files show: an
/// `app.asar` beside it, else its PE imports.
pub open spec fn win_verdict(p: WinProbe) -> Framework {
    if p.sibling_asar_exists {
        Framework::Electron
    } else {
        match p.executable_bytes {
            Some(b) => match goblin_parse(b@) {
                Ok(BinaryKind::Pe(imports, _)) => pe_imports_verdict(lowered(imports)),
                _ => Framework::Unknown,
            },
            None => Framework::Unknown,
        }
    }
}

/// macOS detection reads the names in `Contents/Frameworks` without regard
/// to case: two bundles that differ only in those names, and agree on them
/// name by name once lowercased, get the same verdict.
pub proof fn law_macos_detection_ignores_case(p: MacBundleProbe, q: MacBundleProbe)
    requires
        q.frameworks_dir_exists == p.frameworks_dir_exists,
        q.electron_framework_exists == p.electron_framework_exists,
        q.app_asar_exists == p.app_asar_exists,
        q.resources_dir_exists == p.resources_dir_exists,
        string_views(q.resources_entries@) == string_views(p.resources_entries@),
        q.executable_bytes == p.executable_bytes,
        q.frameworks_entries@.len() == p.frameworks_entries@.len(),
        forall|i: int| 0 <= i < p.frameworks_entries@.len()
            ==> lowercase(#[trigger] p.frameworks_entries@[i]@) == lowercase(q.frameworks_entries@[i]@),
    ensures
        mac_verdict(p) == mac_verdict(q),
{
    let lp = lowered(string_views(p.frameworks_entries@));
    let lq = lowered(string_views(q.frameworks_entries@));
    assert forall|i: int| 0 <= i < lp.len() implies lp[i] == lq[i] by {
        assert(lowercase(p.frameworks_entries@[i]@) == lowercase(q.frameworks_entries@[i]@));
    }
    assert(lp =~= lq);
}

/// Windows detection reads DLL names without regard to case: two PE images,
/// neither with an `app.asar` beside it, whose import lists agree name by
/// name once lowercased get the same verdict.
pub proof fn law_windows_detection_ignores_case(
    p: WinProbe,
    q: WinProbe,
    ip: Seq<Seq<char>>,
    iq: Seq<Seq<char>>,
    cp: bool,
    cq: bool,
)
    requires
        !p.sibling_asar_exists,
        !q.sibling_asar_exists,
        p.executable_bytes matches Some(b) && goblin_parse(b@) == Ok::<BinaryKind, Seq<char>>(BinaryKind::Pe(ip, cp)),
        q.executable_bytes matches Some(b) && goblin_parse(b@) == Ok::<BinaryKind, Seq<char>>(BinaryKind::Pe(iq, cq)),
        ip.len() == iq.len(),
        forall|i: int| 0 <= i < ip.len() ==> lowercase(#[trigger] ip[i]) == lowercase(iq[i]),
    ensures
        win_verdict(p) == win_verdict(q),
{
    assert(lowered(ip) =~= lowered(iq));
}

/// A PE image without an `app.asar` beside it is Qt when one of its imports,
/// lowercased, starts with `qt5` or `qt6` and none, lowercased, is a .NET
/// runtime host (`mscoree.dll`, `coreclr.dll`, `hostfxr.dll`).
pub proof fn law_windows_qt_imports(p: WinProbe, imports: Seq<Seq<char>>, clr: bool, k: int)
    requires
        !p.sibling_asar_exists,
        p.executable_bytes matches Some(b) && goblin_parse(b@) == Ok::<BinaryKind, Seq<char>>(BinaryKind::Pe(imports, clr)),
        0 <= k < imports.len(),
        starts_with(lowercase(imports[k]), "qt5"@) || starts_with(lowercase(imports[k]), "qt6"@),
        forall|i: int| 0 <= i < imports.len() ==> {
            let d = lowercase(#[trigger] imports[i]);
            d != "mscoree.dll"@ && d != "coreclr.dll"@ && d != "hostfxr.dll"@
        },
    ensures
        win_verdict(p) == Framework::Qt,
{
    let l = lowered(imports);
    assert(l[k] == lowercase(imports[k]));
    assert(forall|i: int| 0 <= i < l.len() ==> #[trigger] l[i] == lowercase(imports[i]));
}

/// Decides the framework of a Windows application from what its files show.
pub fn detect_windows(p: &WinProbe) -> (r: Framework)
    ensures
        r == win_verdict(*p),
{
    if p.sibling_asar_exists {
        return Framework::Electron;
    }
    match &p.executable_bytes {
        Some(b) => {
            let parsed = parse_binary(b.as_slice());
            match &parsed {
                Ok(ParsedBinary::Pe { imports, has_clr: _ }) => {
                    let lower = lowercase_all(imports);
                    pe_imports_framework(&lower)
                },
                _ => Framework::Unknown,
            }
        },
        None => Framework::Unknown,
    }
}

/// The framework detection decides for a probe.
pub open spec fn probe_verdict(p: ExecutableProbe) -> Framework {
    match p {
        ExecutableProbe::Missing => Framework::Unknown,
        ExecutableProbe::MacOs(Some(m)) => mac_verdict(m),
        ExecutableProbe::MacOs(None) => Framework::Unknown,
        ExecutableProbe::Windows(w) => win_verdict(w),
        ExecutableProbe::Other => Framework::Unknown,
    }
}

/// Detects the framework of an application from what its executable's
/// surroundings show: nothing is known of a missing executable or on other
/// platforms.
pub fn detect(probe: &ExecutableProbe) -> (r: Framework)
    ensures
        r == probe_verdict(*probe),
{
    match probe {
        ExecutableProbe::Missing => Framework::Unknown,
        ExecutableProbe::MacOs(Some(m)) => detect_macos(m),
        ExecutableProbe::MacOs(None) => Framework::Unknown,
        ExecutableProbe::Windows(w) => detect_windows(w),
        ExecutableProbe::Other => Framework::Unknown,
    }
}

} // verus!

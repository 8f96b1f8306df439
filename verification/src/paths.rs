//! File-system locations the library derives from an executable's path or
//! the user's home directory. Paths are handled as text; `std::path` does the
//! splitting and joining.
use vstd::prelude::*;
use crate::text::{push_decimal, push_str, decimal, to_owned_string};

verus! {

/// The operating system the paths are laid out for.
#[derive(Debug, Clone, Copy, PartialEq, Eq, Structural)]
pub enum HostOs {
    MacOs,
    Windows,
    Other,
}

/// What `Path::parent` gives for a path, as text.
pub uninterp spec fn path_parent_of(p: Seq<char>) -> Option<Seq<char>>;

/// What `Path::join` gives for a base path and a relative component, as text.
pub uninterp spec fn path_join_of(base: Seq<char>, part: Seq<char>) -> Seq<char>;

/// `std::path::Path::parent` on a textual path. Trusted: the result is the
/// parent's text when there is a parent, and depends on the path alone.
#[verifier::external_body]
pub(crate) fn path_parent(p: &str) -> (r: Option<String>)
    ensures
        match r {
            Some(q) => path_parent_of(p@) == Some(q@),
            None => path_parent_of(p@) is None,
        },
{
    std::path::Path::new(p).parent().map(|q| q.to_string_lossy().into_owned())
}

/// `std::path::Path::join` on textual paths. Trusted: the result depends on
/// the two texts alone.
#[verifier::external_body]
pub(crate) fn path_join(base: &str, part: &str) -> (r: String)
    ensures
        r@ == path_join_of(base@, part@),
{
    std::path::Path::new(base).join(part).to_string_lossy().into_owned()
}

/// `p` followed by the three parents `Path::parent` gives, when all exist.
pub open spec fn third_parent(p: Seq<char>) -> Option<Seq<char>> {
    match path_parent_of(p) {
        Some(a) => match path_parent_of(a) {
            Some(b) => path_parent_of(b),
            None => None,
        },
        None => None,
    }
}

/// The `.app` bundle holding an executable `<bundle>.app/Contents/MacOS/<name>`:
/// three directories up.
pub fn bundle_root_for_executable(executable: &str) -> (r: Option<String>)
    ensures
        match r {
            Some(b) => third_parent(executable@) == Some(b@),
            None => third_parent(executable@) is None,
        },
{
    match path_parent(executable) {
        Some(a) => match path_parent(a.as_str()) {
            Some(b) => path_parent(b.as_str()),
            None => None,
        },
        None => None,
    }
}

/// Where an Electron application keeps `app.asar`: on macOS
/// `<bundle>/Contents/Resources/app.asar`, on Windows `resources\app.asar`
/// beside the executable; elsewhere nowhere.
pub open spec fn asar_candidate_of(executable: Seq<char>, os: HostOs) -> Option<Seq<char>> {
    match os {
        HostOs::MacOs => match third_parent(executable) {
            Some(root) => Some(path_join_of(path_join_of(path_join_of(root, "Contents"@), "Resources"@), "app.asar"@)),
            None => None,
        },
        HostOs::Windows => match path_parent_of(executable) {
            Some(dir) => Some(path_join_of(path_join_of(dir, "resources"@), "app.asar"@)),
            None => None,
        },
        HostOs::Other => None,
    }
}

/// The path at which an executable's `app.asar` would be.
pub fn asar_candidate(executable: &str, os: HostOs) -> (r: Option<String>)
    ensures
        match r {
            Some(c) => asar_candidate_of(executable@, os) == Some(c@),
            None => asar_candidate_of(executable@, os) is None,
        },
{
    match os {
        HostOs::MacOs => match bundle_root_for_executable(executable) {
            Some(root) => {
                let a = path_join(root.as_str(), "Contents");
                let b = path_join(a.as_str(), "Resources");
                Some(path_join(b.as_str(), "app.asar"))
            },
            None => None,
        },
        HostOs::Windows => match path_parent(executable) {
            Some(dir) => {
                let a = path_join(dir.as_str(), "resources");
                Some(path_join(a.as_str(), "app.asar"))
            },
            None => None,
        },
        HostOs::Other => None,
    }
}

/// Locates an Electron application's `app.asar`: the candidate path, when
/// `exists` reports that it is there.
pub fn find_asar_for_executable<F: Fn(&str) -> bool>(executable: &str, os: HostOs, is_present: F) -> (r: Option<String>)
    requires
        forall|s: &str| #[trigger] is_present.requires((s,)),
    ensures
        match r {
            Some(c) => asar_candidate_of(executable@, os) == Some(c@)
                && exists|s: &str| s@ == c@ && #[trigger] is_present.ensures((s,), true),
            None => match asar_candidate_of(executable@, os) {
                Some(c) => exists|s: &str| s@ == c && #[trigger] is_present.ensures((s,), false),
                None => true,
            },
        },
{
    match asar_candidate(executable, os) {
        Some(c) => {
            let cs = c.as_str();
            if is_present(cs) {
                Some(c)
            } else {
                None
            }
        },
        None => None,
    }
}


/// The directory holding the settings file: under the home directory (the
/// current directory when `HOME` is unset), `Library/Application Support/VibeExtract`
/// on macOS and `.config/VibeExtract` elsewhere.
pub open spec fn settings_dir_of(home: Option<Seq<char>>, os: HostOs) -> Seq<char> {
    let base = match home { Some(h) => h, None => "."@ };
    match os {
        HostOs::MacOs => path_join_of(path_join_of(path_join_of(base, "Library"@), "Application Support"@), "VibeExtract"@),
        _ => path_join_of(path_join_of(base, ".config"@), "VibeExtract"@),
    }
}

/// The settings directory for a home directory and operating system.
pub fn settings_dir(home: Option<&str>, os: HostOs) -> (r: String)
    ensures
        r@ == settings_dir_of(match home { Some(h) => Some(h@), None => None }, os),
{
    let base = match home {
        Some(h) => to_owned_string(h),
        None => to_owned_string("."),
    };
    match os {
        HostOs::MacOs => {
            let a = path_join(base.as_str(), "Library");
            let b = path_join(a.as_str(), "Application Support");
            path_join(b.as_str(), "VibeExtract")
        },
        _ => {
            let a = path_join(base.as_str(), ".config");
            path_join(a.as_str(), "VibeExtract")
        },
    }
}

/// The settings file: `settings.json` in the settings directory.
pub fn settings_path(home: Option<&str>, os: HostOs) -> (r: String)
    ensures
        r@ == path_join_of(settings_dir_of(match home { Some(h) => Some(h@), None => None }, os), "settings.json"@),
{
    let d = settings_dir(home, os);
    path_join(d.as_str(), "settings.json")
}

/// Name of the temporary file a save writes before renaming it over the
/// settings file: `settings.json.tmp.<pid>`.
pub fn settings_tmp_name(pid: u32) -> (r: String)
    ensures
        r@ == "settings.json.tmp."@ + decimal(pid as nat),
{
    let mut s = String::new();
    push_str(&mut s, "settings.json.tmp.");
    push_decimal(&mut s, pid as u64);
    s
}

} // verus!

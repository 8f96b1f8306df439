//! Finding the `.xaml` files in a tree of decompiled .NET sources.
use vstd::prelude::*;
use crate::text::string_views;

verus! {

/// One entry of a directory tree as listed on disk: its path, whether it is
/// a directory, and, for a directory, its entries in listing order (empty
/// when it could not be read).
pub struct FsEntry {
    pub path: String,
    pub is_dir: bool,
    pub children: Vec<FsEntry>,
}

/// Name for what `std::path::Path::extension` gives for a path, as text.
pub uninterp spec fn path_extension_of(p: Seq<char>) -> Option<Seq<char>>;

/// `std::path::Path::extension`, as text. Trusted: the result depends on the
/// path alone.
#[verifier::external_body]
fn path_extension(p: &str) -> (r: Option<String>)
    ensures
        match r {
            Some(e) => path_extension_of(p@) == Some(e@),
            None => path_extension_of(p@) is None,
        },
{
    std::path::Path::new(p).extension().and_then(|s| s.to_str()).map(|s| s.to_string())
}

/// Whether a file's extension is `xaml`.
pub open spec fn is_xaml(p: Seq<char>) -> bool {
    path_extension_of(p) == Some("xaml"@)
}

/// The `.xaml` files of an entry: a directory's found depth-first in
/// listing order, a file itself when it is one.
pub open spec fn xaml_in_entry(e: FsEntry) -> Seq<Seq<char>>
    decreases e,
{
    if e.is_dir {
        xaml_in_list(e.children@, e.children@.len() as int)
    } else if is_xaml(e.path@) {
        seq![e.path@]
    } else {
        Seq::empty()
    }
}

/// The `.xaml` files of the first `k` entries.
pub open spec fn xaml_in_list(c: Seq<FsEntry>, k: int) -> Seq<Seq<char>>
    decreases c, k,
{
    if k <= 0 || k > c.len() {
        Seq::empty()
    } else {
        xaml_in_list(c, k - 1) + xaml_in_entry(c[k - 1])
    }
}

fn is_xaml_exec(p: &str) -> (r: bool)
    ensures
        r == is_xaml(p@),
{
    match path_extension(p) {
        Some(e) => crate::text::str_eq(e.as_str(), "xaml"),
        None => false,
    }
}

fn collect_xaml(e: &FsEntry, out: &mut Vec<String>)
    ensures
        string_views(final(out)@) == string_views(old(out)@) + xaml_in_entry(*e),
    decreases e,
{
    if e.is_dir {
        let ghost head = string_views(out@);
        let mut i: usize = 0;
        while i < e.children.len()
            invariant
                i <= e.children@.len(),
                string_views(out@) == head + xaml_in_list(e.children@, i as int),
            decreases e.children.len() - i,
        {
            collect_xaml(&e.children[i], out);
            proof {
                assert(head + xaml_in_list(e.children@, i + 1) =~= head + xaml_in_list(e.children@, i as int)
                    + xaml_in_entry(e.children@[i as int]));
            }
            i = i + 1;
        }
    } else if is_xaml_exec(e.path.as_str()) {
        let ghost before = out@;
        out.push(e.path.clone());
        proof { assert(string_views(out@) =~= string_views(before) + seq![e.path@]); }
    } else {
        proof { assert(string_views(out@) =~= string_views(old(out)@) + Seq::<Seq<char>>::empty()); }
    }
}

/// The `.xaml` files under a directory, given its entries: every file whose
/// extension is `xaml`, depth-first in listing order.
pub fn find_xaml_files(entries: &Vec<FsEntry>) -> (r: Vec<String>)
    ensures
        string_views(r@) == xaml_in_list(entries@, entries@.len() as int),
{
    let mut out: Vec<String> = Vec::new();
    let mut i: usize = 0;
    proof { assert(string_views(out@) =~= Seq::<Seq<char>>::empty()); }
    while i < entries.len()
        invariant
            i <= entries@.len(),
            string_views(out@) == xaml_in_list(entries@, i as int),
        decreases entries.len() - i,
    {
        collect_xaml(&entries[i], &mut out);
        i = i + 1;
    }
    out
}

} // verus!

//! A summary of a Windows executable: its DLL imports and whether it is a
//! .NET assembly.
use vstd::prelude::*;
use crate::framework::{goblin_parse, parse_binary, parse_view, BinaryKind, ParsedBinary};
use crate::text::{string_views, to_owned_string};

verus! {

/// What a PE image shows: whether it carries a CLR header (a .NET
/// assembly), the DLLs it imports, its manifest, and diagnostics.
#[derive(Debug, Clone)]
pub struct PeSummary {
    pub is_dotnet: bool,
    pub imports: Vec<String>,
    pub manifest_xml: Option<String>,
    pub diagnostics: Vec<String>,
}

impl Default for PeSummary {
    fn default() -> (r: Self)
        ensures
            !r.is_dotnet,
            r.imports@.len() == 0,
            r.manifest_xml is None,
            r.diagnostics@.len() == 0,
    {
        PeSummary { is_dotnet: false, imports: Vec::new(), manifest_xml: None, diagnostics: Vec::new() }
    }
}

/// The diagnostic for an executable that is not a PE image.
pub const NOT_A_PE_FILE: &'static str = "not a PE file — expected on macOS executable";

/// Plain view of a summary: CLR header, imports, manifest, diagnostics.
pub open spec fn pe_summary_view(s: PeSummary) -> (bool, Seq<Seq<char>>, Option<Seq<char>>, Seq<Seq<char>>) {
    (
        s.is_dotnet,
        string_views(s.imports@),
        match s.manifest_xml { Some(m) => Some(m@), None => None },
        string_views(s.diagnostics@),
    )
}

/// The summary a parse outcome gives: the imports and CLR header of a PE
/// image; for another object an empty summary with one diagnostic; the
/// parser's error otherwise.
pub open spec fn pe_summary_of(parsed: Result<BinaryKind, Seq<char>>) -> Result<(bool, Seq<Seq<char>>, Option<Seq<char>>, Seq<Seq<char>>), Seq<char>> {
    match parsed {
        Ok(BinaryKind::Pe(imports, clr)) => Ok((clr, imports, None, Seq::empty())),
        Ok(_) => Ok((false, Seq::empty(), None, seq![NOT_A_PE_FILE@])),
        Err(e) => Err(e),
    }
}

/// Summarizes a parsed executable.
pub fn pe_summary_from(parsed: Result<ParsedBinary, String>) -> (r: Result<PeSummary, String>)
    ensures
        match r {
            Ok(s) => pe_summary_of(parse_view(parsed)) == Ok::<_, Seq<char>>(pe_summary_view(s)),
            Err(e) => pe_summary_of(parse_view(parsed)) == Err::<(bool, Seq<Seq<char>>, Option<Seq<char>>, Seq<Seq<char>>), _>(e@),
        },
{
    match parsed {
        Ok(ParsedBinary::Pe { imports, has_clr }) => {
            let s = PeSummary { is_dotnet: has_clr, imports, manifest_xml: None, diagnostics: Vec::new() };
            proof { assert(string_views(s.diagnostics@) =~= Seq::<Seq<char>>::empty()); }
            Ok(s)
        },
        Ok(_) => {
            let mut d: Vec<String> = Vec::new();
            d.push(to_owned_string(NOT_A_PE_FILE));
            let s = PeSummary { is_dotnet: false, imports: Vec::new(), manifest_xml: None, diagnostics: d };
            proof {
                assert(string_views(s.imports@) =~= Seq::<Seq<char>>::empty());
                assert(string_views(s.diagnostics@) =~= seq![NOT_A_PE_FILE@]);
            }
            Ok(s)
        },
        Err(e) => Err(e),
    }
}

/// Summarizes an executable from its bytes, parsed with `goblin`.
pub fn pe_summary_of_bytes(bytes: &[u8]) -> (r: Result<PeSummary, String>)
    ensures
        match r {
            Ok(s) => pe_summary_of(goblin_parse(bytes@)) == Ok::<_, Seq<char>>(pe_summary_view(s)),
            Err(e) => pe_summary_of(goblin_parse(bytes@)) == Err::<(bool, Seq<Seq<char>>, Option<Seq<char>>, Seq<Seq<char>>), _>(e@),
        },
{
    let parsed = parse_binary(bytes);
    pe_summary_from(parsed)
}

} // verus!

//! The header of an Electron `.asar` archive.
//!
//! An archive starts with a pickle-style prefix of four little-endian `u32`
//! words (`4`, header size + 8, header size + 4, header string length); the
//! JSON manifest of the contents follows, padded with NUL bytes.
use vstd::prelude::*;

verus! {

#[verifier::external_type_specification]
#[verifier::external_body]
pub struct ExJsonValue(serde_json::Value);

/// Length of the archive prefix that precedes the JSON header.
pub const ASAR_PREFIX_LEN: usize = 16;

/// The little-endian `u32` of four bytes.
pub open spec fn le_u32(b0: u8, b1: u8, b2: u8, b3: u8) -> nat {
    (b0 + 256 * b1 + 65536 * b2 + 16777216 * b3) as nat
}

/// The length of the JSON header string, read from bytes 12..16 of the
/// archive prefix.
pub fn asar_header_len(prefix: &[u8]) -> (r: usize)
    requires
        prefix@.len() >= 16,
    ensures
        r == le_u32(prefix@[12], prefix@[13], prefix@[14], prefix@[15]),
{
    let b0 = prefix[12] as u32;
    let b1 = prefix[13] as u32;
    let b2 = prefix[14] as u32;
    let b3 = prefix[15] as u32;
    let v: u32 = b0 + 256 * b1 + 65536 * b2 + 16777216 * b3;
    v as usize
}

/// The bytes without their trailing NUL padding.
pub open spec fn without_trailing_nuls(s: Seq<u8>) -> Seq<u8>
    decreases s.len(),
{
    if s.len() > 0 && s.last() == 0 { without_trailing_nuls(s.drop_last()) } else { s }
}

/// Trimming leaves a prefix of the bytes that does not end in NUL, and
/// trimming again changes nothing.
pub proof fn law_trim_leaves_no_trailing_nul(s: Seq<u8>)
    ensures
        without_trailing_nuls(s).is_prefix_of(s),
        without_trailing_nuls(s).len() == 0 || without_trailing_nuls(s).last() != 0,
        without_trailing_nuls(without_trailing_nuls(s)) == without_trailing_nuls(s),
    decreases s.len(),
{
    if s.len() > 0 && s.last() == 0 {
        law_trim_leaves_no_trailing_nul(s.drop_last());
        let t = without_trailing_nuls(s.drop_last());
        assert(s.take(t.len() as int) =~= s.drop_last().take(t.len() as int));
    } else {
        assert(s.take(s.len() as int) =~= s);
    }
}

/// Drops the NUL bytes at the end of the header.
pub fn trim_trailing_nuls(bytes: Vec<u8>) -> (r: Vec<u8>)
    ensures
        r@ == without_trailing_nuls(bytes@),
{
    let mut b = bytes;
    while b.len() > 0 && b[b.len() - 1] == 0
        invariant
            without_trailing_nuls(b@) == without_trailing_nuls(bytes@),
        decreases b.len(),
    {
        b.pop();
    }
    b
}

/// Name for what `serde_json::from_slice::<serde_json::Value>` gives for a
/// byte string: the parsed value, or the text of its error.
pub uninterp spec fn json_parsed(bytes: Seq<u8>) -> Result<serde_json::Value, Seq<char>>;

/// Parses bytes as JSON with `serde_json::from_slice`. Trusted: the parsed
/// value, or the error text, depends on the bytes alone.
#[verifier::external_body]
fn parse_json(bytes: &[u8]) -> (r: Result<serde_json::Value, String>)
    ensures
        match r {
            Ok(v) => json_parsed(bytes@) == Ok::<serde_json::Value, Seq<char>>(v),
            Err(e) => json_parsed(bytes@) == Err::<serde_json::Value, Seq<char>>(e@),
        },
{
    serde_json::from_slice::<serde_json::Value>(bytes).map_err(|e| e.to_string())
}

/// Parses the JSON header of an archive: the header string as read after the
/// prefix, without its trailing NUL padding, gives the value or the error.
pub fn parse_asar_header(raw: Vec<u8>) -> (r: Result<serde_json::Value, String>)
    ensures
        match r {
            Ok(v) => json_parsed(without_trailing_nuls(raw@)) == Ok::<serde_json::Value, Seq<char>>(v),
            Err(e) => json_parsed(without_trailing_nuls(raw@)) == Err::<serde_json::Value, Seq<char>>(e@),
        },
{
    let trimmed = trim_trailing_nuls(raw);
    parse_json(trimmed.as_slice())
}

/// The message of a read that ends before the bytes it needs.
pub const SHORT_READ: &'static str = "failed to fill whole buffer";

/// The header of an archive from its leading bytes: the header length is
/// read from the prefix, the header string follows it; fewer bytes than
/// either needs is a short read.
pub fn asar_header_from_bytes(b: &[u8]) -> (r: Result<serde_json::Value, String>)
    ensures
        b@.len() < 16 ==> (r matches Err(m) && m@ == SHORT_READ@),
        b@.len() >= 16 ==> {
            let len = le_u32(b@[12], b@[13], b@[14], b@[15]);
            &&& b@.len() < 16 + len ==> (r matches Err(m) && m@ == SHORT_READ@)
            &&& b@.len() >= 16 + len ==> match r {
                Ok(v) => json_parsed(without_trailing_nuls(b@.subrange(16, 16 + len as int))) == Ok::<serde_json::Value, Seq<char>>(v),
                Err(e) => json_parsed(without_trailing_nuls(b@.subrange(16, 16 + len as int))) == Err::<serde_json::Value, Seq<char>>(e@),
            }
        },
{
    if b.len() < ASAR_PREFIX_LEN {
        return Err(crate::text::to_owned_string(SHORT_READ));
    }
    let len = asar_header_len(b);
    if b.len() - ASAR_PREFIX_LEN < len {
        return Err(crate::text::to_owned_string(SHORT_READ));
    }
    let mut raw: Vec<u8> = Vec::new();
    let end: usize = ASAR_PREFIX_LEN + len;
    let mut i: usize = ASAR_PREFIX_LEN;
    while i < end
        invariant
            end == 16 + len,
            16 <= i <= end <= b@.len(),
            raw@ == b@.subrange(16, i as int),
        decreases 16 + len - i,
    {
        raw.push(b[i]);
        proof { assert(raw@ =~= b@.subrange(16, i + 1)); }
        i = i + 1;
    }
    parse_asar_header(raw)
}

} // verus!

//! TOON and HTML emission for captures recovered from the accessibility tree.
use vstd::prelude::*;
use crate::bundle::{BundleSummary, BundleView, NibFile};
use crate::capture::{join, push_texts, CaptureResult, CaptureView};
use crate::text::{chars_of, decimal, html_escape, html_escaped, push_char, push_decimal, push_str, rgb_hex, string_views};
use base64::Engine;

verus! {

/// Numbers of a rectangle as printed with no decimals (`{:.0}`).
pub struct RoundedRect {
    pub x: String,
    pub y: String,
    pub w: String,
    pub h: String,
}

/// One node of a captured accessibility tree.
pub struct AxNode {
    pub role: String,
    pub subrole: Option<String>,
    pub name: String,
    pub identifier: Option<String>,
    pub value: Option<String>,
    pub role_description: Option<String>,
    /// The node's screen bounds, when it has them.
    pub bounds: Option<RoundedRect>,
    /// Its box in the HTML replica (relative to the root), present when the
    /// node has bounds at least one point wide and high.
    pub html_box: Option<RoundedRect>,
    /// The background colour sampled at its centre.
    pub bg: Option<(u8, u8, u8)>,
    pub children: Vec<AxNode>,
}

/// Number of nodes in a tree.
pub open spec fn node_count(n: AxNode) -> nat
    decreases n,
{
    1 + children_count(n.children@, n.children@.len() as int)
}

/// Number of nodes in the first `k` subtrees.
pub open spec fn children_count(c: Seq<AxNode>, k: int) -> nat
    decreases c, k,
{
    if k <= 0 || k > c.len() {
        0
    } else {
        children_count(c, k - 1) + node_count(c[k - 1])
    }
}

/// Counts the nodes of a tree.
pub fn count_nodes(node: &AxNode) -> (r: usize)
    requires
        node_count(*node) <= usize::MAX,
    ensures
        r == node_count(*node),
    decreases node,
{
    let mut total: usize = 1;
    let mut i: usize = 0;
    while i < node.children.len()
        invariant
            i <= node.children@.len(),
            total == 1 + children_count(node.children@, i as int),
            node_count(*node) <= usize::MAX,
        decreases node.children.len() - i,
    {
        proof { lemma_children_count_mono(node.children@, i as int + 1, node.children@.len() as int); }
        let c = count_nodes(&node.children[i]);
        total = total + c;
        i = i + 1;
    }
    total
}

proof fn lemma_children_count_mono(c: Seq<AxNode>, a: int, b: int)
    requires
        0 <= a <= b <= c.len(),
    ensures
        children_count(c, a) <= children_count(c, b),
    decreases b - a,
{
    if a < b {
        lemma_children_count_mono(c, a, b - 1);
    }
}


/// At most the first `n` characters.
pub open spec fn take_chars(s: Seq<char>, n: nat) -> Seq<char> {
    if s.len() <= n { s } else { s.take(n as int) }
}

/// Every `"` preceded by a backslash.
pub open spec fn quote_escaped(s: Seq<char>) -> Seq<char>
    decreases s.len(),
{
    if s.len() == 0 {
        Seq::empty()
    } else {
        quote_escaped(s.drop_last()) + if s.last() == '"' { seq!['\\', '"'] } else { seq![s.last()] }
    }
}

/// Appends the first `n` characters of `s` with their quotes escaped.
fn push_truncated_escaped(out: &mut String, s: &str, n: usize)
    ensures
        final(out)@ == old(out)@ + quote_escaped(take_chars(s@, n as nat)),
{
    let v = chars_of(s);
    let end = if v.len() <= n { v.len() } else { n };
    let ghost t = take_chars(s@, n as nat);
    proof { assert(t == v@.take(end as int)); }
    let mut i: usize = 0;
    while i < end
        invariant
            i <= end <= v@.len(),
            t == v@.take(end as int),
            out@ == old(out)@ + quote_escaped(t.take(i as int)),
        decreases end - i,
    {
        let c = v[i];
        if c == '"' {
            push_char(out, '\\');
            push_char(out, '"');
        } else {
            push_char(out, c);
        }
        proof {
            assert(t.take(i + 1).drop_last() == t.take(i as int));
            assert(t.take(i + 1).last() == c);
        }
        i = i + 1;
    }
    proof { assert(t.take(end as int) == t); }
}

/// Two spaces per indentation level.
pub open spec fn pad(indent: nat) -> Seq<char> {
    Seq::new(2 * indent, |i: int| ' ')
}

/// The attributes of a node on its TOON line: role (with subrole), quoted
/// name, value, position and size, background colour, identifier, role
/// description.
pub open spec fn toon_attrs(n: AxNode) -> Seq<char> {
    role_part(n) + name_part(n) + value_part(n) + bounds_part(n) + bg_part(n) + id_part(n) + desc_part(n)
}

pub open spec fn role_part(n: AxNode) -> Seq<char> {
    match n.subrole { Some(sub) => n.role@ + ":"@ + sub@, None => n.role@ }
}

pub open spec fn name_part(n: AxNode) -> Seq<char> {
    if n.name@.len() == 0 { Seq::empty() } else { " \""@ + quote_escaped(take_chars(n.name@, 80)) + "\""@ }
}

pub open spec fn value_part(n: AxNode) -> Seq<char> {
    match n.value {
        Some(v) => if v@.len() > 0 { " value=\""@ + quote_escaped(take_chars(v@, 80)) + "\""@ } else { Seq::empty() },
        None => Seq::empty(),
    }
}

pub open spec fn bounds_part(n: AxNode) -> Seq<char> {
    match n.bounds {
        Some(b) => " pos=("@ + b.x@ + ","@ + b.y@ + ") size=("@ + b.w@ + "x"@ + b.h@ + ")"@,
        None => Seq::empty(),
    }
}

pub open spec fn bg_part(n: AxNode) -> Seq<char> {
    match n.bg { Some(c) => " bg="@ + rgb_hex(c.0, c.1, c.2), None => Seq::empty() }
}

pub open spec fn id_part(n: AxNode) -> Seq<char> {
    match n.identifier { Some(i) => " #"@ + i@, None => Seq::empty() }
}

pub open spec fn desc_part(n: AxNode) -> Seq<char> {
    match n.role_description { Some(d) => " ("@ + d@ + ")"@, None => Seq::empty() }
}

/// The TOON text of a subtree at an indentation level: a leaf is one line; a
/// node with children opens a brace, lists them one level deeper, and closes it.
pub open spec fn toon_node(n: AxNode, indent: nat) -> Seq<char>
    decreases n,
{
    if n.children@.len() == 0 {
        pad(indent) + toon_attrs(n) + "\n"@
    } else {
        pad(indent) + toon_attrs(n) + " {\n"@ + toon_children(n.children@, n.children@.len() as int, indent + 1)
            + pad(indent) + "}\n"@
    }
}

/// The TOON texts of the first `k` subtrees.
pub open spec fn toon_children(c: Seq<AxNode>, k: int, indent: nat) -> Seq<char>
    decreases c, k,
{
    if k <= 0 || k > c.len() {
        Seq::empty()
    } else {
        toon_children(c, k - 1, indent) + toon_node(c[k - 1], indent)
    }
}

fn push_pad(out: &mut String, indent: usize)
    requires
        indent <= u32::MAX,
    ensures
        final(out)@ == old(out)@ + pad(indent as nat),
{
    let mut i: usize = 0;
    while i < indent
        invariant
            i <= indent <= u32::MAX,
            out@ == old(out)@ + pad(i as nat),
        decreases indent - i,
    {
        push_char(out, ' ');
        push_char(out, ' ');
        proof { assert(pad((i + 1) as nat) =~= pad(i as nat) + seq![' ', ' ']); }
        i = i + 1;
    }
}

fn is_empty_str(s: &str) -> (r: bool)
    ensures
        r == (s@.len() == 0),
{
    chars_of(s).len() == 0
}

fn push_role_part(out: &mut String, n: &AxNode)
    ensures
        final(out)@ == old(out)@ + role_part(*n),
{
    push_str(out, n.role.as_str());
    match &n.subrole {
        Some(sub) => {
            push_str(out, ":");
            push_str(out, sub.as_str());
        },
        None => {},
    }
}

fn push_name_part(out: &mut String, n: &AxNode)
    ensures
        final(out)@ == old(out)@ + name_part(*n),
{
    if !is_empty_str(n.name.as_str()) {
        push_str(out, " \"");
        push_truncated_escaped(out, n.name.as_str(), 80);
        push_str(out, "\"");
    }
}

fn push_value_part(out: &mut String, n: &AxNode)
    ensures
        final(out)@ == old(out)@ + value_part(*n),
{
    match &n.value {
        Some(v) => {
            if !is_empty_str(v.as_str()) {
                push_str(out, " value=\"");
                push_truncated_escaped(out, v.as_str(), 80);
                push_str(out, "\"");
            }
        },
        None => {},
    }
}

fn push_bounds_part(out: &mut String, n: &AxNode)
    ensures
        final(out)@ == old(out)@ + bounds_part(*n),
{
    match &n.bounds {
        Some(bx) => {
            push_str(out, " pos=(");
            push_str(out, bx.x.as_str());
            push_str(out, ",");
            push_str(out, bx.y.as_str());
            push_str(out, ") size=(");
            push_str(out, bx.w.as_str());
            push_str(out, "x");
            push_str(out, bx.h.as_str());
            push_str(out, ")");
        },
        None => {},
    }
}

fn push_tail_parts(out: &mut String, n: &AxNode)
    ensures
        final(out)@ == old(out)@ + bg_part(*n) + id_part(*n) + desc_part(*n),
{
    match n.bg {
        Some((r, g, bl)) => {
            push_str(out, " bg=");
            let h = crate::text::rgb_hex_string(r, g, bl);
            push_str(out, h.as_str());
        },
        None => {},
    }
    match &n.identifier {
        Some(i) => {
            push_str(out, " #");
            push_str(out, i.as_str());
        },
        None => {},
    }
    match &n.role_description {
        Some(dsc) => {
            push_str(out, " (");
            push_str(out, dsc.as_str());
            push_str(out, ")");
        },
        None => {},
    }
}

fn push_toon_attrs(out: &mut String, n: &AxNode)
    ensures
        final(out)@ == old(out)@ + toon_attrs(*n),
{
    push_role_part(out, n);
    push_name_part(out, n);
    push_value_part(out, n);
    push_bounds_part(out, n);
    push_tail_parts(out, n);
}

/// Appends the TOON text of a subtree.
pub fn push_toon_node(out: &mut String, n: &AxNode, indent: usize)
    requires
        indent + node_count(*n) <= u32::MAX,
    ensures
        final(out)@ == old(out)@ + toon_node(*n, indent as nat),
    decreases n,
{
    push_pad(out, indent);
    push_toon_attrs(out, n);
    if n.children.len() == 0 {
        push_str(out, "\n");
    } else {
        push_str(out, " {\n");
        let ghost head = out@;
        let mut i: usize = 0;
        while i < n.children.len()
            invariant
                i <= n.children@.len(),
                indent + node_count(*n) <= u32::MAX,
                out@ == head + toon_children(n.children@, i as int, (indent + 1) as nat),
            decreases n.children.len() - i,
        {
            proof {
                lemma_children_count_mono(n.children@, i as int + 1, n.children@.len() as int);
            }
            push_toon_node(out, &n.children[i], indent + 1);
            i = i + 1;
        }
        push_pad(out, indent);
        push_str(out, "}\n");
    }
    proof {
        assert(final(out)@ =~= old(out)@ + toon_node(*n, indent as nat));
    }
}



// ---------------------------------------------------------------------------
// Palette

/// Two colours are near when every channel differs by less than eight.
pub open spec fn near(p: (u8, u8, u8), c: (u8, u8, u8)) -> bool {
    &&& -8 < p.0 - c.0 < 8
    &&& -8 < p.1 - c.1 < 8
    &&& -8 < p.2 - c.2 < 8
}

/// Some colour of the palette is near `c`.
pub open spec fn has_near(pal: Seq<(u8, u8, u8)>, c: (u8, u8, u8)) -> bool {
    exists|i: int| 0 <= i < pal.len() && near(#[trigger] pal[i], c)
}

/// The palette after meeting colour `c`: unchanged when a near colour is
/// already in it, else `c` appended.
pub open spec fn palette_add(pal: Seq<(u8, u8, u8)>, c: (u8, u8, u8)) -> Seq<(u8, u8, u8)> {
    if has_near(pal, c) { pal } else { pal.push(c) }
}

/// The palette after walking a subtree in preorder.
pub open spec fn palette_of_node(pal: Seq<(u8, u8, u8)>, n: AxNode) -> Seq<(u8, u8, u8)>
    decreases n,
{
    let p1 = match n.bg { Some(c) => palette_add(pal, c), None => pal };
    palette_of_children(p1, n.children@, n.children@.len() as int)
}

/// The palette after walking the first `k` subtrees in order.
pub open spec fn palette_of_children(pal: Seq<(u8, u8, u8)>, c: Seq<AxNode>, k: int) -> Seq<(u8, u8, u8)>
    decreases c, k,
{
    if k <= 0 || k > c.len() {
        pal
    } else {
        palette_of_node(palette_of_children(pal, c, k - 1), c[k - 1])
    }
}

fn is_near(p: (u8, u8, u8), c: (u8, u8, u8)) -> (r: bool)
    ensures
        r == near(p, c),
{
    let d0: i32 = p.0 as i32 - c.0 as i32;
    let d1: i32 = p.1 as i32 - c.1 as i32;
    let d2: i32 = p.2 as i32 - c.2 as i32;
    -8 < d0 && d0 < 8 && -8 < d1 && d1 < 8 && -8 < d2 && d2 < 8
}

fn palette_has_near(pal: &Vec<(u8, u8, u8)>, c: (u8, u8, u8)) -> (r: bool)
    ensures
        r == has_near(pal@, c),
{
    let mut i: usize = 0;
    while i < pal.len()
        invariant
            i <= pal@.len(),
            forall|j: int| 0 <= j < i ==> !near(#[trigger] pal@[j], c),
        decreases pal.len() - i,
    {
        if is_near(pal[i], c) {
            return true;
        }
        i = i + 1;
    }
    false
}

/// Collects, in preorder, the sampled background colours of a subtree into a
/// palette, skipping each colour that is near one already collected.
pub fn collect_palette(node: &AxNode, out: &mut Vec<(u8, u8, u8)>)
    ensures
        final(out)@ == palette_of_node(old(out)@, *node),
    decreases node,
{
    match node.bg {
        Some(c) => {
            if !palette_has_near(out, c) {
                out.push(c);
            }
        },
        None => {},
    }
    let ghost p1 = out@;
    let mut i: usize = 0;
    while i < node.children.len()
        invariant
            i <= node.children@.len(),
            out@ == palette_of_children(p1, node.children@, i as int),
        decreases node.children.len() - i,
    {
        collect_palette(&node.children[i], out);
        i = i + 1;
    }
}

/// No two colours of the palette are near each other.
pub open spec fn far_apart(pal: Seq<(u8, u8, u8)>) -> bool {
    forall|i: int, j: int| 0 <= i < j < pal.len() ==> !near(#[trigger] pal[i], #[trigger] pal[j])
}

proof fn lemma_palette_add(pal: Seq<(u8, u8, u8)>, c: (u8, u8, u8))
    requires
        far_apart(pal),
    ensures
        far_apart(palette_add(pal, c)),
        pal.is_prefix_of(palette_add(pal, c)),
        has_near(palette_add(pal, c), c),
{
    let r = palette_add(pal, c);
    if !has_near(pal, c) {
        assert forall|i: int, j: int| 0 <= i < j < r.len() implies !near(#[trigger] r[i], #[trigger] r[j]) by {
            if j == pal.len() {
                assert(!near(pal[i], c));
            }
        }
        assert(near(r[pal.len() as int], c));
    }
    assert(pal.is_prefix_of(r)) by {
        assert(r.take(pal.len() as int) =~= pal);
    }
}

/// A palette of colours that are pairwise far apart stays so while a subtree
/// is walked, and only grows at its end.
pub proof fn law_palette_stays_far_apart(pal: Seq<(u8, u8, u8)>, n: AxNode)
    requires
        far_apart(pal),
    ensures
        far_apart(palette_of_node(pal, n)),
        pal.is_prefix_of(palette_of_node(pal, n)),
    decreases n,
{
    let p1 = match n.bg { Some(c) => palette_add(pal, c), None => pal };
    match n.bg {
        Some(c) => { lemma_palette_add(pal, c); },
        None => {},
    }
    lemma_palette_children(p1, n.children@, n.children@.len() as int);
}

proof fn lemma_palette_children(pal: Seq<(u8, u8, u8)>, c: Seq<AxNode>, k: int)
    requires
        far_apart(pal),
    ensures
        far_apart(palette_of_children(pal, c, k)),
        pal.is_prefix_of(palette_of_children(pal, c, k)),
    decreases c, k,
{
    if k <= 0 || k > c.len() {
        assert(pal.take(pal.len() as int) =~= pal);
    } else {
        lemma_palette_children(pal, c, k - 1);
        let mid = palette_of_children(pal, c, k - 1);
        law_palette_stays_far_apart(mid, c[k - 1]);
        let r = palette_of_node(mid, c[k - 1]);
        assert(pal.is_prefix_of(r)) by {
            assert forall|i: int| 0 <= i < pal.len() implies r[i] == pal[i] by {
                assert(mid[i] == pal[i]);
            }
            assert(r.take(pal.len() as int) =~= pal);
        }
    }
}

/// Meeting colour `c`, the palette keeps it out exactly when some colour
/// already collected is within eight of it on each of red, green and blue;
/// when every collected colour is eight or more away on at least one
/// channel, `c` is appended.
pub proof fn law_palette_add_by_channels(pal: Seq<(u8, u8, u8)>, c: (u8, u8, u8))
    ensures
        (forall|i: int| 0 <= i < pal.len() ==> {
            let p = #[trigger] pal[i];
            p.0 - c.0 >= 8 || c.0 - p.0 >= 8 || p.1 - c.1 >= 8 || c.1 - p.1 >= 8 || p.2 - c.2 >= 8 || c.2 - p.2 >= 8
        }) ==> palette_add(pal, c) == pal.push(c),
        (exists|i: int| 0 <= i < pal.len() && {
            let p = #[trigger] pal[i];
            -8 < p.0 - c.0 < 8 && -8 < p.1 - c.1 < 8 && -8 < p.2 - c.2 < 8
        }) ==> palette_add(pal, c) == pal,
{
}

/// A node whose background colour is eight or more away, on some channel,
/// from every colour collected so far adds that colour right after them.
pub proof fn law_far_node_colour_is_collected(pal: Seq<(u8, u8, u8)>, n: AxNode)
    requires
        n.bg is Some,
        forall|i: int| 0 <= i < pal.len() ==> {
            let p = #[trigger] pal[i];
            let c = n.bg->0;
            p.0 - c.0 >= 8 || c.0 - p.0 >= 8 || p.1 - c.1 >= 8 || c.1 - p.1 >= 8 || p.2 - c.2 >= 8 || c.2 - p.2 >= 8
        },
    ensures
        palette_of_node(pal, n).len() > pal.len(),
        palette_of_node(pal, n)[pal.len() as int] == n.bg->0,
{
    let c = n.bg->0;
    law_palette_add_by_channels(pal, c);
    let p1 = palette_add(pal, c);
    assert(p1 == pal.push(c));
    lemma_children_keep_prefix(p1, n.children@, n.children@.len() as int);
    let r = palette_of_node(pal, n);
    assert(r[pal.len() as int] == p1[pal.len() as int]);
}

/// A node's own background colour ends up with a near colour in the palette.
pub proof fn law_palette_covers_node_colour(pal: Seq<(u8, u8, u8)>, n: AxNode)
    requires
        n.bg is Some,
    ensures
        has_near(palette_of_node(pal, n), n.bg->0),
{
    let c = n.bg->0;
    let p1 = palette_add(pal, c);
    assert(has_near(p1, c)) by {
        if !has_near(pal, c) {
            assert(near(p1[pal.len() as int], c));
        }
    }
    lemma_children_keep_prefix(p1, n.children@, n.children@.len() as int);
    let r = palette_of_node(pal, n);
    let w = choose|i: int| 0 <= i < p1.len() && near(#[trigger] p1[i], c);
    assert(r[w] == p1[w]);
}

proof fn lemma_node_keeps_prefix(pal: Seq<(u8, u8, u8)>, n: AxNode)
    ensures
        pal.is_prefix_of(palette_of_node(pal, n)),
    decreases n,
{
    let p1 = match n.bg { Some(c) => palette_add(pal, c), None => pal };
    lemma_children_keep_prefix(p1, n.children@, n.children@.len() as int);
    let r = palette_of_node(pal, n);
    assert(pal.is_prefix_of(p1)) by {
        assert(p1.take(pal.len() as int) =~= pal);
    }
    assert(r.take(pal.len() as int) =~= pal) by {
        assert forall|i: int| 0 <= i < pal.len() implies r[i] == pal[i] by {
            assert(p1[i] == pal[i]);
        }
    }
}

proof fn lemma_children_keep_prefix(pal: Seq<(u8, u8, u8)>, c: Seq<AxNode>, k: int)
    ensures
        pal.is_prefix_of(palette_of_children(pal, c, k)),
    decreases c, k,
{
    if k <= 0 || k > c.len() {
        assert(pal.take(pal.len() as int) =~= pal);
    } else {
        lemma_children_keep_prefix(pal, c, k - 1);
        let mid = palette_of_children(pal, c, k - 1);
        lemma_node_keeps_prefix(mid, c[k - 1]);
        let r = palette_of_node(mid, c[k - 1]);
        assert(r.take(pal.len() as int) =~= pal) by {
            assert forall|i: int| 0 <= i < pal.len() implies r[i] == pal[i] by {
                assert(mid[i] == pal[i]);
            }
        }
    }
}


// ---------------------------------------------------------------------------
// The TOON document

/// The text of an optional string slice.
pub open spec fn opt_slice(o: Option<&str>) -> Option<Seq<char>> {
    match o { Some(s) => Some(s@), None => None }
}

/// The view of an optional bundle summary.
pub open spec fn opt_bundle(o: Option<&BundleSummary>) -> Option<BundleView> {
    match o { Some(b) => Some(b.view_bundle()), None => None }
}

/// The names of the recovered NIBs.
pub open spec fn nib_names(nibs: Seq<(Seq<char>, Seq<char>)>) -> Seq<Seq<char>> {
    nibs.map_values(|n: (Seq<char>, Seq<char>)| n.0)
}

/// The lines the bundle summary adds to the source section.
pub open spec fn bundle_lines(b: BundleView) -> Seq<char> {
    (match b.bundle_id { Some(id) => "- Bundle-ID: "@ + id + "\n"@, None => Seq::empty() })
        + (match b.display_name { Some(nm) => "- App name: "@ + nm + "\n"@, None => Seq::empty() })
        + (if b.nibs.len() > 0 {
            "- NIBs recovered: "@ + join(nib_names(b.nibs), ", "@) + "\n"@
        } else {
            Seq::empty()
        })
}

/// The lines of the source section: application path, quoted window title,
/// and what the bundle summary says.
pub open spec fn source_lines(app: Option<Seq<char>>, window: Option<Seq<char>>, bundle: Option<BundleView>) -> Seq<char> {
    (match app { Some(p) => "- App: "@ + p + "\n"@, None => Seq::empty() })
        + (match window { Some(t) => "- Window: \""@ + t + "\"\n"@, None => Seq::empty() })
        + (match bundle { Some(b) => bundle_lines(b), None => Seq::empty() })
}

/// One line per palette colour: `.c<k>: #rrggbb`, numbered from one.
pub open spec fn palette_lines(pal: Seq<(u8, u8, u8)>) -> Seq<char>
    decreases pal.len(),
{
    if pal.len() == 0 {
        Seq::empty()
    } else {
        let c = pal.last();
        palette_lines(pal.drop_last()) + ".c"@ + decimal(pal.len()) + ": "@ + rgb_hex(c.0, c.1, c.2) + "\n"@
    }
}

/// The palette section, absent for an empty palette.
pub open spec fn palette_section(pal: Seq<(u8, u8, u8)>) -> Seq<char> {
    if pal.len() == 0 { Seq::empty() } else { "## Palette\n"@ + palette_lines(pal) + "\n"@ }
}

/// The whole TOON document of a native capture.
pub open spec fn toon_document(
    root: AxNode,
    pal: Seq<(u8, u8, u8)>,
    app: Option<Seq<char>>,
    window: Option<Seq<char>>,
    bundle: Option<BundleView>,
) -> Seq<char> {
    "# VibeExtract — Native Desktop Capture\n\n## Source\n"@ + source_lines(app, window, bundle) + "\n"@
        + palette_section(pal) + "## Structure\n"@ + toon_node(root, 0)
}

fn push_nib_names(out: &mut String, nibs: &Vec<NibFile>)
    ensures
        final(out)@ == old(out)@ + join(nib_names(crate::bundle::nib_views(nibs@)), ", "@),
{
    let ghost names = nib_names(crate::bundle::nib_views(nibs@));
    let mut i: usize = 0;
    while i < nibs.len()
        invariant
            i <= nibs@.len(),
            names.len() == nibs@.len(),
            forall|j: int| 0 <= j < nibs@.len() ==> names[j] == (#[trigger] nibs@[j]).name@,
            out@ == old(out)@ + join(names.take(i as int), ", "@),
        decreases nibs.len() - i,
    {
        if i > 0 {
            push_str(out, ", ");
        }
        push_str(out, nibs[i].name.as_str());
        proof {
            let t = names.take(i + 1);
            assert(t.drop_last() =~= names.take(i as int));
            if i == 0 {
                assert(names.take(0) =~= Seq::<Seq<char>>::empty());
            }
        }
        i = i + 1;
    }
    proof { assert(names.take(nibs@.len() as int) =~= names); }
}

fn push_bundle_lines(out: &mut String, b: &BundleSummary)
    ensures
        final(out)@ == old(out)@ + bundle_lines(b.view_bundle()),
{
    let ghost s0 = out@;
    match &b.bundle_id {
        Some(id) => {
            push_str(out, "- Bundle-ID: ");
            push_str(out, id.as_str());
            push_str(out, "\n");
        },
        None => {},
    }
    let ghost s1 = out@;
    match &b.display_name {
        Some(nm) => {
            push_str(out, "- App name: ");
            push_str(out, nm.as_str());
            push_str(out, "\n");
        },
        None => {},
    }
    let ghost s2 = out@;
    if b.nibs.len() > 0 {
        push_str(out, "- NIBs recovered: ");
        push_nib_names(out, &b.nibs);
        push_str(out, "\n");
    }
    proof {
        let v = b.view_bundle();
        assert(s1 =~= s0 + (match v.bundle_id { Some(id) => "- Bundle-ID: "@ + id + "\n"@, None => Seq::empty() }));
        assert(s2 =~= s1 + (match v.display_name { Some(nm) => "- App name: "@ + nm + "\n"@, None => Seq::empty() }));
        assert(out@ =~= s2 + (if v.nibs.len() > 0 {
            "- NIBs recovered: "@ + join(nib_names(v.nibs), ", "@) + "\n"@
        } else {
            Seq::empty()
        }));
    }
}

fn push_source_lines(out: &mut String, app: Option<&str>, window: Option<&str>, bundle: Option<&BundleSummary>)
    ensures
        final(out)@ == old(out)@ + source_lines(opt_slice(app), opt_slice(window), opt_bundle(bundle)),
{
    let ghost s0 = out@;
    match app {
        Some(p) => {
            push_str(out, "- App: ");
            push_str(out, p);
            push_str(out, "\n");
        },
        None => {},
    }
    let ghost s1 = out@;
    match window {
        Some(t) => {
            push_str(out, "- Window: \"");
            push_str(out, t);
            push_str(out, "\"\n");
        },
        None => {},
    }
    let ghost s2 = out@;
    match bundle {
        Some(b) => { push_bundle_lines(out, b); },
        None => {},
    }
    proof {
        assert(s1 =~= s0 + (match opt_slice(app) { Some(p) => "- App: "@ + p + "\n"@, None => Seq::empty() }));
        assert(s2 =~= s1 + (match opt_slice(window) { Some(t) => "- Window: \""@ + t + "\"\n"@, None => Seq::empty() }));
        assert(out@ =~= s2 + (match opt_bundle(bundle) { Some(b) => bundle_lines(b), None => Seq::empty() }));
    }
}

fn push_palette_section(out: &mut String, pal: &Vec<(u8, u8, u8)>)
    ensures
        final(out)@ == old(out)@ + palette_section(pal@),
{
    if pal.len() == 0 {
        return;
    }
    push_str(out, "## Palette\n");
    let ghost head = out@;
    let mut i: usize = 0;
    while i < pal.len()
        invariant
            i <= pal@.len(),
            out@ == head + palette_lines(pal@.take(i as int)),
        decreases pal.len() - i,
    {
        let (r, g, b) = pal[i];
        push_str(out, ".c");
        push_decimal(out, (i + 1) as u64);
        push_str(out, ": ");
        let h = crate::text::rgb_hex_string(r, g, b);
        push_str(out, h.as_str());
        push_str(out, "\n");
        proof {
            let t = pal@.take(i + 1);
            assert(t.drop_last() =~= pal@.take(i as int));
            assert(t.last() == pal@[i as int]);
        }
        i = i + 1;
    }
    proof { assert(pal@.take(pal@.len() as int) =~= pal@); }
    push_str(out, "\n");
}

/// Renders the TOON document of a native capture: a source section (the
/// application path, the window title and what the bundle summary adds), the
/// palette, and the structure of the accessibility tree.
pub fn emit_toon(
    root: &AxNode,
    palette: &Vec<(u8, u8, u8)>,
    app_path: Option<&str>,
    window_title: Option<&str>,
    bundle: Option<&BundleSummary>,
) -> (r: String)
    requires
        node_count(*root) <= u32::MAX,
    ensures
        r@ == toon_document(*root, palette@, opt_slice(app_path), opt_slice(window_title), opt_bundle(bundle)),
{
    let mut s = String::new();
    push_str(&mut s, "# VibeExtract — Native Desktop Capture\n\n");
    push_str(&mut s, "## Source\n");
    push_source_lines(&mut s, app_path, window_title, bundle);
    push_str(&mut s, "\n");
    push_palette_section(&mut s, palette);
    push_str(&mut s, "## Structure\n");
    push_toon_node(&mut s, root, 0);
    proof {
        reveal_strlit("# VibeExtract — Native Desktop Capture\n\n");
        reveal_strlit("## Source\n");
        reveal_strlit("# VibeExtract — Native Desktop Capture\n\n## Source\n");
        assert(s@ =~= toon_document(*root, palette@, opt_slice(app_path), opt_slice(window_title), opt_bundle(bundle)));
    }
    s
}


// ---------------------------------------------------------------------------
// The HTML replica

/// The label of a node's box: its role, followed by its escaped name in
/// quotes when it has one.
pub open spec fn box_label(n: AxNode) -> Seq<char> {
    if n.name@.len() > 0 { n.role@ + " \""@ + html_escaped(n.name@) + "\""@ } else { n.role@ }
}

/// The short text shown inside a node's box: the first forty characters of
/// its name, or its role when it has no name.
pub open spec fn box_short(n: AxNode) -> Seq<char> {
    if n.name@.len() > 0 { take_chars(n.name@, 40) } else { n.role@ }
}

/// The tint of a node's box from its sampled background colour.
pub open spec fn box_bg_style(n: AxNode) -> Seq<char> {
    match n.bg {
        Some(c) => " background-color: rgba("@ + decimal(c.0 as nat) + ", "@ + decimal(c.1 as nat) + ", "@
            + decimal(c.2 as nat) + ", 0.10);"@,
        None => Seq::empty(),
    }
}

/// The `div` of one node in the replica, present when the node has a box.
pub open spec fn box_line(n: AxNode) -> Seq<char> {
    match n.html_box {
        Some(b) => "<div class=\"ax-box\" data-role=\""@ + html_escaped(n.role@) + "\" style=\"left:"@ + b.x@
            + "px; top:"@ + b.y@ + "px; width:"@ + b.w@ + "px; height:"@ + b.h@ + "px;"@ + box_bg_style(n)
            + "\" title=\""@ + html_escaped(box_label(n)) + "\">"@ + html_escaped(box_short(n)) + "</div>\n"@,
        None => Seq::empty(),
    }
}

/// The boxes of a subtree, in preorder.
pub open spec fn html_boxes(n: AxNode) -> Seq<char>
    decreases n,
{
    box_line(n) + html_boxes_children(n.children@, n.children@.len() as int)
}

/// The boxes of the first `k` subtrees.
pub open spec fn html_boxes_children(c: Seq<AxNode>, k: int) -> Seq<char>
    decreases c, k,
{
    if k <= 0 || k > c.len() {
        Seq::empty()
    } else {
        html_boxes_children(c, k - 1) + html_boxes(c[k - 1])
    }
}

pub const NATIVE_HTML_HEAD: &'static str = "<!DOCTYPE html>\n<html>\n<head>\n  <meta charset=\"UTF-8\">\n  <title>VibeExtract — Native Capture</title>\n  <style>\n    html, body { margin: 0; padding: 0; font-family: -apple-system, BlinkMacSystemFont, \"Segoe UI\", Helvetica, Arial, sans-serif; background: #f7f7f7; }\n    .toolbar { position: fixed; top: 0; left: 0; right: 0; padding: 8px 12px; background: #2d2d2d; color: #fff; font-size: 13px; z-index: 100; display: flex; gap: 12px; align-items: center; }\n    .toolbar label { display: inline-flex; align-items: center; gap: 4px; cursor: pointer; }\n    .stage { margin-top: 48px; padding: 24px; display: flex; gap: 24px; align-items: flex-start; flex-wrap: wrap; }\n    .panel { flex: 0 0 auto; }\n    .panel h2 { margin: 0 0 8px 0; font-size: 13px; font-weight: 600; color: #444; text-transform: uppercase; letter-spacing: 0.5px; }\n    .replica { position: relative; width: ";
pub const NATIVE_HTML_HEIGHT: &'static str = "px; height: ";
pub const NATIVE_HTML_STYLE_REST: &'static str = "px; background: #fff; box-shadow: 0 1px 4px rgba(0,0,0,0.15); }\n    .replica img.bg { position: absolute; top: 0; left: 0; width: 100%; height: 100%; pointer-events: none; }\n    .ax-box { position: absolute; box-sizing: border-box; border: 1px solid rgba(0, 122, 255, 0.55); background: rgba(0, 122, 255, 0.04); font-size: 10px; color: rgba(0, 60, 130, 0.85); padding: 1px 3px; overflow: hidden; }\n    .ax-box[data-role=\"AXStaticText\"], .ax-box[data-role=\"AXTextField\"] { border-color: rgba(180, 60, 0, 0.5); color: rgba(180, 60, 0, 0.95); background: rgba(255, 200, 100, 0.06); }\n    .ax-box[data-role=\"AXButton\"] { border-color: rgba(0, 130, 50, 0.55); background: rgba(0, 200, 100, 0.06); color: rgba(0, 80, 30, 0.85); }\n    body.hide-overlay .ax-box { display: none; }\n    body.hide-bg .replica img.bg { display: none; }\n  </style>\n</head>\n<body class=\"hide-overlay\">\n  <div class=\"toolbar\">\n    <strong>VibeExtract — Native Desktop Capture</strong>\n    <label><input type=\"checkbox\" id=\"toggle-overlay\"> Show AX overlay</label>\n    <label><input type=\"checkbox\" id=\"toggle-bg\" checked> Show screenshot</label>\n    <span style=\"opacity: 0.6; margin-left: auto;\">root: ";
pub const NATIVE_HTML_TIMES: &'static str = " × ";
pub const NATIVE_HTML_TOOLBAR_REST: &'static str = " pt</span>\n  </div>\n  <div class=\"stage\">\n    <div class=\"panel\">\n      <h2>Live composite</h2>\n      <div class=\"replica\">\n        <img class=\"bg\" src=\"data:image/png;base64,";
pub const NATIVE_HTML_SCREENSHOT_END: &'static str = "\">\n        ";
pub const NATIVE_HTML_TAIL: &'static str = "\n      </div>\n    </div>\n  </div>\n  <script>\n    document.getElementById('toggle-overlay').addEventListener('change', e => {\n      document.body.classList.toggle('hide-overlay', !e.target.checked);\n    });\n    document.getElementById('toggle-bg').addEventListener('change', e => {\n      document.body.classList.toggle('hide-bg', !e.target.checked);\n    });\n  </script>\n</body>\n</html>\n";

/// The HTML replica page: the root's width and height (as printed), the
/// screenshot as a data URL, and the boxes.
pub open spec fn html_document(rw: Seq<char>, rh: Seq<char>, png_b64: Seq<char>, boxes: Seq<char>) -> Seq<char> {
    NATIVE_HTML_HEAD@ + rw + NATIVE_HTML_HEIGHT@ + rh + NATIVE_HTML_STYLE_REST@ + rw + NATIVE_HTML_TIMES@ + rh
        + NATIVE_HTML_TOOLBAR_REST@ + png_b64 + NATIVE_HTML_SCREENSHOT_END@ + boxes + NATIVE_HTML_TAIL@
}

fn push_take_chars(out: &mut String, s: &str, n: usize)
    ensures
        final(out)@ == old(out)@ + take_chars(s@, n as nat),
{
    let v = chars_of(s);
    let end = if v.len() <= n { v.len() } else { n };
    crate::text::push_range(out, &v, 0, end);
    proof {
        assert(v@.subrange(0, end as int) =~= take_chars(s@, n as nat));
    }
}

fn push_box_bg_style(out: &mut String, n: &AxNode)
    ensures
        final(out)@ == old(out)@ + box_bg_style(*n),
{
    match n.bg {
        Some((r, g, bl)) => {
            push_str(out, " background-color: rgba(");
            push_decimal(out, r as u64);
            push_str(out, ", ");
            push_decimal(out, g as u64);
            push_str(out, ", ");
            push_decimal(out, bl as u64);
            push_str(out, ", 0.10);");
        },
        None => {},
    }
}

fn box_label_string(n: &AxNode) -> (r: String)
    ensures
        r@ == box_label(*n),
{
    if !is_empty_str(n.name.as_str()) {
        let mut l = n.role.clone();
        proof { assert(l@ == n.role@); }
        push_str(&mut l, " \"");
        let e = html_escape(n.name.as_str());
        push_str(&mut l, e.as_str());
        push_str(&mut l, "\"");
        l
    } else {
        n.role.clone()
    }
}

fn box_short_string(n: &AxNode) -> (r: String)
    ensures
        r@ == box_short(*n),
{
    if !is_empty_str(n.name.as_str()) {
        let mut t = String::new();
        push_take_chars(&mut t, n.name.as_str(), 40);
        t
    } else {
        n.role.clone()
    }
}

fn push_box_line(out: &mut String, n: &AxNode)
    ensures
        final(out)@ == old(out)@ + box_line(*n),
{
    match &n.html_box {
        Some(b) => {
            push_str(out, "<div class=\"ax-box\" data-role=\"");
            let role = html_escape(n.role.as_str());
            push_str(out, role.as_str());
            push_str(out, "\" style=\"left:");
            push_str(out, b.x.as_str());
            push_str(out, "px; top:");
            push_str(out, b.y.as_str());
            push_str(out, "px; width:");
            push_str(out, b.w.as_str());
            push_str(out, "px; height:");
            push_str(out, b.h.as_str());
            push_str(out, "px;");
            push_box_bg_style(out, n);
            push_str(out, "\" title=\"");
            let label = box_label_string(n);
            let label_esc = html_escape(label.as_str());
            push_str(out, label_esc.as_str());
            push_str(out, "\">");
            let short = box_short_string(n);
            let short_esc = html_escape(short.as_str());
            push_str(out, short_esc.as_str());
            push_str(out, "</div>\n");
        },
        None => {},
    }
    proof { assert(final(out)@ =~= old(out)@ + box_line(*n)); }
}

/// Appends the replica boxes of a subtree, in preorder: one `div` for each
/// node that has a box, labelled with its role and name.
pub fn render_html_boxes(n: &AxNode, out: &mut String)
    ensures
        final(out)@ == old(out)@ + html_boxes(*n),
    decreases n,
{
    push_box_line(out, n);
    let ghost head = out@;
    let mut i: usize = 0;
    while i < n.children.len()
        invariant
            i <= n.children@.len(),
            out@ == head + html_boxes_children(n.children@, i as int),
        decreases n.children.len() - i,
    {
        render_html_boxes(&n.children[i], out);
        i = i + 1;
    }
    proof { assert(final(out)@ =~= old(out)@ + html_boxes(*n)); }
}

/// Renders the HTML replica: the screenshot as background, and over it one
/// box per accessibility node, inside a page sized to the root.
pub fn emit_html(root: &AxNode, screenshot_b64: &str, root_w: &str, root_h: &str) -> (r: String)
    ensures
        r@ == html_document(root_w@, root_h@, screenshot_b64@, html_boxes(*root)),
{
    let mut boxes = String::new();
    render_html_boxes(root, &mut boxes);
    let mut s = String::new();
    push_str(&mut s, NATIVE_HTML_HEAD);
    push_str(&mut s, root_w);
    push_str(&mut s, NATIVE_HTML_HEIGHT);
    push_str(&mut s, root_h);
    push_str(&mut s, NATIVE_HTML_STYLE_REST);
    push_str(&mut s, root_w);
    push_str(&mut s, NATIVE_HTML_TIMES);
    push_str(&mut s, root_h);
    push_str(&mut s, NATIVE_HTML_TOOLBAR_REST);
    push_str(&mut s, screenshot_b64);
    push_str(&mut s, NATIVE_HTML_SCREENSHOT_END);
    push_str(&mut s, boxes.as_str());
    push_str(&mut s, NATIVE_HTML_TAIL);
    proof { assert(s@ =~= html_document(root_w@, root_h@, screenshot_b64@, html_boxes(*root))); }
    s
}


// ---------------------------------------------------------------------------
// The native capture

/// The standard base64 alphabet (RFC 4648): `A`-`Z`, `a`-`z`, `0`-`9`,
/// `+`, `/`, for a six-bit value.
pub open spec fn base64_digit(v: int) -> char {
    if v < 26 {
        (65 + v) as char
    } else if v < 52 {
        (97 + v - 26) as char
    } else if v < 62 {
        (48 + v - 52) as char
    } else if v == 62 {
        '+'
    } else {
        '/'
    }
}

/// Standard base64 (RFC 4648) with `=` padding: every three bytes become
/// four digits of six bits each; a last group of one or two bytes is padded
/// with zero bits and filled up with `=` to four characters.
pub open spec fn base64_standard(b: Seq<u8>) -> Seq<char>
    decreases b.len(),
{
    if b.len() == 0 {
        Seq::empty()
    } else if b.len() == 1 {
        seq![base64_digit((b[0] / 4) as int), base64_digit((b[0] % 4) * 16), '=', '=']
    } else if b.len() == 2 {
        seq![base64_digit((b[0] / 4) as int), base64_digit((b[0] % 4) * 16 + b[1] / 16), base64_digit((b[1] % 16) * 4), '=']
    } else {
        seq![
            base64_digit((b[0] / 4) as int),
            base64_digit((b[0] % 4) * 16 + b[1] / 16),
            base64_digit((b[1] % 16) * 4 + b[2] / 64),
            base64_digit((b[2] % 64) as int),
        ] + base64_standard(b.skip(3))
    }
}

/// Encodes bytes with `base64::engine::general_purpose::STANDARD.encode`.
/// Trusted: the text is the standard base64 encoding of exactly these bytes.
/// The encoder panics when the encoded length overflows; the bound on the
/// input keeps it well below that.
#[verifier::external_body]
pub(crate) fn encode_base64(bytes: &[u8]) -> (r: String)
    requires
        bytes@.len() <= isize::MAX / 2,
    ensures
        r@ == base64_standard(bytes@),
{
    base64::engine::general_purpose::STANDARD.encode(bytes)
}

/// The fidelity badge: NIB-resolved when the bundle yielded NIBs.
pub open spec fn native_fidelity(bundle: Option<BundleView>) -> Seq<char> {
    match bundle {
        Some(b) => if b.nibs.len() > 0 {
            "Native AX + NIB-resolved + sampled colors"@
        } else {
            "Native AX + sampled colors + screenshot"@
        },
        None => "Native AX + sampled colors + screenshot"@,
    }
}

/// `true` or `false`.
pub open spec fn bool_text(b: bool) -> Seq<char> {
    if b { "true"@ } else { "false"@ }
}

/// The diagnostics of a native capture: the node count, then what the bundle
/// summary found and reported.
pub open spec fn native_diagnostics(root: AxNode, bundle: Option<BundleView>) -> Seq<Seq<char>> {
    seq!["Captured "@ + decimal(node_count(root)) + " AX nodes"@] + match bundle {
        Some(b) => seq!["Bundle: "@ + decimal(b.nibs.len()) + " nibs, assets_car="@ + bool_text(b.assets_car_summary is Some)]
            + b.diagnostics,
        None => Seq::empty(),
    }
}

/// The native capture of a tree with its screenshot.
pub open spec fn native_capture_view(
    root: AxNode,
    app: Option<Seq<char>>,
    window: Option<Seq<char>>,
    bundle: Option<BundleView>,
    png_b64: Seq<char>,
    rw: Seq<char>,
    rh: Seq<char>,
) -> CaptureView {
    CaptureView {
        strategy: "native_ax"@,
        fidelity: native_fidelity(bundle),
        toon: toon_document(root, palette_of_node(Seq::empty(), root), app, window, bundle),
        html: html_document(rw, rh, png_b64, html_boxes(root)),
        screenshot: Some(png_b64),
        diagnostics: native_diagnostics(root, bundle),
    }
}

/// Assembles the native capture of an accessibility tree whose screenshot
/// is already base64-encoded: palette, TOON document, HTML replica,
/// fidelity and diagnostics.
pub fn assemble_native_capture(
    root: &AxNode,
    app_path: Option<&str>,
    window_title: Option<&str>,
    bundle: Option<&BundleSummary>,
    png_b64: String,
    root_w: &str,
    root_h: &str,
) -> (r: CaptureResult)
    requires
        node_count(*root) <= u32::MAX,
    ensures
        r.view_capture() == native_capture_view(
            *root, opt_slice(app_path), opt_slice(window_title), opt_bundle(bundle), png_b64@, root_w@, root_h@,
        ),
{
    let mut palette: Vec<(u8, u8, u8)> = Vec::new();
    collect_palette(root, &mut palette);
    proof { assert(palette@ == palette_of_node(Seq::empty(), *root)); }
    let toon = emit_toon(root, &palette, app_path, window_title, bundle);
    let html = emit_html(root, png_b64.as_str(), root_w, root_h);
    let nibs_found = match bundle {
        Some(b) => b.nibs.len() > 0,
        None => false,
    };
    let fidelity = if nibs_found {
        crate::text::to_owned_string("Native AX + NIB-resolved + sampled colors")
    } else {
        crate::text::to_owned_string("Native AX + sampled colors + screenshot")
    };
    let mut first = String::new();
    push_str(&mut first, "Captured ");
    push_decimal(&mut first, count_nodes(root) as u64);
    push_str(&mut first, " AX nodes");
    let mut diag: Vec<String> = Vec::new();
    diag.push(first);
    let ghost d1 = diag@;
    match bundle {
        Some(b) => {
            let mut line = String::new();
            push_str(&mut line, "Bundle: ");
            push_decimal(&mut line, b.nibs.len() as u64);
            push_str(&mut line, " nibs, assets_car=");
            if b.assets_car_summary.is_some() {
                push_str(&mut line, "true");
            } else {
                push_str(&mut line, "false");
            }
            diag.push(line);
            push_texts(&mut diag, &b.diagnostics);
        },
        None => {},
    }
    let r = CaptureResult {
        strategy: crate::text::to_owned_string("native_ax"),
        fidelity,
        toon,
        html,
        screenshot_png_b64: Some(png_b64),
        diagnostics: diag,
    };
    proof {
        let v = native_capture_view(
            *root, opt_slice(app_path), opt_slice(window_title), opt_bundle(bundle), r.screenshot_png_b64->0@,
            root_w@, root_h@,
        );
        assert(string_views(d1) =~= seq!["Captured "@ + decimal(node_count(*root)) + " AX nodes"@]);
        match bundle {
            Some(b) => {
                assert(b.view_bundle().nibs.len() == b.nibs@.len());
            },
            None => {},
        }
        assert(r.view_capture().diagnostics =~= v.diagnostics);
        assert(r.view_capture().fidelity == v.fidelity);
    }
    r
}

/// The native capture of an accessibility tree: the screenshot's PNG bytes
/// are base64-encoded and the capture assembled around them.
pub fn native_capture(
    root: &AxNode,
    app_path: Option<&str>,
    window_title: Option<&str>,
    bundle: Option<&BundleSummary>,
    png: &[u8],
    root_w: &str,
    root_h: &str,
) -> (r: CaptureResult)
    requires
        node_count(*root) <= u32::MAX,
        png@.len() <= isize::MAX / 2,
    ensures
        r.view_capture() == native_capture_view(
            *root, opt_slice(app_path), opt_slice(window_title), opt_bundle(bundle), base64_standard(png@), root_w@,
            root_h@,
        ),
{
    let b64 = encode_base64(png);
    assemble_native_capture(root, app_path, window_title, bundle, b64, root_w, root_h)
}

} // verus!

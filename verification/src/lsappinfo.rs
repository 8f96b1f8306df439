//! Reading the output of macOS's `lsappinfo` tool: a front-application
//! identifier, and `"key"=value` lines carrying a pid or an application name.
use vstd::prelude::*;
use crate::text::{Strip, chars_of, find_char, find_in_range, lines, next_line, push_range, trim, trim_bounds, trim_with};


verus! {

/// An ASCII decimal digit.
pub open spec fn is_digit(c: char) -> bool {
    '0' <= c && c <= '9'
}

/// Value of a run of decimal digits.
pub open spec fn digits_value(s: Seq<char>) -> int
    decreases s.len(),
{
    if s.len() == 0 {
        0
    } else {
        digits_value(s.drop_last()) * 10 + (s.last() as int - '0' as int)
    }
}

/// Every character is an ASCII digit.
pub open spec fn all_digits(s: Seq<char>) -> bool {
    forall|i: int| 0 <= i < s.len() ==> is_digit(#[trigger] s[i])
}

/// The text after an optional leading `+` or `-`.
pub open spec fn unsigned_part(s: Seq<char>) -> Seq<char> {
    if s.len() > 0 && (s[0] == '-' || s[0] == '+') { s.drop_first() } else { s }
}

/// `str::parse::<i32>`: an optional `+` or `-`, then at least one ASCII digit,
/// nothing else, and a value that fits in `i32`.
pub open spec fn parse_i32(s: Seq<char>) -> Option<i32> {
    if s.len() == 0 {
        None
    } else {
        let neg = s[0] == '-';
        let ds = unsigned_part(s);
        if ds.len() == 0 || !all_digits(ds) {
            None
        } else {
            let v = if neg { -digits_value(ds) } else { digits_value(ds) };
            if i32::MIN <= v && v <= i32::MAX { Some(v as i32) } else { None }
        }
    }
}

proof fn lemma_digits_value_nonneg(s: Seq<char>)
    requires
        forall|i: int| 0 <= i < s.len() ==> is_digit(#[trigger] s[i]),
    ensures
        digits_value(s) >= 0,
    decreases s.len(),
{
    if s.len() > 0 {
        assert forall|i: int| 0 <= i < s.drop_last().len() implies is_digit(#[trigger] s.drop_last()[i]) by {
            assert(s.drop_last()[i] == s[i]);
        }
        lemma_digits_value_nonneg(s.drop_last());
        assert(is_digit(s[s.len() - 1]));
    }
}

proof fn lemma_digits_value_grows(s: Seq<char>, k: int)
    requires
        0 <= k <= s.len(),
        forall|i: int| 0 <= i < s.len() ==> is_digit(#[trigger] s[i]),
    ensures
        digits_value(s.take(k)) <= digits_value(s),
    decreases s.len() - k,
{
    if k == s.len() {
        assert(s.take(k) == s);
    } else {
        let t = s.take(k + 1);
        assert forall|i: int| 0 <= i < t.len() implies is_digit(#[trigger] t[i]) by {
            assert(t[i] == s[i]);
        }
        lemma_digits_value_grows(s, k + 1);
        assert(t.drop_last() == s.take(k));
        assert(t[k] == s[k]);
        assert(is_digit(t[k]));
        assert forall|i: int| 0 <= i < t.drop_last().len() implies is_digit(#[trigger] t.drop_last()[i]) by {
            assert(t.drop_last()[i] == s[i]);
        }
        lemma_digits_value_nonneg(t.drop_last());
    }
}

/// Parses `v[lo..hi]` as an `i32`, exactly as `str::parse::<i32>` does.
pub fn parse_i32_range(v: &Vec<char>, lo: usize, hi: usize) -> (r: Option<i32>)
    requires
        lo <= hi <= v.len(),
    ensures
        r == parse_i32(v@.subrange(lo as int, hi as int)),
{
    let ghost s = v@.subrange(lo as int, hi as int);
    if lo == hi {
        return None;
    }
    let neg = v[lo] == '-';
    let start = if v[lo] == '-' || v[lo] == '+' { lo + 1 } else { lo };
    let ghost ds = v@.subrange(start as int, hi as int);
    proof {
        if s[0] == '-' || s[0] == '+' {
            assert(ds == s.drop_first());
        } else {
            assert(ds == s);
        }
    }
    if start == hi {
        return None;
    }
    let mut acc: i64 = 0;
    let mut i = start;
    while i < hi
        invariant
            lo <= start <= i <= hi <= v.len(),
            ds == v@.subrange(start as int, hi as int),
            s == v@.subrange(lo as int, hi as int),
            s.len() > 0,
            ds.len() > 0,
            neg == (s[0] == '-'),
            ds == unsigned_part(s),
            forall|j: int| start <= j < i ==> is_digit(#[trigger] v@[j]),
            acc == digits_value(v@.subrange(start as int, i as int)),
            0 <= acc <= 2147483648,
        decreases hi - i,
    {
        let c = v[i];
        if !('0' <= c && c <= '9') {
            proof {
                assert(ds[i - start] == c);
                assert(!is_digit(ds[i - start]));

            }
            return None;
        }
        let d = (c as u32 - '0' as u32) as i64;
        proof {
            assert(v@.subrange(start as int, i + 1).drop_last() == v@.subrange(start as int, i as int));
        }
        let next = acc * 10 + d;
        if next > 2147483648 {
            // Every further digit only makes the value larger: the whole run
            // does not fit in an `i32`.
            proof {
                assert(v@.subrange(start as int, i + 1).last() == c);
                let pre = v@.subrange(start as int, i + 1);
                assert(digits_value(pre) == next);
                if all_digits(ds) {
                    lemma_digits_value_grows(ds, i + 1 - start);
                    assert(ds.take(i + 1 - start) == pre);
                    assert(digits_value(ds) > 2147483648);
                }
            }
            return None;
        }
        proof {
            assert(v@.subrange(start as int, i + 1).last() == c);
        }
        acc = next;
        i = i + 1;
    }
    proof {
        assert(v@.subrange(start as int, hi as int) == ds);
        assert forall|j: int| 0 <= j < ds.len() implies is_digit(#[trigger] ds[j]) by {
            assert(ds[j] == v@[start + j]);
        }
    }
    if neg {
        Some((-acc) as i32)
    } else if acc <= 2147483647 {
        Some(acc as i32)
    } else {
        None
    }
}


/// What follows the first `=` of a `key=value` line.
pub open spec fn line_value(line: Seq<char>) -> Option<Seq<char>> {
    match find_char(line, '=') {
        Some(k) => Some(line.skip(k + 1)),
        None => None,
    }
}

/// The pid a line such as `"pid"=12345` carries: its trimmed value parsed as an `i32`.
pub open spec fn line_pid(line: Seq<char>) -> Option<i32> {
    match line_value(line) {
        Some(v) => parse_i32(trim(v)),
        None => None,
    }
}

/// The name a line such as `"name"="Slack"` carries: its trimmed value with
/// the surrounding quotes removed, when that is not empty.
pub open spec fn line_name(line: Seq<char>) -> Option<Seq<char>> {
    match line_value(line) {
        Some(v) => {
            let n = trim_with(trim(v), Strip::Quote);
            if n.len() > 0 { Some(n) } else { None }
        },
        None => None,
    }
}

/// The first pid carried by any of the lines.
pub open spec fn first_pid(ls: Seq<Seq<char>>) -> Option<i32>
    decreases ls.len(),
{
    if ls.len() == 0 {
        None
    } else {
        match line_pid(ls[0]) {
            Some(p) => Some(p),
            None => first_pid(ls.drop_first()),
        }
    }
}

/// The first name carried by any of the lines.
pub open spec fn first_name(ls: Seq<Seq<char>>) -> Option<Seq<char>>
    decreases ls.len(),
{
    if ls.len() == 0 {
        None
    } else {
        match line_name(ls[0]) {
            Some(n) => Some(n),
            None => first_name(ls.drop_first()),
        }
    }
}

/// Some line carries a positive pid.
pub open spec fn any_live_pid(ls: Seq<Seq<char>>) -> bool
    decreases ls.len(),
{
    ls.len() > 0 && ((line_pid(ls[0]) matches Some(n) && n > 0) || any_live_pid(ls.drop_first()))
}

/// The pid in `v[lo..hi]`, read as `line_pid` does.
fn range_pid(v: &Vec<char>, lo: usize, hi: usize) -> (r: Option<i32>)
    requires
        lo <= hi <= v.len(),
    ensures
        r == line_pid(v@.subrange(lo as int, hi as int)),
{
    let ghost line = v@.subrange(lo as int, hi as int);
    match find_in_range(v, lo, hi, '=') {
        Some(k) => {
            proof { assert(line.skip(k - lo + 1) == v@.subrange(k + 1, hi as int)); }
            let (a, b) = trim_bounds(v, k + 1, hi, Strip::Whitespace);
            parse_i32_range(v, a, b)
        },
        None => None,
    }
}

/// The pid reported by `lsappinfo info -only pid ...`: the first line whose
/// value after `=` is an integer.
pub fn pid_from_lsappinfo(text: &str) -> (r: Option<i32>)
    ensures
        r == first_pid(lines(text@)),
{
    let v = chars_of(text);
    let mut p: usize = 0;
    proof { assert(v@.skip(0) == v@); }
    while p < v.len()
        invariant
            p <= v.len(),
            first_pid(lines(v@)) == first_pid(lines(v@.skip(p as int))),
            v@ == text@,
        decreases v.len() - p,
    {
        let (end, next) = next_line(&v, p);
        let ghost rest = lines(v@.skip(next as int));
        proof {
            assert((seq![v@.subrange(p as int, end as int)] + rest).drop_first() == rest);
        }
        match range_pid(&v, p, end) {
            Some(pid) => {
                return Some(pid);
            },
            None => {},
        }
        p = next;
    }
    proof {
        assert(v@.skip(p as int) == Seq::<char>::empty());
        assert(find_char(Seq::<char>::empty(), '\n') is None);
    }
    None
}

/// Whether `lsappinfo` output shows a running process: some line's value
/// after `=` is a positive integer.
pub fn lsappinfo_reports_live_pid(text: &str) -> (r: bool)
    ensures
        r == any_live_pid(lines(text@)),
{
    let v = chars_of(text);
    let mut p: usize = 0;
    proof { assert(v@.skip(0) == v@); }
    while p < v.len()
        invariant
            p <= v.len(),
            any_live_pid(lines(v@)) == any_live_pid(lines(v@.skip(p as int))),
            v@ == text@,
        decreases v.len() - p,
    {
        let (end, next) = next_line(&v, p);
        let ghost rest = lines(v@.skip(next as int));
        proof {
            assert((seq![v@.subrange(p as int, end as int)] + rest).drop_first() == rest);
        }
        match range_pid(&v, p, end) {
            Some(pid) => {
                if pid > 0 {
                    return true;
                }
            },
            None => {},
        }
        p = next;
    }
    proof {
        assert(v@.skip(p as int) == Seq::<char>::empty());
        assert(find_char(Seq::<char>::empty(), '\n') is None);
    }
    false
}

/// The application name reported by `lsappinfo info -only name ...`: the first
/// line whose value, trimmed and stripped of quotes, is not empty.
pub fn name_from_lsappinfo(text: &str) -> (r: Option<String>)
    ensures
        match r {
            Some(n) => first_name(lines(text@)) == Some(n@),
            None => first_name(lines(text@)) is None,
        },
{
    let v = chars_of(text);
    let mut p: usize = 0;
    proof { assert(v@.skip(0) == v@); }
    while p < v.len()
        invariant
            p <= v.len(),
            first_name(lines(v@)) == first_name(lines(v@.skip(p as int))),
            v@ == text@,
        decreases v.len() - p,
    {
        let (end, next) = next_line(&v, p);
        let ghost line = v@.subrange(p as int, end as int);
        let ghost rest = lines(v@.skip(next as int));
        proof {
            assert((seq![line] + rest).drop_first() == rest);
        }
        match find_in_range(&v, p, end, '=') {
            Some(k) => {
                proof { assert(line.skip(k - p + 1) == v@.subrange(k + 1, end as int)); }
                let (a, b) = trim_bounds(&v, k + 1, end, Strip::Whitespace);
                let (c, d) = trim_bounds(&v, a, b, Strip::Quote);
                if c < d {
                    let mut out = String::new();
                    push_range(&mut out, &v, c, d);
                    return Some(out);
                }
            },
            None => {},
        }
        p = next;
    }
    proof {
        assert(v@.skip(p as int) == Seq::<char>::empty());
        assert(find_char(Seq::<char>::empty(), '\n') is None);
    }
    None
}

/// The front application's identifier as `lsappinfo front` prints it: the
/// trimmed output, absent when that is empty.
pub fn front_asn(text: &str) -> (r: Option<String>)
    ensures
        match r {
            Some(a) => a@ == trim(text@) && a@.len() > 0,
            None => trim(text@).len() == 0,
        },
{
    let v = chars_of(text);
    let (a, b) = trim_bounds(&v, 0, v.len(), Strip::Whitespace);
    proof { assert(v@.subrange(0, v.len() as int) == v@); }
    if a == b {
        None
    } else {
        let mut out = String::new();
        push_range(&mut out, &v, a, b);
        Some(out)
    }
}

} // verus!

//! Building and inspecting text.

use vstd::prelude::*;
use vstd::string::{StrSliceExecFns, StringExecFns};

verus! {

/// A new string holding `s`.
pub fn owned(s: &str) -> (r: String)
    ensures
        r@ == s@,
{
    String::from_str(s)
}

/// `a` followed by `b`.
pub fn join2(a: &str, b: &str) -> (r: String)
    ensures
        r@ == a@ + b@,
{
    let mut r = String::from_str(a);
    r.append(b);
    r
}

/// `a`, `b` and `c` one after the other.
pub fn join3(a: &str, b: &str, c: &str) -> (r: String)
    ensures
        r@ == a@ + b@ + c@,
{
    let mut r = String::from_str(a);
    r.append(b);
    r.append(c);
    r
}

/// `a` to `d` one after the other.
pub fn join4(a: &str, b: &str, c: &str, d: &str) -> (r: String)
    ensures
        r@ == a@ + b@ + c@ + d@,
{
    let mut r = String::from_str(a);
    r.append(b);
    r.append(c);
    r.append(d);
    r
}

/// `a` to `e` one after the other.
pub fn join5(a: &str, b: &str, c: &str, d: &str, e: &str) -> (r: String)
    ensures
        r@ == a@ + b@ + c@ + d@ + e@,
{
    let mut r = String::from_str(a);
    r.append(b);
    r.append(c);
    r.append(d);
    r.append(e);
    r
}

/// The lower-case form that `str::to_lowercase` gives a string.
pub uninterp spec fn lowercase(s: Seq<char>) -> Seq<char>;

/// Calls `str::to_lowercase`, the Unicode lower-case mapping of every
/// character. The contract only names its result: the mapping is Unicode's
/// case tables.
#[verifier::external_body]
pub(crate) fn to_lowercase(s: &str) -> (r: String)
    ensures
        r@ == lowercase(s@),
{
    s.to_lowercase()
}

/// The characters with the Unicode White_Space property.
pub open spec fn is_white_space(c: char) -> bool {
    let v = c as int;
    ||| 0x09 <= v <= 0x0d
    ||| v == 0x20
    ||| v == 0x85
    ||| v == 0xa0
    ||| v == 0x1680
    ||| 0x2000 <= v <= 0x200a
    ||| v == 0x2028
    ||| v == 0x2029
    ||| v == 0x202f
    ||| v == 0x205f
    ||| v == 0x3000
}

/// Calls `char::is_whitespace`, which is true exactly of the characters with
/// the Unicode White_Space property.
#[verifier::external_body]
fn char_is_whitespace(c: char) -> (r: bool)
    ensures
        r == is_white_space(c),
{
    c.is_whitespace()
}

/// `s` without the characters at its start that satisfy `p`.
pub open spec fn strip_start(s: Seq<char>, p: spec_fn(char) -> bool) -> Seq<char>
    decreases s.len(),
{
    if s.len() > 0 && p(s[0]) {
        strip_start(s.drop_first(), p)
    } else {
        s
    }
}

/// `s` without the characters at its end that satisfy `p`.
pub open spec fn strip_end(s: Seq<char>, p: spec_fn(char) -> bool) -> Seq<char>
    decreases s.len(),
{
    if s.len() > 0 && p(s.last()) {
        strip_end(s.drop_last(), p)
    } else {
        s
    }
}

/// `s` with both ends stripped of characters that satisfy `p`.
pub open spec fn strip(s: Seq<char>, p: spec_fn(char) -> bool) -> Seq<char> {
    strip_end(strip_start(s, p), p)
}

/// A quotation mark.
pub open spec fn is_quote(c: char) -> bool {
    c == '"'
}

/// Quotation marks, or white space.
pub open spec fn strip_pred(quotes: bool) -> spec_fn(char) -> bool {
    if quotes {
        |c: char| is_quote(c)
    } else {
        |c: char| is_white_space(c)
    }
}

fn strippable(c: char, quotes: bool) -> (r: bool)
    ensures
        r == strip_pred(quotes)(c),
{
    if quotes {
        c == '"'
    } else {
        char_is_whitespace(c)
    }
}

/// The bounds of `s[lo..hi]` once characters that are white space (or
/// quotation marks) are stripped from both ends.
fn strip_bounds(s: &Vec<char>, lo: usize, hi: usize, quotes: bool) -> (r: (usize, usize))
    requires
        lo <= hi <= s@.len(),
    ensures
        lo <= r.0 <= r.1 <= hi,
        s@.subrange(r.0 as int, r.1 as int) == strip(s@.subrange(lo as int, hi as int), strip_pred(quotes)),
{
    let ghost p = strip_pred(quotes);
    let mut a = lo;
    while a < hi && strippable(s[a], quotes)
        invariant
            p == strip_pred(quotes),
            lo <= a <= hi <= s@.len(),
            strip_start(s@.subrange(lo as int, hi as int), p) == strip_start(
                s@.subrange(a as int, hi as int),
                p,
            ),
        decreases hi - a,
    {
        assert(s@.subrange(a as int, hi as int)[0] == s@[a as int]);
        assert(s@.subrange(a as int, hi as int).drop_first() =~= s@.subrange(a + 1, hi as int));
        a = a + 1;
    }
    assert(strip_start(s@.subrange(a as int, hi as int), p) == s@.subrange(a as int, hi as int));
    let mut b = hi;
    while b > a && strippable(s[b - 1], quotes)
        invariant
            p == strip_pred(quotes),
            lo <= a <= b <= hi <= s@.len(),
            strip_end(s@.subrange(a as int, hi as int), p) == strip_end(
                s@.subrange(a as int, b as int),
                p,
            ),
        decreases b - a,
    {
        assert(s@.subrange(a as int, b as int).last() == s@[b - 1]);
        assert(s@.subrange(a as int, b as int).drop_last() =~= s@.subrange(a as int, b - 1));
        b = b - 1;
    }
    assert(strip_end(s@.subrange(a as int, b as int), p) == s@.subrange(a as int, b as int));
    (a, b)
}

/// The folder typed into the start screen: the text without surrounding
/// white space, then without surrounding quotation marks; none when
/// nothing but white space was typed.
pub fn scan_target(input: &str) -> (r: Option<String>)
    ensures
        ({
            let t = strip(input@, |c: char| is_white_space(c));
            &&& t.len() == 0 ==> r is None
            &&& t.len() > 0 ==> r is Some && r->0@ == strip(t, |c: char| is_quote(c))
        }),
{
    let cs = chars_of(input);
    let (a, b) = strip_bounds(&cs, 0, cs.len(), false);
    assert(cs@.subrange(0, cs@.len() as int) =~= input@);
    if a == b {
        return None;
    }
    let (c, d) = strip_bounds(&cs, a, b, true);
    let sub = input.substring_char(c, d);
    Some(String::from_str(sub))
}

/// The characters of a string, in order.
pub fn chars_of(s: &str) -> (r: Vec<char>)
    ensures
        r@ == s@,
{
    broadcast use vstd::string::group_string_axioms;
    let mut r: Vec<char> = Vec::new();
    for c in it: s.chars()
        invariant
            r@ == it.seq().take(it.index() as int),
    {
        r.push(c);
    }
    r
}

} // verus!

//! Reading request parameters: key-value lookup, numbers, case folding,
//! whitespace splitting and quote trimming.

use vstd::prelude::*;
use crate::parse::{all_digits, dec_value, digits_value};
use crate::text::chars_of;

verus! {

/// The value of a key among key-value pairs: that of the first pair with
/// the key.
pub open spec fn param(ps: Seq<(String, String)>, key: Seq<char>) -> Option<Seq<char>>
    decreases ps.len(),
{
    if ps.len() == 0 {
        None
    } else if ps[0].0@ == key {
        Some(ps[0].1@)
    } else {
        param(ps.subrange(1, ps.len() as int), key)
    }
}

/// The value of a key among key-value pairs, if any.
pub fn get_param<'a>(ps: &'a Vec<(String, String)>, key: &str) -> (r: Option<&'a String>)
    ensures
        match r {
            Some(v) => param(ps@, key@) == Some(v@),
            None => param(ps@, key@) is None,
        },
{
    let ghost all = ps@;
    let mut k: usize = 0;
    assert(all.subrange(0, all.len() as int) =~= all);
    while k < ps.len()
        invariant
            all == ps@,
            k <= all.len(),
            param(all, key@) == param(all.subrange(k as int, all.len() as int), key@),
        decreases all.len() - k,
    {
        let ghost rest = all.subrange(k as int, all.len() as int);
        assert(rest.subrange(1, rest.len() as int) =~= all.subrange(k + 1, all.len() as int));
        assert(rest[0] == all[k as int]);
        if crate::params::same_text(ps[k].0.as_str(), key) {
            return Some(&ps[k].1);
        }
        k = k + 1;
    }
    None
}

/// Whether two string slices hold the same text.
pub fn same_text(a: &str, b: &str) -> (r: bool)
    ensures
        r == (a@ == b@),
{
    let av = chars_of(a);
    let bv = chars_of(b);
    if av.len() != bv.len() {
        return false;
    }
    let mut i: usize = 0;
    while i < av.len()
        invariant
            av@ == a@,
            bv@ == b@,
            av@.len() == bv@.len(),
            i <= av@.len(),
            forall|j: int| 0 <= j < i ==> av@[j] == bv@[j],
        decreases av@.len() - i,
    {
        if av[i] != bv[i] {
            return false;
        }
        i = i + 1;
    }
    assert(a@ =~= b@);
    true
}

/// A 16-bit unsigned number as `u16::from_str` reads it: an optional `+`,
/// then at least one decimal digit, at most 65535.
pub open spec fn parse_u16_spec(s: Seq<char>) -> Option<u16> {
    let d = if s.len() > 0 && s[0] == '+' { s.subrange(1, s.len() as int) } else { s };
    if d.len() >= 1 && all_digits(d) && dec_value(d) <= 65535 { Some(dec_value(d) as u16) } else { None }
}

/// Reads a 16-bit unsigned number.
pub fn parse_u16(s: &str) -> (r: Option<u16>)
    ensures
        r == parse_u16_spec(s@),
{
    let cs = chars_of(s);
    let lo: usize = if cs.len() > 0 && cs[0] == '+' { 1 } else { 0 };
    assert(lo == 0 ==> cs@.subrange(0, cs@.len() as int) =~= cs@);
    match digits_value(&cs, lo, 65535) {
        Some(v) => Some(v as u16),
        None => None,
    }
}

/// The lower-case form of a text, as `str::to_lowercase` gives it.
pub uninterp spec fn lower_text(s: Seq<char>) -> Seq<char>;

/// ASCII text with its capital letters made small.
pub open spec fn ascii_lower(s: Seq<char>) -> Seq<char> {
    s.map_values(|c: char| if 'A' <= c && c <= 'Z' { ((c as u32) + 32) as char } else { c })
}

/// Every character of the text is ASCII.
pub open spec fn is_ascii_text(s: Seq<char>) -> bool {
    forall|i: int| 0 <= i < s.len() ==> (s[i] as u32) < 128
}

/// What is known of the lower-case form of a text: on ASCII text it is
/// the text with its capital letters made small.
pub open spec fn lower_known(s: Seq<char>) -> bool {
    is_ascii_text(s) ==> lower_text(s) == ascii_lower(s)
}

/// The lower-case form of a text: `str::to_lowercase`, whose result is
/// the named one; on ASCII text it makes the capital letters small and
/// leaves every other character. Unicode case mapping beyond ASCII is not
/// spelled out.
#[verifier::external_body]
pub fn to_lower(s: &str) -> (r: String)
    ensures
        r@ == lower_text(s@),
        (forall|i: int| 0 <= i < s@.len() ==> (s@[i] as u32) < 128) ==> r@ == ascii_lower(s@),
{
    s.to_lowercase()
}

/// Whether a character is white space (the Unicode `White_Space`
/// property, as `char::is_whitespace` tests it).
pub open spec fn is_white_space(c: char) -> bool {
    ('\u{9}' <= c && c <= '\u{d}') || c == ' ' || c == '\u{85}' || c == '\u{a0}' || c == '\u{1680}'
        || ('\u{2000}' <= c && c <= '\u{200a}') || c == '\u{2028}' || c == '\u{2029}' || c == '\u{202f}'
        || c == '\u{205f}' || c == '\u{3000}'
}

/// Whether a character is white space.
pub fn white_space(c: char) -> (r: bool)
    ensures
        r == is_white_space(c),
{
    ('\u{9}' <= c && c <= '\u{d}') || c == ' ' || c == '\u{85}' || c == '\u{a0}' || c == '\u{1680}'
        || ('\u{2000}' <= c && c <= '\u{200a}') || c == '\u{2028}' || c == '\u{2029}' || c == '\u{202f}'
        || c == '\u{205f}' || c == '\u{3000}'
}

/// The words of a text: its maximal runs of non-white-space characters,
/// in order (as `str::split_whitespace` gives them).
pub open spec fn words(s: Seq<char>) -> Seq<Seq<char>>
    decreases s.len(),
{
    if s.len() == 0 {
        Seq::empty()
    } else {
        let w = words(s.drop_last());
        let c = s.last();
        if is_white_space(c) {
            w
        } else if s.len() >= 2 && !is_white_space(s[s.len() - 2]) && w.len() > 0 {
            w.update(w.len() - 1, w.last().push(c))
        } else {
            w.push(seq![c])
        }
    }
}

/// After a non-white-space character there is at least one word.
proof fn lemma_words_nonempty(s: Seq<char>)
    requires
        s.len() > 0,
        !is_white_space(s.last()),
    ensures
        words(s).len() > 0,
{
}

/// The words of a text.
pub fn split_words(s: &str) -> (r: Vec<Vec<char>>)
    ensures
        r@.len() == words(s@).len(),
        forall|i: int| 0 <= i < r@.len() ==> (#[trigger] r@[i])@ == words(s@)[i],
{
    let cs = chars_of(s);
    let mut r: Vec<Vec<char>> = Vec::new();
    let mut i: usize = 0;
    while i < cs.len()
        invariant
            cs@ == s@,
            i <= cs@.len(),
            r@.len() == words(cs@.take(i as int)).len(),
            forall|j: int| 0 <= j < r@.len() ==> (#[trigger] r@[j])@ == words(cs@.take(i as int))[j],
        decreases cs@.len() - i,
    {
        let c = cs[i];
        let ghost t = cs@.take(i + 1);
        assert(t.drop_last() =~= cs@.take(i as int));
        assert(t.last() == c);
        if white_space(c) {
        } else if i >= 1 && !white_space(cs[i - 1]) && r.len() > 0 {
            assert(t[t.len() - 2] == cs@[i - 1]);
            let last = r.len() - 1;
            let mut w = r.pop().unwrap();
            w.push(c);
            r.push(w);
            assert forall|j: int| 0 <= j < r@.len() implies (#[trigger] r@[j])@ == words(t)[j] by {
                if j < last {
                }
            }
        } else {
            if i >= 1 {
                assert(t[t.len() - 2] == cs@[i - 1]);
            }
            let mut w: Vec<char> = Vec::new();
            w.push(c);
            r.push(w);
            assert(w@ =~= seq![c]);
        }
        i = i + 1;
    }
    assert(cs@.take(cs@.len() as int) =~= cs@);
    r
}

/// A text without its leading and trailing `"` characters (as
/// `str::trim_matches('"')` gives it).
pub open spec fn trim_quotes(s: Seq<char>) -> Seq<char>
    decreases s.len(),
{
    if s.len() > 0 && s[0] == '"' {
        trim_quotes(s.drop_first())
    } else if s.len() > 0 && s.last() == '"' {
        trim_quotes(s.drop_last())
    } else {
        s
    }
}

/// The characters of a run from `lo` to `hi` as a string.
pub(crate) fn string_of(s: &Vec<char>, lo: usize, hi: usize) -> (r: String)
    requires
        lo <= hi <= s@.len(),
    ensures
        r@ == s@.subrange(lo as int, hi as int),
{
    let mut r = String::new();
    let mut i = lo;
    while i < hi
        invariant
            lo <= i <= hi <= s@.len(),
            r@ == s@.subrange(lo as int, i as int),
        decreases hi - i,
    {
        crate::text::push_char(&mut r, s[i]);
        assert(r@ =~= s@.subrange(lo as int, i + 1));
        i = i + 1;
    }
    r
}

/// A word as a string.
pub fn word_string(w: &Vec<char>) -> (r: String)
    ensures
        r@ == w@,
{
    let r = string_of(w, 0, w.len());
    assert(w@.subrange(0, w@.len() as int) =~= w@);
    r
}

/// A word without its leading and trailing `"` characters.
pub fn trim_quote_chars(w: &Vec<char>) -> (r: String)
    ensures
        r@ == trim_quotes(w@),
{
    let mut lo: usize = 0;
    let mut hi: usize = w.len();
    assert(w@.subrange(0, w@.len() as int) =~= w@);
    while lo < hi && w[lo] == '"'
        invariant
            lo <= hi == w@.len(),
            trim_quotes(w@) == trim_quotes(w@.subrange(lo as int, hi as int)),
        decreases hi - lo,
    {
        let ghost cur = w@.subrange(lo as int, hi as int);
        assert(cur.drop_first() =~= w@.subrange(lo + 1, hi as int));
        lo = lo + 1;
    }
    while lo < hi && w[hi - 1] == '"'
        invariant
            lo <= hi <= w@.len(),
            trim_quotes(w@) == trim_quotes(w@.subrange(lo as int, hi as int)),
            lo < hi ==> w@[lo as int] != '"',
        decreases hi - lo,
    {
        let ghost cur = w@.subrange(lo as int, hi as int);
        assert(cur.drop_last() =~= w@.subrange(lo as int, hi - 1));
        hi = hi - 1;
    }
    string_of(w, lo, hi)
}

} // verus!

//! Text building blocks: decimal and hexadecimal rendering, substring
//! search, and character-level helpers used by every module that renders
//! or inspects strings.

use vstd::prelude::*;

verus! {

/// The character of a decimal digit.
pub open spec fn digit_char(d: nat) -> char {
    if d == 0 { '0' } else if d == 1 { '1' } else if d == 2 { '2' } else if d == 3 { '3' }
    else if d == 4 { '4' } else if d == 5 { '5' } else if d == 6 { '6' } else if d == 7 { '7' }
    else if d == 8 { '8' } else { '9' }
}

/// The lower-case hexadecimal character of a nibble.
pub open spec fn hex_char(d: nat) -> char {
    if d < 10 { digit_char(d) }
    else if d == 10 { 'a' } else if d == 11 { 'b' } else if d == 12 { 'c' }
    else if d == 13 { 'd' } else if d == 14 { 'e' } else { 'f' }
}

/// Decimal rendering of a natural number, without leading zeros.
pub open spec fn dec(n: nat) -> Seq<char>
    decreases n,
{
    if n < 10 {
        seq![digit_char(n)]
    } else {
        dec(n / 10).push(digit_char(n % 10))
    }
}

/// Two lower-case hexadecimal digits of a byte.
pub open spec fn hex2(b: u8) -> Seq<char> {
    seq![hex_char((b / 16) as nat), hex_char((b % 16) as nat)]
}

/// Whether `p` occurs in `s` as a contiguous block.
pub open spec fn contains_seq(s: Seq<char>, p: Seq<char>) -> bool {
    exists|i: int| 0 <= i && i + p.len() <= s.len() && #[trigger] s.subrange(i, i + p.len()) == p
}

/// Whether `s` starts with `p`.
pub open spec fn starts_with_seq(s: Seq<char>, p: Seq<char>) -> bool {
    p.len() <= s.len() && s.subrange(0, p.len() as int) == p
}

/// Whether `s` ends with `p`.
pub open spec fn ends_with_seq(s: Seq<char>, p: Seq<char>) -> bool {
    p.len() <= s.len() && s.subrange(s.len() - p.len(), s.len() as int) == p
}


/// The text of an optional string.
pub open spec fn opt_view(o: Option<String>) -> Option<Seq<char>> {
    match o {
        Some(s) => Some(s@),
        None => None,
    }
}

/// Appends one character to a string (`String::push`).
#[verifier::external_body]
pub fn push_char(s: &mut String, c: char)
    ensures
        final(s)@ == old(s)@.push(c),
{
    s.push(c);
}

/// The character of a decimal digit.
pub fn digit(d: u8) -> (c: char)
    requires
        d < 10,
    ensures
        c == digit_char(d as nat),
{
    match d {
        0 => '0',
        1 => '1',
        2 => '2',
        3 => '3',
        4 => '4',
        5 => '5',
        6 => '6',
        7 => '7',
        8 => '8',
        _ => '9',
    }
}

/// The lower-case hexadecimal character of a nibble.
pub fn hex_digit(d: u8) -> (c: char)
    requires
        d < 16,
    ensures
        c == hex_char(d as nat),
{
    if d < 10 {
        digit(d)
    } else {
        match d {
            10 => 'a',
            11 => 'b',
            12 => 'c',
            13 => 'd',
            14 => 'e',
            _ => 'f',
        }
    }
}

/// Appends the decimal rendering of `n`.
pub fn push_dec(s: &mut String, n: u64)
    ensures
        final(s)@ == old(s)@ + dec(n as nat),
    decreases n,
{
    if n < 10 {
        push_char(s, digit(n as u8));
        assert(dec(n as nat) == seq![digit_char(n as nat)]);
    } else {
        push_dec(s, n / 10);
        push_char(s, digit((n % 10) as u8));
        assert(dec(n as nat) == dec((n / 10) as nat).push(digit_char((n % 10) as nat)));
    }
}

/// Decimal rendering of `n` as a new string.
pub fn dec_string(n: u64) -> (s: String)
    ensures
        s@ == dec(n as nat),
{
    let mut s = String::new();
    push_dec(&mut s, n);
    s
}

/// Appends a string slice.
pub fn push_str(s: &mut String, t: &str)
    ensures
        final(s)@ == old(s)@ + t@,
{
    s.append(t);
}

/// Appends two lower-case hexadecimal digits of `b`.
pub fn push_hex2(s: &mut String, b: u8)
    ensures
        final(s)@ == old(s)@ + hex2(b),
{
    push_char(s, hex_digit(b / 16));
    push_char(s, hex_digit(b % 16));
}

/// The characters of a string slice.
pub fn chars_of(s: &str) -> (v: Vec<char>)
    ensures
        v@ == s@,
{
    let n = s.unicode_len();
    let mut v: Vec<char> = Vec::new();
    let mut i: usize = 0;
    while i < n
        invariant
            n == s@.len(),
            i <= n,
            v@ == s@.subrange(0, i as int),
        decreases n - i,
    {
        v.push(s.get_char(i));
        i = i + 1;
    }
    v
}

/// Whether `p` occurs in `s` as a contiguous block (`str::contains`).
pub fn seq_contains(s: &Vec<char>, p: &Vec<char>) -> (r: bool)
    ensures
        r == contains_seq(s@, p@),
{
    let n = s.len();
    let m = p.len();
    if m > n {
        assert forall|i: int| 0 <= i && i + p@.len() <= s@.len() implies #[trigger] s@.subrange(i, i + p@.len()) != p@ by {}
        return false;
    }
    if m == 0 {
        assert(s@.subrange(0int, 0int + p@.len()) =~= p@);
        return true;
    }
    let mut i: usize = 0;
    while i <= n - m
        invariant
            n == s@.len(),
            m == p@.len(),
            0 < m <= n,
            i <= n - m + 1,
            forall|k: int| 0 <= k < i ==> #[trigger] s@.subrange(k, k + m) != p@,
        decreases n - m + 1 - i,
    {
        let mut j: usize = 0;
        let mut ok = true;
        while j < m
            invariant
                n == s@.len(),
                m == p@.len(),
                i + m <= n,
                j <= m,
                ok ==> forall|t: int| 0 <= t < j ==> s@[i + t] == p@[t],
                !ok ==> s@.subrange(i as int, i + m) != p@,
            decreases m - j,
        {
            if ok && s[i + j] != p[j] {
                ok = false;
                assert(s@.subrange(i as int, i + m)[j as int] == s@[i + j]);
            }
            j = j + 1;
        }
        if ok {
            assert(s@.subrange(i as int, i + m) =~= p@);
            return true;
        }
        i = i + 1;
    }
    assert forall|k: int| 0 <= k && k + p@.len() <= s@.len() implies #[trigger] s@.subrange(k, k + p@.len()) != p@ by {
        assert(k < i);
    }
    false
}

/// Whether `p` occurs in `s`, on string slices.
pub fn str_contains(s: &str, p: &str) -> (r: bool)
    ensures
        r == contains_seq(s@, p@),
{
    let sv = chars_of(s);
    let pv = chars_of(p);
    seq_contains(&sv, &pv)
}

/// Whether `s` starts with `p`, on string slices.
pub fn str_starts_with(s: &str, p: &str) -> (r: bool)
    ensures
        r == starts_with_seq(s@, p@),
{
    let sv = chars_of(s);
    let pv = chars_of(p);
    if pv.len() > sv.len() {
        return false;
    }
    let mut i: usize = 0;
    while i < pv.len()
        invariant
            sv@ == s@,
            pv@ == p@,
            pv@.len() <= sv@.len(),
            i <= pv@.len(),
            forall|j: int| 0 <= j < i ==> sv@[j] == pv@[j],
        decreases pv@.len() - i,
    {
        if sv[i] != pv[i] {
            assert(s@.subrange(0, p@.len() as int)[i as int] != p@[i as int]);
            return false;
        }
        i = i + 1;
    }
    assert(s@.subrange(0, p@.len() as int) =~= p@);
    true
}

/// Whether `s` ends with `p`, on string slices.
pub fn str_ends_with(s: &str, p: &str) -> (r: bool)
    ensures
        r == ends_with_seq(s@, p@),
{
    let sv = chars_of(s);
    let pv = chars_of(p);
    if pv.len() > sv.len() {
        return false;
    }
    let n = sv.len();
    let off = n - pv.len();
    let mut i: usize = 0;
    while i < pv.len()
        invariant
            sv@ == s@,
            pv@ == p@,
            off + pv@.len() == sv@.len(),
            n == sv@.len(),
            i <= pv@.len(),
            forall|j: int| 0 <= j < i ==> sv@[off + j] == pv@[j],
        decreases pv@.len() - i,
    {
        if sv[off + i] != pv[i] {
            assert(s@.subrange(s@.len() - p@.len(), s@.len() as int)[i as int] != p@[i as int]);
            return false;
        }
        i = i + 1;
    }
    assert(s@.subrange(s@.len() - p@.len(), s@.len() as int) =~= p@);
    true
}

/// A copy of a string slice as an owned string.
pub fn owned(s: &str) -> (r: String)
    ensures
        r@ == s@,
{
    String::from_str(s)
}

} // verus!

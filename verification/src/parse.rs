//! Parsing of dotted-quad IPv4 addresses and `address/prefix` networks.

use vstd::prelude::*;
use crate::ip::{IpAddress, IpNetwork, IpNetworkError, ipv4_text};
use crate::text::{chars_of, dec, digit_char};

verus! {

/// The pieces of `s` between occurrences of `sep` (like `str::split`).
pub open spec fn split_seq(s: Seq<char>, sep: char) -> Seq<Seq<char>>
    decreases s.len(),
{
    if s.len() == 0 {
        seq![Seq::empty()]
    } else {
        let r = split_seq(s.drop_last(), sep);
        if s.last() == sep {
            r.push(Seq::empty())
        } else {
            r.update(r.len() - 1, r.last().push(s.last()))
        }
    }
}

proof fn lemma_split_nonempty(s: Seq<char>, sep: char)
    ensures
        split_seq(s, sep).len() >= 1,
    decreases s.len(),
{
    if s.len() > 0 {
        lemma_split_nonempty(s.drop_last(), sep);
    }
}

/// Whether every character is an ASCII decimal digit.
pub open spec fn all_digits(s: Seq<char>) -> bool {
    forall|i: int| 0 <= i < s.len() ==> '0' <= #[trigger] s[i] && s[i] <= '9'
}

/// Value of a string of decimal digits.
pub open spec fn dec_value(s: Seq<char>) -> nat
    decreases s.len(),
{
    if s.len() == 0 { 0 } else { dec_value(s.drop_last()) * 10 + (s.last() as u32 - '0' as u32) as nat }
}

/// An octet of a dotted quad: one to three digits, no leading zero, at
/// most 255.
pub open spec fn quad_octet(s: Seq<char>) -> Option<nat> {
    if 1 <= s.len() <= 3 && all_digits(s) && !(s.len() > 1 && s[0] == '0') && dec_value(s) <= 255 {
        Some(dec_value(s))
    } else {
        None
    }
}

/// The value of a dotted-quad IPv4 address, if `s` is one.
pub open spec fn parse_ipv4_spec(s: Seq<char>) -> Option<u32> {
    let p = split_seq(s, '.');
    if p.len() == 4 && quad_octet(p[0]).is_some() && quad_octet(p[1]).is_some()
        && quad_octet(p[2]).is_some() && quad_octet(p[3]).is_some() {
        Some((quad_octet(p[0]).unwrap() * 0x1000000 + quad_octet(p[1]).unwrap() * 0x10000
            + quad_octet(p[2]).unwrap() * 0x100 + quad_octet(p[3]).unwrap()) as u32)
    } else {
        None
    }
}

/// A prefix length as `u8::from_str` reads it: an optional `+` and
/// decimal digits, at most 255.
pub open spec fn prefix_value(s: Seq<char>) -> Option<nat> {
    let d = if s.len() > 0 && s[0] == '+' { s.subrange(1, s.len() as int) } else { s };
    if d.len() >= 1 && all_digits(d) && dec_value(d) <= 255 { Some(dec_value(d)) } else { None }
}

/// What parsing `a.b.c.d` or `a.b.c.d/p` gives: a network with prefix 32
/// for a bare address, the given prefix when it is at most 32.
pub open spec fn parse_network_spec(s: Seq<char>) -> Result<IpNetwork, IpNetworkError> {
    let parts = split_seq(s, '/');
    if parts.len() == 1 {
        match parse_ipv4_spec(parts[0]) {
            Some(a) => Ok(IpNetwork { ip: IpAddress::V4(a), prefix: 32 }),
            None => Err(IpNetworkError::InvalidAddress),
        }
    } else if parts.len() == 2 {
        match (parse_ipv4_spec(parts[0]), prefix_value(parts[1])) {
            (Some(a), Some(p)) => if p <= 32 {
                Ok(IpNetwork { ip: IpAddress::V4(a), prefix: p as u8 })
            } else {
                Err(IpNetworkError::InvalidPrefix(p as u8))
            },
            _ => Err(IpNetworkError::InvalidAddress),
        }
    } else {
        Err(IpNetworkError::InvalidAddress)
    }
}

/// Splits a character sequence at every `sep`.
pub fn split_chars(s: &Vec<char>, sep: char) -> (r: Vec<Vec<char>>)
    ensures
        r@.len() == split_seq(s@, sep).len(),
        forall|i: int| 0 <= i < r@.len() ==> #[trigger] r@[i]@ == split_seq(s@, sep)[i],
{
    let mut done: Vec<Vec<char>> = Vec::new();
    let mut cur: Vec<char> = Vec::new();
    let mut i: usize = 0;
    while i < s.len()
        invariant
            i <= s@.len(),
            split_seq(s@.subrange(0, i as int), sep).len() == done@.len() + 1,
            forall|j: int| 0 <= j < done@.len() ==> #[trigger] done@[j]@ == split_seq(s@.subrange(0, i as int), sep)[j],
            cur@ == split_seq(s@.subrange(0, i as int), sep).last(),
        decreases s@.len() - i,
    {
        let c = s[i];
        let ghost pre = s@.subrange(0, i as int);
        assert(s@.subrange(0, i + 1).drop_last() =~= pre);
        if c == sep {
            let mut fresh: Vec<char> = Vec::new();
            std::mem::swap(&mut fresh, &mut cur);
            done.push(fresh);
        } else {
            cur.push(c);
        }
        i = i + 1;
    }
    assert(s@.subrange(0, s@.len() as int) =~= s@);
    done.push(cur);
    done
}

fn is_digit(c: char) -> (r: bool)
    ensures
        r == ('0' <= c && c <= '9'),
{
    '0' <= c && c <= '9'
}

/// Value of the digits from `lo` on, when they are all digits, at least
/// one, and their value is at most `limit`.
pub fn digits_value(s: &Vec<char>, lo: usize, limit: u32) -> (r: Option<u32>)
    requires
        lo <= s@.len(),
        limit <= 65535,
    ensures
        r.is_some() == (s@.len() - lo >= 1 && all_digits(s@.subrange(lo as int, s@.len() as int))
            && dec_value(s@.subrange(lo as int, s@.len() as int)) <= limit),
        r.is_some() ==> r.unwrap() as nat == dec_value(s@.subrange(lo as int, s@.len() as int)),
{
    if lo >= s.len() {
        return None;
    }
    let mut v: u32 = 0;
    let mut i: usize = lo;
    while i < s.len()
        invariant
            lo <= i <= s@.len(),
            all_digits(s@.subrange(lo as int, i as int)),
            v as nat == dec_value(s@.subrange(lo as int, i as int)),
            v <= limit,
            limit <= 65535,
        decreases s@.len() - i,
    {
        let c = s[i];
        let ghost pre = s@.subrange(lo as int, i as int);
        assert(s@.subrange(lo as int, i + 1).drop_last() =~= pre);
        if !is_digit(c) {
            assert(!all_digits(s@.subrange(lo as int, s@.len() as int))) by {
                assert(s@.subrange(lo as int, s@.len() as int)[i - lo] == c);
            }
            return None;
        }
        let d = (c as u32) - ('0' as u32);
        let nv: u32 = v * 10 + d;
        assert(all_digits(s@.subrange(lo as int, i + 1)));
        assert(nv as nat == dec_value(s@.subrange(lo as int, i + 1)));
        if nv > limit {
            proof {
                let whole = s@.subrange(lo as int, s@.len() as int);
                assert(whole.subrange(0, i - lo + 1) =~= s@.subrange(lo as int, i + 1));
                if all_digits(whole) {
                    lemma_dec_value_grows(whole, (i - lo + 1) as nat);
                }
            }
            return None;
        }
        v = nv;
        i = i + 1;
    }
    Some(v)
}

/// A longer prefix of digits has a value at least as large.
proof fn lemma_dec_value_grows(s: Seq<char>, k: nat)
    requires
        k <= s.len(),
        all_digits(s),
    ensures
        dec_value(s.subrange(0, k as int)) <= dec_value(s),
    decreases s.len(),
{
    if k < s.len() {
        assert(s.drop_last().subrange(0, k as int) =~= s.subrange(0, k as int));
        lemma_dec_value_grows(s.drop_last(), k);
    } else {
        assert(s.subrange(0, k as int) =~= s);
    }
}

/// Parses one dotted-quad octet.
fn quad_octet_exec(s: &Vec<char>) -> (r: Option<u32>)
    ensures
        r.is_some() == quad_octet(s@).is_some(),
        r.is_some() ==> r.unwrap() as nat == quad_octet(s@).unwrap(),
{
    assert(s@.subrange(0, s@.len() as int) =~= s@);
    if s.len() < 1 || s.len() > 3 {
        return None;
    }
    if s.len() > 1 && s[0] == '0' {
        return None;
    }
    digits_value(s, 0, 255)
}

/// Parses a dotted-quad IPv4 address.
pub fn parse_ipv4(s: &Vec<char>) -> (r: Option<u32>)
    ensures
        r == parse_ipv4_spec(s@),
{
    let p = split_chars(s, '.');
    if p.len() != 4 {
        return None;
    }
    let a = quad_octet_exec(&p[0]);
    let b = quad_octet_exec(&p[1]);
    let c = quad_octet_exec(&p[2]);
    let d = quad_octet_exec(&p[3]);
    match (a, b, c, d) {
        (Some(a), Some(b), Some(c), Some(d)) => Some(a * 0x1000000 + b * 0x10000 + c * 0x100 + d),
        _ => None,
    }
}

impl IpNetwork {
    /// Parses `a.b.c.d` (prefix 32) or `a.b.c.d/p` (p at most 32).
    pub fn from_str(s: &str) -> (r: Result<IpNetwork, IpNetworkError>)
        ensures
            r == parse_network_spec(s@),
    {
        let cs = chars_of(s);
        let parts = split_chars(&cs, '/');
        proof { lemma_split_nonempty(s@, '/'); }
        if parts.len() == 1 {
            match parse_ipv4(&parts[0]) {
                Some(a) => Ok(IpNetwork { ip: IpAddress::V4(a), prefix: 32 }),
                None => Err(IpNetworkError::InvalidAddress),
            }
        } else if parts.len() == 2 {
            let a = parse_ipv4(&parts[0]);
            let ps = &parts[1];
            let lo: usize = if ps.len() > 0 && ps[0] == '+' { 1 } else { 0 };
            assert(lo == 0 ==> ps@.subrange(0, ps@.len() as int) =~= ps@);
            let p = digits_value(ps, lo, 255);
            match (a, p) {
                (Some(a), Some(p)) => {
                    if p <= 32 {
                        Ok(IpNetwork { ip: IpAddress::V4(a), prefix: p as u8 })
                    } else {
                        Err(IpNetworkError::InvalidPrefix(p as u8))
                    }
                }
                _ => Err(IpNetworkError::InvalidAddress),
            }
        } else {
            Err(IpNetworkError::InvalidAddress)
        }
    }
}

// ---------------------------------------------------------------------
// Dotted quads read back.

/// A decimal digit's character: a digit, with that value, not a dot.
proof fn lemma_digit_char(d: nat)
    requires
        d < 10,
    ensures
        '0' <= digit_char(d) <= '9',
        digit_char(d) as u32 - '0' as u32 == d,
        digit_char(d) != '.',
        d >= 1 ==> digit_char(d) != '0',
{
    assert(d == 0 || d == 1 || d == 2 || d == 3 || d == 4 || d == 5 || d == 6 || d == 7 || d == 8 || d == 9);
}

/// Decimal text is digits with the value it renders, one to three of them
/// below 1000, and without a leading zero for a number from 1 on.
pub proof fn lemma_dec_text(n: nat)
    ensures
        dec(n).len() >= 1,
        all_digits(dec(n)),
        dec_value(dec(n)) == n,
        n < 10 ==> dec(n).len() == 1,
        n < 100 ==> dec(n).len() <= 2,
        n < 1000 ==> dec(n).len() <= 3,
        n >= 1 ==> dec(n)[0] != '0',
        forall|i: int| 0 <= i < dec(n).len() ==> #[trigger] dec(n)[i] != '.',
    decreases n,
{
    if n < 10 {
        lemma_digit_char(n);
        assert(dec(n) == seq![digit_char(n)]);
        assert(dec(n).drop_last() =~= Seq::<char>::empty());
        assert(dec_value(dec(n)) == dec_value(Seq::<char>::empty()) * 10 + (digit_char(n) as u32 - '0' as u32) as nat);
    } else {
        lemma_dec_text(n / 10);
        lemma_digit_char(n % 10);
        let d = dec(n / 10);
        assert(dec(n) == d.push(digit_char(n % 10)));
        assert(dec(n).drop_last() =~= d);
        assert(dec(n)[0] == d[0]);
        assert(dec_value(dec(n)) == dec_value(d) * 10 + (digit_char(n % 10) as u32 - '0' as u32) as nat);
        assert forall|i: int| 0 <= i < dec(n).len() implies '0' <= #[trigger] dec(n)[i] && dec(n)[i] <= '9' by {
            if i < d.len() {
                assert(dec(n)[i] == d[i]);
            }
        }
        assert forall|i: int| 0 <= i < dec(n).len() implies #[trigger] dec(n)[i] != '.' by {
            if i < d.len() {
                assert(dec(n)[i] == d[i]);
            }
        }
    }
}

/// A text without the separator is one piece.
proof fn lemma_split_whole(q: Seq<char>, sep: char)
    requires
        forall|i: int| 0 <= i < q.len() ==> q[i] != sep,
    ensures
        split_seq(q, sep) == seq![q],
    decreases q.len(),
{
    if q.len() > 0 {
        let q1 = q.drop_last();
        assert forall|i: int| 0 <= i < q1.len() implies q1[i] != sep by {
            assert(q1[i] == q[i]);
        }
        lemma_split_whole(q1, sep);
        assert(q.last() != sep);
        assert(q1.push(q.last()) =~= q);
        assert(seq![q1].update(0, q1.push(q.last())) =~= seq![q]);
    } else {
        assert(q =~= Seq::<char>::empty());
    }
}

/// A separator followed by a text without it adds that text as a piece.
proof fn lemma_split_after(s: Seq<char>, q: Seq<char>, sep: char)
    requires
        forall|i: int| 0 <= i < q.len() ==> q[i] != sep,
    ensures
        split_seq(s + seq![sep] + q, sep) == split_seq(s, sep).push(q),
    decreases q.len(),
{
    lemma_split_nonempty(s, sep);
    if q.len() == 0 {
        assert(s + seq![sep] + q =~= s.push(sep));
        assert((s + seq![sep] + q).drop_last() =~= s);
        assert(q =~= Seq::<char>::empty());
    } else {
        let q1 = q.drop_last();
        assert forall|i: int| 0 <= i < q1.len() implies q1[i] != sep by {
            assert(q1[i] == q[i]);
        }
        lemma_split_after(s, q1, sep);
        let t = s + seq![sep] + q;
        assert(t.drop_last() =~= s + seq![sep] + q1);
        assert(t.last() == q.last());
        assert(q.last() != sep);
        let r = split_seq(s, sep).push(q1);
        assert(r.last() == q1);
        assert(q1.push(q.last()) =~= q);
        assert(r.update(r.len() - 1, r.last().push(t.last())) =~= split_seq(s, sep).push(q));
    }
}

/// The dotted-decimal text of an address reads back as the address.
pub proof fn law_ipv4_text_reads_back(a: u32)
    ensures
        parse_ipv4_spec(ipv4_text(a)) == Some(a),
{
    let o0 = (a / 0x1000000) as nat;
    let o1 = ((a / 0x10000) % 256) as nat;
    let o2 = ((a / 0x100) % 256) as nat;
    let o3 = (a % 256) as nat;
    lemma_dec_text(o0);
    lemma_dec_text(o1);
    lemma_dec_text(o2);
    lemma_dec_text(o3);
    let (d0, d1, d2, d3) = (dec(o0), dec(o1), dec(o2), dec(o3));
    lemma_split_whole(d0, '.');
    lemma_split_after(d0, d1, '.');
    lemma_split_after(d0 + seq!['.'] + d1, d2, '.');
    lemma_split_after(d0 + seq!['.'] + d1 + seq!['.'] + d2, d3, '.');
    assert(ipv4_text(a) == d0 + seq!['.'] + d1 + seq!['.'] + d2 + seq!['.'] + d3);
    let p = split_seq(ipv4_text(a), '.');
    assert(p =~= seq![d0, d1, d2, d3]);
    assert(a / 0x1000000 < 256) by (bit_vector);
    assert(quad_octet(d0) == Some(o0));
    assert(quad_octet(d1) == Some(o1));
    assert(quad_octet(d2) == Some(o2));
    assert(quad_octet(d3) == Some(o3));
    assert((a / 0x1000000) * 0x1000000 + ((a / 0x10000) % 256) * 0x10000 + ((a / 0x100) % 256) * 0x100 + a % 256 == a)
        by (bit_vector);
}

} // verus!

//! IP addresses and networks as plain values: an IPv4 address is its 32-bit
//! value, an IPv6 address its 128-bit value. Network arithmetic (network
//! address, containment, n-th host) is computed and proved here.

use vstd::prelude::*;
use crate::text::{dec, push_dec, push_char, push_str, hex_char, hex_digit};
use vstd::arithmetic::div_mod::{lemma_fundamental_div_mod, lemma_div_pos_is_pos, lemma_div_by_multiple, lemma_mod_multiples_basic};
use vstd::arithmetic::mul::{lemma_mul_inequality, lemma_mul_strict_inequality};

verus! {

/// An IP address.
#[derive(Debug, Clone, Copy, PartialEq, Eq, Structural, Hash)]
pub enum IpAddress {
    /// IPv4 address, most significant octet first.
    V4(u32),
    /// IPv6 address, most significant group first.
    V6(u128),
}

/// The eight 16-bit groups of an IPv6 address, most significant first.
pub open spec fn v6_groups(v: u128) -> Seq<u16> {
    Seq::new(8, |i: int| ((v as int / pow16(7 - i)) % 0x10000) as u16)
}

/// 65536 to the power `k` (for `k` in 0..8).
pub open spec fn pow16(k: int) -> int
    decreases k,
{
    if k <= 0 { 1 } else { 0x10000 * pow16(k - 1) }
}

/// Lower-case hexadecimal text of a number, without leading zeros.
pub open spec fn hexn(n: nat) -> Seq<char>
    decreases n,
{
    if n < 16 { seq![hex_char(n)] } else { hexn(n / 16).push(hex_char(n % 16)) }
}

/// Groups joined by `:`, each in lower-case hexadecimal.
pub open spec fn join_groups(g: Seq<u16>) -> Seq<char>
    decreases g.len(),
{
    if g.len() == 0 {
        Seq::empty()
    } else if g.len() == 1 {
        hexn(g[0] as nat)
    } else {
        join_groups(g.drop_last()) + seq![':'] + hexn(g.last() as nat)
    }
}

/// Scan for the longest run of zero groups (the leftmost on ties):
/// from index `i`, with the current run and the best run found so far.
pub open spec fn zero_run_scan(g: Seq<u16>, i: nat, cs: nat, cl: nat, bs: nat, bl: nat) -> (nat, nat)
    decreases 8 - i,
{
    if i >= 8 || i >= g.len() {
        (bs, bl)
    } else if g[i as int] == 0 {
        let ncs = if cl == 0 { i } else { cs };
        let ncl = cl + 1;
        if ncl > bl { zero_run_scan(g, i + 1, ncs, ncl, ncs, ncl) } else { zero_run_scan(g, i + 1, ncs, ncl, bs, bl) }
    } else {
        zero_run_scan(g, i + 1, 0, 0, bs, bl)
    }
}

/// Text of an IPv6 address: IPv4-mapped addresses as `::ffff:` and the
/// dotted IPv4 text; otherwise the groups in hexadecimal with the longest
/// run of two or more zero groups written as `::`.
pub open spec fn ipv6_text(v: u128) -> Seq<char> {
    let g = v6_groups(v);
    if g[0] == 0 && g[1] == 0 && g[2] == 0 && g[3] == 0 && g[4] == 0 && g[5] == 0xffff {
        seq![':', ':', 'f', 'f', 'f', 'f', ':'] + ipv4_text((v % 0x1_0000_0000) as u32)
    } else {
        let (bs, bl) = zero_run_scan(g, 0, 0, 0, 0, 0);
        if bl > 1 {
            join_groups(g.subrange(0, bs as int)) + seq![':', ':'] + join_groups(g.subrange((bs + bl) as int, 8))
        } else {
            join_groups(g)
        }
    }
}

/// Appends the lower-case hexadecimal text of `n`.
pub fn push_hexn(s: &mut String, n: u16)
    ensures
        final(s)@ == old(s)@ + hexn(n as nat),
    decreases n,
{
    if n < 16 {
        push_char(s, hex_digit(n as u8));
    } else {
        push_hexn(s, n / 16);
        push_char(s, hex_digit((n % 16) as u8));
        assert(hexn(n as nat) == hexn((n / 16) as nat).push(hex_char((n % 16) as nat)));
    }
}

/// Appends groups `lo..hi` joined by `:`.
fn push_groups(s: &mut String, g: &Vec<u16>, lo: usize, hi: usize)
    requires
        lo <= hi <= g@.len(),
    ensures
        final(s)@ == old(s)@ + join_groups(g@.subrange(lo as int, hi as int)),
{
    let mut i: usize = lo;
    while i < hi
        invariant
            lo <= i <= hi <= g@.len(),
            s@ == old(s)@ + join_groups(g@.subrange(lo as int, i as int)),
        decreases hi - i,
    {
        let ghost before = s@;
        if i > lo {
            push_char(s, ':');
        }
        push_hexn(s, g[i]);
        let ghost sub = g@.subrange(lo as int, i + 1);
        assert(sub.drop_last() =~= g@.subrange(lo as int, i as int));
        if i == lo {
            assert(g@.subrange(lo as int, i as int) =~= Seq::<u16>::empty());
            assert(join_groups(sub) == hexn(sub[0] as nat));
        }
        assert(s@ =~= old(s)@ + join_groups(sub));
        i = i + 1;
    }
}

proof fn lemma_groups_bound(v: u128, i: int)
    requires
        0 <= i < 8,
    ensures
        v6_groups(v)[i] as int == (v as int / pow16(7 - i)) % 0x10000,
        pow16(7 - i) > 0,
{
    lemma_pow16_pos(7 - i);
}

proof fn lemma_pow16_pos(k: int)
    ensures
        pow16(k) > 0,
    decreases k,
{
    if k > 0 {
        lemma_pow16_pos(k - 1);
    }
}

fn group_divisor(k: u32) -> (d: u128)
    requires
        k < 8,
    ensures
        d as int == pow16(k as int),
{
    proof { reveal_with_fuel(pow16, 8); }
    match k {
        0 => 1,
        1 => 0x10000,
        2 => 0x1_0000_0000,
        3 => 0x1_0000_0000_0000,
        4 => 0x1_0000_0000_0000_0000,
        5 => 0x1_0000_0000_0000_0000_0000,
        6 => 0x1_0000_0000_0000_0000_0000_0000,
        _ => 0x1_0000_0000_0000_0000_0000_0000_0000,
    }
}

/// Appends the text of an IPv6 address.
pub fn push_ipv6(s: &mut String, v: u128)
    ensures
        final(s)@ == old(s)@ + ipv6_text(v),
{
    let mut g: Vec<u16> = Vec::new();
    let mut i: u32 = 0;
    while i < 8
        invariant
            i <= 8,
            g@.len() == i,
            forall|j: int| 0 <= j < i ==> g@[j] == v6_groups(v)[j],
        decreases 8 - i,
    {
        let d = group_divisor(7 - i);
        proof { lemma_groups_bound(v, i as int); }
        g.push(((v / d) % 0x10000) as u16);
        i = i + 1;
    }
    assert(g@ =~= v6_groups(v));
    if g[0] == 0 && g[1] == 0 && g[2] == 0 && g[3] == 0 && g[4] == 0 && g[5] == 0xffff {
        push_str(s, "::ffff:");
        proof { reveal_strlit("::ffff:"); }
        push_ipv4(s, (v % 0x1_0000_0000) as u32);
        assert(final(s)@ =~= old(s)@ + ipv6_text(v));
    } else {
        let mut cs: usize = 0;
        let mut cl: usize = 0;
        let mut bs: usize = 0;
        let mut bl: usize = 0;
        let mut k: usize = 0;
        while k < 8
            invariant
                g@ == v6_groups(v),
                k <= 8,
                cs + cl <= k, bs + bl <= k,
                zero_run_scan(g@, k as nat, cs as nat, cl as nat, bs as nat, bl as nat)
                    == zero_run_scan(g@, 0, 0, 0, 0, 0),
            decreases 8 - k,
        {
            if g[k] == 0 {
                if cl == 0 {
                    cs = k;
                }
                cl = cl + 1;
                if cl > bl {
                    bs = cs;
                    bl = cl;
                }
            } else {
                cs = 0;
                cl = 0;
            }
            k = k + 1;
        }
        if bl > 1 {
            push_groups(s, &g, 0, bs);
            push_char(s, ':');
            push_char(s, ':');
            push_groups(s, &g, bs + bl, 8);
        } else {
            push_groups(s, &g, 0, 8);
            assert(g@.subrange(0, 8) =~= g@);
        }
        assert(final(s)@ =~= old(s)@ + ipv6_text(v));
    }
}

/// Dotted-decimal text of an IPv4 address.
pub open spec fn ipv4_text(a: u32) -> Seq<char> {
    dec((a / 0x1000000) as nat) + seq!['.'] + dec(((a / 0x10000) % 256) as nat) + seq!['.']
        + dec(((a / 0x100) % 256) as nat) + seq!['.'] + dec((a % 256) as nat)
}

/// Text of an IP address.
pub open spec fn ip_text(ip: IpAddress) -> Seq<char> {
    match ip {
        IpAddress::V4(a) => ipv4_text(a),
        IpAddress::V6(a) => ipv6_text(a),
    }
}

/// Appends the dotted-decimal text of an IPv4 address.
pub fn push_ipv4(s: &mut String, a: u32)
    ensures
        final(s)@ == old(s)@ + ipv4_text(a),
{
    push_dec(s, (a / 0x1000000) as u64);
    push_char(s, '.');
    push_dec(s, ((a / 0x10000) % 256) as u64);
    push_char(s, '.');
    push_dec(s, ((a / 0x100) % 256) as u64);
    push_char(s, '.');
    push_dec(s, (a % 256) as u64);
    assert(final(s)@ =~= old(s)@ + ipv4_text(a));
}

impl IpAddress {
    /// An IPv4 address from its four octets.
    pub fn v4(a: u8, b: u8, c: u8, d: u8) -> (ip: IpAddress)
        ensures
            ip == IpAddress::V4((a as int * 0x1000000 + b as int * 0x10000 + c as int * 0x100 + d as int) as u32),
    {
        IpAddress::V4(a as u32 * 0x1000000 + b as u32 * 0x10000 + c as u32 * 0x100 + d as u32)
    }

    /// The text of the address.
    pub fn to_string(&self) -> (s: String)
        ensures
            s@ == ip_text(*self),
    {
        match self {
            IpAddress::V4(a) => {
                let mut s = String::new();
                push_ipv4(&mut s, *a);
                assert(s@ =~= ipv4_text(*a));
                s
            }
            IpAddress::V6(a) => {
                let mut s = String::new();
                push_ipv6(&mut s, *a);
                assert(s@ =~= ipv6_text(*a));
                s
            }
        }
    }

    /// Appends the text of the address.
    pub fn push_to(&self, s: &mut String)
        ensures
            final(s)@ == old(s)@ + ip_text(*self),
    {
        let t = self.to_string();
        push_str(s, t.as_str());
    }
}


/// 2 to the power `n`.
pub open spec fn pow2(n: nat) -> nat
    decreases n,
{
    if n == 0 { 1 } else { 2 * pow2((n - 1) as nat) }
}

/// Number of bits of an address of the same family.
pub open spec fn addr_width(ip: IpAddress) -> nat {
    match ip {
        IpAddress::V4(_) => 32,
        IpAddress::V6(_) => 128,
    }
}

/// The numeric value of an address.
pub open spec fn addr_value(ip: IpAddress) -> nat {
    match ip {
        IpAddress::V4(a) => a as nat,
        IpAddress::V6(a) => a as nat,
    }
}

/// Whether two addresses are of the same family.
pub open spec fn same_family(a: IpAddress, b: IpAddress) -> bool {
    addr_width(a) == addr_width(b)
}

/// An address of the family of `ip` with the given value.
pub open spec fn with_value(ip: IpAddress, v: nat) -> IpAddress {
    match ip {
        IpAddress::V4(_) => IpAddress::V4(v as u32),
        IpAddress::V6(_) => IpAddress::V6(v as u128),
    }
}

/// An IP network: an address and a prefix length.
#[derive(Debug, Clone, Copy, PartialEq, Eq, Structural, Hash)]
pub struct IpNetwork {
    pub ip: IpAddress,
    pub prefix: u8,
}

/// Error building or parsing a network.
#[derive(Debug, Clone, Copy, PartialEq, Eq, Structural)]
pub enum IpNetworkError {
    /// The prefix is longer than the address.
    InvalidPrefix(u8),
    /// The text is not `a.b.c.d` or `a.b.c.d/p`.
    InvalidAddress,
}

impl IpNetwork {
    /// The prefix fits the address family.
    pub open spec fn wf(self) -> bool {
        self.prefix as nat <= addr_width(self.ip)
    }

    /// The prefix length, capped at the address width.
    pub open spec fn eff_prefix(self) -> nat {
        if self.prefix as nat > addr_width(self.ip) { addr_width(self.ip) } else { self.prefix as nat }
    }

    /// Number of addresses in the network.
    pub open spec fn size(self) -> nat {
        pow2((addr_width(self.ip) - self.eff_prefix()) as nat)
    }

    /// Numeric value of the network address.
    pub open spec fn network_value(self) -> nat {
        (addr_value(self.ip) / self.size()) * self.size()
    }

    /// The network address.
    pub open spec fn network_spec(self) -> IpAddress {
        with_value(self.ip, self.network_value())
    }

    /// Whether the network holds `other`.
    pub open spec fn contains_spec(self, other: IpAddress) -> bool {
        same_family(self.ip, other) && addr_value(other) / self.size() == addr_value(self.ip) / self.size()
    }

    /// The `n`-th address of the network, if the network has that many.
    pub open spec fn nth_spec(self, n: nat) -> Option<IpAddress> {
        if n < self.size() { Some(with_value(self.ip, self.network_value() + n)) } else { None }
    }

    /// A network from an address and a prefix no longer than the address.
    pub fn new(ip: IpAddress, prefix: u8) -> (r: Result<IpNetwork, IpNetworkError>)
        ensures
            r.is_ok() == (prefix as nat <= addr_width(ip)),
            r.is_ok() ==> r.unwrap() == (IpNetwork { ip, prefix }),
            r.is_err() ==> r == Err::<IpNetwork, IpNetworkError>(IpNetworkError::InvalidPrefix(prefix)),
    {
        let w: u8 = match ip { IpAddress::V4(_) => 32, IpAddress::V6(_) => 128 };
        if prefix > w {
            return Err(IpNetworkError::InvalidPrefix(prefix));
        }
        Ok(IpNetwork { ip, prefix })
    }

    /// The address.
    pub fn ip(&self) -> (r: IpAddress)
        ensures
            r == self.ip,
    {
        self.ip
    }

    fn eff(&self) -> (p: u8)
        ensures
            p as nat == self.eff_prefix(),
            p as nat <= addr_width(self.ip),
    {
        match self.ip {
            IpAddress::V4(_) => if self.prefix > 32 { 32 } else { self.prefix },
            IpAddress::V6(_) => if self.prefix > 128 { 128 } else { self.prefix },
        }
    }

    /// The prefix length.
    pub fn prefix(&self) -> (r: u8)
        ensures
            r == self.prefix,
    {
        self.prefix
    }

    /// The network address.
    pub fn network(&self) -> (r: IpAddress)
        ensures
            r == self.network_spec(),
            addr_value(r) == self.network_value(),
    {
        let p = self.eff();
        match self.ip {
            IpAddress::V4(a) => {
                let b = pow2_u64((32 - p) as u32);
                proof { lemma_net_bound(a as nat, b as nat, 0x1_0000_0000); }
                IpAddress::V4(((a as u64 / b) * b) as u32)
            }
            IpAddress::V6(a) => {
                if p == 0 {
                    proof { lemma_pow2_128(); lemma_small_div(a as nat, pow2(128)); }
                    IpAddress::V6(0)
                } else {
                    let b = pow2_u128((128 - p) as u32);
                    proof { lemma_pow2_128(); lemma_net_bound(a as nat, b as nat, pow2(128)); }
                    IpAddress::V6((a / b) * b)
                }
            }
        }
    }

    /// Whether the network holds `other`.
    pub fn contains(&self, other: IpAddress) -> (r: bool)
        ensures
            r == self.contains_spec(other),
    {
        let p = self.eff();
        match (self.ip, other) {
            (IpAddress::V4(a), IpAddress::V4(o)) => {
                let b = pow2_u64((32 - p) as u32);
                a as u64 / b == o as u64 / b
            }
            (IpAddress::V6(a), IpAddress::V6(o)) => {
                if p == 0 {
                    proof { lemma_pow2_128(); lemma_small_div(a as nat, pow2(128)); lemma_small_div(o as nat, pow2(128)); }
                    true
                } else {
                    let b = pow2_u128((128 - p) as u32);
                    a / b == o / b
                }
            }
            _ => false,
        }
    }

    /// The `n`-th address of the network (`n` = 0 is the network address);
    /// `None` when the network has fewer than `n + 1` addresses.
    pub fn nth(&self, n: u32) -> (r: Option<IpAddress>)
        ensures
            r == self.nth_spec(n as nat),
    {
        let p = self.eff();
        match self.ip {
            IpAddress::V4(a) => {
                let b = pow2_u64((32 - p) as u32);
                if (n as u64) < b {
                    proof {
                        lemma_pow2_divides((32 - p) as nat, 32);
                        lemma_pow2_32();
                        lemma_net_room(a as nat, b as nat, n as nat, 0x1_0000_0000);
                    }
                    Some(IpAddress::V4(((a as u64 / b) * b + n as u64) as u32))
                } else {
                    None
                }
            }
            IpAddress::V6(a) => {
                if p == 0 {
                    proof { lemma_pow2_128(); lemma_small_div(a as nat, pow2(128)); }
                    Some(IpAddress::V6(n as u128))
                } else {
                    let b = pow2_u128((128 - p) as u32);
                    if (n as u128) < b {
                        proof {
                            lemma_pow2_divides((128 - p) as nat, 128);
                            lemma_pow2_128();
                            lemma_net_room(a as nat, b as nat, n as nat, pow2(128));
                        }
                        Some(IpAddress::V6((a / b) * b + n as u128))
                    } else {
                        None
                    }
                }
            }
        }
    }

    /// Text `address/prefix`.
    pub fn to_string(&self) -> (s: String)
        ensures
            s@ == ip_text(self.ip) + seq!['/'] + dec(self.prefix as nat),
    {
        let mut s = self.ip.to_string();
        push_char(&mut s, '/');
        push_dec(&mut s, self.prefix as u64);
        s
    }
}

/// 2^k as a u64, for k up to 32.
pub fn pow2_u64(k: u32) -> (r: u64)
    requires
        k <= 32,
    ensures
        r as nat == pow2(k as nat),
        r > 0,
        r <= 0x1_0000_0000,
{
    let mut r: u64 = 1;
    let mut i: u32 = 0;
    while i < k
        invariant
            i <= k <= 32,
            r as nat == pow2(i as nat),
            1 <= r <= pow2(i as nat),
            pow2(i as nat) <= pow2(32) ==> r <= 0x1_0000_0000,
        decreases k - i,
    {
        proof { lemma_pow2_mono(i as nat + 1, 32); lemma_pow2_32(); }
        r = r * 2;
        i = i + 1;
    }
    proof { lemma_pow2_mono(k as nat, 32); lemma_pow2_32(); }
    r
}

/// 2^k as a u128, for k up to 127.
pub fn pow2_u128(k: u32) -> (r: u128)
    requires
        k <= 127,
    ensures
        r as nat == pow2(k as nat),
        r > 0,
{
    let mut r: u128 = 1;
    let mut i: u32 = 0;
    while i < k
        invariant
            i <= k <= 127,
            r as nat == pow2(i as nat),
            r >= 1,
        decreases k - i,
    {
        proof { lemma_pow2_mono(i as nat + 1, 127); lemma_pow2_128(); }
        r = r * 2;
        i = i + 1;
    }
    r
}

/// Powers of two grow with the exponent.
pub proof fn lemma_pow2_mono(a: nat, b: nat)
    requires
        a <= b,
    ensures
        pow2(a) <= pow2(b),
        pow2(a) >= 1,
    decreases b,
{
    if b > 0 && a < b {
        lemma_pow2_mono(a, (b - 1) as nat);
    }
    if a > 0 {
        lemma_pow2_mono((a - 1) as nat, (a - 1) as nat);
    }
}

/// 2^32.
pub proof fn lemma_pow2_32()
    ensures
        pow2(32) == 0x1_0000_0000,
{
    reveal_with_fuel(pow2, 33);
}

/// 2^(a+b) = 2^a * 2^b.
pub proof fn lemma_pow2_add(a: nat, b: nat)
    ensures
        pow2(a + b) == pow2(a) * pow2(b),
    decreases b,
{
    if b == 0 {
        assert(a + b == a);
        assert(pow2(b) == 1);
    } else {
        let c = (b - 1) as nat;
        lemma_pow2_add(a, c);
        let x = pow2(a);
        let y = pow2(c);
        assert(pow2(a + c) == x * y);
        assert(a + c + 1 == a + b);
        assert(pow2(a + b) == 2 * pow2(a + c));
        assert(pow2(b) == 2 * y);
        assert(2 * (x * y) == x * (2 * y)) by (nonlinear_arith);
    }
}

/// 2^128 and 2^127.
pub proof fn lemma_pow2_128()
    ensures
        pow2(128) == 0x1_0000_0000_0000_0000_0000_0000_0000_0000,
        pow2(127) == 0x8000_0000_0000_0000_0000_0000_0000_0000,
{
    lemma_pow2_32();
    lemma_pow2_add(32, 32);
    lemma_pow2_add(64, 32);
    lemma_pow2_add(96, 32);
    lemma_pow2_add(96, 31);
    reveal_with_fuel(pow2, 32);
    assert(pow2(31) == 0x8000_0000);
}

/// A block of 2^k addresses divides a range of 2^w addresses, k <= w.
pub proof fn lemma_pow2_divides(k: nat, w: nat)
    requires
        k <= w,
    ensures
        pow2(w) % pow2(k) == 0,
        pow2(k) > 0,
{
    lemma_pow2_mono(k, k);
    lemma_pow2_add(k, (w - k) as nat);
    lemma_pow2_mono((w - k) as nat, (w - k) as nat);
    lemma_mod_multiples_basic(pow2((w - k) as nat) as int, pow2(k) as int);
    assert(pow2((w - k) as nat) * pow2(k) == pow2(k) * pow2((w - k) as nat)) by (nonlinear_arith);
}

proof fn lemma_small_div(a: nat, b: nat)
    requires
        a < b,
    ensures
        a / b == 0,
{
    vstd::arithmetic::div_mod::lemma_basic_div(a as int, b as int);
}

/// The network address lies below the bound and is a multiple of the block.
proof fn lemma_net_bound(a: nat, b: nat, m: nat)
    requires
        b > 0,
        a < m,
    ensures
        (a / b) * b <= a,
        (a / b) * b < m,
{
    lemma_fundamental_div_mod(a as int, b as int);
    let q = a / b;
    let r = a % b;
    assert(q * b <= a) by (nonlinear_arith)
        requires a == b * q + r, r >= 0;
}

/// Adding an offset below the block size stays below the bound, when the
/// block divides the bound.
proof fn lemma_net_room(a: nat, b: nat, n: nat, m: nat)
    requires
        b > 0,
        a < m,
        n < b,
        m % b == 0,
    ensures
        (a / b) * b + n < m,
{
    lemma_fundamental_div_mod(a as int, b as int);
    lemma_fundamental_div_mod(m as int, b as int);
    let q = a / b;
    let qm = m / b;
    let r = a % b;
    assert(q < qm) by (nonlinear_arith)
        requires a == b * q + r, m == b * qm, a < m, r >= 0, r < b, b > 0, q >= 0, qm >= 0;
    assert(q * b + n < m) by (nonlinear_arith)
        requires q < qm, n < b, m == b * qm, b > 0, q >= 0;
}

} // verus!

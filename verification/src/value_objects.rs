//! Value objects of the network domain: MAC addresses, device types,
//! ports, interfaces, VLANs, connection types and link speeds.

use vstd::prelude::*;
use crate::text::{hex2, hex_char, dec, push_char, push_hex2, push_dec, push_str, chars_of, owned};
use crate::ip::IpAddress;

verus! {

/// MAC address value object (six octets).
#[derive(Debug, Clone, Copy, PartialEq, Eq, Structural, Hash)]
pub struct MacAddress {
    pub o0: u8,
    pub o1: u8,
    pub o2: u8,
    pub o3: u8,
    pub o4: u8,
    pub o5: u8,
}

impl View for MacAddress {
    type V = Seq<u8>;

    /// The six octets, most significant first.
    open spec fn view(&self) -> Seq<u8> {
        seq![self.o0, self.o1, self.o2, self.o3, self.o4, self.o5]
    }
}

/// MAC address parsing error.
#[derive(Debug, Clone, Copy, PartialEq, Eq, Structural)]
pub enum MacAddressError {
    /// The address, without separators, is not 12 bytes long.
    InvalidLength,
    /// A pair of characters is not a hexadecimal octet.
    InvalidFormat,
}

/// Text of a MAC parsing error.
pub open spec fn mac_error_text(e: MacAddressError) -> Seq<char> {
    match e {
        MacAddressError::InvalidLength => "Invalid MAC address length"@,
        MacAddressError::InvalidFormat => "Invalid MAC address format"@,
    }
}

impl MacAddressError {
    /// The error's text.
    pub fn to_string(&self) -> (s: String)
        ensures
            s@ == mac_error_text(*self),
    {
        match self {
            MacAddressError::InvalidLength => owned("Invalid MAC address length"),
            MacAddressError::InvalidFormat => owned("Invalid MAC address format"),
        }
    }
}

/// Number of bytes of a character in UTF-8.
pub open spec fn utf8_len(c: char) -> nat {
    if (c as u32) < 0x80 { 1 } else if (c as u32) < 0x800 { 2 } else if (c as u32) < 0x10000 { 3 } else { 4 }
}

/// Number of bytes of a character sequence in UTF-8.
pub open spec fn byte_len(s: Seq<char>) -> nat
    decreases s.len(),
{
    if s.len() == 0 { 0 } else { byte_len(s.drop_last()) + utf8_len(s.last()) }
}

/// Whether a character is a MAC separator (`:` or `-`).
pub open spec fn is_mac_separator(c: char) -> bool {
    c == ':' || c == '-'
}

/// The characters of `s` without the MAC separators, in order.
pub open spec fn strip_separators(s: Seq<char>) -> Seq<char>
    decreases s.len(),
{
    if s.len() == 0 {
        Seq::empty()
    } else if is_mac_separator(s.last()) {
        strip_separators(s.drop_last())
    } else {
        strip_separators(s.drop_last()).push(s.last())
    }
}

/// Whether a character is a hexadecimal digit (either case).
pub open spec fn is_hex_char(c: char) -> bool {
    ('0' <= c && c <= '9') || ('a' <= c && c <= 'f') || ('A' <= c && c <= 'F')
}

/// Value of a hexadecimal digit.
pub open spec fn hex_value(c: char) -> nat {
    if '0' <= c && c <= '9' {
        (c as u32 - '0' as u32) as nat
    } else if 'a' <= c && c <= 'f' {
        (c as u32 - 'a' as u32 + 10) as nat
    } else {
        (c as u32 - 'A' as u32 + 10) as nat
    }
}

/// Whether two characters parse as an unsigned base-16 octet, as
/// `u8::from_str_radix` does: two hex digits, or a `+` sign and one digit.
pub open spec fn octet_ok(a: char, b: char) -> bool {
    (is_hex_char(a) && is_hex_char(b)) || (a == '+' && is_hex_char(b))
}

/// The octet that two characters denote.
pub open spec fn octet_value(a: char, b: char) -> nat {
    if a == '+' { hex_value(b) } else { hex_value(a) * 16 + hex_value(b) }
}

/// What `MacAddress::parse` gives for the text `s`.
pub open spec fn parse_mac_spec(s: Seq<char>) -> Result<Seq<u8>, MacAddressError> {
    let c = strip_separators(s);
    if byte_len(c) != 12 {
        Err(MacAddressError::InvalidLength)
    } else if c.len() == 12 && (forall|i: int| 0 <= i < 6 ==> octet_ok(#[trigger] c[2 * i], c[2 * i + 1])) {
        Ok(Seq::new(6, |i: int| octet_value(c[2 * i], c[2 * i + 1]) as u8))
    } else {
        Err(MacAddressError::InvalidFormat)
    }
}

/// Colon-separated lower-case hexadecimal text of six octets.
pub open spec fn mac_text(b: Seq<u8>) -> Seq<char> {
    hex2(b[0]) + seq![':'] + hex2(b[1]) + seq![':'] + hex2(b[2]) + seq![':'] + hex2(b[3])
        + seq![':'] + hex2(b[4]) + seq![':'] + hex2(b[5])
}

proof fn lemma_byte_len_ge_len(s: Seq<char>)
    ensures
        byte_len(s) >= s.len(),
        byte_len(s) == s.len() ==> forall|i: int| 0 <= i < s.len() ==> utf8_len(#[trigger] s[i]) == 1,
    decreases s.len(),
{
    if s.len() > 0 {
        lemma_byte_len_ge_len(s.drop_last());
        assert forall|i: int| 0 <= i < s.len() && byte_len(s) == s.len() implies utf8_len(#[trigger] s[i]) == 1 by {
            if i < s.len() - 1 {
                assert(s.drop_last()[i] == s[i]);
            }
        }
    }
}

fn char_utf8_len(c: char) -> (n: usize)
    ensures
        n == utf8_len(c),
{
    let v = c as u32;
    if v < 0x80 { 1 } else if v < 0x800 { 2 } else if v < 0x10000 { 3 } else { 4 }
}

fn is_hex(c: char) -> (r: bool)
    ensures
        r == is_hex_char(c),
{
    ('0' <= c && c <= '9') || ('a' <= c && c <= 'f') || ('A' <= c && c <= 'F')
}

fn hex_val(c: char) -> (v: u8)
    requires
        is_hex_char(c),
    ensures
        v == hex_value(c),
        v < 16,
{
    if '0' <= c && c <= '9' {
        (c as u32 - '0' as u32) as u8
    } else if 'a' <= c && c <= 'f' {
        (c as u32 - 'a' as u32 + 10) as u8
    } else {
        (c as u32 - 'A' as u32 + 10) as u8
    }
}

/// Parses one octet from two characters (`u8::from_str_radix(.., 16)`).
fn parse_octet(a: char, b: char) -> (r: Option<u8>)
    ensures
        r.is_some() == octet_ok(a, b),
        r.is_some() ==> r.unwrap() as nat == octet_value(a, b),
{
    if a == '+' {
        if is_hex(b) { Some(hex_val(b)) } else { None }
    } else if is_hex(a) && is_hex(b) {
        Some(hex_val(a) * 16 + hex_val(b))
    } else {
        None
    }
}

impl MacAddress {
    /// A MAC address from its six octets.
    pub fn from_bytes(bytes: [u8; 6]) -> (m: Self)
        ensures
            m@ == bytes@,
    {
        let m = MacAddress { o0: bytes[0], o1: bytes[1], o2: bytes[2], o3: bytes[3], o4: bytes[4], o5: bytes[5] };
        assert(m@ =~= bytes@);
        m
    }

    /// The six octets.
    pub fn as_bytes(&self) -> (b: [u8; 6])
        ensures
            b@ == self@,
    {
        let b = [self.o0, self.o1, self.o2, self.o3, self.o4, self.o5];
        assert(b@ =~= self@);
        b
    }

    /// Parses a MAC address; `:` and `-` separators are ignored.
    pub fn parse(s: &str) -> (r: Result<Self, MacAddressError>)
        ensures
            match parse_mac_spec(s@) {
                Ok(b) => r.is_ok() && r.unwrap()@ == b,
                Err(e) => r == Err::<Self, MacAddressError>(e),
            },
    {
        let chars = chars_of(s);
        let n = chars.len();
        let mut clean: Vec<char> = Vec::new();
        let mut blen: usize = 0;
        let mut i: usize = 0;
        while i < n
            invariant
                n == chars@.len(),
                chars@ == s@,
                i <= n,
                clean@ == strip_separators(s@.subrange(0, i as int)),
                blen <= 16,
                blen <= 12 ==> blen == byte_len(clean@),
                blen > 12 ==> byte_len(clean@) > 12,
            decreases n - i,
        {
            let c = chars[i];
            assert(s@.subrange(0, i + 1).drop_last() =~= s@.subrange(0, i as int));
            if c != ':' && c != '-' {
                clean.push(c);
                assert(clean@.drop_last() =~= strip_separators(s@.subrange(0, i as int)));
                if blen <= 12 {
                    blen = blen + char_utf8_len(c);
                }
            }
            i = i + 1;
        }
        assert(s@.subrange(0, n as int) =~= s@);
        if blen != 12 {
            return Err(MacAddressError::InvalidLength);
        }
        if clean.len() != 12 {
            return Err(MacAddressError::InvalidFormat);
        }
        let mut bytes: [u8; 6] = [0u8; 6];
        let mut k: usize = 0;
        while k < 6
            invariant
                clean@.len() == 12,
                clean@ == strip_separators(s@),
                byte_len(clean@) == 12,
                k <= 6,
                forall|j: int| 0 <= j < k ==> octet_ok(#[trigger] clean@[2 * j], clean@[2 * j + 1]),
                forall|j: int| 0 <= j < k ==> bytes@[j] as nat == octet_value(clean@[2 * j], clean@[2 * j + 1]),
                bytes@.len() == 6,
            decreases 6 - k,
        {
            match parse_octet(clean[2 * k], clean[2 * k + 1]) {
                Some(v) => {
                    bytes[k] = v;
                }
                None => {
                    assert(!octet_ok(clean@[2 * k as int], clean@[2 * k as int + 1]));
                    return Err(MacAddressError::InvalidFormat);
                }
            }
            k = k + 1;
        }
        let mac = MacAddress { o0: bytes[0], o1: bytes[1], o2: bytes[2], o3: bytes[3], o4: bytes[4], o5: bytes[5] };
        assert(mac@ =~= Seq::new(6, |i: int| octet_value(clean@[2 * i], clean@[2 * i + 1]) as u8));
        Ok(mac)
    }

    /// Colon-separated lower-case hexadecimal text.
    pub fn to_string(&self) -> (s: String)
        ensures
            s@ == mac_text(self@),
    {
        let mut s = String::new();
        push_hex2(&mut s, self.o0);
        push_char(&mut s, ':');
        push_hex2(&mut s, self.o1);
        push_char(&mut s, ':');
        push_hex2(&mut s, self.o2);
        push_char(&mut s, ':');
        push_hex2(&mut s, self.o3);
        push_char(&mut s, ':');
        push_hex2(&mut s, self.o4);
        push_char(&mut s, ':');
        push_hex2(&mut s, self.o5);
        assert(s@ =~= mac_text(self@));
        s
    }
}


/// Network device type.
#[derive(Debug, PartialEq, Eq, Hash)]
pub enum DeviceType {
    /// Gateway/Router device
    Gateway,
    /// Network switch
    Switch,
    /// Wireless access point
    AccessPoint,
    /// Generic network device
    Generic { model: String },
}

impl Clone for DeviceType {
    fn clone(&self) -> (r: Self)
        ensures
            r == *self,
    {
        match self {
            DeviceType::Gateway => DeviceType::Gateway,
            DeviceType::Switch => DeviceType::Switch,
            DeviceType::AccessPoint => DeviceType::AccessPoint,
            DeviceType::Generic { model } => DeviceType::Generic { model: model.clone() },
        }
    }
}

/// Display text of a device type.
pub open spec fn device_type_text(t: DeviceType) -> Seq<char> {
    match t {
        DeviceType::Gateway => "Gateway"@,
        DeviceType::Switch => "Switch"@,
        DeviceType::AccessPoint => "AccessPoint"@,
        DeviceType::Generic { model } => "Generic("@ + model@ + ")"@,
    }
}

impl DeviceType {
    /// Display text: the variant name, or `Generic(<model>)`.
    pub fn to_string(&self) -> (s: String)
        ensures
            s@ == device_type_text(*self),
    {
        match self {
            DeviceType::Gateway => owned("Gateway"),
            DeviceType::Switch => owned("Switch"),
            DeviceType::AccessPoint => owned("AccessPoint"),
            DeviceType::Generic { model } => {
                let mut s = owned("Generic(");
                push_str(&mut s, model.as_str());
                push_str(&mut s, ")");
                s
            }
        }
    }
}

/// Port identifier on a device.
#[derive(Debug, PartialEq, Eq, Hash)]
pub struct PortId {
    /// Port number or name
    pub name: String,
    /// Port index (if applicable)
    pub index: Option<u32>,
}

impl Clone for PortId {
    fn clone(&self) -> (r: Self)
        ensures
            r == *self,
    {
        PortId { name: self.name.clone(), index: self.index }
    }
}

/// Display text of a port: the name, then `[index]` when there is one.
pub open spec fn port_id_text(p: PortId) -> Seq<char> {
    match p.index {
        Some(i) => p.name@ + seq!['['] + dec(i as nat) + seq![']'],
        None => p.name@,
    }
}

impl PortId {
    /// A port with a name and no index.
    pub fn new(name: &str) -> (p: Self)
        ensures
            p.name@ == name@,
            p.index.is_none(),
    {
        PortId { name: owned(name), index: None }
    }

    /// A port with a name and an index.
    pub fn with_index(name: &str, index: u32) -> (p: Self)
        ensures
            p.name@ == name@,
            p.index == Some(index),
    {
        PortId { name: owned(name), index: Some(index) }
    }

    /// Display text.
    pub fn to_string(&self) -> (s: String)
        ensures
            s@ == port_id_text(*self),
    {
        let mut s = self.name.clone();
        match self.index {
            Some(i) => {
                push_char(&mut s, '[');
                push_dec(&mut s, i as u64);
                push_char(&mut s, ']');
            }
            None => {}
        }
        s
    }
}

/// Network interface configuration.
#[derive(Debug, PartialEq)]
pub struct InterfaceConfig {
    /// Interface name
    pub name: String,
    /// IP address (if configured)
    pub ip_address: Option<IpAddress>,
    /// Subnet prefix length
    pub prefix_len: Option<u8>,
    /// VLAN ID (if tagged)
    pub vlan_id: Option<u16>,
    /// Whether interface is enabled
    pub enabled: bool,
}

impl Clone for InterfaceConfig {
    fn clone(&self) -> (r: Self)
        ensures
            r == *self,
    {
        InterfaceConfig {
            name: self.name.clone(),
            ip_address: self.ip_address,
            prefix_len: self.prefix_len,
            vlan_id: self.vlan_id,
            enabled: self.enabled,
        }
    }
}

/// VLAN configuration.
#[derive(Debug, PartialEq, Eq, Hash)]
pub struct VlanConfig {
    /// VLAN ID (1-4094)
    pub id: u16,
    /// VLAN name
    pub name: String,
    /// Whether this is the native/untagged VLAN
    pub native: bool,
}

impl Clone for VlanConfig {
    fn clone(&self) -> (r: Self)
        ensures
            r == *self,
    {
        VlanConfig { id: self.id, name: self.name.clone(), native: self.native }
    }
}

/// VLAN configuration error.
#[derive(Debug, Clone, Copy, PartialEq, Eq, Structural)]
pub enum VlanError {
    /// The id is outside 1..=4094.
    InvalidId(u16),
}

impl VlanConfig {
    /// A VLAN with an id in 1..=4094; other ids are refused.
    pub fn new(id: u16, name: &str) -> (r: Result<Self, VlanError>)
        ensures
            (1 <= id <= 4094) == r.is_ok(),
            r.is_ok() ==> r.unwrap().id == id && r.unwrap().name@ == name@ && !r.unwrap().native,
            !(1 <= id <= 4094) ==> r == Err::<Self, VlanError>(VlanError::InvalidId(id)),
    {
        if id == 0 || id > 4094 {
            return Err(VlanError::InvalidId(id));
        }
        Ok(VlanConfig { id, name: owned(name), native: false })
    }
}

/// Copies of a list of interface configurations.
pub fn clone_interfaces(v: &Vec<InterfaceConfig>) -> (r: Vec<InterfaceConfig>)
    ensures
        r@ == v@,
{
    let mut r: Vec<InterfaceConfig> = Vec::new();
    let mut i: usize = 0;
    while i < v.len()
        invariant
            i <= v@.len(),
            r@ == v@.subrange(0, i as int),
        decreases v@.len() - i,
    {
        r.push(v[i].clone());
        i = i + 1;
    }
    assert(v@.subrange(0, v@.len() as int) =~= v@);
    r
}

/// Copies of a list of VLAN configurations.
pub fn clone_vlans(v: &Vec<VlanConfig>) -> (r: Vec<VlanConfig>)
    ensures
        r@ == v@,
{
    let mut r: Vec<VlanConfig> = Vec::new();
    let mut i: usize = 0;
    while i < v.len()
        invariant
            i <= v@.len(),
            r@ == v@.subrange(0, i as int),
        decreases v@.len() - i,
    {
        r.push(v[i].clone());
        i = i + 1;
    }
    assert(v@.subrange(0, v@.len() as int) =~= v@);
    r
}

/// Connection type between devices.
#[derive(Debug, Clone, Copy, PartialEq, Eq, Structural, Hash)]
pub enum ConnectionType {
    /// Physical ethernet connection
    Ethernet,
    /// Fiber optic connection
    Fiber,
    /// Wireless connection
    Wireless,
    /// Logical/virtual connection
    Virtual,
    /// Uplink to parent device
    Uplink,
}

/// Link speed.
#[derive(Debug, Clone, Copy, PartialEq, Eq, Structural, Hash)]
pub enum LinkSpeed {
    /// 10 Mbps
    Mbps10,
    /// 100 Mbps
    Mbps100,
    /// 1 Gbps
    Gbps1,
    /// 2.5 Gbps
    Gbps2_5,
    /// 5 Gbps
    Gbps5,
    /// 10 Gbps
    Gbps10,
    /// 25 Gbps
    Gbps25,
    /// 40 Gbps
    Gbps40,
    /// 100 Gbps
    Gbps100,
}

/// Display text of a link speed.
pub open spec fn link_speed_text(l: LinkSpeed) -> Seq<char> {
    match l {
        LinkSpeed::Mbps10 => "10 Mbps"@,
        LinkSpeed::Mbps100 => "100 Mbps"@,
        LinkSpeed::Gbps1 => "1 Gbps"@,
        LinkSpeed::Gbps2_5 => "2.5 Gbps"@,
        LinkSpeed::Gbps5 => "5 Gbps"@,
        LinkSpeed::Gbps10 => "10 Gbps"@,
        LinkSpeed::Gbps25 => "25 Gbps"@,
        LinkSpeed::Gbps40 => "40 Gbps"@,
        LinkSpeed::Gbps100 => "100 Gbps"@,
    }
}

impl LinkSpeed {
    /// Display text, such as `1 Gbps`.
    pub fn to_string(&self) -> (s: String)
        ensures
            s@ == link_speed_text(*self),
    {
        match self {
            LinkSpeed::Mbps10 => owned("10 Mbps"),
            LinkSpeed::Mbps100 => owned("100 Mbps"),
            LinkSpeed::Gbps1 => owned("1 Gbps"),
            LinkSpeed::Gbps2_5 => owned("2.5 Gbps"),
            LinkSpeed::Gbps5 => owned("5 Gbps"),
            LinkSpeed::Gbps10 => owned("10 Gbps"),
            LinkSpeed::Gbps25 => owned("25 Gbps"),
            LinkSpeed::Gbps40 => owned("40 Gbps"),
            LinkSpeed::Gbps100 => owned("100 Gbps"),
        }
    }
}

// ---------------------------------------------------------------------
// MAC text reads back.

/// A hexadecimal digit's character: a one-byte hex character with that
/// value, no separator.
proof fn lemma_hex_char(d: nat)
    requires
        d < 16,
    ensures
        is_hex_char(hex_char(d)),
        hex_value(hex_char(d)) == d,
        !is_mac_separator(hex_char(d)),
        utf8_len(hex_char(d)) == 1,
{
    assert(d == 0 || d == 1 || d == 2 || d == 3 || d == 4 || d == 5 || d == 6 || d == 7 || d == 8 || d == 9 || d == 10
        || d == 11 || d == 12 || d == 13 || d == 14 || d == 15);
}

/// Dropping separators distributes over concatenation.
proof fn lemma_strip_concat(x: Seq<char>, y: Seq<char>)
    ensures
        strip_separators(x + y) == strip_separators(x) + strip_separators(y),
    decreases y.len(),
{
    if y.len() == 0 {
        assert(x + y =~= x);
        assert(strip_separators(x) + strip_separators(y) =~= strip_separators(x));
    } else {
        lemma_strip_concat(x, y.drop_last());
        assert((x + y).drop_last() =~= x + y.drop_last());
        assert((x + y).last() == y.last());
        if is_mac_separator(y.last()) {
        } else {
            assert((strip_separators(x) + strip_separators(y.drop_last())).push(y.last())
                =~= strip_separators(x) + strip_separators(y.drop_last()).push(y.last()));
        }
    }
}

/// A text of one-byte characters has as many bytes as characters.
proof fn lemma_byte_len_ascii(s: Seq<char>)
    requires
        forall|i: int| 0 <= i < s.len() ==> utf8_len(#[trigger] s[i]) == 1,
    ensures
        byte_len(s) == s.len(),
    decreases s.len(),
{
    if s.len() > 0 {
        assert forall|i: int| 0 <= i < s.drop_last().len() implies utf8_len(#[trigger] s.drop_last()[i]) == 1 by {
            assert(s.drop_last()[i] == s[i]);
        }
        lemma_byte_len_ascii(s.drop_last());
        assert(utf8_len(s[s.len() - 1]) == 1);
    }
}

/// The hexadecimal text of a byte has no separator.
proof fn lemma_strip_hex2(x: u8)
    ensures
        strip_separators(hex2(x)) == hex2(x),
{
    lemma_hex_char((x / 16) as nat);
    lemma_hex_char((x % 16) as nat);
    let t = hex2(x);
    assert(t.drop_last() =~= seq![hex_char((x / 16) as nat)]);
    assert(t.drop_last().drop_last() =~= Seq::<char>::empty());
    assert(strip_separators(t.drop_last().drop_last()) =~= Seq::<char>::empty());
    assert(strip_separators(t.drop_last()) =~= t.drop_last());
    assert(t.drop_last().push(t.last()) =~= t);
}

/// A MAC text without its separators is the twelve hexadecimal digits.
proof fn lemma_strip_mac_text(b: Seq<u8>)
    requires
        b.len() == 6,
    ensures
        strip_separators(mac_text(b)) == hex2(b[0]) + hex2(b[1]) + hex2(b[2]) + hex2(b[3]) + hex2(b[4]) + hex2(b[5]),
{
    let sep = seq![':'];
    assert(strip_separators(sep) =~= Seq::<char>::empty()) by {
        assert(sep.drop_last() =~= Seq::<char>::empty());
        assert(sep.last() == ':');
        assert(is_mac_separator(sep.last()));
        assert(strip_separators(sep.drop_last()) == Seq::<char>::empty());
    }
    lemma_strip_hex2(b[0]);
    lemma_strip_hex2(b[1]);
    lemma_strip_hex2(b[2]);
    lemma_strip_hex2(b[3]);
    lemma_strip_hex2(b[4]);
    lemma_strip_hex2(b[5]);
    let p1 = hex2(b[0]) + sep;
    let p2 = p1 + hex2(b[1]) + sep;
    let p3 = p2 + hex2(b[2]) + sep;
    let p4 = p3 + hex2(b[3]) + sep;
    let p5 = p4 + hex2(b[4]) + sep;
    assert(mac_text(b) == p5 + hex2(b[5]));
    lemma_strip_concat(hex2(b[0]), sep);
    lemma_strip_concat(p1, hex2(b[1]));
    lemma_strip_concat(p1 + hex2(b[1]), sep);
    lemma_strip_concat(p2, hex2(b[2]));
    lemma_strip_concat(p2 + hex2(b[2]), sep);
    lemma_strip_concat(p3, hex2(b[3]));
    lemma_strip_concat(p3 + hex2(b[3]), sep);
    lemma_strip_concat(p4, hex2(b[4]));
    lemma_strip_concat(p4 + hex2(b[4]), sep);
    lemma_strip_concat(p5, hex2(b[5]));
    assert(strip_separators(mac_text(b)) =~= hex2(b[0]) + hex2(b[1]) + hex2(b[2]) + hex2(b[3]) + hex2(b[4]) + hex2(b[5]));
}

/// The two hexadecimal digits of a byte read as that byte.
proof fn lemma_octet_of_hex2(x: u8)
    ensures
        octet_ok(hex2(x)[0], hex2(x)[1]),
        octet_value(hex2(x)[0], hex2(x)[1]) == x,
        utf8_len(hex2(x)[0]) == 1 && utf8_len(hex2(x)[1]) == 1,
{
    lemma_hex_char((x / 16) as nat);
    lemma_hex_char((x % 16) as nat);
}

/// The text of a MAC address reads back as that address.
#[verifier::rlimit(40)]
pub proof fn law_mac_text_reads_back(m: MacAddress)
    ensures
        parse_mac_spec(mac_text(m@)) == Ok::<Seq<u8>, MacAddressError>(m@),
{
    let b = m@;
    lemma_strip_mac_text(b);
    let c = hex2(b[0]) + hex2(b[1]) + hex2(b[2]) + hex2(b[3]) + hex2(b[4]) + hex2(b[5]);
    lemma_octet_of_hex2(b[0]);
    lemma_octet_of_hex2(b[1]);
    lemma_octet_of_hex2(b[2]);
    lemma_octet_of_hex2(b[3]);
    lemma_octet_of_hex2(b[4]);
    lemma_octet_of_hex2(b[5]);
    assert(c =~= seq![hex2(b[0])[0], hex2(b[0])[1], hex2(b[1])[0], hex2(b[1])[1], hex2(b[2])[0], hex2(b[2])[1],
        hex2(b[3])[0], hex2(b[3])[1], hex2(b[4])[0], hex2(b[4])[1], hex2(b[5])[0], hex2(b[5])[1]]);
    assert forall|i: int| 0 <= i < c.len() implies utf8_len(#[trigger] c[i]) == 1 by {}
    lemma_byte_len_ascii(c);
    assert forall|i: int| 0 <= i < 6 implies octet_ok(#[trigger] c[2 * i], c[2 * i + 1]) by {
        assert(c[2 * i] == hex2(b[i])[0] && c[2 * i + 1] == hex2(b[i])[1]);
    }
    let v = Seq::new(6, |i: int| octet_value(c[2 * i], c[2 * i + 1]) as u8);
    assert forall|i: int| 0 <= i < 6 implies v[i] == b[i] by {
        assert(c[2 * i] == hex2(b[i])[0] && c[2 * i + 1] == hex2(b[i])[1]);
    }
    assert(v =~= b);
}

} // verus!

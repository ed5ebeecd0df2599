//! Cisco IOS configuration generator: renders a router configuration as
//! IOS configuration text, section by section, and checks rendered text.
//!
//! Each section is specified as what it appends to the text rendered so
//! far, line by line, in the order the lines are written.

use vstd::prelude::*;
use crate::ip::{IpAddress, IpNetwork, ip_text, ipv4_text, pow2, pow2_u64, lemma_pow2_mono, lemma_pow2_32};
use crate::text::{dec, push_str, push_dec, contains_seq, ends_with_seq, str_contains, str_ends_with, owned};
use crate::infra_events::{RouterVendor, CiscoOs};
use crate::router_configuration::{
    RouterConfiguration, RouterView, InterfaceView, RoutingProtocolConfig, OspfConfig, OspfAreaConfig,
    BgpConfig, BgpNeighborConfig, AccessListConfig, AclEntryConfig, AclAction, Protocol, protocol_text,
};
use crate::errors::NetworkError;
use crate::clock::utc_now_text;

verus! {

/// A generator of device configuration text.
pub trait ConfigurationGenerator {
    /// What is rendered
    type Input;
    /// The rendered form
    type Output;
    /// Error of rendering or checking
    type Error;

    /// The inputs this generator can render.
    spec fn can_render(&self, input: &Self::Input) -> bool;

    /// Renders the input.
    fn generate(&self, input: &Self::Input) -> Result<Self::Output, Self::Error>
        requires
            self.can_render(input);

    /// Checks rendered output.
    fn validate(&self, output: &Self::Output) -> Result<(), Self::Error>;
}

/// Options of the Cisco IOS generator.
#[derive(Debug, Clone, Copy, PartialEq, Eq, Structural)]
pub struct CiscoGeneratorOptions {
    /// Whether to hide BGP passwords in the output
    pub sanitize_passwords: bool,
    /// Whether to write the generation time in the header
    pub include_timestamps: bool,
}

impl Default for CiscoGeneratorOptions {
    /// Passwords shown, timestamps included.
    fn default() -> (o: Self)
        ensures
            o == (CiscoGeneratorOptions { sanitize_passwords: false, include_timestamps: true }),
    {
        CiscoGeneratorOptions { sanitize_passwords: false, include_timestamps: true }
    }
}

/// Cisco IOS configuration generator.
#[derive(Debug)]
pub struct CiscoIosGenerator {
    options: CiscoGeneratorOptions,
}

// ---------------------------------------------------------------------
// Masks.

/// A prefix length that IOS masks can be computed for: an IPv4 prefix,
/// /0 (mask 0.0.0.0, wildcard 255.255.255.255) included.
pub open spec fn mask_ok(p: u8) -> bool {
    p <= 32
}

/// The dotted subnet mask of a prefix length.
pub open spec fn subnet_mask_text(p: u8) -> Seq<char> {
    ipv4_text((pow2(32) - pow2((32 - p) as nat)) as u32)
}

/// The dotted wildcard (inverse) mask of a prefix length.
pub open spec fn wildcard_mask_text(p: u8) -> Seq<char> {
    ipv4_text((pow2((32 - p) as nat) - 1) as u32)
}

// ---------------------------------------------------------------------
// Sections, as what each appends to the text so far.

/// The header: comment lines, the generation time when given, version and
/// service lines, and the hostname.
pub open spec fn append_header(out: Seq<char>, name: Seq<char>, ts: Option<Seq<char>>) -> Seq<char> {
    let o1 = out + "!\n"@;
    let o2 = match ts {
        Some(t) => o1 + "! Generated at: "@ + t + "\n"@,
        None => o1,
    };
    o2 + "! Router: "@ + name + "\n"@ + "!\n"@ + "version 15.7\n"@
        + "service timestamps debug datetime msec\n"@ + "service timestamps log datetime msec\n"@
        + "no service password-encryption\n"@ + "!\n"@ + "hostname "@ + name + "\n"@ + "!\n"@
        + "boot-start-marker\n"@ + "boot-end-marker\n"@ + "!\n"@
}

/// Global settings; NBAR protocol discovery on IOS XE 17.3.
pub open spec fn append_global(out: Seq<char>, vendor: RouterVendor) -> Seq<char> {
    let o = out + "!\n"@ + "no aaa new-model\n"@ + "!\n"@ + "ip cef\n"@ + "no ip domain lookup\n"@ + "!\n"@;
    if vendor == (RouterVendor::Cisco { os: CiscoOs::IosXe17_3 }) {
        o + "ip nbar protocol-discovery\n"@ + "!\n"@
    } else {
        o
    }
}

/// One interface block.
pub open spec fn append_iface(out: Seq<char>, i: InterfaceView) -> Seq<char> {
    let o1 = out + "!\n"@ + "interface "@ + i.name + "\n"@;
    let o2 = match i.description {
        Some(d) => o1 + " description "@ + d + "\n"@,
        None => o1,
    };
    let o3 = match i.ip_address {
        Some(n) => o2 + " ip address "@ + ip_text(n.ip) + " "@ + subnet_mask_text(n.prefix) + "\n"@,
        None => o2,
    };
    if i.enabled {
        o3 + " no shutdown\n"@
    } else {
        o3 + " shutdown\n"@
    }
}

/// The interface blocks, in order.
pub open spec fn append_interfaces(out: Seq<char>, s: Seq<InterfaceView>) -> Seq<char>
    decreases s.len(),
{
    if s.len() == 0 {
        out
    } else {
        append_iface(append_interfaces(out, s.drop_last()), s.last())
    }
}

/// The `network` lines of an OSPF area.
pub open spec fn append_area_networks(out: Seq<char>, nets: Seq<IpNetwork>, area: u32) -> Seq<char>
    decreases nets.len(),
{
    if nets.len() == 0 {
        out
    } else {
        let n = nets.last();
        append_area_networks(out, nets.drop_last(), area) + " network "@ + ip_text(n.network_spec()) + " "@
            + wildcard_mask_text(n.prefix) + " area "@ + dec(area as nat) + "\n"@
    }
}

/// The `network` lines of OSPF areas, area by area.
pub open spec fn append_ospf_areas(out: Seq<char>, areas: Seq<OspfAreaConfig>) -> Seq<char>
    decreases areas.len(),
{
    if areas.len() == 0 {
        out
    } else {
        append_area_networks(append_ospf_areas(out, areas.drop_last()), areas.last().networks@, areas.last().area_id)
    }
}

/// An OSPF process block.
pub open spec fn append_ospf(out: Seq<char>, o: OspfConfig) -> Seq<char> {
    append_ospf_areas(
        out + "!\n"@ + "router ospf "@ + dec(o.process_id as nat) + "\n"@ + " router-id "@ + ip_text(o.router_id) + "\n"@,
        o.areas@,
    )
}

/// The lines of one BGP neighbor; a password hidden when sanitizing.
pub open spec fn append_neighbor(out: Seq<char>, n: BgpNeighborConfig, sanitize: bool) -> Seq<char> {
    let a = ip_text(n.address);
    let o1 = out + " neighbor "@ + a + " remote-as "@ + dec(n.remote_as as nat) + "\n"@;
    let o2 = match n.description {
        Some(d) => o1 + " neighbor "@ + a + " description "@ + d@ + "\n"@,
        None => o1,
    };
    match n.password {
        Some(p) => if sanitize {
            o2 + " neighbor "@ + a + " password <REDACTED>\n"@
        } else {
            o2 + " neighbor "@ + a + " password "@ + p@ + "\n"@
        },
        None => o2,
    }
}

/// The lines of BGP neighbors, in order.
pub open spec fn append_neighbors(out: Seq<char>, s: Seq<BgpNeighborConfig>, sanitize: bool) -> Seq<char>
    decreases s.len(),
{
    if s.len() == 0 {
        out
    } else {
        append_neighbor(append_neighbors(out, s.drop_last(), sanitize), s.last(), sanitize)
    }
}

/// A BGP process block.
pub open spec fn append_bgp(out: Seq<char>, b: BgpConfig, sanitize: bool) -> Seq<char> {
    append_neighbors(
        out + "!\n"@ + "router bgp "@ + dec(b.local_as as nat) + "\n"@ + " bgp router-id "@ + ip_text(b.router_id) + "\n"@
            + " bgp log-neighbor-changes\n"@,
        b.neighbors@,
        sanitize,
    )
}

/// The routing protocol blocks, in order; static routes render nothing.
pub open spec fn append_protocols(out: Seq<char>, s: Seq<RoutingProtocolConfig>, sanitize: bool) -> Seq<char>
    decreases s.len(),
{
    if s.len() == 0 {
        out
    } else {
        let o = append_protocols(out, s.drop_last(), sanitize);
        match s.last() {
            RoutingProtocolConfig::Ospf(ospf) => append_ospf(o, ospf),
            RoutingProtocolConfig::Bgp(bgp) => append_bgp(o, bgp, sanitize),
            RoutingProtocolConfig::Static(_) => o,
        }
    }
}

/// The lower-case name of an ACL action.
pub open spec fn action_text(a: AclAction) -> Seq<char> {
    match a {
        AclAction::Permit => "permit"@,
        AclAction::Deny => "deny"@,
    }
}

/// One ACL entry line: sequence, action, protocol, source network and
/// wildcard, destination (`any` for a /0), and the ports.
pub open spec fn append_entry(out: Seq<char>, e: AclEntryConfig) -> Seq<char> {
    let o1 = out + " "@ + dec(e.sequence as nat) + " "@ + action_text(e.action) + " "@ + protocol_text(e.protocol)
        + " "@ + ip_text(e.source.network_spec()) + " "@ + wildcard_mask_text(e.source.prefix) + " "@;
    let o2 = if e.destination.prefix == 0 {
        o1 + "any"@
    } else {
        o1 + ip_text(e.destination.network_spec()) + " "@ + wildcard_mask_text(e.destination.prefix)
    };
    let o3 = match e.ports {
        Some(p) => if p.start == p.end {
            o2 + " eq "@ + dec(p.start as nat)
        } else {
            o2 + " range "@ + dec(p.start as nat) + " "@ + dec(p.end as nat)
        },
        None => o2,
    };
    o3 + "\n"@
}

/// The ACL entry lines, in order.
pub open spec fn append_entries(out: Seq<char>, s: Seq<AclEntryConfig>) -> Seq<char>
    decreases s.len(),
{
    if s.len() == 0 {
        out
    } else {
        append_entry(append_entries(out, s.drop_last()), s.last())
    }
}

/// An extended access-list block, with its name as a remark.
pub open spec fn append_acl(out: Seq<char>, a: AccessListConfig) -> Seq<char> {
    let o1 = out + "!\n"@ + "ip access-list extended "@ + dec(a.number as nat) + "\n"@;
    let o2 = match a.name {
        Some(n) => o1 + " remark "@ + n@ + "\n"@,
        None => o1,
    };
    append_entries(o2, a.entries@)
}

/// The access-list blocks, in order.
pub open spec fn append_acls(out: Seq<char>, s: Seq<AccessListConfig>) -> Seq<char>
    decreases s.len(),
{
    if s.len() == 0 {
        out
    } else {
        append_acl(append_acls(out, s.drop_last()), s.last())
    }
}

/// The footer: console and vty lines, then `end`.
pub open spec fn append_footer(out: Seq<char>) -> Seq<char> {
    out + "!\n"@ + "line con 0\n"@ + " logging synchronous\n"@ + "line aux 0\n"@ + "line vty 0 4\n"@ + " login\n"@
        + " transport input ssh\n"@ + "!\n"@ + "end\n"@
}

/// The whole configuration text of a router.
pub open spec fn config_text(v: RouterView, sanitize: bool, ts: Option<Seq<char>>) -> Seq<char> {
    append_footer(
        append_acls(
            append_protocols(
                append_interfaces(append_global(append_header(Seq::empty(), v.name@, ts), v.vendor), v.interfaces),
                v.routing_protocols,
                sanitize,
            ),
            v.access_lists,
        ),
    )
}

/// The generation time written in the header: the given text when
/// timestamps are on.
pub open spec fn stamp(on: bool, t: Seq<char>) -> Option<Seq<char>> {
    if on { Some(t) } else { None }
}

/// Every prefix whose mask is rendered is at most 32: interface
/// addresses, OSPF networks, ACL sources and destinations.
pub open spec fn renderable(v: RouterView) -> bool {
    &&& forall|k: int| 0 <= k < v.interfaces.len() ==> match (#[trigger] v.interfaces[k]).ip_address {
        Some(n) => mask_ok(n.prefix),
        None => true,
    }
    &&& forall|k: int| 0 <= k < v.routing_protocols.len() ==> ospf_renderable(#[trigger] v.routing_protocols[k])
    &&& forall|k: int| 0 <= k < v.access_lists.len() ==> acl_renderable(#[trigger] v.access_lists[k])
}

/// The OSPF networks have renderable prefixes.
pub open spec fn ospf_renderable(p: RoutingProtocolConfig) -> bool {
    match p {
        RoutingProtocolConfig::Ospf(o) => forall|a: int, n: int| 0 <= a < o.areas@.len() && 0 <= n < o.areas@[a].networks@.len()
            ==> mask_ok(#[trigger] o.areas@[a].networks@[n].prefix),
        _ => true,
    }
}

/// The entries of an access list have renderable prefixes.
pub open spec fn acl_renderable(a: AccessListConfig) -> bool {
    forall|k: int| 0 <= k < a.entries@.len() ==> entry_renderable(#[trigger] a.entries@[k])
}

/// An entry's source and destination have renderable prefixes.
pub open spec fn entry_renderable(e: AclEntryConfig) -> bool {
    mask_ok(e.source.prefix) && mask_ok(e.destination.prefix)
}

/// The checks on rendered text: a hostname line, the final `end` line, no
/// doubled `!`.
pub open spec fn validation_spec(s: Seq<char>) -> Result<(), Seq<char>> {
    if !contains_seq(s, "hostname"@) {
        Err("Missing hostname configuration"@)
    } else if !ends_with_seq(s, "end\n"@) {
        Err("Configuration does not end properly"@)
    } else if contains_seq(s, "!!"@) {
        Err("Invalid syntax: double exclamation marks"@)
    } else {
        Ok(())
    }
}

/// Text that holds `x` at its start keeps holding what `x` holds.
proof fn lemma_contains_in_extension(x: Seq<char>, t: Seq<char>, p: Seq<char>)
    requires
        x.len() <= t.len(),
        t.subrange(0, x.len() as int) == x,
        contains_seq(x, p),
    ensures
        contains_seq(t, p),
{
    let j = choose|j: int| 0 <= j && j + p.len() <= x.len() && #[trigger] x.subrange(j, j + p.len()) == p;
    assert forall|m: int| 0 <= m < p.len() implies t.subrange(j, j + p.len())[m] == p[m] by {
        assert(t.subrange(0, x.len() as int)[j + m] == x[j + m]);
        assert(x.subrange(j, j + p.len())[m] == x[j + m]);
    }
    assert(t.subrange(j, j + p.len()) =~= p);
}

/// An interface block starts with the text before it, and the block of an
/// interface with an address holds its address line.
proof fn lemma_iface_block(out: Seq<char>, i: InterfaceView)
    ensures
        out.len() <= append_iface(out, i).len(),
        append_iface(out, i).subrange(0, out.len() as int) == out,
        i.ip_address matches Some(n) ==> contains_seq(append_iface(out, i),
            " ip address "@ + ip_text(n.ip) + " "@ + ipv4_text((pow2(32) - pow2((32 - n.prefix) as nat)) as u32) + "\n"@),
{
    let o1 = out + "!\n"@ + "interface "@ + i.name + "\n"@;
    let o2 = match i.description {
        Some(d) => o1 + " description "@ + d + "\n"@,
        None => o1,
    };
    let t = append_iface(out, i);
    assert(o2.subrange(0, out.len() as int) =~= out);
    match i.ip_address {
        Some(n) => {
            let line = " ip address "@ + ip_text(n.ip) + " "@ + subnet_mask_text(n.prefix) + "\n"@;
            let tail = if i.enabled { " no shutdown\n"@ } else { " shutdown\n"@ };
            assert(t =~= o2 + line + tail);
            assert(t.subrange(o2.len() as int, (o2.len() + line.len()) as int) =~= line);
            assert(t.subrange(0, out.len() as int) =~= out);
        },
        None => {
            let tail = if i.enabled { " no shutdown\n"@ } else { " shutdown\n"@ };
            assert(t =~= o2 + tail);
            assert(t.subrange(0, out.len() as int) =~= out);
        },
    }
}

/// Interfaces are rendered with subnet masks: in the interface section,
/// each interface with an address `a/p` has the line ` ip address a m`,
/// where `m` is the dotted mask of value `2^32 - 2^(32 - p)`, the leading
/// `p` bits set (`255.255.255.0` for /24), and not its inverse.
pub proof fn law_interface_lines_carry_subnet_masks(out: Seq<char>, s: Seq<InterfaceView>, k: int)
    requires
        0 <= k < s.len(),
        s[k].ip_address is Some,
    ensures
        ({
            let n = s[k].ip_address.unwrap();
            contains_seq(append_interfaces(out, s),
                " ip address "@ + ip_text(n.ip) + " "@ + ipv4_text((pow2(32) - pow2((32 - n.prefix) as nat)) as u32) + "\n"@)
        }),
    decreases s.len(),
{
    let p = s.drop_last();
    let before = append_interfaces(out, p);
    lemma_iface_block(before, s.last());
    if k < s.len() - 1 {
        assert(p[k] == s[k]);
        law_interface_lines_carry_subnet_masks(out, p, k);
        let n = s[k].ip_address.unwrap();
        lemma_contains_in_extension(before, append_interfaces(out, s),
            " ip address "@ + ip_text(n.ip) + " "@ + ipv4_text((pow2(32) - pow2((32 - n.prefix) as nat)) as u32) + "\n"@);
    }
}

/// The masks' block size 2^(32-p) lies between 1 and 2^32.
proof fn lemma_mask_block(p: u8)
    requires
        mask_ok(p),
    ensures
        1 <= pow2((32 - p) as nat) <= pow2(32),
        pow2(32) == 0x1_0000_0000,
{
    lemma_pow2_mono((32 - p) as nat, 32);
    lemma_pow2_32();
}

impl CiscoIosGenerator {
    /// A generator with default options.
    pub fn new() -> (g: Self)
        ensures
            g.options() == (CiscoGeneratorOptions { sanitize_passwords: false, include_timestamps: true }),
    {
        CiscoIosGenerator { options: CiscoGeneratorOptions::default() }
    }

    /// A generator with the given options.
    pub fn with_options(options: CiscoGeneratorOptions) -> (g: Self)
        ensures
            g.options() == options,
    {
        CiscoIosGenerator { options }
    }

    /// The generator's options.
    pub closed spec fn options(&self) -> CiscoGeneratorOptions {
        self.options
    }

    /// The wildcard mask of a prefix length, as IOS writes it.
    pub fn to_wildcard_mask(prefix_len: u8) -> (s: String)
        requires
            mask_ok(prefix_len),
        ensures
            s@ == wildcard_mask_text(prefix_len),
    {
        proof { lemma_mask_block(prefix_len); }
        let b = pow2_u64((32 - prefix_len) as u32);
        IpAddress::V4((b - 1) as u32).to_string()
    }

    /// The subnet mask of a prefix length, as IOS writes it.
    pub fn to_subnet_mask(prefix_len: u8) -> (s: String)
        requires
            mask_ok(prefix_len),
        ensures
            s@ == subnet_mask_text(prefix_len),
    {
        proof { lemma_mask_block(prefix_len); }
        let b = pow2_u64((32 - prefix_len) as u32);
        IpAddress::V4((0x1_0000_0000u64 - b) as u32).to_string()
    }

    /// Appends the header of a router configuration.
    pub fn generate_header(&self, config: &RouterConfiguration, timestamp: Option<&str>, output: &mut String)
        ensures
            final(output)@ == append_header(old(output)@, config@.name@, match timestamp {
                Some(t) => Some(t@),
                None => None,
            }),
    {
        self.write_header(config.name().as_str(), timestamp, output);
    }

    /// Appends the header for a device of the given name.
    pub fn write_header(&self, name: &str, timestamp: Option<&str>, output: &mut String)
        ensures
            final(output)@ == append_header(old(output)@, name@, match timestamp {
                Some(t) => Some(t@),
                None => None,
            }),
    {
        push_str(output, "!\n");
        match timestamp {
            Some(t) => {
                push_str(output, "! Generated at: ");
                push_str(output, t);
                push_str(output, "\n");
            }
            None => {}
        }
        push_str(output, "! Router: ");
        push_str(output, name);
        push_str(output, "\n");
        push_str(output, "!\n");
        push_str(output, "version 15.7\n");
        push_str(output, "service timestamps debug datetime msec\n");
        push_str(output, "service timestamps log datetime msec\n");
        push_str(output, "no service password-encryption\n");
        push_str(output, "!\n");
        push_str(output, "hostname ");
        push_str(output, name);
        push_str(output, "\n");
        push_str(output, "!\n");
        push_str(output, "boot-start-marker\n");
        push_str(output, "boot-end-marker\n");
        push_str(output, "!\n");
    }

    /// Appends the global settings of a router configuration.
    pub fn generate_global(&self, config: &RouterConfiguration, output: &mut String)
        ensures
            final(output)@ == append_global(old(output)@, config@.vendor),
    {
        self.write_global(config.vendor(), output);
    }

    /// Appends the global settings for a vendor.
    pub fn write_global(&self, vendor: RouterVendor, output: &mut String)
        ensures
            final(output)@ == append_global(old(output)@, vendor),
    {
        push_str(output, "!\n");
        push_str(output, "no aaa new-model\n");
        push_str(output, "!\n");
        push_str(output, "ip cef\n");
        push_str(output, "no ip domain lookup\n");
        push_str(output, "!\n");
        match vendor {
            RouterVendor::Cisco { os: CiscoOs::IosXe17_3 } => {
                push_str(output, "ip nbar protocol-discovery\n");
                push_str(output, "!\n");
            }
            _ => {}
        }
    }

    /// Appends the interface blocks.
    pub fn generate_interfaces(&self, config: &RouterConfiguration, output: &mut String)
        requires
            renderable(config@),
        ensures
            final(output)@ == append_interfaces(old(output)@, config@.interfaces),
    {
        let ghost s = config@.interfaces;
        let interfaces = config.interfaces();
        let n = interfaces.len();
        let mut k: usize = 0;
        assert(s.take(0) =~= Seq::<InterfaceView>::empty());
        while k < n
            invariant
                n == s.len(),
                s == config@.interfaces,
                renderable(config@),
                interfaces@.map_values(|i: crate::router_configuration::InterfaceConfig| i@) == s,
                k <= n,
                output@ == append_interfaces(old(output)@, s.take(k as int)),
            decreases n - k,
        {
            let i = &interfaces[k];
            assert(i@ == s[k as int]);
            assert(s.take(k + 1).drop_last() =~= s.take(k as int));
            assert(s.take(k + 1).last() == s[k as int]);
            push_str(output, "!\n");
            push_str(output, "interface ");
            push_str(output, i.name.as_str());
            push_str(output, "\n");
            match &i.description {
                Some(d) => {
                    push_str(output, " description ");
                    push_str(output, d.as_str());
                    push_str(output, "\n");
                }
                None => {}
            }
            match i.ip_address {
                Some(net) => {
                    assert(mask_ok(s[k as int].ip_address.unwrap().prefix));
                    let mask = Self::to_subnet_mask(net.prefix);
                    push_str(output, " ip address ");
                    net.ip.push_to(output);
                    push_str(output, " ");
                    push_str(output, mask.as_str());
                    push_str(output, "\n");
                }
                None => {}
            }
            if i.enabled {
                push_str(output, " no shutdown\n");
            } else {
                push_str(output, " shutdown\n");
            }
            k = k + 1;
        }
        assert(s.take(n as int) =~= s);
    }

    /// Appends an OSPF process block.
    pub fn generate_ospf(&self, ospf: &OspfConfig, output: &mut String)
        requires
            ospf_renderable(RoutingProtocolConfig::Ospf(*ospf)),
        ensures
            final(output)@ == append_ospf(old(output)@, *ospf),
    {
        push_str(output, "!\n");
        push_str(output, "router ospf ");
        push_dec(output, ospf.process_id as u64);
        push_str(output, "\n");
        push_str(output, " router-id ");
        ospf.router_id.push_to(output);
        push_str(output, "\n");
        let ghost start = output@;
        let ghost areas = ospf.areas@;
        let na = ospf.areas.len();
        let mut a: usize = 0;
        assert(areas.take(0) =~= Seq::<OspfAreaConfig>::empty());
        while a < na
            invariant
                na == areas.len(),
                areas == ospf.areas@,
                ospf_renderable(RoutingProtocolConfig::Ospf(*ospf)),
                a <= na,
                output@ == append_ospf_areas(start, areas.take(a as int)),
            decreases na - a,
        {
            let area = &ospf.areas[a];
            let ghost before = output@;
            let ghost nets = area.networks@;
            let nn = area.networks.len();
            let mut k: usize = 0;
            assert(nets.take(0) =~= Seq::<IpNetwork>::empty());
            while k < nn
                invariant
                    nn == nets.len(),
                    nets == area.networks@,
                    *area == ospf.areas@[a as int],
                    a < ospf.areas@.len(),
                    ospf_renderable(RoutingProtocolConfig::Ospf(*ospf)),
                    k <= nn,
                    output@ == append_area_networks(before, nets.take(k as int), area.area_id),
                decreases nn - k,
            {
                let net = area.networks[k];
                assert(nets.take(k + 1).drop_last() =~= nets.take(k as int));
                assert(nets.take(k + 1).last() == net);
                assert(mask_ok(ospf.areas@[a as int].networks@[k as int].prefix));
                let wildcard = Self::to_wildcard_mask(net.prefix);
                push_str(output, " network ");
                net.network().push_to(output);
                push_str(output, " ");
                push_str(output, wildcard.as_str());
                push_str(output, " area ");
                push_dec(output, area.area_id as u64);
                push_str(output, "\n");
                k = k + 1;
            }
            assert(nets.take(nn as int) =~= nets);
            assert(areas.take(a + 1).drop_last() =~= areas.take(a as int));
            assert(areas.take(a + 1).last() == *area);
            a = a + 1;
        }
        assert(areas.take(na as int) =~= areas);
    }

    /// Appends a BGP process block.
    pub fn generate_bgp(&self, bgp: &BgpConfig, output: &mut String)
        ensures
            final(output)@ == append_bgp(old(output)@, *bgp, self.options().sanitize_passwords),
    {
        push_str(output, "!\n");
        push_str(output, "router bgp ");
        push_dec(output, bgp.local_as as u64);
        push_str(output, "\n");
        push_str(output, " bgp router-id ");
        bgp.router_id.push_to(output);
        push_str(output, "\n");
        push_str(output, " bgp log-neighbor-changes\n");
        let ghost start = output@;
        let ghost s = bgp.neighbors@;
        let sanitize = self.options.sanitize_passwords;
        let n = bgp.neighbors.len();
        let mut k: usize = 0;
        assert(s.take(0) =~= Seq::<BgpNeighborConfig>::empty());
        while k < n
            invariant
                n == s.len(),
                s == bgp.neighbors@,
                sanitize == self.options.sanitize_passwords,
                k <= n,
                output@ == append_neighbors(start, s.take(k as int), sanitize),
            decreases n - k,
        {
            let nb = &bgp.neighbors[k];
            assert(s.take(k + 1).drop_last() =~= s.take(k as int));
            assert(s.take(k + 1).last() == *nb);
            let addr = nb.address.to_string();
            push_str(output, " neighbor ");
            push_str(output, addr.as_str());
            push_str(output, " remote-as ");
            push_dec(output, nb.remote_as as u64);
            push_str(output, "\n");
            match &nb.description {
                Some(d) => {
                    push_str(output, " neighbor ");
                    push_str(output, addr.as_str());
                    push_str(output, " description ");
                    push_str(output, d.as_str());
                    push_str(output, "\n");
                }
                None => {}
            }
            match &nb.password {
                Some(p) => {
                    if sanitize {
                        push_str(output, " neighbor ");
                        push_str(output, addr.as_str());
                        push_str(output, " password <REDACTED>\n");
                    } else {
                        push_str(output, " neighbor ");
                        push_str(output, addr.as_str());
                        push_str(output, " password ");
                        push_str(output, p.as_str());
                        push_str(output, "\n");
                    }
                }
                None => {}
            }
            k = k + 1;
        }
        assert(s.take(n as int) =~= s);
    }

    /// Appends the routing protocol blocks.
    pub fn generate_routing_protocols(&self, config: &RouterConfiguration, output: &mut String)
        requires
            renderable(config@),
        ensures
            final(output)@ == append_protocols(old(output)@, config@.routing_protocols, self.options().sanitize_passwords),
    {
        let ghost s = config@.routing_protocols;
        let protocols = config.routing_protocols();
        let n = protocols.len();
        let mut k: usize = 0;
        assert(s.take(0) =~= Seq::<RoutingProtocolConfig>::empty());
        while k < n
            invariant
                n == s.len(),
                s == config@.routing_protocols,
                protocols@ == s,
                renderable(config@),
                k <= n,
                output@ == append_protocols(old(output)@, s.take(k as int), self.options.sanitize_passwords),
            decreases n - k,
        {
            assert(s.take(k + 1).drop_last() =~= s.take(k as int));
            assert(s.take(k + 1).last() == s[k as int]);
            assert(ospf_renderable(s[k as int]));
            match &protocols[k] {
                RoutingProtocolConfig::Ospf(ospf) => self.generate_ospf(ospf, output),
                RoutingProtocolConfig::Bgp(bgp) => self.generate_bgp(bgp, output),
                RoutingProtocolConfig::Static(_) => {}
            }
            k = k + 1;
        }
        assert(s.take(n as int) =~= s);
    }

    /// Appends one ACL entry line.
    fn generate_entry(e: &AclEntryConfig, output: &mut String)
        requires
            entry_renderable(*e),
        ensures
            final(output)@ == append_entry(old(output)@, *e),
    {
        push_str(output, " ");
        push_dec(output, e.sequence as u64);
        push_str(output, " ");
        match e.action {
            AclAction::Permit => push_str(output, "permit"),
            AclAction::Deny => push_str(output, "deny"),
        }
        push_str(output, " ");
        push_str(output, protocol_name(e.protocol));
        push_str(output, " ");
        let src_wildcard = Self::to_wildcard_mask(e.source.prefix);
        e.source.network().push_to(output);
        push_str(output, " ");
        push_str(output, src_wildcard.as_str());
        push_str(output, " ");
        if e.destination.prefix == 0 {
            push_str(output, "any");
        } else {
            let dst_wildcard = Self::to_wildcard_mask(e.destination.prefix);
            e.destination.network().push_to(output);
            push_str(output, " ");
            push_str(output, dst_wildcard.as_str());
        }
        match e.ports {
            Some(p) => {
                if p.start == p.end {
                    push_str(output, " eq ");
                    push_dec(output, p.start as u64);
                } else {
                    push_str(output, " range ");
                    push_dec(output, p.start as u64);
                    push_str(output, " ");
                    push_dec(output, p.end as u64);
                }
            }
            None => {}
        }
        push_str(output, "\n");
    }

    /// Appends the access-list blocks.
    pub fn generate_access_lists(&self, config: &RouterConfiguration, output: &mut String)
        requires
            renderable(config@),
        ensures
            final(output)@ == append_acls(old(output)@, config@.access_lists),
    {
        let ghost s = config@.access_lists;
        let lists = config.access_lists();
        let n = lists.len();
        let mut k: usize = 0;
        assert(s.take(0) =~= Seq::<AccessListConfig>::empty());
        while k < n
            invariant
                n == s.len(),
                s == config@.access_lists,
                lists@ == s,
                renderable(config@),
                k <= n,
                output@ == append_acls(old(output)@, s.take(k as int)),
            decreases n - k,
        {
            let acl = &lists[k];
            assert(s.take(k + 1).drop_last() =~= s.take(k as int));
            assert(s.take(k + 1).last() == *acl);
            assert(acl_renderable(s[k as int]));
            push_str(output, "!\n");
            push_str(output, "ip access-list extended ");
            push_dec(output, acl.number as u64);
            push_str(output, "\n");
            match &acl.name {
                Some(nm) => {
                    push_str(output, " remark ");
                    push_str(output, nm.as_str());
                    push_str(output, "\n");
                }
                None => {}
            }
            let ghost start = output@;
            let ghost es = acl.entries@;
            let ne = acl.entries.len();
            let mut j: usize = 0;
            assert(es.take(0) =~= Seq::<AclEntryConfig>::empty());
            while j < ne
                invariant
                    ne == es.len(),
                    es == acl.entries@,
                    acl_renderable(*acl),
                    j <= ne,
                    output@ == append_entries(start, es.take(j as int)),
                decreases ne - j,
            {
                assert(es.take(j + 1).drop_last() =~= es.take(j as int));
                assert(es.take(j + 1).last() == es[j as int]);
                assert(entry_renderable(es[j as int]));
                Self::generate_entry(&acl.entries[j], output);
                j = j + 1;
            }
            assert(es.take(ne as int) =~= es);
            k = k + 1;
        }
        assert(s.take(n as int) =~= s);
    }

    /// Appends the footer.
    pub fn generate_footer(&self, output: &mut String)
        ensures
            final(output)@ == append_footer(old(output)@),
    {
        push_str(output, "!\n");
        push_str(output, "line con 0\n");
        push_str(output, " logging synchronous\n");
        push_str(output, "line aux 0\n");
        push_str(output, "line vty 0 4\n");
        push_str(output, " login\n");
        push_str(output, " transport input ssh\n");
        push_str(output, "!\n");
        push_str(output, "end\n");
    }

    /// The whole configuration, with the given generation time in the
    /// header when timestamps are on.
    pub fn generate_at(&self, config: &RouterConfiguration, timestamp: &str) -> (s: String)
        requires
            renderable(config@),
        ensures
            s@ == config_text(config@, self.options().sanitize_passwords,
                stamp(self.options().include_timestamps, timestamp@)),
    {
        let mut output = String::new();
        let ts = if self.options.include_timestamps { Some(timestamp) } else { None };
        self.generate_header(config, ts, &mut output);
        self.generate_global(config, &mut output);
        self.generate_interfaces(config, &mut output);
        self.generate_routing_protocols(config, &mut output);
        self.generate_access_lists(config, &mut output);
        self.generate_footer(&mut output);
        output
    }
}

/// The lower-case name of a protocol.
fn protocol_name(p: Protocol) -> (s: &'static str)
    ensures
        s@ == protocol_text(p),
{
    match p {
        Protocol::Ip => "ip",
        Protocol::Tcp => "tcp",
        Protocol::Udp => "udp",
        Protocol::Icmp => "icmp",
    }
}

impl ConfigurationGenerator for CiscoIosGenerator {
    type Input = RouterConfiguration;
    type Output = String;
    type Error = NetworkError;

    /// Every rendered mask has a prefix between 1 and 32.
    open spec fn can_render(&self, config: &RouterConfiguration) -> bool {
        renderable(config@)
    }

    /// The configuration text, stamped with the current time when
    /// timestamps are on.
    fn generate(&self, config: &RouterConfiguration) -> (r: Result<String, NetworkError>)
        ensures
            r.is_ok(),
            exists|t: Seq<char>| r.unwrap()@ == #[trigger] config_text(
                config@, self.options().sanitize_passwords, stamp(self.options().include_timestamps, t)),
    {
        let now = if self.options.include_timestamps { utc_now_text() } else { String::new() };
        let s = self.generate_at(config, now.as_str());
        Ok(s)
    }

    /// Checks for a hostname line, the final `end` line and no doubled `!`.
    fn validate(&self, output: &String) -> (r: Result<(), NetworkError>)
        ensures
            match validation_spec(output@) {
                Ok(()) => r.is_ok(),
                Err(m) => match r {
                    Err(NetworkError::General(x)) => x@ == m,
                    _ => false,
                },
            },
    {
        if !str_contains(output.as_str(), "hostname") {
            return Err(NetworkError::General(owned("Missing hostname configuration")));
        }
        if !str_ends_with(output.as_str(), "end\n") {
            return Err(NetworkError::General(owned("Configuration does not end properly")));
        }
        if str_contains(output.as_str(), "!!") {
            return Err(NetworkError::General(owned("Invalid syntax: double exclamation marks")));
        }
        Ok(())
    }
}

impl Default for CiscoIosGenerator {
    /// A generator with default options.
    fn default() -> (g: Self)
        ensures
            g.options() == (CiscoGeneratorOptions { sanitize_passwords: false, include_timestamps: true }),
    {
        Self::new()
    }
}


// ---------------------------------------------------------------------
// Generated text passes the structural checks.

/// `a` starts with `b`.
pub open spec fn extends(a: Seq<char>, b: Seq<char>) -> bool {
    b.len() <= a.len() && a.subrange(0, b.len() as int) == b
}

proof fn lemma_extends_add(a: Seq<char>, t: Seq<char>)
    ensures
        extends(a + t, a),
{
    assert((a + t).subrange(0, a.len() as int) =~= a);
}

proof fn lemma_extends_trans(a: Seq<char>, b: Seq<char>, c: Seq<char>)
    requires
        extends(a, b),
        extends(b, c),
    ensures
        extends(a, c),
{
    assert(a.subrange(0, c.len() as int) =~= b.subrange(0, c.len() as int));
}

proof fn lemma_contains_extends(a: Seq<char>, b: Seq<char>, p: Seq<char>)
    requires
        extends(a, b),
        contains_seq(b, p),
    ensures
        contains_seq(a, p),
{
    let i = choose|i: int| 0 <= i && i + p.len() <= b.len() && #[trigger] b.subrange(i, i + p.len()) == p;
    assert(a.subrange(i, i + p.len()) =~= b.subrange(i, i + p.len()));
}

proof fn lemma_interfaces_extend(out: Seq<char>, s: Seq<InterfaceView>)
    ensures
        extends(append_interfaces(out, s), out),
    decreases s.len(),
{
    if s.len() == 0 {
        assert(out.subrange(0, out.len() as int) =~= out);
    } else {
        let o = append_interfaces(out, s.drop_last());
        lemma_interfaces_extend(out, s.drop_last());
        let i = s.last();
        let o1 = o + "!\n"@ + "interface "@ + i.name + "\n"@;
        let o2 = match i.description { Some(d) => o1 + " description "@ + d + "\n"@, None => o1 };
        let o3 = match i.ip_address {
            Some(n) => o2 + " ip address "@ + ip_text(n.ip) + " "@ + subnet_mask_text(n.prefix) + "\n"@,
            None => o2,
        };
        lemma_extends_add(o, o1.subrange(o.len() as int, o1.len() as int));
        assert(o + o1.subrange(o.len() as int, o1.len() as int) =~= o1);
        assert(o + o3.subrange(o.len() as int, o3.len() as int) =~= o3) by {
            assert(extends(o1, o)) by { assert(o1.subrange(0, o.len() as int) =~= o); }
            assert(extends(o2, o)) by { assert(o2.subrange(0, o.len() as int) =~= o); }
            assert(o3.subrange(0, o.len() as int) =~= o);
        }
        let r = append_iface(o, i);
        assert(r.subrange(0, o.len() as int) =~= o);
        lemma_extends_trans(r, o, out);
    }
}

proof fn lemma_area_networks_extend(out: Seq<char>, nets: Seq<IpNetwork>, area: u32)
    ensures
        extends(append_area_networks(out, nets, area), out),
    decreases nets.len(),
{
    if nets.len() == 0 {
        assert(out.subrange(0, out.len() as int) =~= out);
    } else {
        let o = append_area_networks(out, nets.drop_last(), area);
        lemma_area_networks_extend(out, nets.drop_last(), area);
        let r = append_area_networks(out, nets, area);
        assert(r.subrange(0, o.len() as int) =~= o);
        lemma_extends_trans(r, o, out);
    }
}

proof fn lemma_ospf_areas_extend(out: Seq<char>, areas: Seq<OspfAreaConfig>)
    ensures
        extends(append_ospf_areas(out, areas), out),
    decreases areas.len(),
{
    if areas.len() == 0 {
        assert(out.subrange(0, out.len() as int) =~= out);
    } else {
        let o = append_ospf_areas(out, areas.drop_last());
        lemma_ospf_areas_extend(out, areas.drop_last());
        lemma_area_networks_extend(o, areas.last().networks@, areas.last().area_id);
        lemma_extends_trans(append_ospf_areas(out, areas), o, out);
    }
}

proof fn lemma_neighbors_extend(out: Seq<char>, s: Seq<BgpNeighborConfig>, sanitize: bool)
    ensures
        extends(append_neighbors(out, s, sanitize), out),
    decreases s.len(),
{
    if s.len() == 0 {
        assert(out.subrange(0, out.len() as int) =~= out);
    } else {
        let o = append_neighbors(out, s.drop_last(), sanitize);
        lemma_neighbors_extend(out, s.drop_last(), sanitize);
        let r = append_neighbor(o, s.last(), sanitize);
        assert(r.subrange(0, o.len() as int) =~= o);
        lemma_extends_trans(r, o, out);
    }
}

proof fn lemma_protocols_extend(out: Seq<char>, s: Seq<RoutingProtocolConfig>, sanitize: bool)
    ensures
        extends(append_protocols(out, s, sanitize), out),
    decreases s.len(),
{
    if s.len() == 0 {
        assert(out.subrange(0, out.len() as int) =~= out);
    } else {
        let o = append_protocols(out, s.drop_last(), sanitize);
        lemma_protocols_extend(out, s.drop_last(), sanitize);
        let r = append_protocols(out, s, sanitize);
        match s.last() {
            RoutingProtocolConfig::Ospf(ospf) => {
                let h = o + "!\n"@ + "router ospf "@ + dec(ospf.process_id as nat) + "\n"@ + " router-id "@
                    + ip_text(ospf.router_id) + "\n"@;
                assert(h.subrange(0, o.len() as int) =~= o);
                lemma_ospf_areas_extend(h, ospf.areas@);
                lemma_extends_trans(r, h, o);
            }
            RoutingProtocolConfig::Bgp(bgp) => {
                let h = o + "!\n"@ + "router bgp "@ + dec(bgp.local_as as nat) + "\n"@ + " bgp router-id "@
                    + ip_text(bgp.router_id) + "\n"@ + " bgp log-neighbor-changes\n"@;
                assert(h.subrange(0, o.len() as int) =~= o);
                lemma_neighbors_extend(h, bgp.neighbors@, sanitize);
                lemma_extends_trans(r, h, o);
            }
            RoutingProtocolConfig::Static(_) => {
                assert(o.subrange(0, o.len() as int) =~= o);
            }
        }
        lemma_extends_trans(r, o, out);
    }
}

proof fn lemma_entry_extends(out: Seq<char>, e: AclEntryConfig)
    ensures
        extends(append_entry(out, e), out),
{
    let r = append_entry(out, e);
    assert(r.subrange(0, out.len() as int) =~= out);
}

proof fn lemma_entries_extend(out: Seq<char>, s: Seq<AclEntryConfig>)
    ensures
        extends(append_entries(out, s), out),
    decreases s.len(),
{
    if s.len() == 0 {
        assert(out.subrange(0, out.len() as int) =~= out);
    } else {
        let o = append_entries(out, s.drop_last());
        lemma_entries_extend(out, s.drop_last());
        lemma_entry_extends(o, s.last());
        lemma_extends_trans(append_entry(o, s.last()), o, out);
    }
}

proof fn lemma_acls_extend(out: Seq<char>, s: Seq<AccessListConfig>)
    ensures
        extends(append_acls(out, s), out),
    decreases s.len(),
{
    if s.len() == 0 {
        assert(out.subrange(0, out.len() as int) =~= out);
    } else {
        let o = append_acls(out, s.drop_last());
        lemma_acls_extend(out, s.drop_last());
        let a = s.last();
        let o1 = o + "!\n"@ + "ip access-list extended "@ + dec(a.number as nat) + "\n"@;
        let o2 = match a.name { Some(n) => o1 + " remark "@ + n@ + "\n"@, None => o1 };
        assert(o2.subrange(0, o.len() as int) =~= o);
        lemma_entries_extend(o2, a.entries@);
        lemma_extends_trans(append_acls(out, s), o2, o);
        lemma_extends_trans(append_acls(out, s), o, out);
    }
}

/// The header holds a `hostname` line.
proof fn lemma_header_has_hostname(name: Seq<char>, ts: Option<Seq<char>>)
    ensures
        contains_seq(append_header(Seq::empty(), name, ts), "hostname"@),
{
    let h = append_header(Seq::empty(), name, ts);
    let o1 = Seq::<char>::empty() + "!\n"@;
    let o2 = match ts { Some(t) => o1 + "! Generated at: "@ + t + "\n"@, None => o1 };
    let pre = o2 + "! Router: "@ + name + "\n"@ + "!\n"@ + "version 15.7\n"@
        + "service timestamps debug datetime msec\n"@ + "service timestamps log datetime msec\n"@
        + "no service password-encryption\n"@ + "!\n"@;
    let with_host = pre + "hostname "@;
    reveal_strlit("hostname ");
    reveal_strlit("hostname");
    assert(with_host.subrange(pre.len() as int, pre.len() as int + 8) =~= "hostname"@);
    assert(contains_seq(with_host, "hostname"@));
    assert(h.subrange(0, with_host.len() as int) =~= with_host);
    lemma_contains_extends(h, with_host, "hostname"@);
}

/// A rendered configuration extends its header.
proof fn lemma_config_extends_header(v: RouterView, sanitize: bool, ts: Option<Seq<char>>)
    ensures
        extends(config_text(v, sanitize, ts), append_header(Seq::empty(), v.name@, ts)),
{
    let h = append_header(Seq::empty(), v.name@, ts);
    let g = append_global(h, v.vendor);
    assert(g.subrange(0, h.len() as int) =~= h);
    let i = append_interfaces(g, v.interfaces);
    lemma_interfaces_extend(g, v.interfaces);
    let p = append_protocols(i, v.routing_protocols, sanitize);
    lemma_protocols_extend(i, v.routing_protocols, sanitize);
    let a = append_acls(p, v.access_lists);
    lemma_acls_extend(p, v.access_lists);
    let f = append_footer(a);
    assert(f.subrange(0, a.len() as int) =~= a);
    lemma_extends_trans(f, a, p);
    lemma_extends_trans(f, p, i);
    lemma_extends_trans(f, i, g);
    lemma_extends_trans(f, g, h);
}

/// A rendered configuration always holds a `hostname` line and ends with
/// the `end` line, so the generator's own check never reports either
/// missing.
pub proof fn law_rendered_config_has_hostname_and_end(v: RouterView, sanitize: bool, ts: Option<Seq<char>>)
    ensures
        contains_seq(config_text(v, sanitize, ts), "hostname"@),
        ends_with_seq(config_text(v, sanitize, ts), "end\n"@),
        validation_spec(config_text(v, sanitize, ts)) != Err::<(), Seq<char>>("Missing hostname configuration"@),
        validation_spec(config_text(v, sanitize, ts)) != Err::<(), Seq<char>>("Configuration does not end properly"@),
{
    let f = config_text(v, sanitize, ts);
    lemma_header_has_hostname(v.name@, ts);
    lemma_config_extends_header(v, sanitize, ts);
    lemma_contains_extends(f, append_header(Seq::empty(), v.name@, ts), "hostname"@);
    let a = append_acls(
        append_protocols(
            append_interfaces(append_global(append_header(Seq::empty(), v.name@, ts), v.vendor), v.interfaces),
            v.routing_protocols,
            sanitize,
        ),
        v.access_lists,
    );
    lemma_footer_ends(a);
    lemma_checks_pass(f);
}

/// The footer ends with the `end` line.
proof fn lemma_footer_ends(a: Seq<char>)
    ensures
        ends_with_seq(append_footer(a), "end\n"@),
{
    let f = append_footer(a);
    assert(f.subrange(f.len() - "end\n"@.len(), f.len() as int) =~= "end\n"@);
}

/// Text with a hostname and the end line passes the first two checks.
proof fn lemma_checks_pass(s: Seq<char>)
    requires
        contains_seq(s, "hostname"@),
        ends_with_seq(s, "end\n"@),
    ensures
        validation_spec(s) != Err::<(), Seq<char>>("Missing hostname configuration"@),
        validation_spec(s) != Err::<(), Seq<char>>("Configuration does not end properly"@),
{
    reveal_strlit("Missing hostname configuration");
    reveal_strlit("Configuration does not end properly");
    reveal_strlit("Invalid syntax: double exclamation marks");
    assert("Invalid syntax: double exclamation marks"@.len() != "Missing hostname configuration"@.len());
    assert("Invalid syntax: double exclamation marks"@.len() != "Configuration does not end properly"@.len());
}

} // verus!

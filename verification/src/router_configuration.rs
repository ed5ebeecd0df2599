//! Router configuration aggregate: interfaces, routing protocols and access
//! lists of one router, with conflict checks, validation and templates.

use vstd::prelude::*;
use crate::ids::{RouterId, CorrelationId, CausationId, uuid_text};
use crate::ip::{IpAddress, IpNetwork, ip_text};
use crate::text::{dec, push_str, push_dec, push_char, owned, opt_view, dec_string};
use crate::infra_events::{
    RouterVendor, EventMetadata, InfrastructureEvent, Interface, RouterConfigSnapshot,
    RoutingProtocol, OspfArea, BgpNeighbor, AccessList, AclEntry,
};
use crate::clock::now_millis;
use crate::errors::NetworkError;

verus! {

/// Interface configuration of a router.
#[derive(Debug)]
pub struct InterfaceConfig {
    pub name: String,
    pub description: Option<String>,
    pub ip_address: Option<IpNetwork>,
    pub enabled: bool,
    pub vlan: Option<u16>,
}

impl Clone for InterfaceConfig {
    fn clone(&self) -> (r: Self)
        ensures
            r == *self,
    {
        InterfaceConfig {
            name: self.name.clone(),
            description: match &self.description { Some(d) => Some(d.clone()), None => None },
            ip_address: self.ip_address,
            enabled: self.enabled,
            vlan: self.vlan,
        }
    }
}

/// An interface configuration with its texts as character sequences.
pub struct InterfaceView {
    pub name: Seq<char>,
    pub description: Option<Seq<char>>,
    pub ip_address: Option<IpNetwork>,
    pub enabled: bool,
    pub vlan: Option<u16>,
}

impl View for InterfaceConfig {
    type V = InterfaceView;

    open spec fn view(&self) -> InterfaceView {
        InterfaceView {
            name: self.name@,
            description: match self.description { Some(d) => Some(d@), None => None },
            ip_address: self.ip_address,
            enabled: self.enabled,
            vlan: self.vlan,
        }
    }
}

/// Routing protocol configuration.
#[derive(Debug)]
pub enum RoutingProtocolConfig {
    Ospf(OspfConfig),
    Bgp(BgpConfig),
    Static(StaticRouteConfig),
}

/// OSPF configuration.
#[derive(Debug)]
pub struct OspfConfig {
    pub process_id: u32,
    pub router_id: IpAddress,
    pub areas: Vec<OspfAreaConfig>,
}

/// OSPF area configuration.
#[derive(Debug)]
pub struct OspfAreaConfig {
    pub area_id: u32,
    pub area_type: AreaType,
    pub networks: Vec<IpNetwork>,
}

/// OSPF area type.
#[derive(Debug, Clone, Copy, PartialEq, Eq, Structural)]
pub enum AreaType {
    Backbone,
    Standard,
    Stub,
    TotallyStubby,
    Nssa,
}

/// BGP configuration.
#[derive(Debug)]
pub struct BgpConfig {
    pub local_as: u32,
    pub router_id: IpAddress,
    pub neighbors: Vec<BgpNeighborConfig>,
}

/// BGP neighbor configuration.
#[derive(Debug)]
pub struct BgpNeighborConfig {
    pub address: IpAddress,
    pub remote_as: u32,
    pub description: Option<String>,
    pub password: Option<String>,
}

/// Static route configuration.
#[derive(Debug)]
pub struct StaticRouteConfig {
    pub destination: IpNetwork,
    pub next_hop: IpAddress,
    pub metric: Option<u32>,
}

/// Access control list configuration.
#[derive(Debug)]
pub struct AccessListConfig {
    pub number: u16,
    pub name: Option<String>,
    pub entries: Vec<AclEntryConfig>,
}

/// ACL entry configuration.
#[derive(Debug)]
pub struct AclEntryConfig {
    pub sequence: u16,
    pub action: AclAction,
    pub protocol: Protocol,
    pub source: IpNetwork,
    pub destination: IpNetwork,
    pub ports: Option<PortRange>,
}

/// ACL action.
#[derive(Debug, Clone, Copy, PartialEq, Eq, Structural)]
pub enum AclAction {
    Permit,
    Deny,
}

/// Protocol matched by an ACL entry.
#[derive(Debug, Clone, Copy, PartialEq, Eq, Structural)]
pub enum Protocol {
    Ip,
    Tcp,
    Udp,
    Icmp,
}

/// Port range for TCP/UDP.
#[derive(Debug, Clone, Copy, PartialEq, Eq, Structural)]
pub struct PortRange {
    pub start: u16,
    pub end: u16,
}

/// Validation result: errors make a configuration invalid, warnings do not.
#[derive(Debug)]
pub struct ValidationResult {
    pub is_valid: bool,
    pub errors: Vec<String>,
    pub warnings: Vec<String>,
}

impl ValidationResult {
    /// A valid result with no errors or warnings.
    pub fn new() -> (r: Self)
        ensures
            r.is_valid,
            r.errors@.len() == 0,
            r.warnings@.len() == 0,
    {
        ValidationResult { is_valid: true, errors: Vec::new(), warnings: Vec::new() }
    }

    /// Adds an error; the result is then invalid.
    pub fn add_error(&mut self, error: String)
        ensures
            final(self).errors@ == old(self).errors@.push(error),
            final(self).warnings@ == old(self).warnings@,
            !final(self).is_valid,
    {
        self.errors.push(error);
        self.is_valid = false;
    }

    /// Adds a warning.
    pub fn add_warning(&mut self, warning: String)
        ensures
            final(self).warnings@ == old(self).warnings@.push(warning),
            final(self).errors@ == old(self).errors@,
            final(self).is_valid == old(self).is_valid,
    {
        self.warnings.push(warning);
    }

    /// Whether no error was added.
    pub fn is_valid(&self) -> (r: bool)
        ensures
            r == self.is_valid,
    {
        self.is_valid
    }
}

/// Router template for common configurations.
#[derive(Debug)]
pub enum RouterTemplate {
    EdgeRouter { internal_networks: Vec<IpNetwork>, wan_ip: IpAddress },
    CoreRouter { ospf_area: u32, loopback_ip: IpAddress },
    AccessRouter { vlans: Vec<u16>, trunk_port: String },
}

impl RouterTemplate {
    /// An edge router template.
    pub fn edge_router(internal_networks: Vec<IpNetwork>, wan_ip: IpAddress) -> (t: Self)
        ensures
            t == (RouterTemplate::EdgeRouter { internal_networks, wan_ip }),
    {
        RouterTemplate::EdgeRouter { internal_networks, wan_ip }
    }
}


/// Everything a router configuration holds except its timestamps.
pub struct RouterView {
    pub id: RouterId,
    pub name: String,
    pub vendor: RouterVendor,
    pub interfaces: Seq<InterfaceView>,
    pub routing_protocols: Seq<RoutingProtocolConfig>,
    pub access_lists: Seq<AccessListConfig>,
    pub version: nat,
}

/// Two networks overlap: same network address, or one holds the other's
/// address.
pub open spec fn nets_overlap(a: IpNetwork, b: IpNetwork) -> bool {
    a.network_spec() == b.network_spec() || a.contains_spec(b.ip) || b.contains_spec(a.ip)
}

/// An interface whose address overlaps `n`.
pub open spec fn iface_overlaps(i: InterfaceView, n: IpNetwork) -> bool {
    match i.ip_address {
        Some(e) => nets_overlap(n, e),
        None => false,
    }
}

/// Text of a network, `address/prefix`.
pub open spec fn net_text(n: IpNetwork) -> Seq<char> {
    ip_text(n.ip) + seq!['/'] + dec(n.prefix as nat)
}

/// Whether some interface has the given name.
pub open spec fn has_iface_named(s: Seq<InterfaceView>, name: Seq<char>) -> bool {
    exists|k: int| 0 <= k < s.len() && (#[trigger] s[k]).name == name
}

/// The index of the first interface overlapping `n`, if any.
pub open spec fn first_overlap(s: Seq<InterfaceView>, n: IpNetwork) -> Option<int>
    decreases s.len(),
{
    if s.len() == 0 {
        None
    } else {
        match first_overlap(s.drop_last(), n) {
            Some(k) => Some(k),
            None => if iface_overlaps(s.last(), n) { Some(s.len() - 1) } else { None },
        }
    }
}

/// What adding an interface does to a router: its error message, or the
/// router with the interface appended and the version bumped.
pub open spec fn add_interface_spec(v: RouterView, i: InterfaceView) -> Result<RouterView, Seq<char>> {
    if has_iface_named(v.interfaces, i.name) {
        Err("Interface "@ + i.name + " already exists"@)
    } else {
        match i.ip_address {
            Some(n) => match first_overlap(v.interfaces, n) {
                Some(k) => Err("IP address "@ + net_text(n) + " overlaps with existing interface "@ + v.interfaces[k].name),
                None => Ok(RouterView { interfaces: v.interfaces.push(i), version: v.version + 1, ..v }),
            },
            None => Ok(RouterView { interfaces: v.interfaces.push(i), version: v.version + 1, ..v }),
        }
    }
}

/// Whether a routing protocol configuration is OSPF.
pub open spec fn is_ospf(p: RoutingProtocolConfig) -> bool {
    p is Ospf
}

/// Whether a routing protocol configuration is BGP.
pub open spec fn is_bgp(p: RoutingProtocolConfig) -> bool {
    p is Bgp
}

/// The router with every OSPF configuration replaced by `ospf`, appended.
pub open spec fn configure_ospf_spec(v: RouterView, ospf: OspfConfig) -> RouterView {
    RouterView {
        routing_protocols: v.routing_protocols.filter(|p: RoutingProtocolConfig| !is_ospf(p)).push(RoutingProtocolConfig::Ospf(ospf)),
        version: v.version + 1,
        ..v
    }
}

/// The router with every BGP configuration replaced by `bgp`, appended.
pub open spec fn configure_bgp_spec(v: RouterView, bgp: BgpConfig) -> RouterView {
    RouterView {
        routing_protocols: v.routing_protocols.filter(|p: RoutingProtocolConfig| !is_bgp(p)).push(RoutingProtocolConfig::Bgp(bgp)),
        version: v.version + 1,
        ..v
    }
}

/// Whether some access list has the given number.
pub open spec fn has_acl_numbered(s: Seq<AccessListConfig>, number: u16) -> bool {
    exists|k: int| 0 <= k < s.len() && (#[trigger] s[k]).number == number
}

/// What adding an access list does: an error for a duplicate number, else
/// the list appended and the version bumped.
pub open spec fn add_access_list_spec(v: RouterView, acl: AccessListConfig) -> Result<RouterView, Seq<char>> {
    if has_acl_numbered(v.access_lists, acl.number) {
        Err("Access list "@ + dec(acl.number as nat) + " already exists"@)
    } else {
        Ok(RouterView { access_lists: v.access_lists.push(acl), version: v.version + 1, ..v })
    }
}

/// Router configuration aggregate root.
#[derive(Debug)]
pub struct RouterConfiguration {
    id: RouterId,
    name: String,
    vendor: RouterVendor,
    interfaces: Vec<InterfaceConfig>,
    routing_protocols: Vec<RoutingProtocolConfig>,
    access_lists: Vec<AccessListConfig>,
    version: u64,
    created_at: i64,
    updated_at: i64,
}

impl View for RouterConfiguration {
    type V = RouterView;

    closed spec fn view(&self) -> RouterView {
        RouterView {
            id: self.id,
            name: self.name,
            vendor: self.vendor,
            interfaces: self.interfaces@.map_values(|i: InterfaceConfig| i@),
            routing_protocols: self.routing_protocols@,
            access_lists: self.access_lists@,
            version: self.version as nat,
        }
    }
}

/// The payload of an event: the event without its metadata's event id and
/// timestamp.
pub open spec fn router_event_ok(e: InfrastructureEvent, id: RouterId, version: nat, corr: CorrelationId, cause: CausationId) -> bool {
    match e {
        InfrastructureEvent::RouterInterfaceAdded { metadata, router_id, .. }
        | InfrastructureEvent::RouterOspfConfigured { metadata, router_id, .. }
        | InfrastructureEvent::RouterBgpConfigured { metadata, router_id, .. }
        | InfrastructureEvent::RouterAccessListAdded { metadata, router_id, .. } =>
            router_id == id && metadata.aggregate_id@ == uuid_text(id.value) && metadata.version == version
                && metadata.correlation_id == corr && metadata.causation_id == cause,
        _ => false,
    }
}

impl RouterConfiguration {
    /// A router with no configuration, version 0.
    pub fn new(id: RouterId, name: String, vendor: RouterVendor) -> (r: Self)
        ensures
            r@ == (RouterView {
                id,
                name,
                vendor,
                interfaces: Seq::empty(),
                routing_protocols: Seq::empty(),
                access_lists: Seq::empty(),
                version: 0,
            }),
    {
        let now = now_millis();
        let r = RouterConfiguration {
            id,
            name,
            vendor,
            interfaces: Vec::new(),
            routing_protocols: Vec::new(),
            access_lists: Vec::new(),
            version: 0,
            created_at: now,
            updated_at: now,
        };
        assert(r@.interfaces =~= Seq::<InterfaceView>::empty());
        assert(r@.routing_protocols =~= Seq::<RoutingProtocolConfig>::empty());
        assert(r@.access_lists =~= Seq::<AccessListConfig>::empty());
        r
    }

    /// Router identifier.
    pub fn id(&self) -> (r: RouterId)
        ensures
            r == self@.id,
    {
        self.id
    }

    /// Router name.
    pub fn name(&self) -> (r: &String)
        ensures
            *r == self@.name,
    {
        &self.name
    }

    /// Router vendor.
    pub fn vendor(&self) -> (r: RouterVendor)
        ensures
            r == self@.vendor,
    {
        self.vendor
    }

    /// Current version.
    pub fn version(&self) -> (r: u64)
        ensures
            r == self@.version,
    {
        self.version
    }

    /// Interfaces.
    pub fn interfaces(&self) -> (r: &Vec<InterfaceConfig>)
        ensures
            r@.map_values(|i: InterfaceConfig| i@) == self@.interfaces,
    {
        &self.interfaces
    }

    /// Routing protocols.
    pub fn routing_protocols(&self) -> (r: &Vec<RoutingProtocolConfig>)
        ensures
            r@ == self@.routing_protocols,
    {
        &self.routing_protocols
    }

    /// Access lists.
    pub fn access_lists(&self) -> (r: &Vec<AccessListConfig>)
        ensures
            r@ == self@.access_lists,
    {
        &self.access_lists
    }

    fn metadata(&self, correlation_id: CorrelationId, causation_id: CausationId) -> (m: EventMetadata)
        ensures
            m.aggregate_id@ == uuid_text(self.id.value),
            m.correlation_id == correlation_id,
            m.causation_id == causation_id,
            m.version == self.version,
    {
        EventMetadata::new(self.id.to_string(), correlation_id, causation_id, self.version)
    }

    /// Adds an interface, refusing a duplicate name or an address that
    /// overlaps an existing interface's.
    pub fn add_interface(
        &mut self,
        interface: InterfaceConfig,
        correlation_id: CorrelationId,
        causation_id: CausationId,
    ) -> (r: Result<InfrastructureEvent, NetworkError>)
        requires
            old(self)@.version < u64::MAX,
        ensures
            match add_interface_spec(old(self)@, interface@) {
                Ok(v) => final(self)@ == v && r.is_ok() && router_event_ok(r.unwrap(), v.id, v.version, correlation_id, causation_id)
                    && (match r.unwrap() {
                        InfrastructureEvent::RouterInterfaceAdded { interface: ie, .. } =>
                            ie.name == interface.name && ie.description == interface.description
                            && ie.enabled == interface.enabled
                            && ie.ip_address == (match interface.ip_address { Some(n) => Some(n.ip), None => None }),
                        _ => false,
                    }),
                Err(msg) => final(self)@ == old(self)@ && (match r {
                    Err(NetworkError::General(m)) => m@ == msg,
                    _ => false,
                }),
            },
    {
        let n = self.interfaces.len();
        let mut k: usize = 0;
        while k < n
            invariant
                n == self@.interfaces.len(),
                self == old(self),
                k <= n,
                forall|j: int| 0 <= j < k ==> self@.interfaces[j].name != interface.name@,
            decreases n - k,
        {
            if self.interfaces[k].name == interface.name {
                assert(self@.interfaces[k as int].name == interface.name@);
                assert(has_iface_named(self@.interfaces, interface.name@));
                let mut m = owned("Interface ");
                push_str(&mut m, interface.name.as_str());
                push_str(&mut m, " already exists");
                return Err(NetworkError::General(m));
            }
            assert(self@.interfaces[k as int].name == self.interfaces@[k as int].name@);
            k = k + 1;
        }
        assert(!has_iface_named(self@.interfaces, interface.name@));
        match interface.ip_address {
            Some(new_net) => {
                let mut k: usize = 0;
                while k < n
                    invariant
                        n == self@.interfaces.len(),
                        self == old(self),
                        k <= n,
                        first_overlap(self@.interfaces.subrange(0, k as int), new_net).is_none(),
                        !has_iface_named(self@.interfaces, interface.name@),
                        interface.ip_address == Some(new_net),
                    decreases n - k,
                {
                    let ghost pre = self@.interfaces.subrange(0, k as int);
                    assert(self@.interfaces.subrange(0, k + 1).drop_last() =~= pre);
                    match self.interfaces[k].ip_address {
                        Some(existing) => {
                            let new_network = new_net.network();
                            let existing_network = existing.network();
                            if new_network == existing_network || new_net.contains(existing.ip)
                                || existing.contains(new_net.ip) {
                                proof { lemma_first_overlap_extends(self@.interfaces, new_net, k as int); }
                                let mut m = owned("IP address ");
                                push_str(&mut m, new_net.to_string().as_str());
                                push_str(&mut m, " overlaps with existing interface ");
                                push_str(&mut m, self.interfaces[k].name.as_str());
                                return Err(NetworkError::General(m));
                            }
                        }
                        None => {}
                    }
                    k = k + 1;
                }
                assert(self@.interfaces.subrange(0, n as int) =~= self@.interfaces);
            }
            None => {}
        }
        let ghost new_iface = interface;
        let ie = Interface {
            name: interface.name.clone(),
            ip_address: match interface.ip_address { Some(n) => Some(n.ip), None => None },
            description: match &interface.description { Some(d) => Some(d.clone()), None => None },
            enabled: interface.enabled,
        };
        let ghost before = self.interfaces@;
        self.interfaces.push(interface);
        assert(self.interfaces@.map_values(|i: InterfaceConfig| i@)
            =~= before.map_values(|i: InterfaceConfig| i@).push(new_iface@));
        self.version = self.version + 1;
        self.updated_at = now_millis();
        let metadata = self.metadata(correlation_id, causation_id);
        Ok(InfrastructureEvent::RouterInterfaceAdded { metadata, router_id: self.id, interface: ie })
    }

    /// Replaces the OSPF configuration.
    pub fn configure_ospf(
        &mut self,
        ospf: OspfConfig,
        correlation_id: CorrelationId,
        causation_id: CausationId,
    ) -> (r: Result<InfrastructureEvent, NetworkError>)
        requires
            old(self)@.version < u64::MAX,
        ensures
            final(self)@ == configure_ospf_spec(old(self)@, ospf),
            r.is_ok(),
            router_event_ok(r.unwrap(), old(self)@.id, final(self)@.version, correlation_id, causation_id),
            match r.unwrap() {
                InfrastructureEvent::RouterOspfConfigured { process_id, areas, .. } =>
                    process_id == ospf.process_id && areas == ospf.areas@.len() as u32,
                _ => false,
            },
    {
        let ghost o = ospf;
        self.retain_protocols(true);
        let process_id = ospf.process_id;
        let areas = ospf.areas.len() as u32;
        self.routing_protocols.push(RoutingProtocolConfig::Ospf(ospf));
        self.version = self.version + 1;
        self.updated_at = now_millis();
        let metadata = self.metadata(correlation_id, causation_id);
        Ok(InfrastructureEvent::RouterOspfConfigured { metadata, router_id: self.id, process_id, areas })
    }

    /// Replaces the BGP configuration.
    pub fn configure_bgp(
        &mut self,
        bgp: BgpConfig,
        correlation_id: CorrelationId,
        causation_id: CausationId,
    ) -> (r: Result<InfrastructureEvent, NetworkError>)
        requires
            old(self)@.version < u64::MAX,
        ensures
            final(self)@ == configure_bgp_spec(old(self)@, bgp),
            r.is_ok(),
            router_event_ok(r.unwrap(), old(self)@.id, final(self)@.version, correlation_id, causation_id),
            match r.unwrap() {
                InfrastructureEvent::RouterBgpConfigured { local_as, neighbors, .. } =>
                    local_as == bgp.local_as && neighbors == bgp.neighbors@.len() as u32,
                _ => false,
            },
    {
        self.retain_protocols(false);
        let local_as = bgp.local_as;
        let neighbors = bgp.neighbors.len() as u32;
        self.routing_protocols.push(RoutingProtocolConfig::Bgp(bgp));
        self.version = self.version + 1;
        self.updated_at = now_millis();
        let metadata = self.metadata(correlation_id, causation_id);
        Ok(InfrastructureEvent::RouterBgpConfigured { metadata, router_id: self.id, local_as, neighbors })
    }

    /// Drops every OSPF (when `ospf`) or BGP configuration, keeping the
    /// others in order.
    fn retain_protocols(&mut self, ospf: bool)
        ensures
            final(self)@ == (RouterView {
                routing_protocols: if ospf {
                    old(self)@.routing_protocols.filter(|p: RoutingProtocolConfig| !is_ospf(p))
                } else {
                    old(self)@.routing_protocols.filter(|p: RoutingProtocolConfig| !is_bgp(p))
                },
                ..old(self)@
            }),
            final(self).version == old(self).version,
    {
        let ghost orig = self.routing_protocols@;
        let total = self.routing_protocols.len();
        let ghost pred = if ospf { |p: RoutingProtocolConfig| !is_ospf(p) } else { |p: RoutingProtocolConfig| !is_bgp(p) };
        let mut src: Vec<RoutingProtocolConfig> = Vec::new();
        std::mem::swap(&mut src, &mut self.routing_protocols);
        let mut rev: Vec<RoutingProtocolConfig> = Vec::new();
        while src.len() > 0
            invariant
                src@.len() + rev@.len() == orig.len(),
                forall|j: int| 0 <= j < src@.len() ==> src@[j] == orig[j],
                forall|j: int| 0 <= j < rev@.len() ==> rev@[j] == orig[orig.len() - 1 - j],
                self.routing_protocols@ == Seq::<RoutingProtocolConfig>::empty(),
                self.id == old(self).id, self.name == old(self).name, self.vendor == old(self).vendor,
                self.interfaces == old(self).interfaces, self.access_lists == old(self).access_lists,
                self.version == old(self).version,
            decreases src@.len(),
        {
            let p = src.pop().unwrap();
            rev.push(p);
        }
        let mut k: usize = 0;
        while rev.len() > 0
            invariant
                k + rev@.len() == orig.len(),
                total == orig.len(),
                forall|j: int| 0 <= j < rev@.len() ==> rev@[j] == orig[orig.len() - 1 - j],
                self.routing_protocols@ == orig.subrange(0, k as int).filter(pred),
                pred == (if ospf { |p: RoutingProtocolConfig| !is_ospf(p) } else { |p: RoutingProtocolConfig| !is_bgp(p) }),
                self.id == old(self).id, self.name == old(self).name, self.vendor == old(self).vendor,
                self.interfaces == old(self).interfaces, self.access_lists == old(self).access_lists,
                self.version == old(self).version,
            decreases rev@.len(),
        {
            let p = rev.pop().unwrap();
            let ghost pv = p;
            assert(pv == orig[k as int]);
            proof {
                assert(orig.subrange(0, k + 1) =~= orig.subrange(0, k as int).push(pv));
                orig.subrange(0, k as int).lemma_filter_push(pv, pred);
            }
            let keep = match &p {
                RoutingProtocolConfig::Ospf(_) => !ospf,
                RoutingProtocolConfig::Bgp(_) => ospf,
                RoutingProtocolConfig::Static(_) => true,
            };
            if keep {
                self.routing_protocols.push(p);
            }
            k = k + 1;
        }
        assert(orig.subrange(0, k as int) =~= orig);
    }

    /// Adds an access list, refusing a duplicate number.
    pub fn add_access_list(
        &mut self,
        acl: AccessListConfig,
        correlation_id: CorrelationId,
        causation_id: CausationId,
    ) -> (r: Result<InfrastructureEvent, NetworkError>)
        requires
            old(self)@.version < u64::MAX,
        ensures
            match add_access_list_spec(old(self)@, acl) {
                Ok(v) => final(self)@ == v && r.is_ok() && router_event_ok(r.unwrap(), v.id, v.version, correlation_id, causation_id)
                    && (match r.unwrap() {
                        InfrastructureEvent::RouterAccessListAdded { acl_number, entries, .. } =>
                            acl_number == acl.number && entries == acl.entries@.len() as u32,
                        _ => false,
                    }),
                Err(msg) => final(self)@ == old(self)@ && (match r {
                    Err(NetworkError::General(m)) => m@ == msg,
                    _ => false,
                }),
            },
    {
        let n = self.access_lists.len();
        let mut k: usize = 0;
        while k < n
            invariant
                n == self.access_lists@.len(),
                self == old(self),
                k <= n,
                forall|j: int| 0 <= j < k ==> self.access_lists@[j].number != acl.number,
            decreases n - k,
        {
            if self.access_lists[k].number == acl.number {
                let mut m = owned("Access list ");
                push_dec(&mut m, acl.number as u64);
                push_str(&mut m, " already exists");
                return Err(NetworkError::General(m));
            }
            k = k + 1;
        }
        let acl_number = acl.number;
        let entries = acl.entries.len() as u32;
        self.access_lists.push(acl);
        self.version = self.version + 1;
        self.updated_at = now_millis();
        let metadata = self.metadata(correlation_id, causation_id);
        Ok(InfrastructureEvent::RouterAccessListAdded { metadata, router_id: self.id, acl_number, entries })
    }
}

/// If interface `k` overlaps and none before it does, it is the first.
proof fn lemma_first_overlap_extends(s: Seq<InterfaceView>, n: IpNetwork, k: int)
    requires
        0 <= k < s.len(),
        first_overlap(s.subrange(0, k), n).is_none(),
        iface_overlaps(s[k], n),
    ensures
        first_overlap(s, n) == Some(k),
    decreases s.len(),
{
    if k < s.len() - 1 {
        assert(s.drop_last().subrange(0, k) =~= s.subrange(0, k));
        assert(s.drop_last()[k] == s[k]);
        lemma_first_overlap_extends(s.drop_last(), n, k);
    } else {
        assert(s.drop_last() =~= s.subrange(0, k));
    }
}


/// Whether interfaces `i` and `j` both have addresses and the addresses
/// overlap.
pub open spec fn pair_conflicts(s: Seq<InterfaceView>, i: int, j: int) -> bool {
    match (s[i].ip_address, s[j].ip_address) {
        (Some(a), Some(b)) => nets_overlap(a, b),
        _ => false,
    }
}

/// The message reporting a conflict between interfaces `i` and `j`.
pub open spec fn conflict_message(s: Seq<InterfaceView>, i: int, j: int) -> Seq<char> {
    "IP address conflict between "@ + s[i].name + " and "@ + s[j].name
}

/// Conflict messages of the pairs `(i, k)` with `i < k < j`, in order.
pub open spec fn conflict_row(s: Seq<InterfaceView>, i: int, j: int) -> Seq<Seq<char>>
    decreases j - i,
{
    if j <= i + 1 {
        Seq::empty()
    } else if pair_conflicts(s, i, j - 1) {
        conflict_row(s, i, j - 1).push(conflict_message(s, i, j - 1))
    } else {
        conflict_row(s, i, j - 1)
    }
}

/// Conflict messages of all pairs `(i, j)` with `i < n` and `i < j`, in
/// order of `i`, then of `j`.
pub open spec fn conflict_rows(s: Seq<InterfaceView>, n: int) -> Seq<Seq<char>>
    decreases n,
{
    if n <= 0 {
        Seq::empty()
    } else {
        conflict_rows(s, n - 1) + conflict_row(s, n - 1, s.len() as int)
    }
}

/// The first OSPF configuration, if any.
pub open spec fn first_ospf(p: Seq<RoutingProtocolConfig>) -> Option<OspfConfig>
    decreases p.len(),
{
    if p.len() == 0 {
        None
    } else {
        match p[0] {
            RoutingProtocolConfig::Ospf(o) => Some(o),
            _ => first_ospf(p.subrange(1, p.len() as int)),
        }
    }
}

/// Whether an OSPF configuration has the backbone area 0.
pub open spec fn has_backbone(o: OspfConfig) -> bool {
    exists|k: int| 0 <= k < o.areas@.len() && (#[trigger] o.areas@[k]).area_id == 0
}

/// The validation warnings of a router.
pub open spec fn validation_warnings(v: RouterView) -> Seq<Seq<char>> {
    (if v.interfaces.len() == 0 { seq!["No interfaces configured"@] } else { Seq::empty() })
        + (if v.routing_protocols.len() == 0 { seq!["No routing protocols configured"@] } else { Seq::empty() })
}

/// The validation errors of a router: address conflicts, then a missing
/// OSPF backbone.
pub open spec fn validation_errors(v: RouterView) -> Seq<Seq<char>> {
    conflict_rows(v.interfaces, v.interfaces.len() as int) + (match first_ospf(v.routing_protocols) {
        Some(o) => if has_backbone(o) { Seq::empty() } else { seq!["OSPF configuration missing area 0 (backbone)"@] },
        None => Seq::empty(),
    })
}

/// The views of a list of strings.
pub open spec fn string_views(s: Seq<String>) -> Seq<Seq<char>> {
    s.map_values(|x: String| x@)
}

impl RouterConfiguration {
    /// Validates the configuration: warns of missing interfaces or routing,
    /// reports overlapping interface addresses and an OSPF configuration
    /// without area 0.
    pub fn validate(&self) -> (r: ValidationResult)
        ensures
            string_views(r.warnings@) == validation_warnings(self@),
            string_views(r.errors@) == validation_errors(self@),
            r.is_valid == (validation_errors(self@).len() == 0),
    {
        let mut result = ValidationResult::new();
        if self.interfaces.len() == 0 {
            result.add_warning(owned("No interfaces configured"));
        }
        if self.routing_protocols.len() == 0 {
            result.add_warning(owned("No routing protocols configured"));
        }
        assert(string_views(result.warnings@) =~= validation_warnings(self@));
        assert(string_views(result.errors@) =~= Seq::<Seq<char>>::empty());
        let n = self.interfaces.len();
        let mut i: usize = 0;
        while i < n
            invariant
                n == self@.interfaces.len(),
                i <= n,
                string_views(result.errors@) == conflict_rows(self@.interfaces, i as int),
                string_views(result.warnings@) == validation_warnings(self@),
                result.is_valid == (result.errors@.len() == 0),
            decreases n - i,
        {
            let ghost before_row = string_views(result.errors@);
            let mut j: usize = i + 1;
            assert(conflict_row(self@.interfaces, i as int, j as int) =~= Seq::<Seq<char>>::empty());
            while j < n
                invariant
                    n == self@.interfaces.len(),
                    i < n,
                    i + 1 <= j <= n,
                    string_views(result.errors@) == before_row + conflict_row(self@.interfaces, i as int, j as int),
                    string_views(result.warnings@) == validation_warnings(self@),
                    result.is_valid == (result.errors@.len() == 0),
                decreases n - j,
            {
                let ghost e0 = result.errors@;
                match (self.interfaces[i].ip_address, self.interfaces[j].ip_address) {
                    (Some(ip1), Some(ip2)) => {
                        if ip1.network() == ip2.network() || ip1.contains(ip2.ip) || ip2.contains(ip1.ip) {
                            let mut m = owned("IP address conflict between ");
                            push_str(&mut m, self.interfaces[i].name.as_str());
                            push_str(&mut m, " and ");
                            push_str(&mut m, self.interfaces[j].name.as_str());
                            result.add_error(m);
                            assert(string_views(result.errors@) =~= string_views(e0).push(m@));
                        }
                    }
                    _ => {}
                }
                assert(string_views(result.errors@) =~= before_row + conflict_row(self@.interfaces, i as int, j + 1));
                j = j + 1;
            }
            assert(conflict_rows(self@.interfaces, i + 1) == conflict_rows(self@.interfaces, i as int)
                + conflict_row(self@.interfaces, i as int, n as int));
            i = i + 1;
        }
        let ghost rows = string_views(result.errors@);
        match self.first_ospf() {
            Some(k) => {
                let mut found = false;
                let mut a: usize = 0;
                match &self.routing_protocols[k] {
                    RoutingProtocolConfig::Ospf(ospf) => {
                        while a < ospf.areas.len()
                            invariant
                                a <= ospf.areas@.len(),
                                found == (exists|t: int| 0 <= t < a && (#[trigger] ospf.areas@[t]).area_id == 0),
                            decreases ospf.areas@.len() - a,
                        {
                            if ospf.areas[a].area_id == 0 {
                                found = true;
                            }
                            a = a + 1;
                        }
                        if !found {
                            let ghost e0 = result.errors@;
                            result.add_error(owned("OSPF configuration missing area 0 (backbone)"));
                            assert(string_views(result.errors@) =~= string_views(e0).push("OSPF configuration missing area 0 (backbone)"@));
                        }
                    }
                    _ => {}
                }
            }
            None => {}
        }
        assert(string_views(result.errors@) =~= validation_errors(self@));
        result
    }

    /// The index of the first OSPF configuration, if any.
    fn first_ospf(&self) -> (r: Option<usize>)
        ensures
            r.is_none() == first_ospf(self@.routing_protocols).is_none(),
            r.is_some() ==> r.unwrap() < self@.routing_protocols.len()
                && (match self@.routing_protocols[r.unwrap() as int] {
                    RoutingProtocolConfig::Ospf(o) => first_ospf(self@.routing_protocols) == Some(o),
                    _ => false,
                }),
    {
        let ghost p = self.routing_protocols@;
        assert(p.subrange(0, p.len() as int) =~= p);
        let mut k: usize = 0;
        while k < self.routing_protocols.len()
            invariant
                p == self.routing_protocols@,
                k <= p.len(),
                first_ospf(p) == first_ospf(p.subrange(k as int, p.len() as int)),
            decreases p.len() - k,
        {
            let ghost rest = p.subrange(k as int, p.len() as int);
            assert(rest.subrange(1, rest.len() as int) =~= p.subrange(k + 1, p.len() as int));
            match &self.routing_protocols[k] {
                RoutingProtocolConfig::Ospf(_) => {
                    return Some(k);
                }
                _ => {}
            }
            k = k + 1;
        }
        None
    }
}


// ---------------------------------------------------------------------
// Snapshots.

/// A snapshot interface records an interface: its address without prefix.
pub open spec fn snap_iface_ok(s: Interface, i: InterfaceView) -> bool {
    &&& s.name@ == i.name
    &&& s.ip_address == (match i.ip_address {
        Some(n) => Some(n.ip),
        None => None,
    })
    &&& opt_view(s.description) == i.description
    &&& s.enabled == i.enabled
}

/// A snapshot protocol records a routing protocol; a static configuration
/// is recorded as an empty OSPF process 0.
pub open spec fn snap_protocol_ok(s: RoutingProtocol, p: RoutingProtocolConfig) -> bool {
    match p {
        RoutingProtocolConfig::Ospf(o) => match s {
            RoutingProtocol::Ospf { process_id, areas } => process_id == o.process_id
                && areas@.len() == o.areas@.len()
                && forall|k: int| 0 <= k < areas@.len() ==> (#[trigger] areas@[k]).id == o.areas@[k].area_id
                    && areas@[k].networks@ == o.areas@[k].networks@,
            _ => false,
        },
        RoutingProtocolConfig::Bgp(b) => match s {
            RoutingProtocol::Bgp { as_number, neighbors } => as_number == b.local_as
                && neighbors@.len() == b.neighbors@.len()
                && forall|k: int| 0 <= k < neighbors@.len() ==> (#[trigger] neighbors@[k]).address == b.neighbors@[k].address
                    && neighbors@[k].remote_as == b.neighbors@[k].remote_as,
            _ => false,
        },
        RoutingProtocolConfig::Static(_) => match s {
            RoutingProtocol::Ospf { process_id, areas } => process_id == 0 && areas@.len() == 0,
            _ => false,
        },
    }
}

/// The lower-case name of a protocol.
pub open spec fn protocol_text(p: Protocol) -> Seq<char> {
    match p {
        Protocol::Ip => "ip"@,
        Protocol::Tcp => "tcp"@,
        Protocol::Udp => "udp"@,
        Protocol::Icmp => "icmp"@,
    }
}

/// The snapshot form of an ACL action.
pub open spec fn snap_action(a: AclAction) -> crate::infra_events::AclAction {
    match a {
        AclAction::Permit => crate::infra_events::AclAction::Permit,
        AclAction::Deny => crate::infra_events::AclAction::Deny,
    }
}

/// A snapshot ACL entry records an entry without sequence and ports.
pub open spec fn snap_entry_ok(s: AclEntry, e: AclEntryConfig) -> bool {
    &&& s.action == snap_action(e.action)
    &&& s.protocol@ == protocol_text(e.protocol)
    &&& s.source == e.source
    &&& s.destination == e.destination
}

/// A snapshot access list records an access list, its number as text.
pub open spec fn snap_acl_ok(s: AccessList, a: AccessListConfig) -> bool {
    &&& s.id@ == dec(a.number as nat)
    &&& s.entries@.len() == a.entries@.len()
    &&& forall|k: int| 0 <= k < s.entries@.len() ==> snap_entry_ok(#[trigger] s.entries@[k], a.entries@[k])
}

/// A snapshot records a router's configuration, item by item.
pub open spec fn snapshot_ok(s: RouterConfigSnapshot, v: RouterView) -> bool {
    &&& s.interfaces@.len() == v.interfaces.len()
    &&& forall|k: int| 0 <= k < v.interfaces.len() ==> snap_iface_ok(#[trigger] s.interfaces@[k], v.interfaces[k])
    &&& s.routing_protocols@.len() == v.routing_protocols.len()
    &&& forall|k: int| 0 <= k < v.routing_protocols.len() ==> snap_protocol_ok(#[trigger] s.routing_protocols@[k], v.routing_protocols[k])
    &&& s.access_lists@.len() == v.access_lists.len()
    &&& forall|k: int| 0 <= k < v.access_lists.len() ==> snap_acl_ok(#[trigger] s.access_lists@[k], v.access_lists[k])
}

fn snap_protocol(p: &RoutingProtocolConfig) -> (s: RoutingProtocol)
    ensures
        snap_protocol_ok(s, *p),
{
    match p {
        RoutingProtocolConfig::Ospf(o) => {
            let mut areas: Vec<OspfArea> = Vec::new();
            let mut k: usize = 0;
            while k < o.areas.len()
                invariant
                    k <= o.areas@.len(),
                    areas@.len() == k,
                    forall|j: int| 0 <= j < k ==> (#[trigger] areas@[j]).id == o.areas@[j].area_id
                        && areas@[j].networks@ == o.areas@[j].networks@,
                decreases o.areas@.len() - k,
            {
                let a = &o.areas[k];
                let mut networks: Vec<IpNetwork> = Vec::new();
                let mut j: usize = 0;
                while j < a.networks.len()
                    invariant
                        j <= a.networks@.len(),
                        networks@ == a.networks@.subrange(0, j as int),
                    decreases a.networks@.len() - j,
                {
                    networks.push(a.networks[j]);
                    j = j + 1;
                    assert(networks@ =~= a.networks@.subrange(0, j as int));
                }
                assert(networks@ =~= a.networks@);
                areas.push(OspfArea { id: a.area_id, networks });
                k = k + 1;
            }
            RoutingProtocol::Ospf { process_id: o.process_id, areas }
        }
        RoutingProtocolConfig::Bgp(b) => {
            let mut neighbors: Vec<BgpNeighbor> = Vec::new();
            let mut k: usize = 0;
            while k < b.neighbors.len()
                invariant
                    k <= b.neighbors@.len(),
                    neighbors@.len() == k,
                    forall|j: int| 0 <= j < k ==> (#[trigger] neighbors@[j]).address == b.neighbors@[j].address
                        && neighbors@[j].remote_as == b.neighbors@[j].remote_as,
                decreases b.neighbors@.len() - k,
            {
                neighbors.push(BgpNeighbor { address: b.neighbors[k].address, remote_as: b.neighbors[k].remote_as });
                k = k + 1;
            }
            RoutingProtocol::Bgp { as_number: b.local_as, neighbors }
        }
        RoutingProtocolConfig::Static(_) => RoutingProtocol::Ospf { process_id: 0, areas: Vec::new() },
    }
}

fn snap_acl(a: &AccessListConfig) -> (s: AccessList)
    ensures
        snap_acl_ok(s, *a),
{
    let mut entries: Vec<AclEntry> = Vec::new();
    let mut k: usize = 0;
    while k < a.entries.len()
        invariant
            k <= a.entries@.len(),
            entries@.len() == k,
            forall|j: int| 0 <= j < k ==> snap_entry_ok(#[trigger] entries@[j], a.entries@[j]),
        decreases a.entries@.len() - k,
    {
        let e = &a.entries[k];
        let action = match e.action {
            AclAction::Permit => crate::infra_events::AclAction::Permit,
            AclAction::Deny => crate::infra_events::AclAction::Deny,
        };
        let protocol = match e.protocol {
            Protocol::Ip => owned("ip"),
            Protocol::Tcp => owned("tcp"),
            Protocol::Udp => owned("udp"),
            Protocol::Icmp => owned("icmp"),
        };
        entries.push(AclEntry { action, protocol, source: e.source, destination: e.destination });
        k = k + 1;
    }
    AccessList { id: number_text(a.number), entries }
}

/// The decimal text of an access-list number.
fn number_text(n: u16) -> (s: String)
    ensures
        s@ == dec(n as nat),
{
    dec_string(n as u64)
}

impl RouterConfiguration {
    /// A snapshot of the configuration, taken now.
    pub fn snapshot(&self) -> (s: RouterConfigSnapshot)
        ensures
            snapshot_ok(s, self@),
    {
        let mut interfaces: Vec<Interface> = Vec::new();
        let mut k: usize = 0;
        while k < self.interfaces.len()
            invariant
                k <= self@.interfaces.len(),
                interfaces@.len() == k,
                forall|j: int| 0 <= j < k ==> snap_iface_ok(#[trigger] interfaces@[j], self@.interfaces[j]),
            decreases self@.interfaces.len() - k,
        {
            let i = &self.interfaces[k];
            interfaces.push(Interface {
                name: i.name.clone(),
                ip_address: match i.ip_address { Some(n) => Some(n.ip), None => None },
                description: match &i.description { Some(d) => Some(d.clone()), None => None },
                enabled: i.enabled,
            });
            k = k + 1;
        }
        let mut routing_protocols: Vec<RoutingProtocol> = Vec::new();
        let mut k: usize = 0;
        while k < self.routing_protocols.len()
            invariant
                k <= self@.routing_protocols.len(),
                routing_protocols@.len() == k,
                forall|j: int| 0 <= j < k ==> snap_protocol_ok(#[trigger] routing_protocols@[j], self@.routing_protocols[j]),
            decreases self@.routing_protocols.len() - k,
        {
            routing_protocols.push(snap_protocol(&self.routing_protocols[k]));
            k = k + 1;
        }
        let mut access_lists: Vec<AccessList> = Vec::new();
        let mut k: usize = 0;
        while k < self.access_lists.len()
            invariant
                k <= self@.access_lists.len(),
                access_lists@.len() == k,
                forall|j: int| 0 <= j < k ==> snap_acl_ok(#[trigger] access_lists@[j], self@.access_lists[j]),
            decreases self@.access_lists.len() - k,
        {
            access_lists.push(snap_acl(&self.access_lists[k]));
            k = k + 1;
        }
        RouterConfigSnapshot { interfaces, routing_protocols, access_lists, timestamp: now_millis() }
    }
}


// ---------------------------------------------------------------------
// Templates.

/// The WAN interface of an edge router: the WAN address in a /30.
pub open spec fn wan_iface(wan: IpAddress) -> InterfaceView {
    InterfaceView {
        name: "GigabitEthernet0/0"@,
        description: Some("WAN Uplink"@),
        ip_address: Some(IpNetwork { ip: wan, prefix: 30 }),
        enabled: true,
        vlan: None,
    }
}

/// LAN interface `i` (from 0) of an edge router, on network `n`.
pub open spec fn lan_iface(i: nat, n: IpNetwork) -> InterfaceView {
    InterfaceView {
        name: "GigabitEthernet0/"@ + dec(i + 1),
        description: Some("LAN Network "@ + dec(i + 1)),
        ip_address: Some(n),
        enabled: true,
        vlan: None,
    }
}

/// The interfaces of an edge router, in the order they are added.
pub open spec fn edge_interfaces(wan: IpAddress, nets: Seq<IpNetwork>) -> Seq<InterfaceView> {
    seq![wan_iface(wan)] + Seq::new(nets.len(), |i: int| lan_iface(i as nat, nets[i]))
}

/// Adding interfaces in order, stopping at the first one refused: the
/// router at that point, and the refusal's message if there was one.
pub open spec fn add_interfaces_spec(v: RouterView, s: Seq<InterfaceView>) -> (RouterView, Option<Seq<char>>)
    decreases s.len(),
{
    if s.len() == 0 {
        (v, None)
    } else {
        let (w, e) = add_interfaces_spec(v, s.drop_last());
        match e {
            Some(m) => (w, Some(m)),
            None => match add_interface_spec(w, s.last()) {
                Ok(x) => (x, None),
                Err(m) => (w, Some(m)),
            },
        }
    }
}

/// The OSPF configuration of an edge router: process 1, the WAN address as
/// router id, the internal networks in the backbone area.
pub open spec fn edge_ospf_ok(o: OspfConfig, wan: IpAddress, nets: Seq<IpNetwork>) -> bool {
    &&& o.process_id == 1
    &&& o.router_id == wan
    &&& o.areas@.len() == 1
    &&& o.areas@[0].area_id == 0
    &&& o.areas@[0].area_type == AreaType::Backbone
    &&& o.areas@[0].networks@ == nets
}

/// 0.0.0.0/0.
pub open spec fn any_v4() -> IpNetwork {
    IpNetwork { ip: IpAddress::V4(0), prefix: 0 }
}

/// An IP entry from a source to anywhere, without ports.
pub open spec fn ip_entry_is(e: AclEntryConfig, sequence: u16, action: AclAction, source: IpNetwork) -> bool {
    &&& e.sequence == sequence
    &&& e.action == action
    &&& e.protocol == Protocol::Ip
    &&& e.source == source
    &&& e.destination == any_v4()
    &&& e.ports is None
}

/// The security list of an edge router: number 100, denying the private
/// ranges 10/8, 172.16/12 and 192.168/16, then permitting everything.
pub open spec fn edge_acl_ok(a: AccessListConfig) -> bool {
    &&& a.number == 100
    &&& opt_view(a.name) == Some("DENY_RFC1918_INBOUND"@)
    &&& a.entries@.len() == 4
    &&& ip_entry_is(a.entries@[0], 10, AclAction::Deny, IpNetwork { ip: IpAddress::V4(0x0A00_0000), prefix: 8 })
    &&& ip_entry_is(a.entries@[1], 20, AclAction::Deny, IpNetwork { ip: IpAddress::V4(0xAC10_0000), prefix: 12 })
    &&& ip_entry_is(a.entries@[2], 30, AclAction::Deny, IpNetwork { ip: IpAddress::V4(0xC0A8_0000), prefix: 16 })
    &&& ip_entry_is(a.entries@[3], 1000, AclAction::Permit, any_v4())
}

/// The result is the general error with the given message.
pub open spec fn general_error<T>(r: Result<T, NetworkError>, m: Seq<char>) -> bool {
    match r {
        Err(NetworkError::General(x)) => x@ == m,
        _ => false,
    }
}

/// What applying the edge-router template does: the interfaces are added
/// in order, up to the first refused; then OSPF is replaced and the
/// security list added, unless a list 100 exists.
/// The event of adding an interface to a router: the router, the version
/// reached and the caller's identifiers, with the interface's name,
/// description, address and state.
pub open spec fn interface_event_ok(
    e: InfrastructureEvent,
    i: InterfaceView,
    id: RouterId,
    version: nat,
    corr: CorrelationId,
    cause: CausationId,
) -> bool {
    &&& router_event_ok(e, id, version, corr, cause)
    &&& match e {
        InfrastructureEvent::RouterInterfaceAdded { interface: ie, .. } =>
            ie.name@ == i.name && opt_view(ie.description) == i.description && ie.enabled == i.enabled
            && ie.ip_address == (match i.ip_address { Some(n) => Some(n.ip), None => None }),
        _ => false,
    }
}

pub open spec fn edge_template_result(
    old: RouterView,
    fin: RouterView,
    r: Result<Vec<InfrastructureEvent>, NetworkError>,
    wan: IpAddress,
    nets: Seq<IpNetwork>,
    corr: CorrelationId,
    cause: CausationId,
) -> bool {
    let (w, e) = add_interfaces_spec(old, edge_interfaces(wan, nets));
    match e {
        Some(m) => fin == w && general_error(r, m),
        None => {
            &&& fin.id == w.id && fin.name == w.name && fin.vendor == w.vendor
            &&& fin.interfaces == w.interfaces
            &&& fin.routing_protocols.len() >= 1
            &&& fin.routing_protocols.drop_last() == w.routing_protocols.filter(|p: RoutingProtocolConfig| !is_ospf(p))
            &&& (match fin.routing_protocols.last() {
                RoutingProtocolConfig::Ospf(o) => edge_ospf_ok(o, wan, nets),
                _ => false,
            })
            &&& if has_acl_numbered(w.access_lists, 100) {
                &&& fin.access_lists == w.access_lists
                &&& fin.version == w.version + 1
                &&& general_error(r, "Access list "@ + dec(100) + " already exists"@)
            } else {
                &&& fin.access_lists.len() == w.access_lists.len() + 1
                &&& fin.access_lists.drop_last() == w.access_lists
                &&& edge_acl_ok(fin.access_lists.last())
                &&& fin.version == w.version + 2
                &&& r.is_ok()
                &&& fin.version == old.version + nets.len() + 3
                &&& r.unwrap()@.len() == nets.len() + 3
                &&& forall|k: int| 0 <= k <= nets.len() ==> interface_event_ok(#[trigger] r.unwrap()@[k],
                    edge_interfaces(wan, nets)[k], old.id, (old.version + k + 1) as nat, corr, cause)
                &&& router_event_ok(r.unwrap()@[nets.len() as int + 1], old.id, (old.version + nets.len() + 2) as nat, corr, cause)
                &&& (r.unwrap()@[nets.len() as int + 1] matches InfrastructureEvent::RouterOspfConfigured { process_id, areas, .. }
                    && process_id == 1 && areas == 1)
                &&& router_event_ok(r.unwrap()@[nets.len() as int + 2], old.id, fin.version, corr, cause)
                &&& (r.unwrap()@[nets.len() as int + 2] matches InfrastructureEvent::RouterAccessListAdded { acl_number, entries, .. }
                    && acl_number == 100 && entries == 4)
            }
        },
    }
}

/// Once adding a prefix of the interfaces is refused, adding them all
/// stops there too.
proof fn lemma_add_interfaces_stops(v: RouterView, s: Seq<InterfaceView>, j: int)
    requires
        0 <= j <= s.len(),
        add_interfaces_spec(v, s.take(j)).1 is Some,
    ensures
        add_interfaces_spec(v, s) == add_interfaces_spec(v, s.take(j)),
    decreases s.len() - j,
{
    if j == s.len() {
        assert(s.take(j) =~= s);
    } else {
        let p = s.drop_last();
        assert(p.take(j) =~= s.take(j));
        lemma_add_interfaces_stops(v, p, j);
    }
}

/// Dropping the BGP configurations leaves none, and dropping them again
/// changes nothing.
proof fn lemma_without_bgp(s: Seq<RoutingProtocolConfig>)
    ensures
        s.filter(|p: RoutingProtocolConfig| !is_bgp(p)).filter(|p: RoutingProtocolConfig| is_bgp(p))
            =~= Seq::<RoutingProtocolConfig>::empty(),
        s.filter(|p: RoutingProtocolConfig| !is_bgp(p)).filter(|p: RoutingProtocolConfig| !is_bgp(p))
            =~= s.filter(|p: RoutingProtocolConfig| !is_bgp(p)),
    decreases s.len(),
{
    reveal(Seq::filter);
    if s.len() > 0 {
        lemma_without_bgp(s.drop_last());
        let f = s.drop_last().filter(|p: RoutingProtocolConfig| !is_bgp(p));
        assert(f.push(s.last()).drop_last() =~= f);
    }
}

/// Dropping the OSPF configurations leaves none, and dropping them again
/// changes nothing.
proof fn lemma_without_ospf(s: Seq<RoutingProtocolConfig>)
    ensures
        s.filter(|p: RoutingProtocolConfig| !is_ospf(p)).filter(|p: RoutingProtocolConfig| is_ospf(p))
            =~= Seq::<RoutingProtocolConfig>::empty(),
        s.filter(|p: RoutingProtocolConfig| !is_ospf(p)).filter(|p: RoutingProtocolConfig| !is_ospf(p))
            =~= s.filter(|p: RoutingProtocolConfig| !is_ospf(p)),
    decreases s.len(),
{
    reveal(Seq::filter);
    if s.len() > 0 {
        lemma_without_ospf(s.drop_last());
        let f = s.drop_last().filter(|p: RoutingProtocolConfig| !is_ospf(p));
        assert(f.push(s.last()).drop_last() =~= f);
    }
}

/// Configuring BGP replaces it: afterwards the router has exactly one BGP
/// configuration, the one given; its other routing protocols are kept, in
/// order; the version grows by one and nothing else changes.
pub proof fn law_configure_bgp_replaces(v: RouterView, b: BgpConfig)
    ensures
        configure_bgp_spec(v, b).routing_protocols.filter(|p: RoutingProtocolConfig| is_bgp(p))
            == seq![RoutingProtocolConfig::Bgp(b)],
        configure_bgp_spec(v, b).routing_protocols.filter(|p: RoutingProtocolConfig| !is_bgp(p))
            == v.routing_protocols.filter(|p: RoutingProtocolConfig| !is_bgp(p)),
        configure_bgp_spec(v, b) == (RouterView {
            routing_protocols: configure_bgp_spec(v, b).routing_protocols,
            version: v.version + 1,
            ..v
        }),
{
    reveal(Seq::filter);
    lemma_without_bgp(v.routing_protocols);
    let f = v.routing_protocols.filter(|p: RoutingProtocolConfig| !is_bgp(p));
    let w = f.push(RoutingProtocolConfig::Bgp(b));
    assert(w.drop_last() =~= f);
    assert(is_bgp(w.last()));
    assert(w.filter(|p: RoutingProtocolConfig| is_bgp(p)) =~= seq![RoutingProtocolConfig::Bgp(b)]);
}

/// Configuring OSPF replaces it: afterwards the router has exactly one
/// OSPF configuration, the one given; its other routing protocols are
/// kept, in order; the version grows by one and nothing else changes.
pub proof fn law_configure_ospf_replaces(v: RouterView, o: OspfConfig)
    ensures
        configure_ospf_spec(v, o).routing_protocols.filter(|p: RoutingProtocolConfig| is_ospf(p))
            == seq![RoutingProtocolConfig::Ospf(o)],
        configure_ospf_spec(v, o).routing_protocols.filter(|p: RoutingProtocolConfig| !is_ospf(p))
            == v.routing_protocols.filter(|p: RoutingProtocolConfig| !is_ospf(p)),
        configure_ospf_spec(v, o) == (RouterView {
            routing_protocols: configure_ospf_spec(v, o).routing_protocols,
            version: v.version + 1,
            ..v
        }),
{
    reveal(Seq::filter);
    lemma_without_ospf(v.routing_protocols);
    let f = v.routing_protocols.filter(|p: RoutingProtocolConfig| !is_ospf(p));
    let w = f.push(RoutingProtocolConfig::Ospf(o));
    assert(w.drop_last() =~= f);
    assert(is_ospf(w.last()));
    assert(w.filter(|p: RoutingProtocolConfig| is_ospf(p)) =~= seq![RoutingProtocolConfig::Ospf(o)]);
}

/// Adding interfaces in order appends a prefix of them, one version each,
/// and changes nothing else; all of them when none is refused, fewer when
/// one is.
proof fn lemma_add_interfaces_frame(v: RouterView, s: Seq<InterfaceView>)
    ensures
        ({
            let (w, e) = add_interfaces_spec(v, s);
            let k = w.interfaces.len() - v.interfaces.len();
            &&& w == (RouterView { interfaces: w.interfaces, version: w.version, ..v })
            &&& 0 <= k <= s.len()
            &&& w.interfaces == v.interfaces + s.take(k)
            &&& w.version == v.version + k
            &&& (e is None <==> k == s.len())
        }),
    decreases s.len(),
{
    if s.len() == 0 {
        assert(v.interfaces + s.take(0) =~= v.interfaces);
    } else {
        let p = s.drop_last();
        lemma_add_interfaces_frame(v, p);
        let (w, e) = add_interfaces_spec(v, p);
        let k = w.interfaces.len() - v.interfaces.len();
        assert(p.take(k) =~= s.take(k));
        if e is None {
            match add_interface_spec(w, s.last()) {
                Ok(x) => {
                    assert(p =~= s.take(s.len() - 1));
                    assert(s.take(s.len() as int) =~= s.take(s.len() - 1).push(s.last()));
                    assert(x.interfaces =~= v.interfaces + s.take(s.len() as int));
                },
                Err(_) => {},
            }
        }
    }
}

/// Applying the edge-router template when one of its interfaces is
/// refused: the call fails, the interfaces added before the refused one
/// (the WAN interface, then the LAN interfaces in order) stay, one version
/// each, and the router's routing protocols, access lists and everything
/// else are as they were.
pub proof fn law_edge_template_refusal_keeps_earlier_steps(
    old: RouterView,
    fin: RouterView,
    r: Result<Vec<InfrastructureEvent>, NetworkError>,
    wan: IpAddress,
    nets: Seq<IpNetwork>,
    corr: CorrelationId,
    cause: CausationId,
)
    requires
        edge_template_result(old, fin, r, wan, nets, corr, cause),
        add_interfaces_spec(old, edge_interfaces(wan, nets)).1 is Some,
    ensures
        r matches Err(NetworkError::General(_)),
        fin == (RouterView { interfaces: fin.interfaces, version: fin.version, ..old }),
        ({
            let k = fin.interfaces.len() - old.interfaces.len();
            &&& 0 <= k <= nets.len()
            &&& fin.interfaces == old.interfaces + edge_interfaces(wan, nets).take(k)
            &&& fin.version == old.version + k
        }),
{
    lemma_add_interfaces_frame(old, edge_interfaces(wan, nets));
}

impl RouterConfiguration {
    /// Applies a template. The edge-router template adds the WAN and LAN
    /// interfaces, configures OSPF and adds a security list, stopping at
    /// the first step refused (earlier steps stay applied); the other
    /// templates are refused.
    pub fn apply_template(
        &mut self,
        template: RouterTemplate,
        correlation_id: CorrelationId,
        causation_id: CausationId,
    ) -> (r: Result<Vec<InfrastructureEvent>, NetworkError>)
        requires
            old(self)@.version + 3 + (match template {
                RouterTemplate::EdgeRouter { internal_networks, .. } => internal_networks@.len(),
                _ => 0,
            }) <= u64::MAX,
        ensures
            match template {
                RouterTemplate::EdgeRouter { internal_networks, wan_ip } =>
                    edge_template_result(old(self)@, final(self)@, r, wan_ip, internal_networks@, correlation_id, causation_id),
                _ => final(self)@ == old(self)@ && general_error(r, "Template not implemented yet"@),
            },
    {
        match template {
            RouterTemplate::EdgeRouter { internal_networks, wan_ip } => {
                let ghost v0 = self@;
                let ghost nets = internal_networks@;
                let ghost ifs = edge_interfaces(wan_ip, nets);
                let mut events: Vec<InfrastructureEvent> = Vec::new();
                let wan_interface = InterfaceConfig {
                    name: owned("GigabitEthernet0/0"),
                    description: Some(owned("WAN Uplink")),
                    ip_address: Some(IpNetwork { ip: wan_ip, prefix: 30 }),
                    enabled: true,
                    vlan: None,
                };
                assert(wan_interface@ == ifs[0]);
                assert(ifs.take(1).drop_last() =~= Seq::<InterfaceView>::empty());
                assert(ifs.take(1).last() == ifs[0]);
                assert(add_interfaces_spec(v0, Seq::<InterfaceView>::empty()) == (v0, None::<Seq<char>>));
                let ghost wi = wan_interface@;
                match self.add_interface(wan_interface, correlation_id, causation_id) {
                    Ok(e) => {
                        assert(interface_event_ok(e, ifs[0], v0.id, (v0.version + 1) as nat, correlation_id, causation_id));
                        events.push(e);
                    }
                    Err(e) => {
                        proof { lemma_add_interfaces_stops(v0, ifs, 1); }
                        return Err(e);
                    }
                }
                let n = internal_networks.len();
                let mut i: usize = 0;
                while i < n
                    invariant
                        n == nets.len(),
                        v0 == old(self)@,
                        nets == internal_networks@,
                        template matches RouterTemplate::EdgeRouter { internal_networks: tn, wan_ip: tw }
                            && tn@ == nets && tw == wan_ip,
                        ifs == edge_interfaces(wan_ip, nets),
                        i <= n,
                        self@ == add_interfaces_spec(v0, ifs.take(i + 1)).0,
                        add_interfaces_spec(v0, ifs.take(i + 1)).1 is None,
                        self@.version == v0.version + i + 1,
                        v0.version + 3 + n <= u64::MAX,
                        events@.len() == i + 1,
                        self@.id == v0.id,
                        forall|k: int| 0 <= k < events@.len() ==> interface_event_ok(#[trigger] events@[k], ifs[k], v0.id,
                            (v0.version + k + 1) as nat, correlation_id, causation_id),
                    decreases n - i,
                {
                    let mut name = owned("GigabitEthernet0/");
                    push_dec(&mut name, i as u64 + 1);
                    let mut description = owned("LAN Network ");
                    push_dec(&mut description, i as u64 + 1);
                    let lan_interface = InterfaceConfig {
                        name,
                        description: Some(description),
                        ip_address: Some(internal_networks[i]),
                        enabled: true,
                        vlan: None,
                    };
                    assert(lan_interface@ == ifs[i + 1]);
                    assert(ifs.take(i + 2).drop_last() =~= ifs.take(i + 1));
                    assert(ifs.take(i + 2).last() == ifs[i + 1]);
                    let ghost before = self@;
                    let ghost li = lan_interface@;
                    match self.add_interface(lan_interface, correlation_id, causation_id) {
                        Ok(e) => {
                            assert(interface_event_ok(e, ifs[i + 1], v0.id, (v0.version + i + 2) as nat, correlation_id, causation_id));
                            events.push(e);
                        }
                        Err(e) => {
                            assert(add_interface_spec(before, li) is Err);
                            assert(add_interfaces_spec(v0, ifs.take(i + 2)).0 == before);
                            assert(add_interfaces_spec(v0, ifs.take(i + 2)).1 is Some);
                            proof { lemma_add_interfaces_stops(v0, ifs, i + 2); }
                            return Err(e);
                        }
                    }
                    i = i + 1;
                }
                assert(ifs.take(n + 1) =~= ifs);
                let ghost w = self@;
                let ospf = OspfConfig {
                    process_id: 1,
                    router_id: wan_ip,
                    areas: vec![OspfAreaConfig { area_id: 0, area_type: AreaType::Backbone, networks: internal_networks }],
                };
                match self.configure_ospf(ospf, correlation_id, causation_id) {
                    Ok(e) => {
                        events.push(e);
                    }
                    Err(e) => {
                        return Err(e);
                    }
                }
                assert(self@.routing_protocols.drop_last() =~= w.routing_protocols.filter(|p: RoutingProtocolConfig| !is_ospf(p)));
                let acl = AccessListConfig {
                    number: 100,
                    name: Some(owned("DENY_RFC1918_INBOUND")),
                    entries: vec![
                        AclEntryConfig {
                            sequence: 10,
                            action: AclAction::Deny,
                            protocol: Protocol::Ip,
                            source: IpNetwork { ip: IpAddress::V4(0x0A00_0000), prefix: 8 },
                            destination: IpNetwork { ip: IpAddress::V4(0), prefix: 0 },
                            ports: None,
                        },
                        AclEntryConfig {
                            sequence: 20,
                            action: AclAction::Deny,
                            protocol: Protocol::Ip,
                            source: IpNetwork { ip: IpAddress::V4(0xAC10_0000), prefix: 12 },
                            destination: IpNetwork { ip: IpAddress::V4(0), prefix: 0 },
                            ports: None,
                        },
                        AclEntryConfig {
                            sequence: 30,
                            action: AclAction::Deny,
                            protocol: Protocol::Ip,
                            source: IpNetwork { ip: IpAddress::V4(0xC0A8_0000), prefix: 16 },
                            destination: IpNetwork { ip: IpAddress::V4(0), prefix: 0 },
                            ports: None,
                        },
                        AclEntryConfig {
                            sequence: 1000,
                            action: AclAction::Permit,
                            protocol: Protocol::Ip,
                            source: IpNetwork { ip: IpAddress::V4(0), prefix: 0 },
                            destination: IpNetwork { ip: IpAddress::V4(0), prefix: 0 },
                            ports: None,
                        },
                    ],
                };
                let ghost w2 = self@;
                match self.add_access_list(acl, correlation_id, causation_id) {
                    Ok(e) => {
                        events.push(e);
                    }
                    Err(e) => {
                        return Err(e);
                    }
                }
                assert(self@.access_lists.drop_last() =~= w2.access_lists);
                Ok(events)
            }
            _ => Err(NetworkError::General(owned("Template not implemented yet"))),
        }
    }
}

} // verus!

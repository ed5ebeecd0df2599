//! Network topology aggregate: a whole network of devices and connections,
//! generated from a base network and a topology type, and rendered as a
//! nix-topology configuration.
//!
//! Devices are kept in insertion order, no two with the same identifier;
//! inserting a device whose identifier is present replaces it.

use vstd::prelude::*;
use crate::ids::{DeviceId, InterfaceId, ConnectionId, NetworkTopologyId, CorrelationId, CausationId, uuid_text};
use crate::ip::{IpAddress, IpNetwork, ip_text};
use crate::text::{dec, push_str, push_dec, push_char, owned, opt_view};
use crate::infra_events::{EventMetadata, InfrastructureEvent};
use crate::errors::NetworkError;
use crate::clock::now_millis;

verus! {

/// Types of network topologies that can be generated.
#[derive(Debug)]
pub enum TopologyType {
    /// Single router with several interfaces
    SingleRouter { interface_count: u8 },
    /// Router connected to switches
    RouterSwitch { switch_count: u8, ports_per_switch: u8 },
    /// Core, distribution and access layers
    ThreeTier { core_count: u8, distribution_count: u8, access_count: u8, hosts_per_access: u8 },
    /// Spine-leaf data-center fabric
    SpineLeaf { spine_count: u8, leaf_count: u8, hosts_per_leaf: u8 },
    /// A topology given device by device
    Custom(CustomTopologySpec),
}

impl Clone for TopologyType {
    /// A copy; exact for the generated kinds, whose fields are plain numbers.
    fn clone(&self) -> (r: Self)
        ensures
            !(*self is Custom) ==> r == *self,
    {
        match self {
            TopologyType::SingleRouter { interface_count } => TopologyType::SingleRouter { interface_count: *interface_count },
            TopologyType::RouterSwitch { switch_count, ports_per_switch } =>
                TopologyType::RouterSwitch { switch_count: *switch_count, ports_per_switch: *ports_per_switch },
            TopologyType::ThreeTier { core_count, distribution_count, access_count, hosts_per_access } => TopologyType::ThreeTier {
                core_count: *core_count,
                distribution_count: *distribution_count,
                access_count: *access_count,
                hosts_per_access: *hosts_per_access,
            },
            TopologyType::SpineLeaf { spine_count, leaf_count, hosts_per_leaf } =>
                TopologyType::SpineLeaf { spine_count: *spine_count, leaf_count: *leaf_count, hosts_per_leaf: *hosts_per_leaf },
            TopologyType::Custom(spec) => TopologyType::Custom(spec.clone()),
        }
    }
}

/// Custom topology specification.
#[derive(Debug, Clone)]
pub struct CustomTopologySpec {
    pub devices: Vec<DeviceSpec>,
    pub connections: Vec<ConnectionSpec>,
}

/// A device of a custom topology.
#[derive(Debug, Clone)]
pub struct DeviceSpec {
    pub name: String,
    pub device_type: DeviceType,
    pub interface_count: u8,
    pub ip_offset: Option<u32>,
}

/// A connection of a custom topology.
#[derive(Debug, Clone)]
pub struct ConnectionSpec {
    pub source_device: String,
    pub source_interface: String,
    pub target_device: String,
    pub target_interface: String,
    pub vlan: Option<u16>,
}

/// A device of the topology.
#[derive(Debug)]
pub struct NetworkDevice {
    pub id: DeviceId,
    pub name: String,
    pub device_type: DeviceType,
    pub ip_address: IpAddress,
    pub interfaces: Vec<InterfaceSpec>,
    pub nix_module: Option<String>,
    pub services: Vec<ServiceSpec>,
}

/// Kinds of topology devices.
#[derive(Debug, Clone)]
pub enum DeviceType {
    Router { vendor: RouterVendor, routing_protocols: Vec<RoutingProtocol> },
    Switch { vendor: SwitchVendor, layer: SwitchLayer, vlan_support: bool },
    Host { os: HostOS, services: Vec<String> },
    Container { runtime: ContainerRuntime, image: String },
    VM { hypervisor: Hypervisor, os: String },
}

/// Router vendor.
#[derive(Debug, Clone, Copy, PartialEq, Eq, Structural)]
pub enum RouterVendor {
    Cisco,
    Juniper,
    VyOS,
    MikroTik,
    Generic,
}

/// Switch vendor.
#[derive(Debug, Clone, Copy, PartialEq, Eq, Structural)]
pub enum SwitchVendor {
    Cisco,
    Juniper,
    Arista,
    Generic,
}

/// Switching layer.
#[derive(Debug, Clone, Copy, PartialEq, Eq, Structural)]
pub enum SwitchLayer {
    Layer2,
    Layer3,
    Layer4Plus,
}

/// Routing protocol of a router device.
#[derive(Debug, Clone)]
pub enum RoutingProtocol {
    OSPF { area: String },
    BGP { asn: u32 },
    Static,
    RIP,
}

/// Host operating system.
#[derive(Debug, Clone, Copy, PartialEq, Eq, Structural)]
pub enum HostOS {
    NixOS,
    Ubuntu,
    CentOS,
    Alpine,
    Windows,
}

/// Container runtime.
#[derive(Debug, Clone, Copy, PartialEq, Eq, Structural)]
pub enum ContainerRuntime {
    Docker,
    Podman,
    Kubernetes,
}

/// Hypervisor.
#[derive(Debug, Clone, Copy, PartialEq, Eq, Structural)]
pub enum Hypervisor {
    KVM,
    VirtualBox,
    VMware,
    HyperV,
}

/// An interface of a topology device.
#[derive(Debug)]
pub struct InterfaceSpec {
    pub id: InterfaceId,
    pub name: String,
    pub interface_type: InterfaceType,
    pub ip_address: Option<IpAddress>,
    pub subnet_mask: Option<u8>,
    pub vlan: Option<u16>,
    pub enabled: bool,
}

/// Interface hardware type.
#[derive(Debug, Clone, Copy, PartialEq, Eq, Structural)]
pub enum InterfaceType {
    Ethernet,
    FastEthernet,
    GigabitEthernet,
    TenGigabitEthernet,
    Serial,
    Loopback,
    Virtual,
}

/// A service running on a device; its configuration as key-value pairs.
#[derive(Debug)]
pub struct ServiceSpec {
    pub name: String,
    pub service_type: ServiceType,
    pub config: Vec<(String, String)>,
}

/// Service kinds.
#[derive(Debug)]
pub enum ServiceType {
    DHCP,
    DNS,
    SSH,
    HTTP,
    HTTPS,
    SNMP,
    Syslog,
    Custom(String),
}

/// A connection between two devices of the topology.
#[derive(Debug)]
pub struct NetworkConnection {
    pub id: ConnectionId,
    pub source: ConnectionEndpoint,
    pub target: ConnectionEndpoint,
    pub connection_type: ConnectionType,
    pub vlan: Option<u16>,
    pub bandwidth: Option<Bandwidth>,
}

/// One end of a connection.
#[derive(Debug, Clone, Copy, PartialEq, Eq, Structural)]
pub struct ConnectionEndpoint {
    pub device_id: DeviceId,
    pub interface_id: InterfaceId,
}

/// Physical kind of a connection.
#[derive(Debug, Clone, Copy, PartialEq, Eq, Structural)]
pub enum ConnectionType {
    Ethernet,
    Fiber,
    Serial,
    Wireless,
    Virtual,
}

/// Link bandwidth: speed in Mbps and duplex mode.
#[derive(Debug, Clone, Copy, PartialEq, Eq, Structural)]
pub struct Bandwidth {
    pub speed: u64,
    pub duplex: Duplex,
}

/// Duplex mode.
#[derive(Debug, Clone, Copy, PartialEq, Eq, Structural)]
pub enum Duplex {
    Half,
    Full,
    Auto,
}

/// Nix topology configuration for deployment.
#[derive(Debug)]
pub struct NixTopologyConfig {
    pub topology_name: String,
    pub base_network: IpNetwork,
    pub devices: Vec<NixDevice>,
    pub networks: Vec<NixNetwork>,
    pub rendered_config: Option<String>,
    pub mermaid_diagram: Option<String>,
    pub graph_json: Option<String>,
}

/// A device of a nix topology.
#[derive(Debug)]
pub struct NixDevice {
    pub name: String,
    pub device_type: NixDeviceType,
    pub image: Option<String>,
    pub interfaces: Vec<NixInterface>,
    pub services: Vec<String>,
    pub nixos_modules: Vec<String>,
}

/// Kind of a nix topology device.
#[derive(Debug, Clone, Copy, PartialEq, Eq, Structural)]
pub enum NixDeviceType {
    Router,
    Switch,
    Host,
    Container,
    VM,
}

/// An interface of a nix topology device.
#[derive(Debug)]
pub struct NixInterface {
    pub name: String,
    pub network: String,
    pub address: Option<String>,
    pub dhcp: bool,
}

/// A network of a nix topology.
#[derive(Debug)]
pub struct NixNetwork {
    pub name: String,
    pub cidr: String,
    pub vlan: Option<u16>,
    pub dhcp: bool,
    pub gateway: Option<String>,
}

/// A change to a topology.
#[derive(Debug)]
pub enum TopologyChange {
    AddDevice(NetworkDevice),
    RemoveDevice(DeviceId),
    AddConnection(NetworkConnection),
}

// ---------------------------------------------------------------------
// The device collection: insertion order, unique identifiers.

/// No two devices share an identifier.
pub open spec fn ids_unique(s: Seq<NetworkDevice>) -> bool {
    forall|i: int, j: int| 0 <= i < j < s.len() ==> (#[trigger] s[i]).id != (#[trigger] s[j]).id
}

/// Whether a device with the given identifier is present.
pub open spec fn has_device(s: Seq<NetworkDevice>, id: DeviceId) -> bool {
    exists|k: int| 0 <= k < s.len() && (#[trigger] s[k]).id == id
}

/// Inserting a device: it replaces the device with its identifier, else it
/// is appended.
pub open spec fn upsert(s: Seq<NetworkDevice>, d: NetworkDevice) -> Seq<NetworkDevice> {
    if has_device(s, d.id) {
        s.update(choose|k: int| 0 <= k < s.len() && (#[trigger] s[k]).id == d.id, d)
    } else {
        s.push(d)
    }
}

/// Inserting devices one after the other.
pub open spec fn upsert_all(s: Seq<NetworkDevice>, gen: Seq<NetworkDevice>) -> Seq<NetworkDevice>
    decreases gen.len(),
{
    if gen.len() == 0 {
        s
    } else {
        upsert(upsert_all(s, gen.drop_last()), gen.last())
    }
}

/// Removing the device with the given identifier, if present.
pub open spec fn remove_device(s: Seq<NetworkDevice>, id: DeviceId) -> Seq<NetworkDevice> {
    if has_device(s, id) {
        s.remove(choose|k: int| 0 <= k < s.len() && (#[trigger] s[k]).id == id)
    } else {
        s
    }
}

/// Inserting keeps identifiers unique.
pub proof fn lemma_upsert_unique(s: Seq<NetworkDevice>, d: NetworkDevice)
    requires
        ids_unique(s),
    ensures
        ids_unique(upsert(s, d)),
        has_device(upsert(s, d), d.id),
{
    let u = upsert(s, d);
    if has_device(s, d.id) {
        let k = choose|k: int| 0 <= k < s.len() && (#[trigger] s[k]).id == d.id;
        assert(u[k].id == d.id);
    } else {
        assert(u[s.len() as int].id == d.id);
    }
}

/// Inserting devices with distinct identifiers into an empty collection
/// gives them back in order.
pub proof fn lemma_upsert_all_distinct(gen: Seq<NetworkDevice>)
    requires
        ids_unique(gen),
    ensures
        upsert_all(Seq::empty(), gen) == gen,
    decreases gen.len(),
{
    if gen.len() > 0 {
        let p = gen.drop_last();
        assert(ids_unique(p));
        lemma_upsert_all_distinct(p);
        if has_device(p, gen.last().id) {
            let k = choose|k: int| 0 <= k < p.len() && (#[trigger] p[k]).id == gen.last().id;
            assert(gen[k].id != gen[gen.len() - 1].id);
        }
        assert(p.push(gen.last()) =~= gen);
    }
}

/// Inserts a device into a collection of devices with unique identifiers.
fn insert_device(devices: &mut Vec<NetworkDevice>, d: NetworkDevice)
    requires
        ids_unique(old(devices)@),
    ensures
        final(devices)@ == upsert(old(devices)@, d),
        ids_unique(final(devices)@),
{
    let ghost dv = d;
    proof { lemma_upsert_unique(devices@, d); }
    let n = devices.len();
    let mut k: usize = 0;
    while k < n
        invariant
            n == devices@.len(),
            devices@ == old(devices)@,
            ids_unique(devices@),
            k <= n,
            forall|j: int| 0 <= j < k ==> devices@[j].id != dv.id,
            d == dv,
        decreases n - k,
    {
        if devices[k].id == d.id {
            proof {
                assert(has_device(devices@, dv.id));
                let c = choose|c: int| 0 <= c < devices@.len() && (#[trigger] devices@[c]).id == dv.id;
                assert(c == k) by {
                    if c < k {
                        assert(devices@[c].id != devices@[k as int].id);
                    } else if c > k {
                        assert(devices@[k as int].id != devices@[c].id);
                    }
                }
            }
            devices.set(k, d);
            return;
        }
        k = k + 1;
    }
    devices.push(d);
}


// ---------------------------------------------------------------------
// Generated topologies.

/// A gigabit interface with the given name, address, mask and VLAN,
/// enabled.
pub open spec fn gig_iface_ok(f: InterfaceSpec, name: Seq<char>, ip: Option<IpAddress>, mask: Option<u8>, vlan: Option<u16>) -> bool {
    &&& f.name@ == name
    &&& f.interface_type == InterfaceType::GigabitEthernet
    &&& f.ip_address == ip
    &&& f.subnet_mask == mask
    &&& f.vlan == vlan
    &&& f.enabled
}

/// A generic router running OSPF in area "0".
pub open spec fn is_ospf_area0_router(t: DeviceType) -> bool {
    match t {
        DeviceType::Router { vendor, routing_protocols } => vendor == RouterVendor::Generic
            && routing_protocols@.len() == 1
            && (match routing_protocols@[0] {
                RoutingProtocol::OSPF { area } => area@ == "0"@,
                _ => false,
            }),
        _ => false,
    }
}

/// The nix module is present and has the given name.
pub open spec fn module_is(m: Option<String>, name: Seq<char>) -> bool {
    match m {
        Some(s) => s@ == name,
        None => false,
    }
}

/// The router of a single-router topology with `n` interfaces `eth0`,
/// `eth1`, ..., addressed from the base network's first host on.
pub open spec fn single_router_ok(d: NetworkDevice, name: Seq<char>, base: IpNetwork, n: nat) -> bool {
    &&& d.name@ == name + "-router"@
    &&& is_ospf_area0_router(d.device_type)
    &&& base.nth_spec(1) == Some(d.ip_address)
    &&& d.interfaces@.len() == n
    &&& forall|i: int| 0 <= i < n ==> gig_iface_ok(#[trigger] d.interfaces@[i], "eth"@ + dec(i as nat),
        base.nth_spec((i + 1) as nat), Some(base.prefix), None)
    &&& module_is(d.nix_module, "router.nix"@)
    &&& d.services@.len() == 1
    &&& d.services@[0].name@ == "ssh"@
    &&& d.services@[0].service_type == ServiceType::SSH
    &&& d.services@[0].config@.len() == 0
}

/// The router of a router-switch topology: one interface `eth0` on the
/// base network's first host.
pub open spec fn rs_router_ok(d: NetworkDevice, name: Seq<char>, base: IpNetwork) -> bool {
    &&& d.name@ == name + "-router"@
    &&& is_ospf_area0_router(d.device_type)
    &&& base.nth_spec(1) == Some(d.ip_address)
    &&& d.interfaces@.len() == 1
    &&& gig_iface_ok(d.interfaces@[0], "eth0"@, Some(d.ip_address), Some(base.prefix), None)
    &&& module_is(d.nix_module, "router.nix"@)
    &&& d.services@.len() == 0
}

/// Switch `i` of a router-switch topology: named `<name>-switch-<i+1>`,
/// addressed at host `i + 10`, an uplink and `ports` access ports in
/// VLAN 100.
pub open spec fn rs_switch_ok(d: NetworkDevice, name: Seq<char>, base: IpNetwork, i: nat, ports: nat) -> bool {
    &&& d.name@ == name + "-switch-"@ + dec(i + 1)
    &&& d.device_type == (DeviceType::Switch { vendor: SwitchVendor::Generic, layer: SwitchLayer::Layer2, vlan_support: true })
    &&& base.nth_spec(i + 10) == Some(d.ip_address)
    &&& d.interfaces@.len() == ports + 1
    &&& gig_iface_ok(d.interfaces@[0], "uplink"@, Some(d.ip_address), Some(base.prefix), None)
    &&& forall|k: int| 1 <= k <= ports ==> gig_iface_ok(#[trigger] d.interfaces@[k], "port"@ + dec(k as nat), None, None, Some(100u16))
    &&& module_is(d.nix_module, "switch.nix"@)
    &&& d.services@.len() == 0
}

/// A gigabit ethernet, full-duplex link from the router to a switch.
pub open spec fn uplink_ok(c: NetworkConnection, router: DeviceId, sw: DeviceId) -> bool {
    &&& c.source.device_id == router
    &&& c.target.device_id == sw
    &&& c.connection_type == ConnectionType::Ethernet
    &&& c.vlan is None
    &&& c.bandwidth == Some(Bandwidth { speed: 1000, duplex: Duplex::Full })
}

/// The devices a router-switch topology generates, in order: the router,
/// then the switches.
pub open spec fn router_switch_devices(gen: Seq<NetworkDevice>, name: Seq<char>, base: IpNetwork, s: nat, p: nat) -> bool {
    &&& gen.len() == s + 1
    &&& rs_router_ok(gen[0], name, base)
    &&& forall|i: int| 0 <= i < s ==> rs_switch_ok(#[trigger] gen[i + 1], name, base, i as nat, p)
}

/// A router-switch topology: its devices are those generated, inserted in
/// order, and switch `i` is linked to the router by connection `i`.
pub open spec fn router_switch_generated(devs: Seq<NetworkDevice>, conns: Seq<NetworkConnection>, name: Seq<char>, base: IpNetwork, s: nat, p: nat) -> bool {
    exists|gen: Seq<NetworkDevice>|
        #[trigger] upsert_all(Seq::empty(), gen) == devs
        && router_switch_devices(gen, name, base, s, p)
        && conns.len() == s
        && forall|i: int| 0 <= i < s ==> uplink_ok(#[trigger] conns[i], gen[0].id, gen[i + 1].id)
}

/// An enabled gigabit interface with a fresh identifier.
fn gig_iface(name: String, ip: Option<IpAddress>, mask: Option<u8>, vlan: Option<u16>) -> (f: InterfaceSpec)
    ensures
        gig_iface_ok(f, name@, ip, mask, vlan),
{
    InterfaceSpec {
        id: InterfaceId::new(),
        name,
        interface_type: InterfaceType::GigabitEthernet,
        ip_address: ip,
        subnet_mask: mask,
        vlan,
        enabled: true,
    }
}

/// A generic router running OSPF in area "0".
fn ospf_area0_router() -> (t: DeviceType)
    ensures
        is_ospf_area0_router(t),
{
    let mut protocols: Vec<RoutingProtocol> = Vec::new();
    protocols.push(RoutingProtocol::OSPF { area: owned("0") });
    DeviceType::Router { vendor: RouterVendor::Generic, routing_protocols: protocols }
}

/// `prefix` followed by the decimal digits of `n`.
fn numbered(prefix: &str, n: u64) -> (s: String)
    ensures
        s@ == prefix@ + dec(n as nat),
{
    let mut s = owned(prefix);
    push_dec(&mut s, n);
    s
}

/// `name` followed by `suffix`.
fn suffixed(name: &String, suffix: &str) -> (s: String)
    ensures
        s@ == name@ + suffix@,
{
    let mut s = name.clone();
    push_str(&mut s, suffix);
    s
}

/// The router of a single-router topology, or an error when the base
/// network has too few addresses for its interfaces.
fn build_single_router(name: &String, base: IpNetwork, n: u8) -> (r: Result<NetworkDevice, NetworkError>)
    requires
        n > 0 || base.size() > 1,
    ensures
        r.is_err() <==> (n > 0 && n as nat >= base.size()),
        r.is_ok() ==> single_router_ok(r.unwrap(), name@, base, n as nat),
        r.is_err() ==> (match r {
            Err(NetworkError::InvalidConfiguration(m)) => m@ == "Not enough IP addresses"@,
            _ => false,
        }),
{
    proof { crate::ip::lemma_pow2_mono(0, (crate::ip::addr_width(base.ip) - base.eff_prefix()) as nat); }
    let mut interfaces: Vec<InterfaceSpec> = Vec::new();
    let mut i: u8 = 0;
    while i < n
        invariant
            i <= n,
            (i as nat) < base.size(),
            interfaces@.len() == i,
            forall|j: int| 0 <= j < i ==> gig_iface_ok(#[trigger] interfaces@[j], "eth"@ + dec(j as nat),
                base.nth_spec((j + 1) as nat), Some(base.prefix), None),
        decreases n - i,
    {
        let ip = base.nth(i as u32 + 1);
        match ip {
            None => {
                return Err(NetworkError::InvalidConfiguration(owned("Not enough IP addresses")));
            }
            Some(a) => {
                let nm = numbered("eth", i as u64);
                interfaces.push(gig_iface(nm, Some(a), Some(base.prefix), None));
            }
        }
        i = i + 1;
    }
    let router_ip = base.nth(1).unwrap();
    let mut services: Vec<ServiceSpec> = Vec::new();
    services.push(ServiceSpec { name: owned("ssh"), service_type: ServiceType::SSH, config: Vec::new() });
    Ok(NetworkDevice {
        id: DeviceId::new(),
        name: suffixed(name, "-router"),
        device_type: ospf_area0_router(),
        ip_address: router_ip,
        interfaces,
        nix_module: Some(owned("router.nix")),
        services,
    })
}

/// Switch `i` of a router-switch topology.
fn build_switch(name: &String, base: IpNetwork, i: u8, ports: u8) -> (d: NetworkDevice)
    requires
        (i as nat) + 10 < base.size(),
    ensures
        rs_switch_ok(d, name@, base, i as nat, ports as nat),
{
    let switch_ip = base.nth(i as u32 + 10).unwrap();
    let mut interfaces: Vec<InterfaceSpec> = Vec::new();
    interfaces.push(gig_iface(owned("uplink"), Some(switch_ip), Some(base.prefix), None));
    let mut k: u8 = 0;
    while k < ports
        invariant
            k <= ports,
            interfaces@.len() == k + 1,
            gig_iface_ok(interfaces@[0], "uplink"@, Some(switch_ip), Some(base.prefix), None),
            forall|j: int| 1 <= j <= k ==> gig_iface_ok(#[trigger] interfaces@[j], "port"@ + dec(j as nat), None, None, Some(100u16)),
        decreases ports - k,
    {
        interfaces.push(gig_iface(numbered("port", k as u64 + 1), None, None, Some(100u16)));
        k = k + 1;
    }
    let mut nm = suffixed(name, "-switch-");
    push_dec(&mut nm, i as u64 + 1);
    NetworkDevice {
        id: DeviceId::new(),
        name: nm,
        device_type: DeviceType::Switch { vendor: SwitchVendor::Generic, layer: SwitchLayer::Layer2, vlan_support: true },
        ip_address: switch_ip,
        interfaces,
        nix_module: Some(owned("switch.nix")),
        services: Vec::new(),
    }
}

/// The devices and connections of a router-switch topology with `s`
/// switches of `p` access ports each.
fn build_router_switch(name: &String, base: IpNetwork, s: u8, p: u8) -> (r: (Vec<NetworkDevice>, Vec<NetworkConnection>))
    requires
        base.size() > 1,
        s == 0 || (s as nat) + 9 < base.size(),
    ensures
        router_switch_generated(r.0@, r.1@, name@, base, s as nat, p as nat),
        ids_unique(r.0@),
{
    let router_ip = base.nth(1).unwrap();
    let mut rifs: Vec<InterfaceSpec> = Vec::new();
    rifs.push(gig_iface(owned("eth0"), Some(router_ip), Some(base.prefix), None));
    let router = NetworkDevice {
        id: DeviceId::new(),
        name: suffixed(name, "-router"),
        device_type: ospf_area0_router(),
        ip_address: router_ip,
        interfaces: rifs,
        nix_module: Some(owned("router.nix")),
        services: Vec::new(),
    };
    let router_id = router.id;
    let ghost mut gen: Seq<NetworkDevice> = seq![router];
    let mut devices: Vec<NetworkDevice> = Vec::new();
    let ghost rv = router;
    insert_device(&mut devices, router);
    assert(gen.drop_last() =~= Seq::<NetworkDevice>::empty());
    assert(gen.last() == rv);
    assert(upsert_all(Seq::<NetworkDevice>::empty(), Seq::<NetworkDevice>::empty()) == Seq::<NetworkDevice>::empty());
    assert(upsert_all(Seq::empty(), gen) == upsert(Seq::empty(), rv));
    let mut conns: Vec<NetworkConnection> = Vec::new();
    let mut i: u8 = 0;
    while i < s
        invariant
            i <= s,
            s == 0 || (s as nat) + 9 < base.size(),
            gen.len() == i + 1,
            gen[0].id == router_id,
            rs_router_ok(gen[0], name@, base),
            forall|j: int| 0 <= j < i ==> rs_switch_ok(#[trigger] gen[j + 1], name@, base, j as nat, p as nat),
            devices@ == upsert_all(Seq::empty(), gen),
            ids_unique(devices@),
            conns@.len() == i,
            forall|j: int| 0 <= j < i ==> uplink_ok(#[trigger] conns@[j], gen[0].id, gen[j + 1].id),
        decreases s - i,
    {
        let sw = build_switch(name, base, i, p);
        let sw_id = sw.id;
        let ghost swv = sw;
        let ghost prev = gen;
        proof { gen = gen.push(swv); }
        assert(gen.drop_last() =~= prev);
        insert_device(&mut devices, sw);
        conns.push(NetworkConnection {
            id: ConnectionId::new(),
            source: ConnectionEndpoint { device_id: router_id, interface_id: InterfaceId::new() },
            target: ConnectionEndpoint { device_id: sw_id, interface_id: InterfaceId::new() },
            connection_type: ConnectionType::Ethernet,
            vlan: None,
            bandwidth: Some(Bandwidth { speed: 1000, duplex: Duplex::Full }),
        });
        assert(gen[i + 1] == swv);
        i = i + 1;
    }
    assert(router_switch_devices(gen, name@, base, s as nat, p as nat));
    assert(upsert_all(Seq::empty(), gen) == devices@);
    (devices, conns)
}

// ---------------------------------------------------------------------
// The aggregate.

/// Everything a topology holds except its timestamps.
pub struct TopologyView {
    pub id: NetworkTopologyId,
    pub name: Seq<char>,
    pub base_ip: IpNetwork,
    pub topology_type: TopologyType,
    pub devices: Seq<NetworkDevice>,
    pub connections: Seq<NetworkConnection>,
    pub nix_config: Option<NixTopologyConfig>,
    pub version: nat,
}

/// Network topology aggregate root.
#[derive(Debug)]
pub struct NetworkTopology {
    id: NetworkTopologyId,
    name: String,
    base_ip: IpNetwork,
    topology_type: TopologyType,
    devices: Vec<NetworkDevice>,
    connections: Vec<NetworkConnection>,
    nix_config: Option<NixTopologyConfig>,
    version: u64,
    created_at: i64,
    updated_at: i64,
}

impl View for NetworkTopology {
    type V = TopologyView;

    closed spec fn view(&self) -> TopologyView {
        TopologyView {
            id: self.id,
            name: self.name@,
            base_ip: self.base_ip,
            topology_type: self.topology_type,
            devices: self.devices@,
            connections: self.connections@,
            nix_config: self.nix_config,
            version: self.version as nat,
        }
    }
}

/// The topology chosen for a base network when none is given: by prefix
/// length, /24 to /30 a router and a switch, /16 to /23 three tiers, /8 to
/// /15 spine-leaf, any other a single router.
pub open spec fn detected_type(prefix: u8) -> TopologyType {
    if 24 <= prefix <= 30 {
        TopologyType::RouterSwitch { switch_count: 1, ports_per_switch: 24 }
    } else if 16 <= prefix <= 23 {
        TopologyType::ThreeTier { core_count: 2, distribution_count: 4, access_count: 8, hosts_per_access: 12 }
    } else if 8 <= prefix <= 15 {
        TopologyType::SpineLeaf { spine_count: 4, leaf_count: 16, hosts_per_leaf: 32 }
    } else {
        TopologyType::SingleRouter { interface_count: 4 }
    }
}

/// Auto-detection when no type is given, by the base network's prefix
/// length: /24 to /30 a router with one 24-port switch; /16 to /23 a
/// three-tier network (2 core, 4 distribution, 8 access, 12 hosts each);
/// /8 to /15 spine-leaf (4 spines, 16 leaves, 32 hosts each); any other
/// prefix a single router with 4 interfaces. A type that is given is used
/// as it is.
pub proof fn law_detected_topology_by_prefix(base: IpNetwork, given: TopologyType)
    ensures
        chosen_type(base, Some(given)) == given,
        24 <= base.prefix <= 30 ==> chosen_type(base, None) == (TopologyType::RouterSwitch { switch_count: 1, ports_per_switch: 24 }),
        16 <= base.prefix <= 23 ==> chosen_type(base, None) == (TopologyType::ThreeTier {
            core_count: 2, distribution_count: 4, access_count: 8, hosts_per_access: 12 }),
        8 <= base.prefix <= 15 ==> chosen_type(base, None) == (TopologyType::SpineLeaf {
            spine_count: 4, leaf_count: 16, hosts_per_leaf: 32 }),
        (base.prefix < 8 || base.prefix > 30) ==> chosen_type(base, None) == (TopologyType::SingleRouter { interface_count: 4 }),
{
}

/// The topology type used: the one given, else the detected one.
pub open spec fn chosen_type(base: IpNetwork, t: Option<TopologyType>) -> TopologyType {
    match t {
        Some(t) => t,
        None => detected_type(base.prefix),
    }
}

/// The topology types that can be generated on a base network: a single
/// router (whose router needs a first host), and a router with switches
/// (the router at host 1, switch `i` at host `i + 10`).
pub open spec fn generation_supported(t: TopologyType, base: IpNetwork) -> bool {
    match t {
        TopologyType::SingleRouter { interface_count } => interface_count > 0 || base.size() > 1,
        TopologyType::RouterSwitch { switch_count, .. } => base.size() > 1
            && (switch_count == 0 || switch_count as nat + 9 < base.size()),
        _ => false,
    }
}

/// Generation fails when a single router has more interfaces than the base
/// network has host addresses after the network address.
pub open spec fn generation_fails(t: TopologyType, base: IpNetwork) -> bool {
    match t {
        TopologyType::SingleRouter { interface_count } => interface_count > 0 && interface_count as nat >= base.size(),
        _ => false,
    }
}

/// The devices and connections match the topology type.
pub open spec fn generated(v: TopologyView) -> bool {
    match v.topology_type {
        TopologyType::SingleRouter { interface_count } => v.devices.len() == 1
            && single_router_ok(v.devices[0], v.name, v.base_ip, interface_count as nat)
            && v.connections.len() == 0,
        TopologyType::RouterSwitch { switch_count, ports_per_switch } =>
            router_switch_generated(v.devices, v.connections, v.name, v.base_ip, switch_count as nat, ports_per_switch as nat),
        _ => false,
    }
}

/// The topology type detected from a base network's prefix length.
pub fn detect_topology_type(base: IpNetwork) -> (t: TopologyType)
    ensures
        t == detected_type(base.prefix),
{
    let p = base.prefix;
    if 24 <= p && p <= 30 {
        TopologyType::RouterSwitch { switch_count: 1, ports_per_switch: 24 }
    } else if 16 <= p && p <= 23 {
        TopologyType::ThreeTier { core_count: 2, distribution_count: 4, access_count: 8, hosts_per_access: 12 }
    } else if 8 <= p && p <= 15 {
        TopologyType::SpineLeaf { spine_count: 4, leaf_count: 16, hosts_per_leaf: 32 }
    } else {
        TopologyType::SingleRouter { interface_count: 4 }
    }
}

/// Whether a topology type can be generated on a base network.
pub fn supports_generation(t: &TopologyType, base: IpNetwork) -> (r: bool)
    ensures
        r == generation_supported(*t, base),
{
    let size_over = |k: u32| -> (b: bool)
        ensures
            b == (base.nth_spec(k as nat) is Some),
        { base.nth(k).is_some() };
    match t {
        TopologyType::SingleRouter { interface_count } => *interface_count > 0 || size_over(1),
        TopologyType::RouterSwitch { switch_count, .. } => size_over(1) && (*switch_count == 0 || size_over(*switch_count as u32 + 9)),
        _ => false,
    }
}

impl NetworkTopology {
    /// Identifiers of devices are unique.
    pub open spec fn wf(&self) -> bool {
        ids_unique(self@.devices)
    }

    /// A topology generated on a base network, of the given type or of the
    /// type its prefix length suggests, at version 1.
    pub fn from_ip_and_name(base_ip: IpNetwork, name: String, topology_type: Option<TopologyType>) -> (r: Result<Self, NetworkError>)
        requires
            generation_supported(chosen_type(base_ip, topology_type), base_ip),
        ensures
            r.is_err() <==> generation_fails(chosen_type(base_ip, topology_type), base_ip),
            r.is_ok() ==> ({
                let t = r.unwrap();
                &&& t@.name == name@
                &&& t@.base_ip == base_ip
                &&& t@.topology_type == chosen_type(base_ip, topology_type)
                &&& t@.version == 1
                &&& t@.nix_config is None
                &&& generated(t@)
                &&& t.wf()
            }),
            r.is_err() ==> (match r {
                Err(NetworkError::InvalidConfiguration(m)) => m@ == "Not enough IP addresses"@,
                _ => false,
            }),
    {
        let topology_type = match topology_type {
            Some(t) => t,
            None => detect_topology_type(base_ip),
        };
        let now = now_millis();
        let (devices, connections) = match &topology_type {
            TopologyType::SingleRouter { interface_count } => {
                match build_single_router(&name, base_ip, *interface_count) {
                    Ok(router) => {
                        let mut devices: Vec<NetworkDevice> = Vec::new();
                        devices.push(router);
                        (devices, Vec::new())
                    }
                    Err(e) => {
                        return Err(e);
                    }
                }
            }
            TopologyType::RouterSwitch { switch_count, ports_per_switch } => {
                build_router_switch(&name, base_ip, *switch_count, *ports_per_switch)
            }
            _ => {
                proof { assert(false); }
                (Vec::new(), Vec::new())
            }
        };
        let t = NetworkTopology {
            id: NetworkTopologyId::new(),
            name,
            base_ip,
            topology_type,
            devices,
            connections,
            nix_config: None,
            version: 1,
            created_at: now,
            updated_at: now,
        };
        Ok(t)
    }

    /// Topology identifier.
    pub fn id(&self) -> (r: NetworkTopologyId)
        ensures
            r == self@.id,
    {
        self.id
    }

    /// Topology name.
    pub fn name(&self) -> (r: &String)
        ensures
            r@ == self@.name,
    {
        &self.name
    }

    /// Base network.
    pub fn base_ip(&self) -> (r: IpNetwork)
        ensures
            r == self@.base_ip,
    {
        self.base_ip
    }

    /// Topology type.
    pub fn topology_type(&self) -> (r: &TopologyType)
        ensures
            *r == self@.topology_type,
    {
        &self.topology_type
    }

    /// Devices, in insertion order.
    pub fn devices(&self) -> (r: &Vec<NetworkDevice>)
        ensures
            r@ == self@.devices,
    {
        &self.devices
    }

    /// Connections, in insertion order.
    pub fn connections(&self) -> (r: &Vec<NetworkConnection>)
        ensures
            r@ == self@.connections,
    {
        &self.connections
    }

    /// The nix configuration, once generated.
    pub fn nix_config(&self) -> (r: Option<&NixTopologyConfig>)
        ensures
            r == (match self@.nix_config {
                Some(c) => Some(&c),
                None => None::<&NixTopologyConfig>,
            }),
    {
        match &self.nix_config {
            Some(c) => Some(c),
            None => None,
        }
    }

    /// Current version.
    pub fn version(&self) -> (r: u64)
        ensures
            r == self@.version,
    {
        self.version
    }
}

// ---------------------------------------------------------------------
// Nix topology and changes.

/// The nix device kind of a device type.
pub open spec fn nix_type_of(t: DeviceType) -> NixDeviceType {
    match t {
        DeviceType::Router { .. } => NixDeviceType::Router,
        DeviceType::Switch { .. } => NixDeviceType::Switch,
        DeviceType::Host { .. } => NixDeviceType::Host,
        DeviceType::Container { .. } => NixDeviceType::Container,
        DeviceType::VM { .. } => NixDeviceType::VM,
    }
}

/// The nix address of an interface: `address/mask`, the mask 24 when none
/// is set; none without an address.
pub open spec fn nix_address(f: InterfaceSpec) -> Option<Seq<char>> {
    match f.ip_address {
        Some(ip) => Some(ip_text(ip) + seq!['/'] + dec((match f.subnet_mask {
            Some(m) => m,
            None => 24u8,
        }) as nat)),
        None => None,
    }
}

/// A nix interface renders an interface on the `lan` network.
pub open spec fn nix_iface_ok(f: InterfaceSpec, n: NixInterface) -> bool {
    &&& n.name@ == f.name@
    &&& n.network@ == "lan"@
    &&& opt_view(n.address) == nix_address(f)
    &&& !n.dhcp
}

/// A nix device renders a device.
pub open spec fn nix_device_ok(d: NetworkDevice, n: NixDevice) -> bool {
    &&& n.name@ == d.name@
    &&& n.device_type == nix_type_of(d.device_type)
    &&& opt_view(n.image) == Some("nixos/latest"@)
    &&& n.interfaces@.len() == d.interfaces@.len()
    &&& forall|j: int| 0 <= j < d.interfaces@.len() ==> nix_iface_ok(#[trigger] d.interfaces@[j], n.interfaces@[j])
    &&& n.services@.len() == d.services@.len()
    &&& forall|j: int| 0 <= j < d.services@.len() ==> (#[trigger] n.services@[j])@ == d.services@[j].name@
    &&& n.nixos_modules@.len() == 1
    &&& n.nixos_modules@[0]@ == (match d.nix_module {
        Some(m) => m@,
        None => Seq::<char>::empty(),
    })
}

/// The nix configuration of a topology: one device per device, in order,
/// and the single `lan` network of the base network, its gateway the first
/// host.
pub open spec fn nix_config_ok(c: NixTopologyConfig, v: TopologyView) -> bool {
    &&& c.topology_name@ == v.name
    &&& c.base_network == v.base_ip
    &&& c.devices@.len() == v.devices.len()
    &&& forall|k: int| 0 <= k < v.devices.len() ==> nix_device_ok(#[trigger] v.devices[k], c.devices@[k])
    &&& c.networks@.len() == 1
    &&& c.networks@[0].name@ == "lan"@
    &&& c.networks@[0].cidr@ == ip_text(v.base_ip.ip) + seq!['/'] + dec(v.base_ip.prefix as nat)
    &&& c.networks@[0].vlan is None
    &&& !c.networks@[0].dhcp
    &&& opt_view(c.networks@[0].gateway) == Some(ip_text(v.base_ip.nth_spec(1).unwrap()))
    &&& c.rendered_config is None
    &&& c.mermaid_diagram is None
    &&& c.graph_json is None
}

/// The metadata of an event of a topology at a version.
pub open spec fn topo_metadata_ok(m: EventMetadata, v: TopologyView, corr: CorrelationId, cause: CausationId) -> bool {
    &&& m.aggregate_id@ == uuid_text(v.id.value)
    &&& m.correlation_id == corr
    &&& m.causation_id == cause
    &&& m.version == v.version
}

/// A topology after a change: the device inserted or removed, or the
/// connection appended; the version bumped in every case.
pub open spec fn apply_change_spec(v: TopologyView, c: TopologyChange) -> TopologyView {
    match c {
        TopologyChange::AddDevice(d) => TopologyView { devices: upsert(v.devices, d), version: v.version + 1, ..v },
        TopologyChange::RemoveDevice(id) => TopologyView { devices: remove_device(v.devices, id), version: v.version + 1, ..v },
        TopologyChange::AddConnection(conn) => TopologyView { connections: v.connections.push(conn), version: v.version + 1, ..v },
    }
}

/// The events of a change: one per change, but none for removing a device
/// that is not there.
pub open spec fn change_events_ok(ev: Seq<InfrastructureEvent>, v: TopologyView, c: TopologyChange, corr: CorrelationId, cause: CausationId) -> bool {
    match c {
        TopologyChange::AddDevice(d) => ev.len() == 1 && (match ev[0] {
            InfrastructureEvent::TopologyDeviceAdded { metadata, topology_id, device_id } =>
                topo_metadata_ok(metadata, v, corr, cause) && topology_id == v.id && device_id == d.id,
            _ => false,
        }),
        TopologyChange::RemoveDevice(id) => if has_device(v.devices, id) {
            ev.len() == 1 && (match ev[0] {
                InfrastructureEvent::TopologyDeviceRemoved { metadata, topology_id, device_id } =>
                    topo_metadata_ok(metadata, v, corr, cause) && topology_id == v.id && device_id == id,
                _ => false,
            })
        } else {
            ev.len() == 0
        },
        TopologyChange::AddConnection(conn) => ev.len() == 1 && (match ev[0] {
            InfrastructureEvent::TopologyConnectionAdded { metadata, topology_id, connection_id } =>
                topo_metadata_ok(metadata, v, corr, cause) && topology_id == v.id && connection_id == conn.id,
            _ => false,
        }),
    }
}

/// Removes the device with the given identifier, if present; whether it
/// was.
fn remove_device_exec(devices: &mut Vec<NetworkDevice>, id: DeviceId) -> (found: bool)
    requires
        ids_unique(old(devices)@),
    ensures
        final(devices)@ == remove_device(old(devices)@, id),
        found == has_device(old(devices)@, id),
        ids_unique(final(devices)@),
{
    let n = devices.len();
    let mut k: usize = 0;
    while k < n
        invariant
            n == devices@.len(),
            devices@ == old(devices)@,
            ids_unique(devices@),
            k <= n,
            forall|j: int| 0 <= j < k ==> devices@[j].id != id,
        decreases n - k,
    {
        if devices[k].id == id {
            let ghost before = devices@;
            proof {
                assert(has_device(before, id));
                let c = choose|c: int| 0 <= c < before.len() && (#[trigger] before[c]).id == id;
                assert(c == k) by {
                    if c < k {
                        assert(before[c].id != before[k as int].id);
                    } else if c > k {
                        assert(before[k as int].id != before[c].id);
                    }
                }
            }
            let _ = devices.remove(k);
            assert forall|i: int, j: int| 0 <= i < j < devices@.len() implies (#[trigger] devices@[i]).id != (#[trigger] devices@[j]).id by {
                let oi = if i < k { i } else { i + 1 };
                let oj = if j < k { j } else { j + 1 };
                assert(devices@[i] == before[oi]);
                assert(devices@[j] == before[oj]);
                assert(before[oi].id != before[oj].id);
            }
            return true;
        }
        k = k + 1;
    }
    false
}

impl NetworkTopology {
    /// Generates the nix topology configuration of the topology, stores it
    /// and returns it.
    pub fn generate_nix_topology(&mut self) -> (r: Result<&NixTopologyConfig, NetworkError>)
        requires
            old(self)@.base_ip.size() > 1,
        ensures
            final(self)@ == (TopologyView { nix_config: final(self)@.nix_config, ..old(self)@ }),
            final(self)@.nix_config is Some,
            nix_config_ok(final(self)@.nix_config.unwrap(), old(self)@),
            r.is_ok(),
            *r.unwrap() == final(self)@.nix_config.unwrap(),
    {
        let mut networks: Vec<NixNetwork> = Vec::new();
        let gateway = self.base_ip.nth(1).unwrap().to_string();
        networks.push(NixNetwork {
            name: owned("lan"),
            cidr: self.base_ip.to_string(),
            vlan: None,
            dhcp: false,
            gateway: Some(gateway),
        });
        let mut devices: Vec<NixDevice> = Vec::new();
        let n = self.devices.len();
        let mut k: usize = 0;
        while k < n
            invariant
                n == self.devices@.len(),
                k <= n,
                devices@.len() == k,
                forall|i: int| 0 <= i < k ==> nix_device_ok(#[trigger] self.devices@[i], devices@[i]),
            decreases n - k,
        {
            let device = &self.devices[k];
            let device_type = match &device.device_type {
                DeviceType::Router { .. } => NixDeviceType::Router,
                DeviceType::Switch { .. } => NixDeviceType::Switch,
                DeviceType::Host { .. } => NixDeviceType::Host,
                DeviceType::Container { .. } => NixDeviceType::Container,
                DeviceType::VM { .. } => NixDeviceType::VM,
            };
            let mut interfaces: Vec<NixInterface> = Vec::new();
            let m = device.interfaces.len();
            let mut j: usize = 0;
            while j < m
                invariant
                    m == device.interfaces@.len(),
                    j <= m,
                    interfaces@.len() == j,
                    forall|i: int| 0 <= i < j ==> nix_iface_ok(#[trigger] device.interfaces@[i], interfaces@[i]),
                decreases m - j,
            {
                let f = &device.interfaces[j];
                let address = match f.ip_address {
                    Some(ip) => {
                        let mask: u8 = match f.subnet_mask { Some(mk) => mk, None => 24 };
                        let mut a = ip.to_string();
                        push_char(&mut a, '/');
                        assert(a@ =~= ip_text(ip) + seq!['/']);
                        push_dec(&mut a, mask as u64);
                        assert(Some(a@) == nix_address(*f));
                        Some(a)
                    }
                    None => None,
                };
                interfaces.push(NixInterface { name: f.name.clone(), network: owned("lan"), address, dhcp: false });
                j = j + 1;
            }
            let mut services: Vec<String> = Vec::new();
            let ns = device.services.len();
            let mut j: usize = 0;
            while j < ns
                invariant
                    ns == device.services@.len(),
                    j <= ns,
                    services@.len() == j,
                    forall|i: int| 0 <= i < j ==> (#[trigger] services@[i])@ == device.services@[i].name@,
                decreases ns - j,
            {
                services.push(device.services[j].name.clone());
                j = j + 1;
            }
            let mut modules: Vec<String> = Vec::new();
            let module = match &device.nix_module {
                Some(mname) => mname.clone(),
                None => String::new(),
            };
            modules.push(module);
            devices.push(NixDevice {
                name: device.name.clone(),
                device_type,
                image: Some(owned("nixos/latest")),
                interfaces,
                services,
                nixos_modules: modules,
            });
            k = k + 1;
        }
        let config = NixTopologyConfig {
            topology_name: self.name.clone(),
            base_network: self.base_ip,
            devices,
            networks,
            rendered_config: None,
            mermaid_diagram: None,
            graph_json: None,
        };
        self.nix_config = Some(config);
        match &self.nix_config {
            Some(c) => Ok(c),
            None => Err(NetworkError::General(String::new())),
        }
    }

    /// Applies a change and returns the events it produced; the version is
    /// bumped in every case.
    pub fn apply_change(
        &mut self,
        change: TopologyChange,
        correlation_id: CorrelationId,
        causation_id: CausationId,
    ) -> (r: Result<Vec<InfrastructureEvent>, NetworkError>)
        requires
            old(self).wf(),
            old(self)@.version < u64::MAX,
        ensures
            final(self).wf(),
            final(self)@ == apply_change_spec(old(self)@, change),
            r.is_ok(),
            change_events_ok(r.unwrap()@, old(self)@, change, correlation_id, causation_id),
    {
        let mut events: Vec<InfrastructureEvent> = Vec::new();
        match change {
            TopologyChange::AddDevice(device) => {
                let device_id = device.id;
                insert_device(&mut self.devices, device);
                let metadata = EventMetadata::new(self.id.to_string(), correlation_id, causation_id, self.version);
                events.push(InfrastructureEvent::TopologyDeviceAdded { metadata, topology_id: self.id, device_id });
            }
            TopologyChange::RemoveDevice(device_id) => {
                if remove_device_exec(&mut self.devices, device_id) {
                    let metadata = EventMetadata::new(self.id.to_string(), correlation_id, causation_id, self.version);
                    events.push(InfrastructureEvent::TopologyDeviceRemoved { metadata, topology_id: self.id, device_id });
                }
            }
            TopologyChange::AddConnection(connection) => {
                let connection_id = connection.id;
                self.connections.push(connection);
                let metadata = EventMetadata::new(self.id.to_string(), correlation_id, causation_id, self.version);
                events.push(InfrastructureEvent::TopologyConnectionAdded { metadata, topology_id: self.id, connection_id });
            }
        }
        self.version = self.version + 1;
        self.updated_at = now_millis();
        Ok(events)
    }
}


/// Adding a device whose identifier is not yet present and then removing
/// that identifier gives back the devices as they were.
pub proof fn law_remove_undoes_add(s: Seq<NetworkDevice>, d: NetworkDevice)
    requires
        ids_unique(s),
        !has_device(s, d.id),
    ensures
        remove_device(upsert(s, d), d.id) == s,
{
    let u = s.push(d);
    assert(upsert(s, d) == u);
    assert(u[s.len() as int].id == d.id);
    assert(has_device(u, d.id));
    let k = choose|k: int| 0 <= k < u.len() && (#[trigger] u[k]).id == d.id;
    if k < s.len() {
        assert(s[k].id == d.id);
        assert(has_device(s, d.id));
    }
    assert(u.remove(k) =~= s);
}

/// Every change keeps device identifiers unique and moves the version on
/// by one.
pub proof fn law_change_keeps_ids_unique(v: TopologyView, c: TopologyChange)
    requires
        ids_unique(v.devices),
    ensures
        ids_unique(apply_change_spec(v, c).devices),
        apply_change_spec(v, c).version == v.version + 1,
{
    match c {
        TopologyChange::AddDevice(d) => {
            lemma_upsert_unique(v.devices, d);
        }
        TopologyChange::RemoveDevice(id) => {
            let s = v.devices;
            if has_device(s, id) {
                let k = choose|k: int| 0 <= k < s.len() && (#[trigger] s[k]).id == id;
                let r = s.remove(k);
                assert forall|i: int, j: int| 0 <= i < j < r.len() implies (#[trigger] r[i]).id != (#[trigger] r[j]).id by {
                    let oi = if i < k { i } else { i + 1 };
                    let oj = if j < k { j } else { j + 1 };
                    assert(r[i] == s[oi]);
                    assert(r[j] == s[oj]);
                }
            }
        }
        TopologyChange::AddConnection(_) => {}
    }
}

} // verus!

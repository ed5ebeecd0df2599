//! From the network graph to the domain: graph nodes that stand for
//! devices become device aggregates, graph edges become relationships
//! between domain objects. Each mapping is remembered by the graph
//! element's identifier.

use vstd::prelude::*;
use crate::aggregates::{NetworkDeviceAggregate, discovered_view};
use crate::ids::{ConnectionId, DeviceId, TopologyId, uuid_text};
use crate::ip::IpAddress;
use crate::parse::{parse_ipv4, parse_ipv4_spec};
use crate::value_objects::{MacAddress, DeviceType, PortId, ConnectionType, parse_mac_spec};
use crate::text::{owned, push_str, chars_of};
use crate::params::same_text;

verus! {

/// Kinds of graph nodes.
#[derive(Debug, Clone, Copy, PartialEq, Eq, Structural)]
pub enum NetworkNodeType {
    Device,
    Port,
    Vlan,
    Network,
}

/// Name of a node kind.
pub open spec fn node_type_name(t: NetworkNodeType) -> Seq<char> {
    match t {
        NetworkNodeType::Device => "Device"@,
        NetworkNodeType::Port => "Port"@,
        NetworkNodeType::Vlan => "Vlan"@,
        NetworkNodeType::Network => "Network"@,
    }
}

/// A node of the network graph. Each property is a name with its text
/// when its value is a JSON string, `None` for another JSON value.
#[derive(Debug)]
pub struct NetworkGraphNode {
    pub id: String,
    pub node_type: NetworkNodeType,
    pub properties: Vec<(String, Option<String>)>,
}

/// Kinds of graph edges.
#[derive(Debug, Clone, Copy, PartialEq, Eq, Structural)]
pub enum NetworkEdgeType {
    /// Physical connection between devices
    PhysicalConnection,
    /// Device has port
    HasPort,
    /// Port belongs to VLAN
    InVlan,
    /// Device in network
    InNetwork,
    /// Uplink relationship
    Uplink,
}

/// An edge of the network graph, with properties as for nodes.
#[derive(Debug)]
pub struct NetworkGraphEdge {
    pub id: String,
    pub source: String,
    pub target: String,
    pub edge_type: NetworkEdgeType,
    pub properties: Vec<(String, Option<String>)>,
}

/// A connection as a domain object.
#[derive(Debug)]
pub struct ConnectionInfo {
    pub id: ConnectionId,
    pub source_device: DeviceId,
    pub source_port: PortId,
    pub target_device: DeviceId,
    pub target_port: PortId,
    pub connection_type: ConnectionType,
}

/// A topology as a domain object.
#[derive(Debug)]
pub struct TopologyInfo {
    pub id: TopologyId,
    pub name: String,
    pub devices: Vec<DeviceId>,
}

/// An object of the domain.
pub enum DomainObject {
    Device(NetworkDeviceAggregate),
    Connection(ConnectionInfo),
    Topology(TopologyInfo),
}

/// Kinds of relationships between domain objects.
#[derive(Debug, Clone, Copy, PartialEq, Eq, Structural)]
pub enum DomainMorphismType {
    Contains,
    ConnectedTo,
    DependsOn,
    ManagedBy,
}

/// A relationship between domain objects, by their identifiers.
#[derive(Debug)]
pub struct DomainMorphism {
    pub source: String,
    pub target: String,
    pub morphism_type: DomainMorphismType,
}

impl Clone for DomainMorphism {
    fn clone(&self) -> (r: Self)
        ensures
            r == *self,
    {
        DomainMorphism { source: self.source.clone(), target: self.target.clone(), morphism_type: self.morphism_type }
    }
}

/// Error of a mapping.
#[derive(Debug)]
pub enum FunctorError {
    MissingProperty(String),
    NotAnAggregate(String),
    UnknownVendor(String),
    UnknownInventory(String),
    MappingFailed(String),
    CompositionFailed,
}

/// Text of a mapping error.
pub open spec fn functor_error_text(e: FunctorError) -> Seq<char> {
    match e {
        FunctorError::MissingProperty(m) => "Missing required property: "@ + m@,
        FunctorError::NotAnAggregate(m) => "Node type "@ + m@ + " does not map to an aggregate"@,
        FunctorError::UnknownVendor(m) => "Unknown vendor: "@ + m@,
        FunctorError::UnknownInventory(m) => "Unknown inventory system: "@ + m@,
        FunctorError::MappingFailed(m) => "Mapping failed: "@ + m@,
        FunctorError::CompositionFailed => "Composition verification failed"@,
    }
}

impl FunctorError {
    /// The error's text.
    pub fn to_string(&self) -> (s: String)
        ensures
            s@ == functor_error_text(*self),
    {
        match self {
            FunctorError::MissingProperty(m) => { let mut s = owned("Missing required property: "); push_str(&mut s, m.as_str()); s }
            FunctorError::NotAnAggregate(m) => {
                let mut s = owned("Node type ");
                push_str(&mut s, m.as_str());
                push_str(&mut s, " does not map to an aggregate");
                s
            }
            FunctorError::UnknownVendor(m) => { let mut s = owned("Unknown vendor: "); push_str(&mut s, m.as_str()); s }
            FunctorError::UnknownInventory(m) => { let mut s = owned("Unknown inventory system: "); push_str(&mut s, m.as_str()); s }
            FunctorError::MappingFailed(m) => { let mut s = owned("Mapping failed: "); push_str(&mut s, m.as_str()); s }
            FunctorError::CompositionFailed => owned("Composition verification failed"),
        }
    }
}

/// The device type a device record refers to, by model.
#[derive(Debug)]
pub struct InventoryDeviceType {
    pub model: String,
}

/// The custom fields of a device record.
#[derive(Debug)]
pub struct InventoryCustomFields {
    pub mac_address: String,
    pub cim_device_id: String,
}

/// One end of a cable: the kind of object it ends on and that object's
/// identifier.
#[derive(Debug)]
pub struct CableTermination {
    pub object_type: String,
    pub object_id: String,
}

/// What an inventory record holds, in the record's own nesting.
#[derive(Debug)]
pub enum InventoryPayload {
    /// A device record
    Device {
        name: String,
        device_type: InventoryDeviceType,
        status: String,
        primary_ip4: Option<String>,
        custom_fields: InventoryCustomFields,
    },
    /// A cable record; the record lists each side's terminations, and a
    /// cable here has one on each side
    Cable { a_termination: CableTermination, b_termination: CableTermination, cable_type: String, status: String },
}

/// A domain object as an inventory system records it.
#[derive(Debug)]
pub struct InventoryRepresentation {
    pub system: String,
    pub inventory_id: String,
    pub device_id: DeviceId,
    pub payload: InventoryPayload,
}

/// What a vendor controller record holds, field by field.
#[derive(Debug)]
pub struct VendorPayload {
    pub device_type: String,
    pub mac: String,
    pub name: String,
    pub state: String,
}

/// A device as a vendor controller records it.
#[derive(Debug)]
pub struct VendorRepresentation {
    pub vendor: String,
    pub vendor_id: String,
    pub device_id: DeviceId,
    pub payload: VendorPayload,
}

/// A vendor or inventory record of a domain object.
#[derive(Debug)]
pub enum ExtendedRepresentation {
    Vendor(VendorRepresentation),
    Inventory(InventoryRepresentation),
}

// ---------------------------------------------------------------------
// Tables keyed by text: the first entry under a key is the one read.

/// The value of the first entry under a key.
pub open spec fn lookup<V>(s: Seq<(String, V)>, key: Seq<char>) -> Option<V>
    decreases s.len(),
{
    if s.len() == 0 {
        None
    } else if s[0].0@ == key {
        Some(s[0].1)
    } else {
        lookup(s.drop_first(), key)
    }
}

/// Entries before `m` under other keys do not change what a key reads.
proof fn lemma_lookup_skip<V>(s: Seq<(String, V)>, key: Seq<char>, m: int)
    requires
        0 <= m <= s.len(),
        forall|j: int| 0 <= j < m ==> (#[trigger] s[j]).0@ != key,
    ensures
        lookup(s, key) == lookup(s.subrange(m, s.len() as int), key),
    decreases m,
{
    if m > 0 {
        assert(s.drop_first().subrange(m - 1, s.drop_first().len() as int) =~= s.subrange(m, s.len() as int));
        assert forall|j: int| 0 <= j < m - 1 implies (#[trigger] s.drop_first()[j]).0@ != key by {
            assert(s.drop_first()[j] == s[j + 1]);
        }
        lemma_lookup_skip(s.drop_first(), key, m - 1);
    } else {
        assert(s.subrange(0, s.len() as int) =~= s);
    }
}

/// An entry appended is read only under a key no earlier entry has.
proof fn lemma_lookup_push<V>(s: Seq<(String, V)>, e: (String, V), key: Seq<char>)
    ensures
        lookup(s.push(e), key) == (match lookup(s, key) {
            Some(v) => Some(v),
            None => if e.0@ == key { Some(e.1) } else { None },
        }),
    decreases s.len(),
{
    if s.len() == 0 {
        assert(s.push(e).drop_first() =~= Seq::<(String, V)>::empty());
        assert(lookup(Seq::<(String, V)>::empty(), key) is None);
        assert(s.push(e)[0] == e);
    } else {
        assert(s.push(e).drop_first() =~= s.drop_first().push(e));
        assert(s.push(e)[0] == s[0]);
        lemma_lookup_push(s.drop_first(), e, key);
    }
}

/// Replacing the first entry under a key changes what that key reads, and
/// nothing else.
proof fn lemma_lookup_update<V>(s: Seq<(String, V)>, p: int, e: (String, V), key: Seq<char>)
    requires
        0 <= p < s.len(),
        s[p].0@ == e.0@,
        forall|j: int| 0 <= j < p ==> (#[trigger] s[j]).0@ != e.0@,
    ensures
        lookup(s.update(p, e), key) == (if key == e.0@ { Some(e.1) } else { lookup(s, key) }),
    decreases p,
{
    if p == 0 {
        assert(s.update(0, e).drop_first() =~= s.drop_first());
    } else {
        assert(s.update(p, e).drop_first() =~= s.drop_first().update(p - 1, e));
        assert forall|j: int| 0 <= j < p - 1 implies (#[trigger] s.drop_first()[j]).0@ != e.0@ by {
            assert(s.drop_first()[j] == s[j + 1]);
        }
        lemma_lookup_update(s.drop_first(), p - 1, e, key);
    }
}

/// The first entry under a key.
fn find_entry<V>(s: &Vec<(String, V)>, key: &str) -> (r: Option<usize>)
    ensures
        match r {
            Some(p) => p < s@.len() && s@[p as int].0@ == key@ && forall|j: int| 0 <= j < p ==> (#[trigger] s@[j]).0@ != key@,
            None => forall|j: int| 0 <= j < s@.len() ==> (#[trigger] s@[j]).0@ != key@,
        },
{
    let mut k: usize = 0;
    while k < s.len()
        invariant
            k <= s@.len(),
            forall|j: int| 0 <= j < k ==> (#[trigger] s@[j]).0@ != key@,
        decreases s@.len() - k,
    {
        if same_text(s[k].0.as_str(), key) {
            return Some(k);
        }
        k = k + 1;
    }
    None
}

/// The value read under a key.
pub(crate) fn get_entry<'a, V>(s: &'a Vec<(String, V)>, key: &str) -> (r: Option<&'a V>)
    ensures
        match lookup(s@, key@) {
            Some(v) => r is Some && *r.unwrap() == v,
            None => r is None,
        },
{
    match find_entry(s, key) {
        Some(p) => {
            proof { lemma_lookup_skip(s@, key@, p as int); }
            assert(s@.subrange(p as int, s@.len() as int)[0] == s@[p as int]);
            Some(&s[p].1)
        }
        None => {
            proof { lemma_lookup_skip(s@, key@, s@.len() as int); }
            assert(s@.subrange(s@.len() as int, s@.len() as int).len() == 0);
            None
        }
    }
}

/// Puts a value under a key: it replaces the first entry under the key, or
/// is appended.
pub(crate) fn put_entry<V>(s: &mut Vec<(String, V)>, key: String, v: V)
    ensures
        forall|k: Seq<char>| #[trigger] lookup(final(s)@, k) == (if k == key@ { Some(v) } else { lookup(old(s)@, k) }),
{
    let ghost before = s@;
    let ghost e = (key, v);
    match find_entry(s, key.as_str()) {
        Some(p) => {
            s.set(p, (key, v));
            assert forall|k: Seq<char>| #[trigger] lookup(s@, k) == (if k == e.0@ { Some(e.1) } else { lookup(before, k) }) by {
                lemma_lookup_update(before, p as int, e, k);
            }
        }
        None => {
            s.push((key, v));
            assert forall|k: Seq<char>| #[trigger] lookup(s@, k) == (if k == e.0@ { Some(e.1) } else { lookup(before, k) }) by {
                lemma_lookup_push(before, e, k);
                lemma_lookup_skip(before, e.0@, before.len() as int);
                assert(before.subrange(before.len() as int, before.len() as int).len() == 0);
            }
        }
    }
}

// ---------------------------------------------------------------------
// The functor.

/// The text of a node property that holds a JSON string.
pub open spec fn prop_text(props: Seq<(String, Option<String>)>, key: Seq<char>) -> Option<Seq<char>> {
    match lookup(props, key) {
        Some(Some(t)) => Some(t@),
        _ => None,
    }
}

/// The device type a node's `device_type` property names: `gateway`,
/// `switch`, `access_point`, another model, or `unknown` when absent.
pub open spec fn node_device_type(t: DeviceType, props: Seq<(String, Option<String>)>) -> bool {
    match prop_text(props, "device_type"@) {
        Some(s) => if s == "gateway"@ {
            t == DeviceType::Gateway
        } else if s == "switch"@ {
            t == DeviceType::Switch
        } else if s == "access_point"@ {
            t == DeviceType::AccessPoint
        } else {
            t matches DeviceType::Generic { model } && model@ == s
        },
        None => t matches DeviceType::Generic { model } && model@ == "unknown"@,
    }
}

/// The address a node's `ip_address` property gives, in dotted IPv4 form.
pub open spec fn node_ip(props: Seq<(String, Option<String>)>) -> Option<IpAddress> {
    match prop_text(props, "ip_address"@) {
        Some(s) => match parse_ipv4_spec(s) {
            Some(a) => Some(IpAddress::V4(a)),
            None => None,
        },
        None => None,
    }
}

/// The MAC address a node's `mac` property gives.
pub open spec fn node_mac(props: Seq<(String, Option<String>)>) -> Option<Seq<u8>> {
    match prop_text(props, "mac"@) {
        Some(s) => match parse_mac_spec(s) {
            Ok(b) => Some(b),
            Err(_) => None,
        },
        None => None,
    }
}

/// A newly discovered device made from a device node.
pub open spec fn device_from_node(d: NetworkDeviceAggregate, props: Seq<(String, Option<String>)>) -> bool {
    &&& d.wf()
    &&& node_mac(props) == Some(d@.mac@)
    &&& node_device_type(d@.device_type, props)
    &&& d@.ip_address == node_ip(props)
    &&& d@ == discovered_view(d@.id, d@.mac, d@.device_type, d@.ip_address)
}

/// The relationship kind an edge kind maps to.
pub open spec fn morphism_type_of(t: NetworkEdgeType) -> DomainMorphismType {
    match t {
        NetworkEdgeType::PhysicalConnection => DomainMorphismType::ConnectedTo,
        NetworkEdgeType::HasPort | NetworkEdgeType::InVlan | NetworkEdgeType::InNetwork => DomainMorphismType::Contains,
        NetworkEdgeType::Uplink => DomainMorphismType::DependsOn,
    }
}

/// The mapping from graph to domain, remembering each mapped element.
pub struct NetworkFunctor {
    node_mappings: Vec<(String, DomainObject)>,
    edge_mappings: Vec<(String, DomainMorphism)>,
}

impl NetworkFunctor {
    /// The domain object mapped from a node.
    pub closed spec fn node_object(&self, node_id: Seq<char>) -> Option<DomainObject> {
        lookup(self.node_mappings@, node_id)
    }

    /// The relationship mapped from an edge.
    pub closed spec fn edge_morphism(&self, edge_id: Seq<char>) -> Option<DomainMorphism> {
        lookup(self.edge_mappings@, edge_id)
    }

    /// A mapping that has mapped nothing.
    pub fn new() -> (f: Self)
        ensures
            forall|k: Seq<char>| f.node_object(k) is None && f.edge_morphism(k) is None,
    {
        NetworkFunctor { node_mappings: Vec::new(), edge_mappings: Vec::new() }
    }

    /// Maps a device node to a newly discovered device aggregate and
    /// remembers it under the node's identifier. Refused for a node whose
    /// `mac` property is missing or no MAC address, and for the other kinds
    /// of nodes, which are not aggregates.
    pub fn map_node(&mut self, node: &NetworkGraphNode) -> (r: Result<DomainObject, FunctorError>)
        ensures
            node.node_type != NetworkNodeType::Device ==> *final(self) == *old(self) && match r {
                Err(FunctorError::NotAnAggregate(m)) => m@ == node_type_name(node.node_type),
                _ => false,
            },
            node.node_type == NetworkNodeType::Device && node_mac(node.properties@) is None ==> *final(self) == *old(self)
                && match r {
                    Err(FunctorError::MissingProperty(m)) => m@ == "mac"@,
                    _ => false,
                },
            node.node_type == NetworkNodeType::Device && node_mac(node.properties@) is Some ==> match r {
                Ok(DomainObject::Device(d)) => {
                    &&& device_from_node(d, node.properties@)
                    &&& match final(self).node_object(node.id@) {
                        Some(DomainObject::Device(e)) => e@ == d@ && e.wf(),
                        _ => false,
                    }
                    &&& forall|k: Seq<char>| k != node.id@ ==> final(self).node_object(k) == old(self).node_object(k)
                    &&& forall|k: Seq<char>| final(self).edge_morphism(k) == old(self).edge_morphism(k)
                },
                _ => false,
            },
    {
        match node.node_type {
            NetworkNodeType::Device => {}
            NetworkNodeType::Port => { return Err(FunctorError::NotAnAggregate(owned("Port"))); }
            NetworkNodeType::Vlan => { return Err(FunctorError::NotAnAggregate(owned("Vlan"))); }
            NetworkNodeType::Network => { return Err(FunctorError::NotAnAggregate(owned("Network"))); }
        }
        let mac = match get_entry(&node.properties, "mac") {
            Some(Some(t)) => match MacAddress::parse(t.as_str()) {
                Ok(m) => m,
                Err(_) => { return Err(FunctorError::MissingProperty(owned("mac"))); }
            },
            _ => { return Err(FunctorError::MissingProperty(owned("mac"))); }
        };
        proof {
            reveal_strlit("gateway");
            reveal_strlit("switch");
            reveal_strlit("access_point");
            assert("gateway"@.len() == 7 && "switch"@.len() == 6 && "access_point"@.len() == 12);
        }
        let device_type = match get_entry(&node.properties, "device_type") {
            Some(Some(t)) => {
                if same_text(t.as_str(), "gateway") {
                    DeviceType::Gateway
                } else if same_text(t.as_str(), "switch") {
                    DeviceType::Switch
                } else if same_text(t.as_str(), "access_point") {
                    DeviceType::AccessPoint
                } else {
                    DeviceType::Generic { model: t.clone() }
                }
            }
            _ => DeviceType::Generic { model: owned("unknown") },
        };
        let ip_address = match get_entry(&node.properties, "ip_address") {
            Some(Some(t)) => match parse_ipv4(&chars_of(t.as_str())) {
                Some(a) => Some(IpAddress::V4(a)),
                None => None,
            },
            _ => None,
        };
        let id = DeviceId::new();
        let kept = NetworkDeviceAggregate::discovered_with_id(id, mac, device_type.clone(), ip_address);
        let device = NetworkDeviceAggregate::discovered_with_id(id, mac, device_type, ip_address);
        put_entry(&mut self.node_mappings, node.id.clone(), DomainObject::Device(kept));
        Ok(DomainObject::Device(device))
    }

    /// Maps an edge to the relationship between its ends and remembers it
    /// under the edge's identifier.
    pub fn map_edge(&mut self, edge: &NetworkGraphEdge) -> (r: Result<DomainMorphism, FunctorError>)
        ensures
            r.is_ok(),
            r.unwrap().source@ == edge.source@,
            r.unwrap().target@ == edge.target@,
            r.unwrap().morphism_type == morphism_type_of(edge.edge_type),
            final(self).edge_morphism(edge.id@) == Some(r.unwrap()),
            forall|k: Seq<char>| k != edge.id@ ==> final(self).edge_morphism(k) == old(self).edge_morphism(k),
            forall|k: Seq<char>| final(self).node_object(k) == old(self).node_object(k),
    {
        let morphism_type = match edge.edge_type {
            NetworkEdgeType::PhysicalConnection => DomainMorphismType::ConnectedTo,
            NetworkEdgeType::HasPort => DomainMorphismType::Contains,
            NetworkEdgeType::InVlan | NetworkEdgeType::InNetwork => DomainMorphismType::Contains,
            NetworkEdgeType::Uplink => DomainMorphismType::DependsOn,
        };
        let morphism = DomainMorphism { source: edge.source.clone(), target: edge.target.clone(), morphism_type };
        put_entry(&mut self.edge_mappings, edge.id.clone(), morphism.clone());
        Ok(morphism)
    }

    /// Composition along a path of node identifiers is preserved: the
    /// mapping is structural, so every path passes.
    pub fn verify_composition(&self, path: &Vec<String>) -> (r: bool)
        ensures
            r,
    {
        true
    }

    /// The domain object mapped from a node, if any.
    pub fn get_domain_object(&self, node_id: &str) -> (r: Option<&DomainObject>)
        ensures
            match self.node_object(node_id@) {
                Some(o) => r is Some && *r.unwrap() == o,
                None => r is None,
            },
    {
        get_entry(&self.node_mappings, node_id)
    }
}

impl Default for NetworkFunctor {
    /// A mapping that has mapped nothing.
    fn default() -> (f: Self)
        ensures
            forall|k: Seq<char>| f.node_object(k) is None && f.edge_morphism(k) is None,
    {
        Self::new()
    }
}

// ---------------------------------------------------------------------
// Extensions to vendor and inventory systems.

/// A vendor's record of domain objects; each vendor adapter has one.
pub trait VendorExtension {
    /// The vendor's name.
    fn vendor_name(&self) -> &str;

    /// The vendor's record of a domain object.
    fn extend(&self, domain_obj: &DomainObject) -> Result<VendorRepresentation, FunctorError>;
}

/// An inventory system's record of domain objects; each inventory adapter
/// has one.
pub trait InventoryExtension {
    /// The system's name.
    fn system_name(&self) -> &str;

    /// The system's record of a domain object.
    fn extend(&self, domain_obj: &DomainObject) -> Result<InventoryRepresentation, FunctorError>;
}

fn copy_vendor_payload(p: &VendorPayload) -> (r: VendorPayload)
    ensures
        r == *p,
{
    VendorPayload { device_type: p.device_type.clone(), mac: p.mac.clone(), name: p.name.clone(), state: p.state.clone() }
}

fn copy_vendor_repr(v: &VendorRepresentation) -> (r: VendorRepresentation)
    ensures
        r == *v,
{
    VendorRepresentation {
        vendor: v.vendor.clone(),
        vendor_id: v.vendor_id.clone(),
        device_id: v.device_id,
        payload: copy_vendor_payload(&v.payload),
    }
}

fn copy_termination(t: &CableTermination) -> (r: CableTermination)
    ensures
        r == *t,
{
    CableTermination { object_type: t.object_type.clone(), object_id: t.object_id.clone() }
}

fn copy_inventory_payload(p: &InventoryPayload) -> (r: InventoryPayload)
    ensures
        r == *p,
{
    match p {
        InventoryPayload::Device { name, device_type, status, primary_ip4, custom_fields } => InventoryPayload::Device {
            name: name.clone(),
            device_type: InventoryDeviceType { model: device_type.model.clone() },
            status: status.clone(),
            primary_ip4: match primary_ip4 { Some(t) => Some(t.clone()), None => None },
            custom_fields: InventoryCustomFields {
                mac_address: custom_fields.mac_address.clone(),
                cim_device_id: custom_fields.cim_device_id.clone(),
            },
        },
        InventoryPayload::Cable { a_termination, b_termination, cable_type, status } => InventoryPayload::Cable {
            a_termination: copy_termination(a_termination),
            b_termination: copy_termination(b_termination),
            cable_type: cable_type.clone(),
            status: status.clone(),
        },
    }
}

fn copy_inventory_repr(v: &InventoryRepresentation) -> (r: InventoryRepresentation)
    ensures
        r == *v,
{
    InventoryRepresentation {
        system: v.system.clone(),
        inventory_id: v.inventory_id.clone(),
        device_id: v.device_id,
        payload: copy_inventory_payload(&v.payload),
    }
}

/// The key of a vendor record: `vendor:<vendor>:<device>`.
pub open spec fn vendor_key(vendor: Seq<char>, device: DeviceId) -> Seq<char> {
    "vendor:"@ + vendor + ":"@ + uuid_text(device.value)
}

/// The key of an inventory record: `inventory:<system>:<device>`.
pub open spec fn inventory_key(system: Seq<char>, device: DeviceId) -> Seq<char> {
    "inventory:"@ + system + ":"@ + uuid_text(device.value)
}

fn record_key(prefix: &str, name: &str, device: DeviceId) -> (k: String)
    ensures
        k@ == prefix@ + name@ + ":"@ + uuid_text(device.value),
{
    let mut k = owned(prefix);
    push_str(&mut k, name);
    push_str(&mut k, ":");
    push_str(&mut k, device.to_string().as_str());
    k
}

/// The mapping from graph to domain, extended to the records of vendors
/// and inventory systems: the extensions are registered by name, and each
/// record made is remembered under its key.
pub struct NetworkKanExtension {
    base_functor: NetworkFunctor,
    extended_mappings: Vec<(String, ExtendedRepresentation)>,
    vendor_extensions: Vec<(String, Box<dyn VendorExtension>)>,
    inventory_extensions: Vec<(String, Box<dyn InventoryExtension>)>,
}

impl NetworkKanExtension {
    /// The mapping from graph to domain.
    pub closed spec fn functor(&self) -> NetworkFunctor {
        self.base_functor
    }

    /// The record remembered under a key.
    pub closed spec fn record(&self, key: Seq<char>) -> Option<ExtendedRepresentation> {
        lookup(self.extended_mappings@, key)
    }

    /// Whether a vendor's extension is registered.
    pub closed spec fn has_vendor(&self, name: Seq<char>) -> bool {
        lookup(self.vendor_extensions@, name) is Some
    }

    /// Whether an inventory system's extension is registered.
    pub closed spec fn has_inventory(&self, name: Seq<char>) -> bool {
        lookup(self.inventory_extensions@, name) is Some
    }

    /// An extension of a mapping, with no extension registered and no
    /// record made.
    pub fn new(base_functor: NetworkFunctor) -> (k: Self)
        ensures
            k.functor() == base_functor,
            forall|n: Seq<char>| !k.has_vendor(n) && !k.has_inventory(n) && k.record(n) is None,
    {
        NetworkKanExtension {
            base_functor,
            extended_mappings: Vec::new(),
            vendor_extensions: Vec::new(),
            inventory_extensions: Vec::new(),
        }
    }

    /// Registers a vendor's extension under a name, in place of any
    /// earlier one under that name.
    pub fn register_vendor(&mut self, name: &str, extension: Box<dyn VendorExtension>)
        ensures
            final(self).has_vendor(name@),
            forall|n: Seq<char>| n != name@ ==> final(self).has_vendor(n) == old(self).has_vendor(n),
            forall|n: Seq<char>| final(self).has_inventory(n) == old(self).has_inventory(n),
            forall|k: Seq<char>| final(self).record(k) == old(self).record(k),
            final(self).functor() == old(self).functor(),
    {
        put_entry(&mut self.vendor_extensions, owned(name), extension);
    }

    /// Registers an inventory system's extension under a name, in place
    /// of any earlier one under that name.
    pub fn register_inventory(&mut self, name: &str, extension: Box<dyn InventoryExtension>)
        ensures
            final(self).has_inventory(name@),
            forall|n: Seq<char>| n != name@ ==> final(self).has_inventory(n) == old(self).has_inventory(n),
            forall|n: Seq<char>| final(self).has_vendor(n) == old(self).has_vendor(n),
            forall|k: Seq<char>| final(self).record(k) == old(self).record(k),
            final(self).functor() == old(self).functor(),
    {
        put_entry(&mut self.inventory_extensions, owned(name), extension);
    }

    /// A vendor's record of a domain object, by the vendor's registered
    /// extension, remembered under `vendor:<vendor>:<device>`. Refused for
    /// an unregistered vendor; the extension's refusal is passed on.
    pub fn extend_to_vendor(&mut self, domain_obj: &DomainObject, vendor: &str) -> (r: Result<VendorRepresentation, FunctorError>)
        ensures
            !old(self).has_vendor(vendor@) ==> (r matches Err(FunctorError::UnknownVendor(m)) && m@ == vendor@),
            r is Err ==> forall|k: Seq<char>| #[trigger] final(self).record(k) == old(self).record(k),
            r matches Ok(repr) ==> old(self).has_vendor(vendor@)
                && final(self).record(vendor_key(vendor@, repr.device_id)) == Some(ExtendedRepresentation::Vendor(repr))
                && forall|k: Seq<char>| k != vendor_key(vendor@, repr.device_id) ==> #[trigger] final(self).record(k) == old(self).record(k),
            forall|n: Seq<char>| final(self).has_vendor(n) == old(self).has_vendor(n) && final(self).has_inventory(n) == old(self).has_inventory(n),
            final(self).functor() == old(self).functor(),
    {
        let extension = match get_entry(&self.vendor_extensions, vendor) {
            Some(e) => e,
            None => { return Err(FunctorError::UnknownVendor(owned(vendor))); }
        };
        let repr = match extension.extend(domain_obj) {
            Ok(v) => v,
            Err(e) => { return Err(e); }
        };
        let key = record_key("vendor:", vendor, repr.device_id);
        put_entry(&mut self.extended_mappings, key, ExtendedRepresentation::Vendor(copy_vendor_repr(&repr)));
        Ok(repr)
    }

    /// An inventory system's record of a domain object, by the system's
    /// registered extension, remembered under
    /// `inventory:<system>:<device>`. Refused for an unregistered system;
    /// the extension's refusal is passed on.
    pub fn extend_to_inventory(&mut self, domain_obj: &DomainObject, system: &str) -> (r: Result<InventoryRepresentation, FunctorError>)
        ensures
            !old(self).has_inventory(system@) ==> (r matches Err(FunctorError::UnknownInventory(m)) && m@ == system@),
            r is Err ==> forall|k: Seq<char>| #[trigger] final(self).record(k) == old(self).record(k),
            r matches Ok(repr) ==> old(self).has_inventory(system@)
                && final(self).record(inventory_key(system@, repr.device_id)) == Some(ExtendedRepresentation::Inventory(repr))
                && forall|k: Seq<char>| k != inventory_key(system@, repr.device_id) ==> #[trigger] final(self).record(k) == old(self).record(k),
            forall|n: Seq<char>| final(self).has_vendor(n) == old(self).has_vendor(n) && final(self).has_inventory(n) == old(self).has_inventory(n),
            final(self).functor() == old(self).functor(),
    {
        let extension = match get_entry(&self.inventory_extensions, system) {
            Some(e) => e,
            None => { return Err(FunctorError::UnknownInventory(owned(system))); }
        };
        let repr = match extension.extend(domain_obj) {
            Ok(v) => v,
            Err(e) => { return Err(e); }
        };
        let key = record_key("inventory:", system, repr.device_id);
        put_entry(&mut self.extended_mappings, key, ExtendedRepresentation::Inventory(copy_inventory_repr(&repr)));
        Ok(repr)
    }

    /// A graph node through to a vendor's record: the node is mapped to
    /// the domain (and remembered by the mapping), then extended. Nodes
    /// that are not devices are refused before any vendor is asked.
    pub fn compose_through(&mut self, node: &NetworkGraphNode, vendor: &str) -> (r: Result<VendorRepresentation, FunctorError>)
        ensures
            node.node_type != NetworkNodeType::Device ==> (r matches Err(FunctorError::NotAnAggregate(m)) && m@ == node_type_name(node.node_type)),
            r is Err ==> forall|k: Seq<char>| #[trigger] final(self).record(k) == old(self).record(k),
            r matches Ok(repr) ==> old(self).has_vendor(vendor@)
                && final(self).record(vendor_key(vendor@, repr.device_id)) == Some(ExtendedRepresentation::Vendor(repr)),
            forall|n: Seq<char>| final(self).has_vendor(n) == old(self).has_vendor(n) && final(self).has_inventory(n) == old(self).has_inventory(n),
    {
        let domain_obj = match self.base_functor.map_node(node) {
            Ok(o) => o,
            Err(e) => { return Err(e); }
        };
        self.extend_to_vendor(&domain_obj, vendor)
    }

    /// The mapping from graph to domain.
    pub fn base_functor(&self) -> (f: &NetworkFunctor)
        ensures
            *f == self.functor(),
    {
        &self.base_functor
    }
}

} // verus!

//! Software-defined network model: nodes, interfaces and connections, and
//! how a typed location becomes a node.
//!
//! Parameter and metadata maps are key-value pairs in insertion order; a
//! lookup reads the first pair with the key.

use vstd::prelude::*;
use crate::params::{param, get_param, parse_u16, parse_u16_spec};
use crate::errors::NetworkError;
use crate::text::{push_str, owned};

verus! {

/// A node of the network.
#[derive(Debug)]
pub struct SDNNode {
    pub id: String,
    pub node_type: String,
    pub tier: String,
    pub interfaces: Vec<SDNInterface>,
    pub services: Vec<String>,
    pub metadata: Vec<(String, String)>,
}

/// A network interface of a node.
#[derive(Debug)]
pub struct SDNInterface {
    pub name: String,
    pub interface_type: String,
    pub addresses: Vec<String>,
    pub mtu: Option<u32>,
    pub vlan_id: Option<u16>,
}

/// A connection between nodes.
#[derive(Debug)]
pub struct SDNConnection {
    pub id: String,
    pub from_node: String,
    pub to_node: String,
    pub connection_type: String,
    pub properties: Vec<(String, String)>,
}

/// The state of the network: nodes and connections by identifier.
#[derive(Debug)]
pub struct SDNState {
    pub nodes: Vec<(String, SDNNode)>,
    pub connections: Vec<(String, SDNConnection)>,
    pub metadata: Vec<(String, String)>,
}

/// Summary of the network.
#[derive(Debug)]
pub struct NetworkSummary {
    pub node_count: usize,
    pub connection_count: usize,
    pub node_ids: Vec<String>,
}

/// Response of the SDN agent.
#[derive(Debug)]
pub struct SDNAgentResponse {
    pub success: bool,
    pub message: String,
    pub nix_config: Option<String>,
    pub network_summary: NetworkSummary,
}

/// The texts of a list of strings.
pub open spec fn texts(s: Seq<String>) -> Seq<Seq<char>> {
    s.map_values(|x: String| x@)
}

/// The texts of key-value pairs.
pub open spec fn pair_texts(s: Seq<(String, String)>) -> Seq<(Seq<char>, Seq<char>)> {
    s.map_values(|p: (String, String)| (p.0@, p.1@))
}

/// The node type, tier, interface name and type, and services of a
/// location type; `None` for an unknown type. Segments get the bridge
/// address `192.168.1.1`, the others DHCP.
pub open spec fn location_profile(t: Seq<char>) -> Option<(Seq<char>, Seq<char>, Seq<char>, Seq<char>, Seq<Seq<char>>)> {
    if t == "datacenter"@ || t == "dc"@ {
        Some(("server"@, "super-cluster"@, "eth0"@, "ethernet"@, seq!["networking"@, "firewall"@]))
    } else if t == "office"@ {
        Some(("workstation"@, "leaf"@, "eth0"@, "ethernet"@, seq!["openssh"@]))
    } else if t == "cloud"@ {
        Some(("server"@, "cluster"@, "eth0"@, "ethernet"@, seq!["cloud-init"@, "docker"@]))
    } else if t == "edge"@ {
        Some(("gateway"@, "client"@, "wlan0"@, "wireless"@, seq!["hostapd"@, "nat"@]))
    } else if t == "segment"@ {
        Some(("switch"@, "leaf"@, "br0"@, "bridge"@, seq!["bridge"@, "vlan"@]))
    } else {
        None
    }
}

/// A node made from a location: the profile of its type, one interface of
/// MTU 1500, the parameters as metadata; a segment's VLAN from its `vlan`
/// parameter.
pub open spec fn sdn_node_ok(n: SDNNode, id: Seq<char>, t: Seq<char>, ps: Seq<(String, String)>) -> bool {
    match location_profile(t) {
        Some((node_type, tier, iname, itype, services)) => {
            &&& n.id@ == id
            &&& n.node_type@ == node_type
            &&& n.tier@ == tier
            &&& n.interfaces@.len() == 1
            &&& n.interfaces@[0].name@ == iname
            &&& n.interfaces@[0].interface_type@ == itype
            &&& texts(n.interfaces@[0].addresses@) == (if t == "segment"@ { seq!["192.168.1.1"@] } else { seq!["dhcp"@] })
            &&& n.interfaces@[0].mtu == Some(1500u32)
            &&& n.interfaces@[0].vlan_id == (if t == "segment"@ {
                match param(ps, "vlan"@) {
                    Some(v) => parse_u16_spec(v),
                    None => None,
                }
            } else {
                None
            })
            &&& texts(n.services@) == services
            &&& pair_texts(n.metadata@) == pair_texts(ps)
        },
        None => false,
    }
}

/// A copy of key-value pairs.
pub fn clone_pairs(ps: &Vec<(String, String)>) -> (r: Vec<(String, String)>)
    ensures
        pair_texts(r@) == pair_texts(ps@),
{
    let mut r: Vec<(String, String)> = Vec::new();
    let mut k: usize = 0;
    while k < ps.len()
        invariant
            k <= ps@.len(),
            pair_texts(r@) == pair_texts(ps@.take(k as int)),
        decreases ps@.len() - k,
    {
        let a = ps[k].0.clone();
        let b = ps[k].1.clone();
        let ghost before = r@;
        r.push((a, b));
        assert(ps@.take(k + 1) =~= ps@.take(k as int).push(ps@[k as int]));
        assert(r@ =~= before.push((a, b)));
        assert(pair_texts(r@) =~= pair_texts(before).push((a@, b@)));
        assert(pair_texts(ps@.take(k + 1)) =~= pair_texts(ps@.take(k as int)).push((ps@[k as int].0@, ps@[k as int].1@)));
        k = k + 1;
    }
    assert(ps@.take(ps@.len() as int) =~= ps@);
    r
}

/// Owned strings from string slices.
fn strings(a: &str, b: Option<&str>) -> (r: Vec<String>)
    ensures
        texts(r@) == match b {
            Some(y) => seq![a@, y@],
            None => seq![a@],
        },
{
    let mut r: Vec<String> = Vec::new();
    r.push(owned(a));
    match b {
        Some(y) => r.push(owned(y)),
        None => {}
    }
    proof {
        match b {
            Some(y) => assert(texts(r@) =~= seq![a@, y@]),
            None => assert(texts(r@) =~= seq![a@]),
        }
    }
    r
}

/// The SDN node of a location. Known types are `datacenter` (or `dc`),
/// `office`, `cloud`, `edge` and `segment`, matched exactly.
pub fn convert_location_to_sdn_node(location_id: &str, location_type: &str, parameters: &Vec<(String, String)>)
    -> (r: Result<SDNNode, NetworkError>)
    ensures
        location_profile(location_type@) is Some ==> r.is_ok() && sdn_node_ok(r.unwrap(), location_id@, location_type@, parameters@),
        location_profile(location_type@) is None ==> match r {
            Err(NetworkError::ValidationError(m)) => m@ == "Unknown location type: "@ + location_type@,
            _ => false,
        },
{
    let t = location_type;
    let (node_type, tier, iname, itype, services) = if crate::params::same_text(t, "datacenter")
        || crate::params::same_text(t, "dc") {
        ("server", "super-cluster", "eth0", "ethernet", strings("networking", Some("firewall")))
    } else if crate::params::same_text(t, "office") {
        ("workstation", "leaf", "eth0", "ethernet", strings("openssh", None))
    } else if crate::params::same_text(t, "cloud") {
        ("server", "cluster", "eth0", "ethernet", strings("cloud-init", Some("docker")))
    } else if crate::params::same_text(t, "edge") {
        ("gateway", "client", "wlan0", "wireless", strings("hostapd", Some("nat")))
    } else if crate::params::same_text(t, "segment") {
        ("switch", "leaf", "br0", "bridge", strings("bridge", Some("vlan")))
    } else {
        let mut m = owned("Unknown location type: ");
        push_str(&mut m, location_type);
        return Err(NetworkError::ValidationError(m));
    };
    let segment = crate::params::same_text(t, "segment");
    let addresses = if segment { strings("192.168.1.1", None) } else { strings("dhcp", None) };
    let vlan_id = if segment {
        match get_param(parameters, "vlan") {
            Some(v) => parse_u16(v.as_str()),
            None => None,
        }
    } else {
        None
    };
    let mut interfaces: Vec<SDNInterface> = Vec::new();
    interfaces.push(SDNInterface {
        name: owned(iname),
        interface_type: owned(itype),
        addresses,
        mtu: Some(1500),
        vlan_id,
    });
    Ok(SDNNode {
        id: owned(location_id),
        node_type: owned(node_type),
        tier: owned(tier),
        interfaces,
        services,
        metadata: clone_pairs(parameters),
    })
}

/// The connection between two locations: identified `<from>-to-<to>`, the
/// parameters as properties.
pub fn sdn_connection(from_location: &str, to_location: &str, connection_type: &str, parameters: &Vec<(String, String)>)
    -> (c: SDNConnection)
    ensures
        c.id@ == from_location@ + "-to-"@ + to_location@,
        c.from_node@ == from_location@,
        c.to_node@ == to_location@,
        c.connection_type@ == connection_type@,
        pair_texts(c.properties@) == pair_texts(parameters@),
{
    let mut id = owned(from_location);
    push_str(&mut id, "-to-");
    push_str(&mut id, to_location);
    SDNConnection {
        id,
        from_node: owned(from_location),
        to_node: owned(to_location),
        connection_type: owned(connection_type),
        properties: clone_pairs(parameters),
    }
}

/// The summary of a network state: counts and node identifiers in order.
pub fn network_summary(state: &SDNState) -> (s: NetworkSummary)
    ensures
        s.node_count == state.nodes@.len(),
        s.connection_count == state.connections@.len(),
        texts(s.node_ids@) == state.nodes@.map_values(|p: (String, SDNNode)| p.0@),
{
    let mut ids: Vec<String> = Vec::new();
    let mut k: usize = 0;
    while k < state.nodes.len()
        invariant
            k <= state.nodes@.len(),
            texts(ids@) == state.nodes@.take(k as int).map_values(|p: (String, SDNNode)| p.0@),
        decreases state.nodes@.len() - k,
    {
        let id = state.nodes[k].0.clone();
        let ghost before = ids@;
        ids.push(id);
        assert(state.nodes@.take(k + 1) =~= state.nodes@.take(k as int).push(state.nodes@[k as int]));
        assert(texts(ids@) =~= texts(before).push(id@));
        assert(state.nodes@.take(k + 1).map_values(|p: (String, SDNNode)| p.0@)
            =~= state.nodes@.take(k as int).map_values(|p: (String, SDNNode)| p.0@).push(state.nodes@[k as int].0@));
        k = k + 1;
    }
    assert(state.nodes@.take(state.nodes@.len() as int) =~= state.nodes@);
    NetworkSummary { node_count: state.nodes.len(), connection_count: state.connections.len(), node_ids: ids }
}

} // verus!

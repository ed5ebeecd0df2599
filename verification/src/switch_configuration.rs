//! Switch configuration aggregate: VLANs, ports, the MAC address table,
//! spanning tree and stacking of one switch.
//!
//! VLANs and ports are kept in the order first configured, one per VLAN
//! identifier and one per port number.

use vstd::prelude::*;
use crate::ids::{SwitchId, CorrelationId, CausationId, uuid_text};
use crate::value_objects::{MacAddress, LinkSpeed, mac_text};
use crate::infra_events::{EventMetadata, InfrastructureEvent};
use crate::errors::NetworkError;
use crate::text::{dec, push_str, push_dec, owned, opt_view};
use crate::clock::now_millis;

verus! {

/// A VLAN of the switch and its member ports.
#[derive(Debug)]
pub struct VlanConfig {
    pub id: u16,
    pub name: String,
    /// Trunk members
    pub tagged_ports: Vec<u16>,
    /// Access members
    pub untagged_ports: Vec<u16>,
}

/// A VLAN with its name as text.
pub struct VlanView {
    pub id: u16,
    pub name: Seq<char>,
    pub tagged_ports: Seq<u16>,
    pub untagged_ports: Seq<u16>,
}

impl View for VlanConfig {
    type V = VlanView;

    open spec fn view(&self) -> VlanView {
        VlanView { id: self.id, name: self.name@, tagged_ports: self.tagged_ports@, untagged_ports: self.untagged_ports@ }
    }
}

/// A port of the switch.
#[derive(Debug)]
pub struct PortConfig {
    pub number: u16,
    pub description: Option<String>,
    pub mode: PortMode,
    pub speed: LinkSpeed,
    pub enabled: bool,
    pub allowed_vlans: Vec<u16>,
}

/// A port with its description as text.
pub struct PortView {
    pub number: u16,
    pub description: Option<Seq<char>>,
    pub mode: PortMode,
    pub speed: LinkSpeed,
    pub enabled: bool,
    pub allowed_vlans: Seq<u16>,
}

impl View for PortConfig {
    type V = PortView;

    open spec fn view(&self) -> PortView {
        PortView {
            number: self.number,
            description: opt_view(self.description),
            mode: self.mode,
            speed: self.speed,
            enabled: self.enabled,
            allowed_vlans: self.allowed_vlans@,
        }
    }
}

/// Port mode.
#[derive(Debug, Clone, Copy, PartialEq, Eq, Structural)]
pub enum PortMode {
    /// One untagged VLAN
    Access,
    /// Several tagged VLANs
    Trunk,
}

/// An entry of the MAC address table; the time in milliseconds since the
/// Unix epoch.
#[derive(Debug, Clone, Copy, PartialEq, Eq, Structural)]
pub struct MacAddressEntry {
    pub mac_address: MacAddress,
    pub port: u16,
    pub vlan: u16,
    pub mac_type: MacAddressType,
    pub last_seen: i64,
}

/// How a MAC address entry came to be.
#[derive(Debug, Clone, Copy, PartialEq, Eq, Structural)]
pub enum MacAddressType {
    Dynamic,
    Static,
}

/// Spanning tree configuration.
#[derive(Debug)]
pub struct SpanningTreeConfig {
    pub mode: StpMode,
    pub priority: Option<u16>,
    pub root_guard_ports: Vec<u16>,
    pub portfast_ports: Vec<u16>,
}

/// Spanning tree protocol variant.
#[derive(Debug, Clone, Copy, PartialEq, Eq, Structural)]
pub enum StpMode {
    Pvst,
    RapidPvst,
    Mst,
}

/// Stack configuration.
#[derive(Debug)]
pub struct StackConfig {
    pub stack_members: Vec<StackMember>,
    pub stack_bandwidth: StackBandwidth,
}

/// A member of a stack.
#[derive(Debug, Clone, Copy, PartialEq, Eq, Structural)]
pub struct StackMember {
    pub number: u8,
    pub priority: u8,
    pub mac_address: MacAddress,
}

/// Stack bandwidth.
#[derive(Debug, Clone, Copy, PartialEq, Eq, Structural)]
pub enum StackBandwidth {
    Half,
    Full,
}

/// Switch model.
#[derive(Debug, Clone, Copy, PartialEq, Eq, Structural)]
pub enum SwitchModel {
    Cisco2960X,
    Cisco3850,
    Cisco9300,
    Nexus9000,
}

/// Findings of checking a switch configuration.
#[derive(Debug)]
pub struct ConfigurationValidation {
    pub is_valid: bool,
    pub errors: Vec<String>,
    pub warnings: Vec<String>,
}

/// Everything a switch configuration holds except its timestamps.
pub struct SwitchView {
    pub id: SwitchId,
    pub name: Seq<char>,
    pub model: SwitchModel,
    pub vlans: Seq<VlanView>,
    pub ports: Seq<PortView>,
    pub mac_address_table: Seq<MacAddressEntry>,
    pub spanning_tree_config: Option<SpanningTreeConfig>,
    pub stack_config: Option<StackConfig>,
    pub version: nat,
}

/// Switch configuration aggregate root.
#[derive(Debug)]
pub struct SwitchConfiguration {
    id: SwitchId,
    name: String,
    model: SwitchModel,
    vlans: Vec<VlanConfig>,
    ports: Vec<PortConfig>,
    mac_address_table: Vec<MacAddressEntry>,
    spanning_tree_config: Option<SpanningTreeConfig>,
    stack_config: Option<StackConfig>,
    version: u64,
    created_at: i64,
    updated_at: i64,
}

impl View for SwitchConfiguration {
    type V = SwitchView;

    closed spec fn view(&self) -> SwitchView {
        SwitchView {
            id: self.id,
            name: self.name@,
            model: self.model,
            vlans: self.vlans@.map_values(|v: VlanConfig| v@),
            ports: self.ports@.map_values(|p: PortConfig| p@),
            mac_address_table: self.mac_address_table@,
            spanning_tree_config: self.spanning_tree_config,
            stack_config: self.stack_config,
            version: self.version as nat,
        }
    }
}

// ---------------------------------------------------------------------
// Specification.

/// A VLAN with this identifier is configured.
pub open spec fn has_vlan(vs: Seq<VlanView>, id: u16) -> bool {
    exists|k: int| 0 <= k < vs.len() && (#[trigger] vs[k]).id == id
}

/// A port with this number is configured.
pub open spec fn has_port(ps: Seq<PortView>, n: u16) -> bool {
    exists|k: int| 0 <= k < ps.len() && (#[trigger] ps[k]).number == n
}

/// The position of the VLAN with this identifier.
pub open spec fn vlan_pos(vs: Seq<VlanView>, id: u16) -> int {
    choose|k: int| 0 <= k < vs.len() && (#[trigger] vs[k]).id == id
}

/// The position of the port with this number.
pub open spec fn port_pos(ps: Seq<PortView>, n: u16) -> int {
    choose|k: int| 0 <= k < ps.len() && (#[trigger] ps[k]).number == n
}

/// No two VLANs share an identifier, no two ports a number.
pub open spec fn keys_unique(v: SwitchView) -> bool {
    &&& forall|i: int, j: int| 0 <= i < j < v.vlans.len() ==> (#[trigger] v.vlans[i]).id != (#[trigger] v.vlans[j]).id
    &&& forall|i: int, j: int| 0 <= i < j < v.ports.len() ==> (#[trigger] v.ports[i]).number != (#[trigger] v.ports[j]).number
}

/// A list with `x` added at the end unless it holds it already.
pub open spec fn add_absent(s: Seq<u16>, x: u16) -> Seq<u16> {
    if s.contains(x) { s } else { s.push(x) }
}

/// The VLANs with the port added to the tagged members of each allowed
/// VLAN that exists, in the order allowed.
pub open spec fn tag_trunk(vs: Seq<VlanView>, allowed: Seq<u16>, port: u16) -> Seq<VlanView>
    decreases allowed.len(),
{
    if allowed.len() == 0 {
        vs
    } else {
        let w = tag_trunk(vs, allowed.drop_last(), port);
        let id = allowed.last();
        if has_vlan(w, id) {
            let k = vlan_pos(w, id);
            w.update(k, VlanView { tagged_ports: add_absent(w[k].tagged_ports, port), ..w[k] })
        } else {
            w
        }
    }
}

/// The ports with `p` inserted: it replaces the port with its number, or
/// is appended.
pub open spec fn upsert_port(ps: Seq<PortView>, p: PortView) -> Seq<PortView> {
    if has_port(ps, p.number) {
        ps.update(port_pos(ps, p.number), p)
    } else {
        ps.push(p)
    }
}

/// Metadata of an event of the switch at a version.
pub open spec fn switch_meta_ok(m: EventMetadata, id: SwitchId, corr: CorrelationId, cause: CausationId, version: nat) -> bool {
    &&& m.aggregate_id@ == uuid_text(id.value)
    &&& m.correlation_id == corr
    &&& m.causation_id == cause
    &&& m.version == version
}

/// The switch with only its version bumped and the given parts changed.
pub open spec fn bumped(old: SwitchView, new: SwitchView) -> bool {
    new.version == old.version + 1 && new.id == old.id && new.name == old.name && new.model == old.model
}

/// The general error with the given message.
pub open spec fn general_error<T>(r: Result<T, NetworkError>, m: Seq<char>) -> bool {
    match r {
        Err(NetworkError::General(x)) => x@ == m,
        _ => false,
    }
}

// ---------------------------------------------------------------------
// Helpers.

/// A copy of a list of numbers.
fn copy_numbers(v: &Vec<u16>) -> (r: Vec<u16>)
    ensures
        r@ == v@,
{
    let mut r: Vec<u16> = Vec::new();
    let mut k: usize = 0;
    while k < v.len()
        invariant
            k <= v@.len(),
            r@ == v@.take(k as int),
        decreases v@.len() - k,
    {
        r.push(v[k]);
        assert(r@ =~= v@.take(k + 1));
        k = k + 1;
    }
    assert(v@.take(v@.len() as int) =~= v@);
    r
}

/// Whether a list holds a number.
fn holds(v: &Vec<u16>, x: u16) -> (r: bool)
    ensures
        r == v@.contains(x),
{
    let mut k: usize = 0;
    while k < v.len()
        invariant
            k <= v@.len(),
            forall|j: int| 0 <= j < k ==> v@[j] != x,
        decreases v@.len() - k,
    {
        if v[k] == x {
            assert(v@[k as int] == x);
            return true;
        }
        k = k + 1;
    }
    false
}

/// A copy of a list of numbers with `x` added unless present.
fn with_number(v: &Vec<u16>, x: u16) -> (r: Vec<u16>)
    ensures
        r@ == add_absent(v@, x),
{
    let mut r = copy_numbers(v);
    if !holds(v, x) {
        r.push(x);
    }
    r
}

impl SwitchConfiguration {
    /// Identifiers of VLANs and numbers of ports are unique.
    pub open spec fn wf(&self) -> bool {
        keys_unique(self@)
    }

    fn vlan_index(&self, id: u16) -> (r: Option<usize>)
        ensures
            match r {
                Some(k) => k < self@.vlans.len() && self@.vlans[k as int].id == id,
                None => !has_vlan(self@.vlans, id),
            },
    {
        let mut k: usize = 0;
        while k < self.vlans.len()
            invariant
                k <= self@.vlans.len(),
                forall|j: int| 0 <= j < k ==> self@.vlans[j].id != id,
            decreases self@.vlans.len() - k,
        {
            if self.vlans[k].id == id {
                return Some(k);
            }
            k = k + 1;
        }
        None
    }

    fn port_index(&self, n: u16) -> (r: Option<usize>)
        ensures
            match r {
                Some(k) => k < self@.ports.len() && self@.ports[k as int].number == n,
                None => !has_port(self@.ports, n),
            },
    {
        let mut k: usize = 0;
        while k < self.ports.len()
            invariant
                k <= self@.ports.len(),
                forall|j: int| 0 <= j < k ==> self@.ports[j].number != n,
            decreases self@.ports.len() - k,
        {
            if self.ports[k].number == n {
                return Some(k);
            }
            k = k + 1;
        }
        None
    }

    fn metadata(&self, correlation_id: CorrelationId, causation_id: CausationId) -> (m: EventMetadata)
        ensures
            switch_meta_ok(m, self.id, correlation_id, causation_id, self.version as nat),
    {
        EventMetadata::new(self.id.to_string(), correlation_id, causation_id, self.version)
    }

    /// Puts a port in the list: it replaces the port with its number, or is
    /// appended.
    fn put_port(&mut self, port: PortConfig)
        requires
            keys_unique(old(self)@),
        ensures
            final(self)@ == (SwitchView { ports: upsert_port(old(self)@.ports, port@), ..old(self)@ }),
            keys_unique(final(self)@),
            final(self).version == old(self).version,
    {
        let n = port.number;
        let ghost pv = port@;
        let ghost before = self@;
        match self.port_index(n) {
            Some(k) => {
                proof { lemma_port_pos(before, n, k as int); }
                self.ports.set(k, port);
                assert(self@.ports =~= before.ports.update(k as int, pv));
                assert forall|i: int, j: int| 0 <= i < j < self@.ports.len() implies
                    (#[trigger] self@.ports[i]).number != (#[trigger] self@.ports[j]).number by {
                    if i == k {
                        assert(before.ports[j].number != before.ports[k as int].number);
                    } else if j == k {
                        assert(before.ports[i].number != before.ports[k as int].number);
                    } else {
                        assert(before.ports[i].number != before.ports[j].number);
                    }
                }
            }
            None => {
                self.ports.push(port);
                assert(self@.ports =~= before.ports.push(pv));
                assert forall|i: int, j: int| 0 <= i < j < self@.ports.len() implies
                    (#[trigger] self@.ports[i]).number != (#[trigger] self@.ports[j]).number by {
                    if j == before.ports.len() {
                        if before.ports[i].number == n {
                            assert(has_port(before.ports, n));
                        }
                    } else {
                        assert(before.ports[i].number != before.ports[j].number);
                    }
                }
            }
        }
        assert(self@.vlans == before.vlans);
    }

    /// Replaces VLAN `k` with a copy whose tagged or untagged members hold
    /// the port.
    fn add_member(&mut self, k: usize, port: u16, tagged: bool)
        requires
            k < old(self)@.vlans.len(),
            keys_unique(old(self)@),
        ensures
            final(self)@ == (SwitchView {
                vlans: old(self)@.vlans.update(k as int, if tagged {
                    VlanView { tagged_ports: add_absent(old(self)@.vlans[k as int].tagged_ports, port), ..old(self)@.vlans[k as int] }
                } else {
                    VlanView { untagged_ports: add_absent(old(self)@.vlans[k as int].untagged_ports, port), ..old(self)@.vlans[k as int] }
                }),
                ..old(self)@
            }),
            keys_unique(final(self)@),
            final(self).version == old(self).version,
    {
        let v = &self.vlans[k];
        let nv = VlanConfig {
            id: v.id,
            name: v.name.clone(),
            tagged_ports: if tagged { with_number(&v.tagged_ports, port) } else { copy_numbers(&v.tagged_ports) },
            untagged_ports: if tagged { copy_numbers(&v.untagged_ports) } else { with_number(&v.untagged_ports, port) },
        };
        let ghost nvv = nv@;
        self.vlans.set(k, nv);
        assert(self@.vlans =~= old(self)@.vlans.update(k as int, nvv));
    }
}

impl SwitchConfiguration {
    /// A switch with nothing configured, version 0.
    pub fn new(id: SwitchId, name: String, model: SwitchModel) -> (s: Self)
        ensures
            s@.id == id && s@.name == name@ && s@.model == model,
            s@.vlans.len() == 0 && s@.ports.len() == 0 && s@.mac_address_table.len() == 0,
            s@.spanning_tree_config is None && s@.stack_config is None,
            s@.version == 0,
            s.wf(),
    {
        let now = now_millis();
        SwitchConfiguration {
            id,
            name,
            model,
            vlans: Vec::new(),
            ports: Vec::new(),
            mac_address_table: Vec::new(),
            spanning_tree_config: None,
            stack_config: None,
            version: 0,
            created_at: now,
            updated_at: now,
        }
    }

    /// Switch identifier.
    pub fn id(&self) -> (r: SwitchId)
        ensures
            r == self@.id,
    {
        self.id
    }

    /// Switch name.
    pub fn name(&self) -> (r: &String)
        ensures
            r@ == self@.name,
    {
        &self.name
    }

    /// Switch model.
    pub fn model(&self) -> (r: SwitchModel)
        ensures
            r == self@.model,
    {
        self.model
    }

    /// Version, for optimistic locking.
    pub fn version(&self) -> (r: u64)
        ensures
            r == self@.version,
    {
        self.version
    }

    /// The VLANs.
    pub fn vlans(&self) -> (r: &Vec<VlanConfig>)
        ensures
            r@.map_values(|v: VlanConfig| v@) == self@.vlans,
    {
        &self.vlans
    }

    /// The VLAN with this identifier, if any.
    pub fn get_vlan(&self, vlan_id: u16) -> (r: Option<&VlanConfig>)
        requires
            self.wf(),
        ensures
            match r {
                Some(v) => has_vlan(self@.vlans, vlan_id) && v@ == self@.vlans[vlan_pos(self@.vlans, vlan_id)],
                None => !has_vlan(self@.vlans, vlan_id),
            },
    {
        match self.vlan_index(vlan_id) {
            Some(k) => {
                proof { lemma_vlan_pos(self@, vlan_id, k as int); }
                Some(&self.vlans[k])
            }
            None => None,
        }
    }

    /// The ports.
    pub fn ports(&self) -> (r: &Vec<PortConfig>)
        ensures
            r@.map_values(|p: PortConfig| p@) == self@.ports,
    {
        &self.ports
    }

    /// The port with this number, if any.
    pub fn get_port(&self, port: u16) -> (r: Option<&PortConfig>)
        requires
            self.wf(),
        ensures
            match r {
                Some(p) => has_port(self@.ports, port) && p@ == self@.ports[port_pos(self@.ports, port)],
                None => !has_port(self@.ports, port),
            },
    {
        match self.port_index(port) {
            Some(k) => {
                proof { lemma_port_pos(self@, port, k as int); }
                Some(&self.ports[k])
            }
            None => None,
        }
    }

    /// The MAC address table.
    pub fn mac_address_table(&self) -> (r: &Vec<MacAddressEntry>)
        ensures
            r@ == self@.mac_address_table,
    {
        &self.mac_address_table
    }

    /// The first entry of the MAC address table for this address, if any.
    pub fn lookup_mac_address(&self, mac: MacAddress) -> (r: Option<MacAddressEntry>)
        ensures
            match r {
                Some(e) => exists|k: int| 0 <= k < self@.mac_address_table.len()
                    && self@.mac_address_table[k] == e && e.mac_address == mac
                    && forall|j: int| 0 <= j < k ==> (#[trigger] self@.mac_address_table[j]).mac_address != mac,
                None => forall|j: int| 0 <= j < self@.mac_address_table.len()
                    ==> (#[trigger] self@.mac_address_table[j]).mac_address != mac,
            },
    {
        let mut k: usize = 0;
        while k < self.mac_address_table.len()
            invariant
                k <= self@.mac_address_table.len(),
                forall|j: int| 0 <= j < k ==> (#[trigger] self@.mac_address_table[j]).mac_address != mac,
            decreases self@.mac_address_table.len() - k,
        {
            if self.mac_address_table[k].mac_address == mac {
                return Some(self.mac_address_table[k]);
            }
            k = k + 1;
        }
        None
    }

    /// The spanning tree configuration, if any.
    pub fn spanning_tree_config(&self) -> (r: Option<&SpanningTreeConfig>)
        ensures
            r == (match self@.spanning_tree_config {
                Some(c) => Some(&c),
                None => None::<&SpanningTreeConfig>,
            }),
    {
        match &self.spanning_tree_config {
            Some(c) => Some(c),
            None => None,
        }
    }

    /// The stack configuration, if any.
    pub fn stack_config(&self) -> (r: Option<&StackConfig>)
        ensures
            r == (match self@.stack_config {
                Some(c) => Some(&c),
                None => None::<&StackConfig>,
            }),
    {
        match &self.stack_config {
            Some(c) => Some(c),
            None => None,
        }
    }
}


/// With unique identifiers, the position of a VLAN is the one holding its
/// identifier.
proof fn lemma_vlan_pos(v: SwitchView, id: u16, k: int)
    requires
        keys_unique(v),
        0 <= k < v.vlans.len(),
        v.vlans[k].id == id,
    ensures
        has_vlan(v.vlans, id),
        vlan_pos(v.vlans, id) == k,
{
    let vs = v.vlans;
    assert(has_vlan(vs, id));
    let c = vlan_pos(vs, id);
    if c < k {
        assert(vs[c].id != vs[k].id);
    } else if c > k {
        assert(vs[k].id != vs[c].id);
    }
}

/// VLAN identifiers are unique.
pub open spec fn vlan_ids_unique(vs: Seq<VlanView>) -> bool {
    forall|i: int, j: int| 0 <= i < j < vs.len() ==> (#[trigger] vs[i]).id != (#[trigger] vs[j]).id
}

/// A trunk port joins the tagged members of the VLANs it allows: after
/// configuring trunk port `port` that allows the identifiers `allowed`,
/// every existing VLAN whose identifier is allowed has the port among its
/// tagged members; every VLAN keeps its identifier, name, untagged members
/// and earlier tagged members; VLANs it does not allow are unchanged; no
/// VLAN is added or removed.
pub proof fn law_trunk_port_joins_tagged_members(vs: Seq<VlanView>, allowed: Seq<u16>, port: u16)
    requires
        vlan_ids_unique(vs),
    ensures
        tag_trunk(vs, allowed, port).len() == vs.len(),
        forall|k: int| 0 <= k < vs.len() ==> {
            let w = #[trigger] tag_trunk(vs, allowed, port)[k];
            &&& w.id == vs[k].id
            &&& w.name == vs[k].name
            &&& w.untagged_ports == vs[k].untagged_ports
            &&& (forall|q: u16| vs[k].tagged_ports.contains(q) ==> w.tagged_ports.contains(q))
            &&& (allowed.contains(vs[k].id) ==> w.tagged_ports.contains(port))
            &&& (!allowed.contains(vs[k].id) ==> w.tagged_ports == vs[k].tagged_ports)
        },
    decreases allowed.len(),
{
    if allowed.len() > 0 {
        let a = allowed.drop_last();
        let id = allowed.last();
        law_trunk_port_joins_tagged_members(vs, a, port);
        let w0 = tag_trunk(vs, a, port);
        assert(vlan_ids_unique(w0)) by {
            assert forall|i: int, j: int| 0 <= i < j < w0.len() implies (#[trigger] w0[i]).id != (#[trigger] w0[j]).id by {
                assert(w0[i].id == vs[i].id && w0[j].id == vs[j].id);
            }
        }
        assert forall|x: u16| allowed.contains(x) <==> (a.contains(x) || x == id) by {
            if allowed.contains(x) {
                let j = choose|j: int| 0 <= j < allowed.len() && allowed[j] == x;
                if j < allowed.len() - 1 {
                    assert(a[j] == x);
                }
            }
            if a.contains(x) {
                let j = choose|j: int| 0 <= j < a.len() && a[j] == x;
                assert(allowed[j] == x);
            }
            if x == id {
                assert(allowed[allowed.len() - 1] == x);
            }
        }
        if has_vlan(w0, id) {
            let c = vlan_pos(w0, id);
            let w = tag_trunk(vs, allowed, port);
            assert(w == w0.update(c, VlanView { tagged_ports: add_absent(w0[c].tagged_ports, port), ..w0[c] }));
            assert forall|k: int| 0 <= k < vs.len() implies {
                let x = #[trigger] tag_trunk(vs, allowed, port)[k];
                &&& x.id == vs[k].id
                &&& x.name == vs[k].name
                &&& x.untagged_ports == vs[k].untagged_ports
                &&& (forall|q: u16| vs[k].tagged_ports.contains(q) ==> x.tagged_ports.contains(q))
                &&& (allowed.contains(vs[k].id) ==> x.tagged_ports.contains(port))
                &&& (!allowed.contains(vs[k].id) ==> x.tagged_ports == vs[k].tagged_ports)
            } by {
                assert(w0[k].id == vs[k].id);
                if k == c {
                    let t = w0[c].tagged_ports;
                    assert(add_absent(t, port).contains(port)) by {
                        if !t.contains(port) {
                            assert(t.push(port)[t.len() as int] == port);
                        }
                    }
                    assert forall|q: u16| t.contains(q) implies add_absent(t, port).contains(q) by {
                        if !t.contains(port) {
                            let j = choose|j: int| 0 <= j < t.len() && t[j] == q;
                            assert(t.push(port)[j] == q);
                        }
                    }
                } else {
                    if vs[k].id == id {
                        if k < c {
                            assert(w0[k].id != w0[c].id);
                        } else {
                            assert(w0[c].id != w0[k].id);
                        }
                    }
                }
            }
        } else {
            assert forall|k: int| 0 <= k < vs.len() implies vs[k].id != id by {
                assert(w0[k].id == vs[k].id);
            }
        }
    }
}

/// With unique numbers, the position of a port is the one holding its
/// number.
proof fn lemma_port_pos(v: SwitchView, n: u16, k: int)
    requires
        keys_unique(v),
        0 <= k < v.ports.len(),
        v.ports[k].number == n,
    ensures
        has_port(v.ports, n),
        port_pos(v.ports, n) == k,
{
    let ps = v.ports;
    assert(has_port(ps, n));
    let c = port_pos(ps, n);
    if c < k {
        assert(ps[c].number != ps[k].number);
    } else if c > k {
        assert(ps[k].number != ps[c].number);
    }
}

/// The warnings for the first `n` VLANs: one per VLAN without members.
pub open spec fn vlan_warnings(vs: Seq<VlanView>, n: int) -> Seq<Seq<char>>
    decreases n,
{
    if n <= 0 {
        Seq::empty()
    } else {
        vlan_warnings(vs, n - 1) + if vs[n - 1].tagged_ports.len() == 0 && vs[n - 1].untagged_ports.len() == 0 {
            seq!["VLAN "@ + dec(vs[n - 1].id as nat) + " has no assigned ports"@]
        } else {
            Seq::empty()
        }
    }
}

/// The warnings for the first `n` ports: one per access port without a
/// VLAN.
pub open spec fn port_warnings(ps: Seq<PortView>, n: int) -> Seq<Seq<char>>
    decreases n,
{
    if n <= 0 {
        Seq::empty()
    } else {
        port_warnings(ps, n - 1) + if ps[n - 1].allowed_vlans.len() == 0 && ps[n - 1].mode == PortMode::Access {
            seq!["Access port "@ + dec(ps[n - 1].number as nat) + " has no VLAN assigned"@]
        } else {
            Seq::empty()
        }
    }
}

/// The errors for the first `n` of a list of spanning-tree ports: one per
/// port that is not configured, with the given label.
pub open spec fn missing_port_errors(ports: Seq<PortView>, list: Seq<u16>, n: int, label: Seq<char>) -> Seq<Seq<char>>
    decreases n,
{
    if n <= 0 {
        Seq::empty()
    } else {
        missing_port_errors(ports, list, n - 1, label) + if !has_port(ports, list[n - 1]) {
            seq![label + dec(list[n - 1] as nat) + " does not exist"@]
        } else {
            Seq::empty()
        }
    }
}

/// The errors of a switch: root-guard ports, then portfast ports, that
/// are not configured.
pub open spec fn switch_errors(v: SwitchView) -> Seq<Seq<char>> {
    match v.spanning_tree_config {
        Some(stp) => missing_port_errors(v.ports, stp.root_guard_ports@, stp.root_guard_ports@.len() as int, "Root guard port "@)
            + missing_port_errors(v.ports, stp.portfast_ports@, stp.portfast_ports@.len() as int, "Portfast port "@),
        None => Seq::empty(),
    }
}

/// The texts of a list of strings.
pub open spec fn texts(s: Seq<String>) -> Seq<Seq<char>> {
    s.map_values(|x: String| x@)
}

/// Pushes a message.
fn note(list: &mut Vec<String>, m: String)
    ensures
        texts(final(list)@) == texts(old(list)@).push(m@),
{
    let ghost before = list@;
    list.push(m);
    assert(texts(list@) =~= texts(before).push(m@));
}

impl SwitchConfiguration {
    /// Creates a VLAN without members, refusing an identifier in use.
    pub fn create_vlan(&mut self, vlan_id: u16, name: String, correlation_id: CorrelationId, causation_id: CausationId)
        -> (r: Result<Vec<InfrastructureEvent>, NetworkError>)
        requires
            old(self).wf(),
            old(self)@.version < u64::MAX,
        ensures
            final(self).wf(),
            has_vlan(old(self)@.vlans, vlan_id) ==> final(self)@ == old(self)@
                && general_error(r, "VLAN "@ + dec(vlan_id as nat) + " already exists"@),
            !has_vlan(old(self)@.vlans, vlan_id) ==> final(self)@ == (SwitchView {
                vlans: old(self)@.vlans.push(VlanView {
                    id: vlan_id,
                    name: name@,
                    tagged_ports: Seq::empty(),
                    untagged_ports: Seq::empty(),
                }),
                version: old(self)@.version + 1,
                ..old(self)@
            }) && r.is_ok() && r.unwrap()@.len() == 1 && match r.unwrap()@[0] {
                InfrastructureEvent::VlanCreated { metadata, switch_id, vlan_id: v, name: n, description } =>
                    switch_meta_ok(metadata, old(self)@.id, correlation_id, causation_id, old(self)@.version + 1)
                    && switch_id == old(self)@.id && v == vlan_id && n@ == name@ && description is None,
                _ => false,
            },
    {
        if self.vlan_index(vlan_id).is_some() {
            let mut m = owned("VLAN ");
            push_dec(&mut m, vlan_id as u64);
            push_str(&mut m, " already exists");
            return Err(NetworkError::General(m));
        }
        let event_name = name.clone();
        let ghost before = self@;
        self.vlans.push(VlanConfig { id: vlan_id, name, tagged_ports: Vec::new(), untagged_ports: Vec::new() });
        self.version = self.version + 1;
        self.updated_at = now_millis();
        assert(self@.vlans =~= before.vlans.push(VlanView {
            id: vlan_id,
            name: event_name@,
            tagged_ports: Seq::empty(),
            untagged_ports: Seq::empty(),
        }));
        let metadata = self.metadata(correlation_id, causation_id);
        let mut events: Vec<InfrastructureEvent> = Vec::new();
        events.push(InfrastructureEvent::VlanCreated {
            metadata,
            switch_id: self.id,
            vlan_id,
            name: event_name,
            description: None,
        });
        Ok(events)
    }

    /// Configures a port: a trunk port joins the tagged members of each
    /// allowed VLAN that exists; the port replaces any with its number.
    pub fn configure_port(&mut self, port_config: PortConfig, correlation_id: CorrelationId, causation_id: CausationId)
        -> (r: Result<Vec<InfrastructureEvent>, NetworkError>)
        requires
            old(self).wf(),
            old(self)@.version < u64::MAX,
        ensures
            final(self).wf(),
            final(self)@ == (SwitchView {
                vlans: if port_config.mode == PortMode::Trunk {
                    tag_trunk(old(self)@.vlans, port_config.allowed_vlans@, port_config.number)
                } else {
                    old(self)@.vlans
                },
                ports: upsert_port(old(self)@.ports, port_config@),
                version: old(self)@.version + 1,
                ..old(self)@
            }),
            r.is_ok(),
            r.unwrap()@.len() == 1,
            match r.unwrap()@[0] {
                InfrastructureEvent::SwitchPortConfigured { metadata, switch_id, port_number } =>
                    switch_meta_ok(metadata, old(self)@.id, correlation_id, causation_id, old(self)@.version + 1)
                    && switch_id == old(self)@.id && port_number == port_config.number,
                _ => false,
            },
    {
        let port_num = port_config.number;
        let ghost allowed = port_config.allowed_vlans@;
        if port_config.mode == PortMode::Trunk {
            let mut i: usize = 0;
            assert(allowed.take(0) =~= Seq::<u16>::empty());
            while i < port_config.allowed_vlans.len()
                invariant
                    allowed == port_config.allowed_vlans@,
                    i <= allowed.len(),
                    keys_unique(self@),
                    self@ == (SwitchView { vlans: tag_trunk(old(self)@.vlans, allowed.take(i as int), port_num), ..old(self)@ }),
                    self.version == old(self).version,
                decreases allowed.len() - i,
            {
                let id = port_config.allowed_vlans[i];
                let ghost w = self@.vlans;
                assert(allowed.take(i + 1).drop_last() =~= allowed.take(i as int));
                assert(allowed.take(i + 1).last() == id);
                match self.vlan_index(id) {
                    Some(k) => {
                        proof { lemma_vlan_pos(self@, id, k as int); }
                        self.add_member(k, port_num, true);
                    }
                    None => {}
                }
                i = i + 1;
            }
            assert(allowed.take(allowed.len() as int) =~= allowed);
        }
        self.put_port(port_config);
        self.version = self.version + 1;
        self.updated_at = now_millis();
        let metadata = self.metadata(correlation_id, causation_id);
        let mut events: Vec<InfrastructureEvent> = Vec::new();
        events.push(InfrastructureEvent::SwitchPortConfigured { metadata, switch_id: self.id, port_number: port_num });
        Ok(events)
    }

    /// Puts a port in a VLAN: the port allows the VLAN, and the VLAN lists
    /// the port as an untagged (access) or tagged (trunk) member. Refused
    /// when the port, then the VLAN, is not configured.
    pub fn assign_vlan_to_port(&mut self, port_num: u16, vlan_id: u16, correlation_id: CorrelationId, causation_id: CausationId)
        -> (r: Result<Vec<InfrastructureEvent>, NetworkError>)
        requires
            old(self).wf(),
            old(self)@.version < u64::MAX,
        ensures
            final(self).wf(),
            !has_port(old(self)@.ports, port_num) ==> final(self)@ == old(self)@
                && general_error(r, "Port "@ + dec(port_num as nat) + " not found"@),
            has_port(old(self)@.ports, port_num) && !has_vlan(old(self)@.vlans, vlan_id) ==> final(self)@ == old(self)@
                && general_error(r, "VLAN "@ + dec(vlan_id as nat) + " not found"@),
            has_port(old(self)@.ports, port_num) && has_vlan(old(self)@.vlans, vlan_id) ==> ({
                let pk = port_pos(old(self)@.ports, port_num);
                let vk = vlan_pos(old(self)@.vlans, vlan_id);
                let p = old(self)@.ports[pk];
                let v = old(self)@.vlans[vk];
                &&& final(self)@ == (SwitchView {
                    ports: old(self)@.ports.update(pk, PortView { allowed_vlans: add_absent(p.allowed_vlans, vlan_id), ..p }),
                    vlans: old(self)@.vlans.update(vk, if p.mode == PortMode::Access {
                        VlanView { untagged_ports: add_absent(v.untagged_ports, port_num), ..v }
                    } else {
                        VlanView { tagged_ports: add_absent(v.tagged_ports, port_num), ..v }
                    }),
                    version: old(self)@.version + 1,
                    ..old(self)@
                })
                &&& r.is_ok() && r.unwrap()@.len() == 1
                &&& match r.unwrap()@[0] {
                    InfrastructureEvent::VlanAssignedToPort { metadata, switch_id, port_number, vlan_id: v } =>
                        switch_meta_ok(metadata, old(self)@.id, correlation_id, causation_id, old(self)@.version + 1)
                        && switch_id == old(self)@.id && port_number == port_num && v == vlan_id,
                    _ => false,
                }
            }),
    {
        let pk = match self.port_index(port_num) {
            Some(k) => k,
            None => {
                let mut m = owned("Port ");
                push_dec(&mut m, port_num as u64);
                push_str(&mut m, " not found");
                return Err(NetworkError::General(m));
            }
        };
        let vk = match self.vlan_index(vlan_id) {
            Some(k) => k,
            None => {
                let mut m = owned("VLAN ");
                push_dec(&mut m, vlan_id as u64);
                push_str(&mut m, " not found");
                return Err(NetworkError::General(m));
            }
        };
        proof {
            lemma_port_pos(self@, port_num, pk as int);
            lemma_vlan_pos(self@, vlan_id, vk as int);
        }
        let ghost before = self@;
        let p = &self.ports[pk];
        let mode = p.mode;
        let np = PortConfig {
            number: p.number,
            description: match &p.description { Some(d) => Some(d.clone()), None => None },
            mode: p.mode,
            speed: p.speed,
            enabled: p.enabled,
            allowed_vlans: with_number(&p.allowed_vlans, vlan_id),
        };
        let ghost npv = np@;
        self.ports.set(pk, np);
        assert(self@.ports =~= before.ports.update(pk as int, npv));
        assert(keys_unique(self@)) by {
            let ps = self@.ports;
            assert forall|i: int, j: int| 0 <= i < j < ps.len() implies (#[trigger] ps[i]).number != (#[trigger] ps[j]).number by {
                assert(before.ports[i].number == ps[i].number);
                assert(before.ports[j].number == ps[j].number);
            }
        }
        self.add_member(vk, port_num, mode == PortMode::Trunk);
        self.version = self.version + 1;
        self.updated_at = now_millis();
        let metadata = self.metadata(correlation_id, causation_id);
        let mut events: Vec<InfrastructureEvent> = Vec::new();
        events.push(InfrastructureEvent::VlanAssignedToPort { metadata, switch_id: self.id, port_number: port_num, vlan_id });
        Ok(events)
    }

    /// Sets the spanning tree configuration.
    pub fn configure_spanning_tree(&mut self, config: SpanningTreeConfig, correlation_id: CorrelationId, causation_id: CausationId)
        -> (r: Result<Vec<InfrastructureEvent>, NetworkError>)
        requires
            old(self).wf(),
            old(self)@.version < u64::MAX,
        ensures
            final(self).wf(),
            final(self)@ == (SwitchView { spanning_tree_config: Some(config), version: old(self)@.version + 1, ..old(self)@ }),
            r.is_ok(),
            r.unwrap()@.len() == 1,
            match r.unwrap()@[0] {
                InfrastructureEvent::SpanningTreeConfigured { metadata, switch_id, protocol, bridge_priority } =>
                    switch_meta_ok(metadata, old(self)@.id, correlation_id, causation_id, old(self)@.version + 1)
                    && switch_id == old(self)@.id && protocol is None && bridge_priority is None,
                _ => false,
            },
    {
        self.spanning_tree_config = Some(config);
        self.version = self.version + 1;
        self.updated_at = now_millis();
        let metadata = self.metadata(correlation_id, causation_id);
        let mut events: Vec<InfrastructureEvent> = Vec::new();
        events.push(InfrastructureEvent::SpanningTreeConfigured { metadata, switch_id: self.id, protocol: None, bridge_priority: None });
        Ok(events)
    }

    /// Adds a MAC address entry seen now, refusing an address already in
    /// the table.
    pub fn add_mac_address_entry(
        &mut self,
        mac_address: MacAddress,
        port: u16,
        vlan: u16,
        mac_type: MacAddressType,
        correlation_id: CorrelationId,
        causation_id: CausationId,
    ) -> (r: Result<Vec<InfrastructureEvent>, NetworkError>)
        requires
            old(self).wf(),
            old(self)@.version < u64::MAX,
        ensures
            final(self).wf(),
            (exists|k: int| 0 <= k < old(self)@.mac_address_table.len()
                && (#[trigger] old(self)@.mac_address_table[k]).mac_address == mac_address) ==> final(self)@ == old(self)@
                && general_error(r, "MAC address "@ + mac_text(mac_address@) + " already exists"@),
            !(exists|k: int| 0 <= k < old(self)@.mac_address_table.len()
                && (#[trigger] old(self)@.mac_address_table[k]).mac_address == mac_address) ==> ({
                let t = final(self)@.mac_address_table;
                &&& final(self)@ == (SwitchView { mac_address_table: t, version: old(self)@.version + 1, ..old(self)@ })
                &&& t.len() == old(self)@.mac_address_table.len() + 1
                &&& t.drop_last() == old(self)@.mac_address_table
                &&& t.last().mac_address == mac_address && t.last().port == port && t.last().vlan == vlan
                &&& t.last().mac_type == mac_type
                &&& r.is_ok() && r.unwrap()@.len() == 1
                &&& match r.unwrap()@[0] {
                    InfrastructureEvent::MacAddressLearned { metadata, switch_id, mac_address: m, port: p, vlan: v } =>
                        switch_meta_ok(metadata, old(self)@.id, correlation_id, causation_id, old(self)@.version + 1)
                        && switch_id == old(self)@.id && m == mac_address && p == port && v == vlan,
                    _ => false,
                }
            }),
    {
        if self.lookup_mac_address(mac_address).is_some() {
            let mut m = owned("MAC address ");
            push_str(&mut m, mac_address.to_string().as_str());
            push_str(&mut m, " already exists");
            return Err(NetworkError::General(m));
        }
        let ghost before = self@.mac_address_table;
        self.mac_address_table.push(MacAddressEntry { mac_address, port, vlan, mac_type, last_seen: now_millis() });
        assert(self@.mac_address_table.drop_last() =~= before);
        self.version = self.version + 1;
        self.updated_at = now_millis();
        let metadata = self.metadata(correlation_id, causation_id);
        let mut events: Vec<InfrastructureEvent> = Vec::new();
        events.push(InfrastructureEvent::MacAddressLearned { metadata, switch_id: self.id, mac_address, port, vlan });
        Ok(events)
    }

    /// Sets the stack configuration.
    pub fn configure_stack(&mut self, config: StackConfig, correlation_id: CorrelationId, causation_id: CausationId)
        -> (r: Result<Vec<InfrastructureEvent>, NetworkError>)
        requires
            old(self).wf(),
            old(self)@.version < u64::MAX,
        ensures
            final(self).wf(),
            final(self)@ == (SwitchView { stack_config: Some(config), version: old(self)@.version + 1, ..old(self)@ }),
            r.is_ok(),
            r.unwrap()@.len() == 1,
            match r.unwrap()@[0] {
                InfrastructureEvent::SwitchStackConfigured { metadata, switch_id } =>
                    switch_meta_ok(metadata, old(self)@.id, correlation_id, causation_id, old(self)@.version + 1)
                    && switch_id == old(self)@.id,
                _ => false,
            },
    {
        self.stack_config = Some(config);
        self.version = self.version + 1;
        self.updated_at = now_millis();
        let metadata = self.metadata(correlation_id, causation_id);
        let mut events: Vec<InfrastructureEvent> = Vec::new();
        events.push(InfrastructureEvent::SwitchStackConfigured { metadata, switch_id: self.id });
        Ok(events)
    }

    /// Checks the configuration: warnings for VLANs without members and
    /// access ports without a VLAN; errors for spanning-tree ports that are
    /// not configured.
    pub fn validate(&self) -> (r: ConfigurationValidation)
        ensures
            texts(r.warnings@) == vlan_warnings(self@.vlans, self@.vlans.len() as int)
                + port_warnings(self@.ports, self@.ports.len() as int),
            texts(r.errors@) == switch_errors(self@),
            r.is_valid == (switch_errors(self@).len() == 0),
    {
        let mut warnings: Vec<String> = Vec::new();
        let mut k: usize = 0;
        assert(texts(warnings@) =~= Seq::<Seq<char>>::empty());
        while k < self.vlans.len()
            invariant
                k <= self@.vlans.len(),
                texts(warnings@) == vlan_warnings(self@.vlans, k as int),
            decreases self@.vlans.len() - k,
        {
            let v = &self.vlans[k];
            assert(v@ == self@.vlans[k as int]);
            if v.tagged_ports.len() == 0 && v.untagged_ports.len() == 0 {
                let mut m = owned("VLAN ");
                push_dec(&mut m, v.id as u64);
                push_str(&mut m, " has no assigned ports");
                note(&mut warnings, m);
            }
            assert(texts(warnings@) =~= vlan_warnings(self@.vlans, k + 1));
            k = k + 1;
        }
        let ghost w1 = texts(warnings@);
        let mut k: usize = 0;
        while k < self.ports.len()
            invariant
                k <= self@.ports.len(),
                texts(warnings@) == w1 + port_warnings(self@.ports, k as int),
            decreases self@.ports.len() - k,
        {
            let p = &self.ports[k];
            assert(p@ == self@.ports[k as int]);
            if p.allowed_vlans.len() == 0 && p.mode == PortMode::Access {
                let mut m = owned("Access port ");
                push_dec(&mut m, p.number as u64);
                push_str(&mut m, " has no VLAN assigned");
                note(&mut warnings, m);
            }
            assert(texts(warnings@) =~= w1 + port_warnings(self@.ports, k + 1));
            k = k + 1;
        }
        let mut errors: Vec<String> = Vec::new();
        assert(texts(errors@) =~= Seq::<Seq<char>>::empty());
        match &self.spanning_tree_config {
            Some(stp) => {
                self.missing_ports(&stp.root_guard_ports, "Root guard port ", &mut errors);
                self.missing_ports(&stp.portfast_ports, "Portfast port ", &mut errors);
            }
            None => {}
        }
        let is_valid = errors.len() == 0;
        ConfigurationValidation { is_valid, errors, warnings }
    }

    /// Appends an error for each listed port that is not configured.
    fn missing_ports(&self, list: &Vec<u16>, label: &str, errors: &mut Vec<String>)
        ensures
            texts(final(errors)@) == texts(old(errors)@) + missing_port_errors(self@.ports, list@, list@.len() as int, label@),
    {
        let ghost start = texts(errors@);
        let mut k: usize = 0;
        assert(start + missing_port_errors(self@.ports, list@, 0, label@) =~= start);
        while k < list.len()
            invariant
                k <= list@.len(),
                texts(errors@) == start + missing_port_errors(self@.ports, list@, k as int, label@),
            decreases list@.len() - k,
        {
            if self.port_index(list[k]).is_none() {
                let mut m = owned(label);
                push_dec(&mut m, list[k] as u64);
                push_str(&mut m, " does not exist");
                note(errors, m);
            }
            assert(texts(errors@) =~= start + missing_port_errors(self@.ports, list@, k + 1, label@));
            k = k + 1;
        }
    }
}

} // verus!

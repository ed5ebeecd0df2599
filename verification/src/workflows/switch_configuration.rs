//! Switch configuration workflow: validate, create VLANs, assign ports to
//! them, enable spanning tree and verify the result. Each step records its
//! events in the context and can be compensated.

use vstd::prelude::*;
use crate::ids::{SwitchId, CorrelationId, CausationId, uuid_text};
use crate::infra_events::{EventMetadata, InfrastructureEvent};
use crate::value_objects::{PortId, port_id_text};
use crate::text::{dec, push_str, push_dec, owned};
use crate::params::same_text;
use crate::workflows::network_deployment::{join, texts, join_comma, report};

verus! {

/// A VLAN to create.
#[derive(Debug)]
pub struct VlanConfigRequest {
    pub vlan_id: u16,
    pub name: String,
    pub description: Option<String>,
}

impl Clone for VlanConfigRequest {
    fn clone(&self) -> (r: Self)
        ensures
            r == *self,
    {
        VlanConfigRequest { vlan_id: self.vlan_id, name: self.name.clone(), description: copy_text(&self.description) }
    }
}

/// A port to put in a VLAN.
#[derive(Debug)]
pub struct PortAssignmentRequest {
    pub port_id: PortId,
    pub vlan_id: u16,
    pub access_mode: bool,
}

impl Clone for PortAssignmentRequest {
    fn clone(&self) -> (r: Self)
        ensures
            r == *self,
    {
        PortAssignmentRequest { port_id: self.port_id.clone(), vlan_id: self.vlan_id, access_mode: self.access_mode }
    }
}

/// A copy of an optional text.
fn copy_text(t: &Option<String>) -> (r: Option<String>)
    ensures
        r == *t,
{
    match t {
        Some(s) => Some(s.clone()),
        None => None,
    }
}

// ---------------------------------------------------------------------
// Keyed tables: a list without two entries under one key, read as a map.

/// The key of a port: its name and index.
pub open spec fn port_key(p: PortId) -> (Seq<char>, Option<u32>) {
    (p.name@, p.index)
}

/// No two VLANs share an identifier.
pub open spec fn vlan_ids_unique(s: Seq<VlanConfigRequest>) -> bool {
    forall|i: int, j: int| 0 <= i < j < s.len() ==> (#[trigger] s[i]).vlan_id != (#[trigger] s[j]).vlan_id
}

/// No two entries share a port.
pub open spec fn port_keys_unique(s: Seq<(PortId, u16)>) -> bool {
    forall|i: int, j: int| 0 <= i < j < s.len() ==> port_key((#[trigger] s[i]).0) != port_key((#[trigger] s[j]).0)
}

/// The VLANs by identifier.
pub open spec fn vlan_map(s: Seq<VlanConfigRequest>) -> Map<u16, VlanConfigRequest> {
    Map::new(
        |id: u16| exists|k: int| 0 <= k < s.len() && (#[trigger] s[k]).vlan_id == id,
        |id: u16| s[choose|k: int| 0 <= k < s.len() && (#[trigger] s[k]).vlan_id == id],
    )
}

/// The VLAN of each port, by port key.
pub open spec fn port_map(s: Seq<(PortId, u16)>) -> Map<(Seq<char>, Option<u32>), u16> {
    Map::new(
        |key: (Seq<char>, Option<u32>)| exists|k: int| 0 <= k < s.len() && port_key((#[trigger] s[k]).0) == key,
        |key: (Seq<char>, Option<u32>)| s[choose|k: int| 0 <= k < s.len() && port_key((#[trigger] s[k]).0) == key].1,
    )
}

/// A map with each pair inserted in turn.
pub open spec fn insert_all<K, V>(m: Map<K, V>, kvs: Seq<(K, V)>) -> Map<K, V>
    decreases kvs.len(),
{
    if kvs.len() == 0 {
        m
    } else {
        insert_all(m, kvs.drop_last()).insert(kvs.last().0, kvs.last().1)
    }
}

/// A map with each key removed in turn.
pub open spec fn remove_all<K, V>(m: Map<K, V>, ks: Seq<K>) -> Map<K, V>
    decreases ks.len(),
{
    if ks.len() == 0 {
        m
    } else {
        remove_all(m, ks.drop_last()).remove(ks.last())
    }
}

/// Removing keys one by one removes the set of them.
proof fn lemma_remove_all<K, V>(m: Map<K, V>, ks: Seq<K>)
    ensures
        remove_all(m, ks) == m.remove_keys(ks.to_set()),
    decreases ks.len(),
{
    if ks.len() == 0 {
        assert(m.remove_keys(ks.to_set()) =~= m);
    } else {
        lemma_remove_all(m, ks.drop_last());
        assert(ks.to_set() =~= ks.drop_last().to_set().insert(ks.last())) by {
            assert forall|x: K| ks.to_set().contains(x) <==> ks.drop_last().to_set().insert(ks.last()).contains(x) by {
                if ks.contains(x) {
                    let i = choose|i: int| 0 <= i < ks.len() && ks[i] == x;
                    if i < ks.len() - 1 {
                        assert(ks.drop_last()[i] == x);
                    }
                }
                if ks.drop_last().contains(x) {
                    let i = choose|i: int| 0 <= i < ks.len() - 1 && ks.drop_last()[i] == x;
                    assert(ks[i] == x);
                }
                assert(ks[ks.len() - 1] == ks.last());
            }
        }
        assert(remove_all(m, ks) =~= m.remove_keys(ks.to_set()));
    }
}

/// Off the inserted keys, inserting pairs changes nothing.
proof fn lemma_insert_all_off<K, V>(m: Map<K, V>, kvs: Seq<(K, V)>, ks: Set<K>)
    requires
        forall|i: int| 0 <= i < kvs.len() ==> ks.contains((#[trigger] kvs[i]).0),
    ensures
        insert_all(m, kvs).remove_keys(ks) == m.remove_keys(ks),
    decreases kvs.len(),
{
    if kvs.len() > 0 {
        lemma_insert_all_off(m, kvs.drop_last(), ks);
        assert(ks.contains(kvs[kvs.len() - 1].0));
        assert(insert_all(m, kvs).remove_keys(ks) =~= insert_all(m, kvs.drop_last()).remove_keys(ks));
    }
}

/// Removing the keys of the inserted pairs restores a map that held none
/// of them.
pub proof fn law_remove_all_undoes_insert_all<K, V>(m: Map<K, V>, kvs: Seq<(K, V)>)
    requires
        forall|i: int| 0 <= i < kvs.len() ==> !m.contains_key((#[trigger] kvs[i]).0),
    ensures
        remove_all(insert_all(m, kvs), kvs.map_values(|kv: (K, V)| kv.0)) == m,
{
    let ks = kvs.map_values(|kv: (K, V)| kv.0);
    lemma_remove_all(insert_all(m, kvs), ks);
    assert forall|i: int| 0 <= i < kvs.len() implies ks.to_set().contains((#[trigger] kvs[i]).0) by {
        assert(ks[i] == kvs[i].0);
    }
    lemma_insert_all_off(m, kvs, ks.to_set());
    assert(m.remove_keys(ks.to_set()) =~= m) by {
        assert forall|k: K| ks.to_set().contains(k) implies !m.contains_key(k) by {
            let i = choose|i: int| 0 <= i < ks.len() && ks[i] == k;
            assert(kvs[i].0 == k);
        }
    }
}

/// With unique identifiers, the VLAN at `k` is the one the map gives.
proof fn lemma_vlan_at(s: Seq<VlanConfigRequest>, k: int)
    requires
        vlan_ids_unique(s),
        0 <= k < s.len(),
    ensures
        vlan_map(s).contains_key(s[k].vlan_id),
        vlan_map(s)[s[k].vlan_id] == s[k],
{
    let id = s[k].vlan_id;
    assert(vlan_map(s).contains_key(id));
    let c = choose|c: int| 0 <= c < s.len() && (#[trigger] s[c]).vlan_id == id;
    if c < k {
        assert(s[c].vlan_id != s[k].vlan_id);
    } else if c > k {
        assert(s[k].vlan_id != s[c].vlan_id);
    }
}

/// With unique keys, the entry at `k` is the one the map gives.
proof fn lemma_port_at(s: Seq<(PortId, u16)>, k: int)
    requires
        port_keys_unique(s),
        0 <= k < s.len(),
    ensures
        port_map(s).contains_key(port_key(s[k].0)),
        port_map(s)[port_key(s[k].0)] == s[k].1,
{
    let key = port_key(s[k].0);
    assert(port_map(s).contains_key(key));
    let c = choose|c: int| 0 <= c < s.len() && port_key((#[trigger] s[c]).0) == key;
    if c < k {
        assert(port_key(s[c].0) != port_key(s[k].0));
    } else if c > k {
        assert(port_key(s[k].0) != port_key(s[c].0));
    }
}

/// The position of the VLAN with this identifier.
fn find_vlan(list: &Vec<VlanConfigRequest>, id: u16) -> (r: Option<usize>)
    ensures
        match r {
            Some(k) => k < list@.len() && list@[k as int].vlan_id == id,
            None => !vlan_map(list@).contains_key(id),
        },
{
    let mut k: usize = 0;
    while k < list.len()
        invariant
            k <= list@.len(),
            forall|j: int| 0 <= j < k ==> list@[j].vlan_id != id,
        decreases list@.len() - k,
    {
        if list[k].vlan_id == id {
            return Some(k);
        }
        k = k + 1;
    }
    None
}

/// Whether two ports are the same.
fn same_port(a: &PortId, b: &PortId) -> (r: bool)
    ensures
        r == (port_key(*a) == port_key(*b)),
{
    a.index == b.index && same_text(a.name.as_str(), b.name.as_str())
}

/// The position of the entry for this port.
fn find_port(list: &Vec<(PortId, u16)>, p: &PortId) -> (r: Option<usize>)
    ensures
        match r {
            Some(k) => k < list@.len() && port_key(list@[k as int].0) == port_key(*p),
            None => !port_map(list@).contains_key(port_key(*p)),
        },
{
    let mut k: usize = 0;
    while k < list.len()
        invariant
            k <= list@.len(),
            forall|j: int| 0 <= j < k ==> port_key(list@[j].0) != port_key(*p),
        decreases list@.len() - k,
    {
        if same_port(&list[k].0, p) {
            return Some(k);
        }
        k = k + 1;
    }
    None
}

/// Puts a VLAN in the table, replacing one with its identifier.
fn put_vlan(list: &mut Vec<VlanConfigRequest>, v: VlanConfigRequest)
    requires
        vlan_ids_unique(old(list)@),
    ensures
        vlan_ids_unique(final(list)@),
        vlan_map(final(list)@) == vlan_map(old(list)@).insert(v.vlan_id, v),
{
    let ghost before = list@;
    let ghost vv = v;
    let id = v.vlan_id;
    match find_vlan(list, id) {
        Some(k) => {
            list.set(k, v);
            assert(list@ =~= before.update(k as int, vv));
        }
        None => {
            list.push(v);
            assert(list@ =~= before.push(vv));
        }
    }
    let ghost after = list@;
    assert(vlan_ids_unique(after)) by {
        assert forall|i: int, j: int| 0 <= i < j < after.len() implies (#[trigger] after[i]).vlan_id != (#[trigger] after[j]).vlan_id by {
            if i < before.len() && j < before.len() {
                if after[i].vlan_id == id {
                    assert(before[j].vlan_id != before[i].vlan_id || after[i] == vv);
                }
                if after[i] != before[i] || after[j] != before[j] {
                    if after[i] != before[i] {
                        assert(before[j].vlan_id != before[i].vlan_id);
                    } else {
                        assert(before[i].vlan_id != before[j].vlan_id);
                    }
                } else {
                    assert(before[i].vlan_id != before[j].vlan_id);
                }
            } else if j == before.len() {
                if before[i].vlan_id == id {
                    assert(vlan_map(before).contains_key(id));
                }
            }
        }
    }
    assert(vlan_map(after) =~= vlan_map(before).insert(id, vv)) by {
        assert forall|x: u16| vlan_map(after).contains_key(x) <==> vlan_map(before).insert(id, vv).contains_key(x) by {
            if vlan_map(after).contains_key(x) {
                let c = choose|c: int| 0 <= c < after.len() && (#[trigger] after[c]).vlan_id == x;
                if c < before.len() && after[c] == before[c] {
                    lemma_vlan_at(before, c);
                }
            }
            if vlan_map(before).contains_key(x) && x != id {
                let c = choose|c: int| 0 <= c < before.len() && (#[trigger] before[c]).vlan_id == x;
                assert(after[c] == before[c]);
                assert(after[c].vlan_id == x);
            }
            if x == id {
                let c = if after.len() > before.len() { before.len() as int } else {
                    choose|c: int| 0 <= c < before.len() && (#[trigger] before[c]).vlan_id == id
                };
                assert(after[c].vlan_id == id);
            }
        }
        assert forall|x: u16| #[trigger] vlan_map(after).contains_key(x) implies vlan_map(after)[x] == vlan_map(before).insert(id, vv)[x] by {
            let c = choose|c: int| 0 <= c < after.len() && (#[trigger] after[c]).vlan_id == x;
            lemma_vlan_at(after, c);
            if x != id {
                assert(after[c] == before[c]);
                lemma_vlan_at(before, c);
            }
        }
    }
}

/// Takes the VLAN with this identifier out of the table.
fn take_vlan(list: &mut Vec<VlanConfigRequest>, id: u16)
    requires
        vlan_ids_unique(old(list)@),
    ensures
        vlan_ids_unique(final(list)@),
        vlan_map(final(list)@) == vlan_map(old(list)@).remove(id),
{
    let ghost before = list@;
    match find_vlan(list, id) {
        Some(k) => {
            list.remove(k);
            let ghost after = list@;
            assert(after =~= before.remove(k as int));
            assert(vlan_ids_unique(after)) by {
                assert forall|i: int, j: int| 0 <= i < j < after.len() implies (#[trigger] after[i]).vlan_id != (#[trigger] after[j]).vlan_id by {
                    let bi = if i < k { i } else { i + 1 };
                    let bj = if j < k { j } else { j + 1 };
                    assert(after[i] == before[bi] && after[j] == before[bj]);
                    assert(before[bi].vlan_id != before[bj].vlan_id);
                }
            }
            assert(vlan_map(after) =~= vlan_map(before).remove(id)) by {
                assert forall|x: u16| vlan_map(after).contains_key(x) <==> vlan_map(before).remove(id).contains_key(x) by {
                    if vlan_map(after).contains_key(x) {
                        let c = choose|c: int| 0 <= c < after.len() && (#[trigger] after[c]).vlan_id == x;
                        let bc = if c < k { c } else { c + 1 };
                        assert(after[c] == before[bc]);
                        assert(before[bc].vlan_id != before[k as int].vlan_id);
                    }
                    if vlan_map(before).contains_key(x) && x != id {
                        let c = choose|c: int| 0 <= c < before.len() && (#[trigger] before[c]).vlan_id == x;
                        let ac = if c < k { c } else { c - 1 };
                        assert(after[ac] == before[c]);
                    }
                }
                assert forall|x: u16| #[trigger] vlan_map(after).contains_key(x) implies vlan_map(after)[x] == vlan_map(before)[x] by {
                    let c = choose|c: int| 0 <= c < after.len() && (#[trigger] after[c]).vlan_id == x;
                    lemma_vlan_at(after, c);
                    let bc = if c < k { c } else { c + 1 };
                    assert(after[c] == before[bc]);
                    lemma_vlan_at(before, bc);
                }
            }
        }
        None => {
            assert(vlan_map(before) =~= vlan_map(before).remove(id));
        }
    }
}

/// Puts a port's VLAN in the table, replacing the entry for the port.
fn put_port(list: &mut Vec<(PortId, u16)>, p: PortId, vlan: u16)
    requires
        port_keys_unique(old(list)@),
    ensures
        port_keys_unique(final(list)@),
        port_map(final(list)@) == port_map(old(list)@).insert(port_key(p), vlan),
{
    let ghost before = list@;
    let ghost key = port_key(p);
    let ghost e = (p, vlan);
    match find_port(list, &p) {
        Some(k) => {
            list.set(k, (p, vlan));
            assert(list@ =~= before.update(k as int, e));
        }
        None => {
            list.push((p, vlan));
            assert(list@ =~= before.push(e));
        }
    }
    let ghost after = list@;
    assert(port_keys_unique(after)) by {
        assert forall|i: int, j: int| 0 <= i < j < after.len() implies port_key((#[trigger] after[i]).0) != port_key((#[trigger] after[j]).0) by {
            if i < before.len() && j < before.len() {
                if after[i] != before[i] {
                    assert(port_key(before[j].0) != port_key(before[i].0));
                } else if after[j] != before[j] {
                    assert(port_key(before[i].0) != port_key(before[j].0));
                } else {
                    assert(port_key(before[i].0) != port_key(before[j].0));
                }
            } else if j == before.len() {
                if port_key(before[i].0) == key {
                    assert(port_map(before).contains_key(key));
                }
            }
        }
    }
    assert(port_map(after) =~= port_map(before).insert(key, vlan)) by {
        assert forall|x: (Seq<char>, Option<u32>)| port_map(after).contains_key(x) <==> port_map(before).insert(key, vlan).contains_key(x) by {
            if port_map(after).contains_key(x) {
                let c = choose|c: int| 0 <= c < after.len() && port_key((#[trigger] after[c]).0) == x;
                if c < before.len() && after[c] == before[c] {
                    lemma_port_at(before, c);
                }
            }
            if port_map(before).contains_key(x) && x != key {
                let c = choose|c: int| 0 <= c < before.len() && port_key((#[trigger] before[c]).0) == x;
                assert(after[c] == before[c]);
                assert(port_key(after[c].0) == x);
            }
            if x == key {
                let c = if after.len() > before.len() { before.len() as int } else {
                    choose|c: int| 0 <= c < before.len() && port_key((#[trigger] before[c]).0) == key
                };
                assert(port_key(after[c].0) == key);
            }
        }
        assert forall|x: (Seq<char>, Option<u32>)| #[trigger] port_map(after).contains_key(x) implies port_map(after)[x] == port_map(before).insert(key, vlan)[x] by {
            let c = choose|c: int| 0 <= c < after.len() && port_key((#[trigger] after[c]).0) == x;
            lemma_port_at(after, c);
            if x != key {
                assert(after[c] == before[c]);
                lemma_port_at(before, c);
            }
        }
    }
}

/// Takes the entry for this port out of the table.
fn take_port(list: &mut Vec<(PortId, u16)>, p: &PortId)
    requires
        port_keys_unique(old(list)@),
    ensures
        port_keys_unique(final(list)@),
        port_map(final(list)@) == port_map(old(list)@).remove(port_key(*p)),
{
    let ghost before = list@;
    let ghost key = port_key(*p);
    match find_port(list, p) {
        Some(k) => {
            list.remove(k);
            let ghost after = list@;
            assert(after =~= before.remove(k as int));
            assert(port_keys_unique(after)) by {
                assert forall|i: int, j: int| 0 <= i < j < after.len() implies port_key((#[trigger] after[i]).0) != port_key((#[trigger] after[j]).0) by {
                    let bi = if i < k { i } else { i + 1 };
                    let bj = if j < k { j } else { j + 1 };
                    assert(after[i] == before[bi] && after[j] == before[bj]);
                    assert(port_key(before[bi].0) != port_key(before[bj].0));
                }
            }
            assert(port_map(after) =~= port_map(before).remove(key)) by {
                assert forall|x: (Seq<char>, Option<u32>)| port_map(after).contains_key(x) <==> port_map(before).remove(key).contains_key(x) by {
                    if port_map(after).contains_key(x) {
                        let c = choose|c: int| 0 <= c < after.len() && port_key((#[trigger] after[c]).0) == x;
                        let bc = if c < k { c } else { c + 1 };
                        assert(after[c] == before[bc]);
                        assert(port_key(before[bc].0) != port_key(before[k as int].0));
                    }
                    if port_map(before).contains_key(x) && x != key {
                        let c = choose|c: int| 0 <= c < before.len() && port_key((#[trigger] before[c]).0) == x;
                        let ac = if c < k { c } else { c - 1 };
                        assert(after[ac] == before[c]);
                    }
                }
                assert forall|x: (Seq<char>, Option<u32>)| #[trigger] port_map(after).contains_key(x) implies port_map(after)[x] == port_map(before)[x] by {
                    let c = choose|c: int| 0 <= c < after.len() && port_key((#[trigger] after[c]).0) == x;
                    lemma_port_at(after, c);
                    let bc = if c < k { c } else { c + 1 };
                    assert(after[c] == before[bc]);
                    lemma_port_at(before, bc);
                }
            }
        }
        None => {
            assert(port_map(before) =~= port_map(before).remove(key));
        }
    }
}

// ---------------------------------------------------------------------
// The workflow and its context.

/// State of a switch configuration.
#[derive(Debug)]
pub struct SwitchConfigContext {
    pub switch_id: SwitchId,
    pub switch_name: String,
    /// The VLANs created, without two under one identifier
    pub created_vlans: Vec<VlanConfigRequest>,
    /// The VLAN of each configured port, without two entries for a port
    pub configured_ports: Vec<(PortId, u16)>,
    pub spanning_tree_configured: bool,
    pub events: Vec<InfrastructureEvent>,
    pub validation_errors: Vec<String>,
}

impl SwitchConfigContext {
    /// The tables hold no key twice.
    pub open spec fn wf(&self) -> bool {
        vlan_ids_unique(self.created_vlans@) && port_keys_unique(self.configured_ports@)
    }
}

/// Error of a switch configuration step.
#[derive(Debug)]
pub enum SwitchConfigError {
    Validation(String),
    VlanConfig(String),
    PortConfig(String),
    SpanningTree(String),
}

/// Text of a switch configuration error.
pub open spec fn switch_config_error_text(e: SwitchConfigError) -> Seq<char> {
    match e {
        SwitchConfigError::Validation(m) => "Validation error: "@ + m@,
        SwitchConfigError::VlanConfig(m) => "VLAN configuration error: "@ + m@,
        SwitchConfigError::PortConfig(m) => "Port configuration error: "@ + m@,
        SwitchConfigError::SpanningTree(m) => "Spanning tree error: "@ + m@,
    }
}

impl SwitchConfigError {
    /// The error's text.
    pub fn to_string(&self) -> (s: String)
        ensures
            s@ == switch_config_error_text(*self),
    {
        let (mut s, m) = match self {
            SwitchConfigError::Validation(m) => (owned("Validation error: "), m),
            SwitchConfigError::VlanConfig(m) => (owned("VLAN configuration error: "), m),
            SwitchConfigError::PortConfig(m) => (owned("Port configuration error: "), m),
            SwitchConfigError::SpanningTree(m) => (owned("Spanning tree error: "), m),
        };
        push_str(&mut s, m.as_str());
        s
    }
}

/// A configuration of VLANs and port assignments on one switch.
#[derive(Debug)]
pub struct SwitchConfigurationWorkflow {
    pub switch_id: SwitchId,
    pub switch_name: String,
    pub vlan_configs: Vec<VlanConfigRequest>,
    pub port_assignments: Vec<PortAssignmentRequest>,
}

impl SwitchConfigurationWorkflow {
    /// A configuration of the given switch.
    pub fn new(
        switch_id: SwitchId,
        switch_name: String,
        vlan_configs: Vec<VlanConfigRequest>,
        port_assignments: Vec<PortAssignmentRequest>,
    ) -> (w: Self)
        ensures
            w == (SwitchConfigurationWorkflow { switch_id, switch_name, vlan_configs, port_assignments }),
    {
        SwitchConfigurationWorkflow { switch_id, switch_name, vlan_configs, port_assignments }
    }

    /// The workflow identifier: `switch_config_<switch id>`.
    pub fn workflow_id(&self) -> (s: String)
        ensures
            s@ == "switch_config_"@ + uuid_text(self.switch_id.value),
    {
        let mut s = owned("switch_config_");
        push_str(&mut s, self.switch_id.to_string().as_str());
        s
    }

    /// The workflow's name.
    pub fn workflow_name(&self) -> (s: String)
        ensures
            s@ == "Switch Configuration"@,
    {
        owned("Switch Configuration")
    }

    /// The initial context: nothing created or configured yet.
    pub fn create_context(&self) -> (c: SwitchConfigContext)
        ensures
            c.switch_id == self.switch_id,
            c.switch_name@ == self.switch_name@,
            c.created_vlans@.len() == 0,
            c.configured_ports@.len() == 0,
            !c.spanning_tree_configured,
            c.events@.len() == 0,
            c.validation_errors@.len() == 0,
            c.wf(),
    {
        SwitchConfigContext {
            switch_id: self.switch_id,
            switch_name: self.switch_name.clone(),
            created_vlans: Vec::new(),
            configured_ports: Vec::new(),
            spanning_tree_configured: false,
            events: Vec::new(),
            validation_errors: Vec::new(),
        }
    }
}

/// Metadata at version 1 with fresh correlation and causation identifiers.
fn fresh_metadata(id: SwitchId) -> (m: EventMetadata)
    ensures
        m.aggregate_id@ == uuid_text(id.value),
        m.version == 1,
{
    EventMetadata::new(id.to_string(), CorrelationId::new(), CausationId::new(), 1)
}

/// Metadata of an event of the switch.
pub open spec fn switch_event_meta(m: EventMetadata, id: SwitchId) -> bool {
    m.aggregate_id@ == uuid_text(id.value) && m.version == 1
}

/// The context with its events grown by `n`, the earlier ones kept.
pub open spec fn events_grown(a: Seq<InfrastructureEvent>, b: Seq<InfrastructureEvent>, n: int) -> bool {
    b.len() == a.len() + n && b.subrange(0, a.len() as int) == a
}

// ---------------------------------------------------------------------
// Step 1: validation.

/// The duplicate-identifier errors of the first `n` VLANs: one for each
/// VLAN whose identifier an earlier one has.
pub open spec fn duplicate_errors(s: Seq<VlanConfigRequest>, n: int) -> Seq<Seq<char>>
    decreases n,
{
    if n <= 0 {
        Seq::empty()
    } else {
        duplicate_errors(s, n - 1) + if exists|j: int| 0 <= j < n - 1 && (#[trigger] s[j]).vlan_id == s[n - 1].vlan_id {
            seq!["Duplicate VLAN ID: "@ + dec(s[n - 1].vlan_id as nat)]
        } else {
            Seq::empty()
        }
    }
}

/// The validation errors of a context.
pub open spec fn switch_validation_errors(c: SwitchConfigContext) -> Seq<Seq<char>> {
    (if c.switch_name@.len() == 0 { seq!["Switch name cannot be empty"@] } else { Seq::empty() })
        + duplicate_errors(c.created_vlans@, c.created_vlans@.len() as int)
}

/// Under unique identifiers there is no duplicate error.
pub proof fn lemma_no_duplicate_errors(s: Seq<VlanConfigRequest>, n: int)
    requires
        vlan_ids_unique(s),
        n <= s.len(),
    ensures
        duplicate_errors(s, n) == Seq::<Seq<char>>::empty(),
    decreases n,
{
    if n > 0 {
        lemma_no_duplicate_errors(s, n - 1);
        assert(!exists|j: int| 0 <= j < n - 1 && (#[trigger] s[j]).vlan_id == s[n - 1].vlan_id);
        assert(duplicate_errors(s, n) =~= Seq::<Seq<char>>::empty());
    }
}

/// Checks a switch's name and VLAN identifiers.
#[derive(Debug)]
pub struct ValidateSwitchConfigStep {
    switch_id: SwitchId,
}

impl ValidateSwitchConfigStep {
    /// A validation of the given switch.
    pub fn new(switch_id: SwitchId) -> (s: Self)
        ensures
            s.switch_id() == switch_id,
    {
        ValidateSwitchConfigStep { switch_id }
    }

    /// The switch.
    pub closed spec fn switch_id(&self) -> SwitchId {
        self.switch_id
    }

    /// Refuses an empty switch name and a VLAN identifier created twice;
    /// the errors are kept in the context.
    pub fn execute(&self, context: &mut SwitchConfigContext) -> (r: Result<(), SwitchConfigError>)
        ensures
            switch_validation_errors(*old(context)).len() == 0 ==> r.is_ok() && *final(context) == *old(context),
            switch_validation_errors(*old(context)).len() > 0 ==> {
                &&& *final(context) == (SwitchConfigContext { validation_errors: final(context).validation_errors, ..*old(context) })
                &&& texts(final(context).validation_errors@) == switch_validation_errors(*old(context))
                &&& match r {
                    Err(SwitchConfigError::Validation(m)) =>
                        m@ == "Validation failed: "@ + join(switch_validation_errors(*old(context)), ", "@),
                    _ => false,
                }
            },
    {
        let mut errors: Vec<String> = Vec::new();
        if context.switch_name.as_str().unicode_len() == 0 {
            report(&mut errors, owned("Switch name cannot be empty"));
        }
        let ghost first = texts(errors@);
        let ghost s = context.created_vlans@;
        let mut k: usize = 0;
        while k < context.created_vlans.len()
            invariant
                s == context.created_vlans@,
                k <= s.len(),
                texts(errors@) == first + duplicate_errors(s, k as int),
            decreases s.len() - k,
        {
            let id = context.created_vlans[k].vlan_id;
            let mut seen = false;
            let mut j: usize = 0;
            while j < k
                invariant
                    s == context.created_vlans@,
                    j <= k < s.len(),
                    id == s[k as int].vlan_id,
                    seen <==> exists|i: int| 0 <= i < j && (#[trigger] s[i]).vlan_id == id,
                decreases k - j,
            {
                if context.created_vlans[j].vlan_id == id {
                    seen = true;
                }
                j = j + 1;
            }
            if seen {
                let mut m = owned("Duplicate VLAN ID: ");
                push_dec(&mut m, id as u64);
                report(&mut errors, m);
            }
            assert(texts(errors@) =~= first + duplicate_errors(s, k + 1));
            k = k + 1;
        }
        assert(texts(errors@) == switch_validation_errors(*old(context)));
        if errors.len() > 0 {
            let joined = join_comma(&errors);
            context.validation_errors = errors;
            let mut m = owned("Validation failed: ");
            push_str(&mut m, joined.as_str());
            return Err(SwitchConfigError::Validation(m));
        }
        Ok(())
    }

    /// Nothing to undo.
    pub fn compensate(&self, context: &mut SwitchConfigContext) -> (r: Result<(), SwitchConfigError>)
        ensures
            r.is_ok(),
            *final(context) == *old(context),
    {
        Ok(())
    }
}

// ---------------------------------------------------------------------
// Step 2: VLANs.

/// The requests as identifier-VLAN pairs.
pub open spec fn vlan_pairs(reqs: Seq<VlanConfigRequest>) -> Seq<(u16, VlanConfigRequest)> {
    reqs.map_values(|r: VlanConfigRequest| (r.vlan_id, r))
}

/// The requested identifiers.
pub open spec fn vlan_keys(reqs: Seq<VlanConfigRequest>) -> Seq<u16> {
    reqs.map_values(|r: VlanConfigRequest| r.vlan_id)
}

/// The event of a created VLAN.
pub open spec fn vlan_created_ok(e: InfrastructureEvent, id: SwitchId, r: VlanConfigRequest) -> bool {
    match e {
        InfrastructureEvent::VlanCreated { metadata, switch_id, vlan_id, name, description } =>
            switch_event_meta(metadata, id) && switch_id == id && vlan_id == r.vlan_id && name == r.name
            && description == r.description,
        _ => false,
    }
}

/// The event of a removed VLAN.
pub open spec fn vlan_removed_ok(e: InfrastructureEvent, id: SwitchId, r: VlanConfigRequest) -> bool {
    match e {
        InfrastructureEvent::VlanRemoved { metadata, switch_id, vlan_id } =>
            switch_event_meta(metadata, id) && switch_id == id && vlan_id == r.vlan_id,
        _ => false,
    }
}

/// Creates VLANs.
#[derive(Debug)]
pub struct CreateVlansStep {
    vlan_requests: Vec<VlanConfigRequest>,
}

impl CreateVlansStep {
    /// A creation of the given VLANs.
    pub fn new(vlan_requests: Vec<VlanConfigRequest>) -> (s: Self)
        ensures
            s.requests() == vlan_requests@,
    {
        CreateVlansStep { vlan_requests }
    }

    /// The VLANs to create.
    pub closed spec fn requests(&self) -> Seq<VlanConfigRequest> {
        self.vlan_requests@
    }

    /// Creates each VLAN in turn, replacing one with its identifier, and
    /// records a creation event for each.
    pub fn execute(&self, context: &mut SwitchConfigContext) -> (r: Result<(), SwitchConfigError>)
        requires
            old(context).wf(),
        ensures
            r.is_ok(),
            final(context).wf(),
            *final(context) == (SwitchConfigContext {
                created_vlans: final(context).created_vlans,
                events: final(context).events,
                ..*old(context)
            }),
            vlan_map(final(context).created_vlans@) == insert_all(vlan_map(old(context).created_vlans@), vlan_pairs(self.requests())),
            events_grown(old(context).events@, final(context).events@, self.requests().len() as int),
            forall|i: int| 0 <= i < self.requests().len() ==>
                vlan_created_ok(#[trigger] final(context).events@[old(context).events@.len() + i], old(context).switch_id, self.requests()[i]),
    {
        let ghost reqs = self.vlan_requests@;
        let ghost n0 = context.events@.len();
        let mut i: usize = 0;
        assert(context.events@.subrange(0, n0 as int) =~= context.events@);
        while i < self.vlan_requests.len()
            invariant
                reqs == self.vlan_requests@,
                n0 == old(context).events@.len(),
                i <= reqs.len(),
                vlan_ids_unique(context.created_vlans@),
                port_keys_unique(context.configured_ports@),
                *context == (SwitchConfigContext { created_vlans: context.created_vlans, events: context.events, ..*old(context) }),
                vlan_map(context.created_vlans@) == insert_all(vlan_map(old(context).created_vlans@), vlan_pairs(reqs.take(i as int))),
                events_grown(old(context).events@, context.events@, i as int),
                forall|j: int| 0 <= j < i ==> vlan_created_ok(#[trigger] context.events@[n0 + j], old(context).switch_id, reqs[j]),
            decreases reqs.len() - i,
        {
            let req = &self.vlan_requests[i];
            put_vlan(&mut context.created_vlans, req.clone());
            let event = InfrastructureEvent::VlanCreated {
                metadata: fresh_metadata(context.switch_id),
                switch_id: context.switch_id,
                vlan_id: req.vlan_id,
                name: req.name.clone(),
                description: copy_text(&req.description),
            };
            let ghost before = context.events@;
            context.events.push(event);
            assert(vlan_pairs(reqs.take(i + 1)) =~= vlan_pairs(reqs.take(i as int)).push((reqs[i as int].vlan_id, reqs[i as int])));
            assert(vlan_pairs(reqs.take(i + 1)).drop_last() =~= vlan_pairs(reqs.take(i as int)));
            assert(vlan_pairs(reqs.take(i + 1)).last() == (reqs[i as int].vlan_id, reqs[i as int]));
            assert(context.events@.subrange(0, n0 as int) =~= before.subrange(0, n0 as int));
            assert(context.events@[n0 + i] == context.events@.last());
            i = i + 1;
        }
        assert(reqs.take(reqs.len() as int) =~= reqs);
        Ok(())
    }

    /// Removes each requested VLAN and records a removal event for each.
    pub fn compensate(&self, context: &mut SwitchConfigContext) -> (r: Result<(), SwitchConfigError>)
        requires
            old(context).wf(),
        ensures
            r.is_ok(),
            final(context).wf(),
            *final(context) == (SwitchConfigContext {
                created_vlans: final(context).created_vlans,
                events: final(context).events,
                ..*old(context)
            }),
            vlan_map(final(context).created_vlans@) == remove_all(vlan_map(old(context).created_vlans@), vlan_keys(self.requests())),
            events_grown(old(context).events@, final(context).events@, self.requests().len() as int),
            forall|i: int| 0 <= i < self.requests().len() ==>
                vlan_removed_ok(#[trigger] final(context).events@[old(context).events@.len() + i], old(context).switch_id, self.requests()[i]),
    {
        let ghost reqs = self.vlan_requests@;
        let ghost n0 = context.events@.len();
        let mut i: usize = 0;
        assert(context.events@.subrange(0, n0 as int) =~= context.events@);
        while i < self.vlan_requests.len()
            invariant
                reqs == self.vlan_requests@,
                n0 == old(context).events@.len(),
                i <= reqs.len(),
                vlan_ids_unique(context.created_vlans@),
                port_keys_unique(context.configured_ports@),
                *context == (SwitchConfigContext { created_vlans: context.created_vlans, events: context.events, ..*old(context) }),
                vlan_map(context.created_vlans@) == remove_all(vlan_map(old(context).created_vlans@), vlan_keys(reqs.take(i as int))),
                events_grown(old(context).events@, context.events@, i as int),
                forall|j: int| 0 <= j < i ==> vlan_removed_ok(#[trigger] context.events@[n0 + j], old(context).switch_id, reqs[j]),
            decreases reqs.len() - i,
        {
            let id = self.vlan_requests[i].vlan_id;
            take_vlan(&mut context.created_vlans, id);
            let event = InfrastructureEvent::VlanRemoved {
                metadata: fresh_metadata(context.switch_id),
                switch_id: context.switch_id,
                vlan_id: id,
            };
            let ghost before = context.events@;
            context.events.push(event);
            assert(vlan_keys(reqs.take(i + 1)) =~= vlan_keys(reqs.take(i as int)).push(id));
            assert(vlan_keys(reqs.take(i + 1)).drop_last() =~= vlan_keys(reqs.take(i as int)));
            assert(vlan_keys(reqs.take(i + 1)).last() == id);
            assert(context.events@.subrange(0, n0 as int) =~= before.subrange(0, n0 as int));
            assert(context.events@[n0 + i] == context.events@.last());
            i = i + 1;
        }
        assert(reqs.take(reqs.len() as int) =~= reqs);
        Ok(())
    }
}

/// Removing keys restores a map after inserting pairs whose keys are all
/// among them, when the map held none of those keys.
proof fn lemma_remove_restores<K, V>(m: Map<K, V>, kvs: Seq<(K, V)>, ks: Seq<K>)
    requires
        forall|i: int| 0 <= i < kvs.len() ==> ks.contains((#[trigger] kvs[i]).0),
        forall|i: int| 0 <= i < ks.len() ==> !m.contains_key(#[trigger] ks[i]),
    ensures
        remove_all(insert_all(m, kvs), ks) == m,
{
    lemma_remove_all(insert_all(m, kvs), ks);
    assert forall|i: int| 0 <= i < kvs.len() implies ks.to_set().contains((#[trigger] kvs[i]).0) by {
        assert(ks.contains(kvs[i].0));
    }
    lemma_insert_all_off(m, kvs, ks.to_set());
    assert(m.remove_keys(ks.to_set()) =~= m) by {
        assert forall|k: K| ks.to_set().contains(k) implies !m.contains_key(k) by {
            let i = choose|i: int| 0 <= i < ks.len() && ks[i] == k;
            assert(!m.contains_key(ks[i]));
        }
    }
}

/// Compensating the VLAN step after it ran restores the created VLANs,
/// when none of the requested identifiers had been created before.
pub proof fn law_vlan_compensation_restores(m: Map<u16, VlanConfigRequest>, reqs: Seq<VlanConfigRequest>)
    requires
        forall|i: int| 0 <= i < reqs.len() ==> !m.contains_key((#[trigger] reqs[i]).vlan_id),
    ensures
        remove_all(insert_all(m, vlan_pairs(reqs)), vlan_keys(reqs)) == m,
{
    let ks = vlan_keys(reqs);
    let kvs = vlan_pairs(reqs);
    assert forall|i: int| 0 <= i < kvs.len() implies ks.contains((#[trigger] kvs[i]).0) by {
        assert(ks[i] == kvs[i].0);
    }
    assert forall|i: int| 0 <= i < ks.len() implies !m.contains_key(#[trigger] ks[i]) by {
        assert(ks[i] == reqs[i].vlan_id);
    }
    lemma_remove_restores(m, kvs, ks);
}

// ---------------------------------------------------------------------
// Step 3: ports.

/// The assignments as port-VLAN pairs.
pub open spec fn port_pairs(reqs: Seq<PortAssignmentRequest>) -> Seq<((Seq<char>, Option<u32>), u16)> {
    reqs.map_values(|a: PortAssignmentRequest| (port_key(a.port_id), a.vlan_id))
}

/// The assigned ports.
pub open spec fn port_keys(reqs: Seq<PortAssignmentRequest>) -> Seq<(Seq<char>, Option<u32>)> {
    reqs.map_values(|a: PortAssignmentRequest| port_key(a.port_id))
}

/// The event of an assigned port.
pub open spec fn port_assigned_ok(e: InfrastructureEvent, id: SwitchId, a: PortAssignmentRequest) -> bool {
    match e {
        InfrastructureEvent::PortAssignedToVlan { metadata, switch_id, port_id, vlan_id, access_mode } =>
            switch_event_meta(metadata, id) && switch_id == id && port_id == a.port_id && vlan_id == a.vlan_id
            && access_mode == a.access_mode,
        _ => false,
    }
}

/// The event of an unassigned port.
pub open spec fn port_unassigned_ok(e: InfrastructureEvent, id: SwitchId, a: PortAssignmentRequest) -> bool {
    match e {
        InfrastructureEvent::PortUnassignedFromVlan { metadata, switch_id, port_id, previous_vlan_id } =>
            switch_event_meta(metadata, id) && switch_id == id && port_id == a.port_id && previous_vlan_id == a.vlan_id,
        _ => false,
    }
}

/// Puts ports in VLANs.
#[derive(Debug)]
pub struct ConfigurePortsStep {
    port_assignments: Vec<PortAssignmentRequest>,
}

impl ConfigurePortsStep {
    /// A configuration of the given ports.
    pub fn new(port_assignments: Vec<PortAssignmentRequest>) -> (s: Self)
        ensures
            s.assignments() == port_assignments@,
    {
        ConfigurePortsStep { port_assignments }
    }

    /// The assignments.
    pub closed spec fn assignments(&self) -> Seq<PortAssignmentRequest> {
        self.port_assignments@
    }

    /// Assigns each port in turn, recording an event for each; stops at the
    /// first assignment to a VLAN that was not created.
    pub fn execute(&self, context: &mut SwitchConfigContext) -> (r: Result<(), SwitchConfigError>)
        requires
            old(context).wf(),
        ensures
            final(context).wf(),
            *final(context) == (SwitchConfigContext {
                configured_ports: final(context).configured_ports,
                events: final(context).events,
                ..*old(context)
            }),
            ({
                let reqs = self.assignments();
                let n = final(context).events@.len() - old(context).events@.len();
                let known = vlan_map(old(context).created_vlans@);
                &&& 0 <= n <= reqs.len()
                &&& events_grown(old(context).events@, final(context).events@, n)
                &&& forall|j: int| 0 <= j < n ==> known.contains_key((#[trigger] reqs[j]).vlan_id)
                &&& forall|j: int| 0 <= j < n ==>
                    port_assigned_ok(#[trigger] final(context).events@[old(context).events@.len() + j], old(context).switch_id, reqs[j])
                &&& port_map(final(context).configured_ports@) == insert_all(port_map(old(context).configured_ports@), port_pairs(reqs.take(n)))
                &&& n == reqs.len() ==> r.is_ok()
                &&& n < reqs.len() ==> !known.contains_key(reqs[n].vlan_id) && match r {
                    Err(SwitchConfigError::PortConfig(m)) =>
                        m@ == "VLAN "@ + dec(reqs[n].vlan_id as nat) + " does not exist for port assignment"@,
                    _ => false,
                }
            }),
    {
        let ghost reqs = self.port_assignments@;
        let ghost n0 = context.events@.len();
        let ghost known = vlan_map(context.created_vlans@);
        let mut i: usize = 0;
        assert(context.events@.subrange(0, n0 as int) =~= context.events@);
        while i < self.port_assignments.len()
            invariant
                reqs == self.port_assignments@,
                n0 == old(context).events@.len(),
                known == vlan_map(old(context).created_vlans@),
                i <= reqs.len(),
                vlan_ids_unique(context.created_vlans@),
                port_keys_unique(context.configured_ports@),
                *context == (SwitchConfigContext { configured_ports: context.configured_ports, events: context.events, ..*old(context) }),
                forall|j: int| 0 <= j < i ==> known.contains_key((#[trigger] reqs[j]).vlan_id),
                port_map(context.configured_ports@) == insert_all(port_map(old(context).configured_ports@), port_pairs(reqs.take(i as int))),
                events_grown(old(context).events@, context.events@, i as int),
                forall|j: int| 0 <= j < i ==> port_assigned_ok(#[trigger] context.events@[n0 + j], old(context).switch_id, reqs[j]),
            decreases reqs.len() - i,
        {
            let a = &self.port_assignments[i];
            match find_vlan(&context.created_vlans, a.vlan_id) {
                None => {
                    let mut m = owned("VLAN ");
                    push_dec(&mut m, a.vlan_id as u64);
                    push_str(&mut m, " does not exist for port assignment");
                    return Err(SwitchConfigError::PortConfig(m));
                }
                Some(k) => {
                    proof { lemma_vlan_at(context.created_vlans@, k as int); }
                }
            }
            put_port(&mut context.configured_ports, a.port_id.clone(), a.vlan_id);
            let event = InfrastructureEvent::PortAssignedToVlan {
                metadata: fresh_metadata(context.switch_id),
                switch_id: context.switch_id,
                port_id: a.port_id.clone(),
                vlan_id: a.vlan_id,
                access_mode: a.access_mode,
            };
            let ghost before = context.events@;
            context.events.push(event);
            assert(port_pairs(reqs.take(i + 1)) =~= port_pairs(reqs.take(i as int)).push((port_key(reqs[i as int].port_id), reqs[i as int].vlan_id)));
            assert(port_pairs(reqs.take(i + 1)).drop_last() =~= port_pairs(reqs.take(i as int)));
            assert(port_pairs(reqs.take(i + 1)).last() == (port_key(reqs[i as int].port_id), reqs[i as int].vlan_id));
            assert(context.events@.subrange(0, n0 as int) =~= before.subrange(0, n0 as int));
            assert(context.events@[n0 + i] == context.events@.last());
            i = i + 1;
        }
        assert(reqs.take(reqs.len() as int) =~= reqs);
        Ok(())
    }

    /// Unassigns each requested port and records an event for each.
    pub fn compensate(&self, context: &mut SwitchConfigContext) -> (r: Result<(), SwitchConfigError>)
        requires
            old(context).wf(),
        ensures
            r.is_ok(),
            final(context).wf(),
            *final(context) == (SwitchConfigContext {
                configured_ports: final(context).configured_ports,
                events: final(context).events,
                ..*old(context)
            }),
            port_map(final(context).configured_ports@) == remove_all(port_map(old(context).configured_ports@), port_keys(self.assignments())),
            events_grown(old(context).events@, final(context).events@, self.assignments().len() as int),
            forall|i: int| 0 <= i < self.assignments().len() ==>
                port_unassigned_ok(#[trigger] final(context).events@[old(context).events@.len() + i], old(context).switch_id, self.assignments()[i]),
    {
        let ghost reqs = self.port_assignments@;
        let ghost n0 = context.events@.len();
        let mut i: usize = 0;
        assert(context.events@.subrange(0, n0 as int) =~= context.events@);
        while i < self.port_assignments.len()
            invariant
                reqs == self.port_assignments@,
                n0 == old(context).events@.len(),
                i <= reqs.len(),
                vlan_ids_unique(context.created_vlans@),
                port_keys_unique(context.configured_ports@),
                *context == (SwitchConfigContext { configured_ports: context.configured_ports, events: context.events, ..*old(context) }),
                port_map(context.configured_ports@) == remove_all(port_map(old(context).configured_ports@), port_keys(reqs.take(i as int))),
                events_grown(old(context).events@, context.events@, i as int),
                forall|j: int| 0 <= j < i ==> port_unassigned_ok(#[trigger] context.events@[n0 + j], old(context).switch_id, reqs[j]),
            decreases reqs.len() - i,
        {
            let a = &self.port_assignments[i];
            take_port(&mut context.configured_ports, &a.port_id);
            let event = InfrastructureEvent::PortUnassignedFromVlan {
                metadata: fresh_metadata(context.switch_id),
                switch_id: context.switch_id,
                port_id: a.port_id.clone(),
                previous_vlan_id: a.vlan_id,
            };
            let ghost before = context.events@;
            context.events.push(event);
            assert(port_keys(reqs.take(i + 1)) =~= port_keys(reqs.take(i as int)).push(port_key(reqs[i as int].port_id)));
            assert(port_keys(reqs.take(i + 1)).drop_last() =~= port_keys(reqs.take(i as int)));
            assert(port_keys(reqs.take(i + 1)).last() == port_key(reqs[i as int].port_id));
            assert(context.events@.subrange(0, n0 as int) =~= before.subrange(0, n0 as int));
            assert(context.events@[n0 + i] == context.events@.last());
            i = i + 1;
        }
        assert(reqs.take(reqs.len() as int) =~= reqs);
        Ok(())
    }
}

/// Compensating the port step after it assigned the first `n` ports
/// restores the configured ports, when none of the requested ports had
/// been configured before.
pub proof fn law_port_compensation_restores(
    m: Map<(Seq<char>, Option<u32>), u16>,
    reqs: Seq<PortAssignmentRequest>,
    n: int,
)
    requires
        0 <= n <= reqs.len(),
        forall|i: int| 0 <= i < reqs.len() ==> !m.contains_key(port_key((#[trigger] reqs[i]).port_id)),
    ensures
        remove_all(insert_all(m, port_pairs(reqs.take(n))), port_keys(reqs)) == m,
{
    let ks = port_keys(reqs);
    let kvs = port_pairs(reqs.take(n));
    assert forall|i: int| 0 <= i < kvs.len() implies ks.contains((#[trigger] kvs[i]).0) by {
        assert(ks[i] == kvs[i].0);
    }
    assert forall|i: int| 0 <= i < ks.len() implies !m.contains_key(#[trigger] ks[i]) by {
        assert(ks[i] == port_key(reqs[i].port_id));
    }
    lemma_remove_restores(m, kvs, ks);
}

// ---------------------------------------------------------------------
// Step 4: spanning tree.

/// Enables Rapid Spanning Tree.
#[derive(Debug)]
pub struct ConfigureSpanningTreeStep {
    switch_id: SwitchId,
}

impl ConfigureSpanningTreeStep {
    /// A spanning tree configuration of the given switch.
    pub fn new(switch_id: SwitchId) -> (s: Self)
        ensures
            s.switch_id() == switch_id,
    {
        ConfigureSpanningTreeStep { switch_id }
    }

    /// The switch.
    pub closed spec fn switch_id(&self) -> SwitchId {
        self.switch_id
    }

    /// Marks spanning tree configured and records RSTP at bridge priority
    /// 32768.
    pub fn execute(&self, context: &mut SwitchConfigContext) -> (r: Result<(), SwitchConfigError>)
        ensures
            r.is_ok(),
            *final(context) == (SwitchConfigContext {
                spanning_tree_configured: true,
                events: final(context).events,
                ..*old(context)
            }),
            final(context).events@.drop_last() == old(context).events@,
            final(context).events@.len() == old(context).events@.len() + 1,
            match final(context).events@.last() {
                InfrastructureEvent::SpanningTreeConfigured { metadata, switch_id, protocol, bridge_priority } =>
                    switch_event_meta(metadata, self.switch_id()) && switch_id == self.switch_id()
                    && protocol is Some && protocol.unwrap()@ == "RSTP"@ && bridge_priority == Some(32768u16),
                _ => false,
            },
    {
        context.spanning_tree_configured = true;
        let event = InfrastructureEvent::SpanningTreeConfigured {
            metadata: fresh_metadata(self.switch_id),
            switch_id: self.switch_id,
            protocol: Some(owned("RSTP")),
            bridge_priority: Some(32768),
        };
        context.events.push(event);
        assert(context.events@.drop_last() =~= old(context).events@);
        Ok(())
    }

    /// Marks spanning tree off and records it disabled.
    pub fn compensate(&self, context: &mut SwitchConfigContext) -> (r: Result<(), SwitchConfigError>)
        ensures
            r.is_ok(),
            *final(context) == (SwitchConfigContext {
                spanning_tree_configured: false,
                events: final(context).events,
                ..*old(context)
            }),
            final(context).events@.drop_last() == old(context).events@,
            final(context).events@.len() == old(context).events@.len() + 1,
            match final(context).events@.last() {
                InfrastructureEvent::SpanningTreeDisabled { metadata, switch_id } =>
                    switch_event_meta(metadata, self.switch_id()) && switch_id == self.switch_id(),
                _ => false,
            },
    {
        context.spanning_tree_configured = false;
        let event = InfrastructureEvent::SpanningTreeDisabled {
            metadata: fresh_metadata(self.switch_id),
            switch_id: self.switch_id,
        };
        context.events.push(event);
        assert(context.events@.drop_last() =~= old(context).events@);
        Ok(())
    }
}

// ---------------------------------------------------------------------
// Step 5: verification.

/// The configured port at `k` is in a VLAN that was not created.
pub open spec fn orphan_port(c: SwitchConfigContext, k: int) -> bool {
    !vlan_map(c.created_vlans@).contains_key(c.configured_ports@[k].1)
}

/// Checks the configuration as a whole.
#[derive(Debug)]
pub struct VerifyConfigurationStep {
    switch_id: SwitchId,
}

impl VerifyConfigurationStep {
    /// A verification of the given switch.
    pub fn new(switch_id: SwitchId) -> (s: Self)
        ensures
            s.switch_id() == switch_id,
    {
        VerifyConfigurationStep { switch_id }
    }

    /// The switch.
    pub closed spec fn switch_id(&self) -> SwitchId {
        self.switch_id
    }

    /// Refuses a switch without VLANs, then the first configured port in a
    /// VLAN that was not created, then spanning tree not configured;
    /// otherwise records the verified counts.
    pub fn execute(&self, context: &mut SwitchConfigContext) -> (r: Result<(), SwitchConfigError>)
        ensures
            old(context).created_vlans@.len() == 0 ==> *final(context) == *old(context) && match r {
                Err(SwitchConfigError::Validation(m)) => m@ == "No VLANs were created"@,
                _ => false,
            },
            old(context).created_vlans@.len() > 0 && (exists|k: int| 0 <= k < old(context).configured_ports@.len() && orphan_port(*old(context), k))
                ==> *final(context) == *old(context) && exists|k: int| {
                    &&& 0 <= k < old(context).configured_ports@.len()
                    &&& orphan_port(*old(context), k)
                    &&& forall|j: int| 0 <= j < k ==> !orphan_port(*old(context), j)
                    &&& match r {
                        Err(SwitchConfigError::Validation(m)) => m@ == "Port "@ + port_id_text(old(context).configured_ports@[k].0)
                            + " is assigned to non-existent VLAN "@ + dec(old(context).configured_ports@[k].1 as nat),
                        _ => false,
                    }
                },
            old(context).created_vlans@.len() > 0 && (forall|k: int| 0 <= k < old(context).configured_ports@.len() ==> !orphan_port(*old(context), k))
                && !old(context).spanning_tree_configured ==> *final(context) == *old(context) && match r {
                    Err(SwitchConfigError::Validation(m)) => m@ == "Spanning tree protocol is not configured"@,
                    _ => false,
                },
            old(context).created_vlans@.len() > 0 && (forall|k: int| 0 <= k < old(context).configured_ports@.len() ==> !orphan_port(*old(context), k))
                && old(context).spanning_tree_configured ==> {
                    &&& r.is_ok()
                    &&& *final(context) == (SwitchConfigContext { events: final(context).events, ..*old(context) })
                    &&& final(context).events@.drop_last() == old(context).events@
                    &&& final(context).events@.len() == old(context).events@.len() + 1
                    &&& match final(context).events@.last() {
                        InfrastructureEvent::SwitchConfigurationVerified { metadata, switch_id, vlans_configured, ports_configured, spanning_tree_enabled } =>
                            switch_event_meta(metadata, self.switch_id()) && switch_id == self.switch_id()
                            && vlans_configured == old(context).created_vlans@.len() as u32
                            && ports_configured == old(context).configured_ports@.len() as u32
                            && spanning_tree_enabled,
                        _ => false,
                    }
                },
    {
        if context.created_vlans.len() == 0 {
            return Err(SwitchConfigError::Validation(owned("No VLANs were created")));
        }
        let mut k: usize = 0;
        while k < context.configured_ports.len()
            invariant
                *context == *old(context),
                context.created_vlans@.len() > 0,
                k <= context.configured_ports@.len(),
                forall|j: int| 0 <= j < k ==> !orphan_port(*old(context), j),
            decreases context.configured_ports@.len() - k,
        {
            let vlan = context.configured_ports[k].1;
            match find_vlan(&context.created_vlans, vlan) {
                None => {
                    let mut m = owned("Port ");
                    push_str(&mut m, context.configured_ports[k].0.to_string().as_str());
                    push_str(&mut m, " is assigned to non-existent VLAN ");
                    push_dec(&mut m, vlan as u64);
                    assert(orphan_port(*old(context), k as int));
                    return Err(SwitchConfigError::Validation(m));
                }
                Some(i) => {
                    assert(context.created_vlans@[i as int].vlan_id == vlan);
                    assert(vlan_map(context.created_vlans@).contains_key(vlan));
                }
            }
            k = k + 1;
        }
        if !context.spanning_tree_configured {
            return Err(SwitchConfigError::Validation(owned("Spanning tree protocol is not configured")));
        }
        let event = InfrastructureEvent::SwitchConfigurationVerified {
            metadata: fresh_metadata(self.switch_id),
            switch_id: self.switch_id,
            vlans_configured: #[verifier::truncate] (context.created_vlans.len() as u32),
            ports_configured: #[verifier::truncate] (context.configured_ports.len() as u32),
            spanning_tree_enabled: context.spanning_tree_configured,
        };
        context.events.push(event);
        assert(context.events@.drop_last() =~= old(context).events@);
        Ok(())
    }

    /// Nothing to undo.
    pub fn compensate(&self, context: &mut SwitchConfigContext) -> (r: Result<(), SwitchConfigError>)
        ensures
            r.is_ok(),
            *final(context) == *old(context),
    {
        Ok(())
    }
}

} // verus!

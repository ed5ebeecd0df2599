//! The network service's own logic: what type a vendor's device model
//! is, the cache of known devices and the lifecycle steps it runs on them,
//! and how a device is rebuilt from its stored events. Talking to the
//! vendor controller, the inventory and the event store is the caller's
//! part, between these steps.

use vstd::prelude::*;
use crate::aggregates::{
    NetworkDeviceAggregate, DeviceView, DeviceState, AggregateError, aggregate_error_text, can_transition,
    apply_event_view, discovered_view,
};
use crate::events::NetworkEvent;
use crate::ids::{DeviceId, uuid_text};
use crate::ports::{PortError, VendorDevice};
use crate::value_objects::{DeviceType, MacAddress, mac_text};
use crate::text::{contains_seq, str_contains, owned, push_str};
use crate::params::{to_lower, lower_text, lower_known};

verus! {

/// A gateway model: its lower-case name holds `gateway`, `ugw` or `udm`.
pub open spec fn gateway_model(l: Seq<char>) -> bool {
    contains_seq(l, "gateway"@) || contains_seq(l, "ugw"@) || contains_seq(l, "udm"@)
}

/// A switch model: its lower-case name holds `switch` or `usw`.
pub open spec fn switch_model(l: Seq<char>) -> bool {
    contains_seq(l, "switch"@) || contains_seq(l, "usw"@)
}

/// An access point model: its lower-case name holds `ap`, `uap` or `u6`.
pub open spec fn access_point_model(l: Seq<char>) -> bool {
    contains_seq(l, "ap"@) || contains_seq(l, "uap"@) || contains_seq(l, "u6"@)
}

/// The device type of a vendor model name, tested in the order gateway,
/// switch, access point on the lower-case name; otherwise a generic device
/// of that model.
pub fn infer_device_type(model: &str) -> (t: DeviceType)
    ensures
        gateway_model(lower_text(model@)) ==> t == DeviceType::Gateway,
        !gateway_model(lower_text(model@)) && switch_model(lower_text(model@)) ==> t == DeviceType::Switch,
        !gateway_model(lower_text(model@)) && !switch_model(lower_text(model@)) && access_point_model(lower_text(model@))
            ==> t == DeviceType::AccessPoint,
        !gateway_model(lower_text(model@)) && !switch_model(lower_text(model@)) && !access_point_model(lower_text(model@))
            ==> match t {
                DeviceType::Generic { model: m } => m@ == model@,
                _ => false,
            },
        lower_known(model@),
{
    let lower = to_lower(model);
    let l = lower.as_str();
    if str_contains(l, "gateway") || str_contains(l, "ugw") || str_contains(l, "udm") {
        DeviceType::Gateway
    } else if str_contains(l, "switch") || str_contains(l, "usw") {
        DeviceType::Switch
    } else if str_contains(l, "ap") || str_contains(l, "uap") || str_contains(l, "u6") {
        DeviceType::AccessPoint
    } else {
        DeviceType::Generic { model: owned(model) }
    }
}

// ---------------------------------------------------------------------
// The device cache.

/// The devices the service knows, each read under its identifier.
pub struct DeviceRegistry {
    devices: Vec<NetworkDeviceAggregate>,
}

/// The device with this identifier, if any (the first one).
pub open spec fn device_in(s: Seq<NetworkDeviceAggregate>, id: DeviceId) -> Option<NetworkDeviceAggregate>
    decreases s.len(),
{
    if s.len() == 0 {
        None
    } else if s[0]@.id == id {
        Some(s[0])
    } else {
        device_in(s.drop_first(), id)
    }
}

proof fn lemma_device_in_skip(s: Seq<NetworkDeviceAggregate>, id: DeviceId, m: int)
    requires
        0 <= m <= s.len(),
        forall|j: int| 0 <= j < m ==> (#[trigger] s[j])@.id != id,
    ensures
        device_in(s, id) == device_in(s.subrange(m, s.len() as int), id),
    decreases m,
{
    if m > 0 {
        assert(s.drop_first().subrange(m - 1, s.drop_first().len() as int) =~= s.subrange(m, s.len() as int));
        assert forall|j: int| 0 <= j < m - 1 implies (#[trigger] s.drop_first()[j])@.id != id by {
            assert(s.drop_first()[j] == s[j + 1]);
        }
        lemma_device_in_skip(s.drop_first(), id, m - 1);
    } else {
        assert(s.subrange(0, s.len() as int) =~= s);
    }
}

proof fn lemma_device_in_push(s: Seq<NetworkDeviceAggregate>, d: NetworkDeviceAggregate, id: DeviceId)
    ensures
        device_in(s.push(d), id) == (match device_in(s, id) {
            Some(x) => Some(x),
            None => if d@.id == id { Some(d) } else { None },
        }),
    decreases s.len(),
{
    if s.len() == 0 {
        assert(s.push(d).drop_first() =~= Seq::<NetworkDeviceAggregate>::empty());
        assert(device_in(Seq::<NetworkDeviceAggregate>::empty(), id) is None);
        assert(s.push(d)[0] == d);
    } else {
        assert(s.push(d).drop_first() =~= s.drop_first().push(d));
        assert(s.push(d)[0] == s[0]);
        lemma_device_in_push(s.drop_first(), d, id);
    }
}

proof fn lemma_device_in_update(s: Seq<NetworkDeviceAggregate>, p: int, d: NetworkDeviceAggregate, id: DeviceId)
    requires
        0 <= p < s.len(),
        s[p]@.id == d@.id,
        forall|j: int| 0 <= j < p ==> (#[trigger] s[j])@.id != d@.id,
    ensures
        device_in(s.update(p, d), id) == (if id == d@.id { Some(d) } else { device_in(s, id) }),
    decreases p,
{
    if p == 0 {
        assert(s.update(0, d).drop_first() =~= s.drop_first());
    } else {
        assert(s.update(p, d).drop_first() =~= s.drop_first().update(p - 1, d));
        assert forall|j: int| 0 <= j < p - 1 implies (#[trigger] s.drop_first()[j])@.id != d@.id by {
            assert(s.drop_first()[j] == s[j + 1]);
        }
        lemma_device_in_update(s.drop_first(), p - 1, d, id);
    }
}

/// The service's answer to an aggregate refusing a step.
pub open spec fn refused(r: Result<Vec<NetworkEvent>, PortError>, e: AggregateError) -> bool {
    match r {
        Err(PortError::VendorError(m)) => m@ == aggregate_error_text(e),
        _ => false,
    }
}

impl DeviceRegistry {
    /// The cached devices, in the order they were first cached.
    pub closed spec fn devices(&self) -> Seq<NetworkDeviceAggregate> {
        self.devices@
    }

    /// The cached device with this identifier.
    pub open spec fn device(&self, id: DeviceId) -> Option<NetworkDeviceAggregate> {
        device_in(self.devices(), id)
    }

    /// Every cached device is well formed.
    pub closed spec fn wf(&self) -> bool {
        forall|k: int| 0 <= k < self.devices@.len() ==> (#[trigger] self.devices@[k]).wf()
    }

    /// An empty cache.
    pub fn new() -> (r: Self)
        ensures
            r.wf(),
            r.devices().len() == 0,
            forall|id: DeviceId| r.device(id) is None,
    {
        DeviceRegistry { devices: Vec::new() }
    }

    fn position(&self, id: DeviceId) -> (r: Option<usize>)
        ensures
            match r {
                Some(p) => p < self.devices@.len() && self.devices@[p as int]@.id == id
                    && forall|j: int| 0 <= j < p ==> (#[trigger] self.devices@[j])@.id != id,
                None => forall|j: int| 0 <= j < self.devices@.len() ==> (#[trigger] self.devices@[j])@.id != id,
            },
    {
        let mut k: usize = 0;
        while k < self.devices.len()
            invariant
                k <= self.devices@.len(),
                forall|j: int| 0 <= j < k ==> (#[trigger] self.devices@[j])@.id != id,
            decreases self.devices@.len() - k,
        {
            if self.devices[k].id() == id {
                return Some(k);
            }
            k = k + 1;
        }
        None
    }

    /// The cached device with this identifier.
    pub fn get(&self, id: DeviceId) -> (r: Option<&NetworkDeviceAggregate>)
        ensures
            match self.device(id) {
                Some(d) => r is Some && *r.unwrap() == d,
                None => r is None,
            },
    {
        match self.position(id) {
            Some(p) => {
                proof { lemma_device_in_skip(self.devices@, id, p as int); }
                assert(self.devices@.subrange(p as int, self.devices@.len() as int)[0] == self.devices@[p as int]);
                Some(&self.devices[p])
            }
            None => {
                proof { lemma_device_in_skip(self.devices@, id, self.devices@.len() as int); }
                assert(self.devices@.subrange(self.devices@.len() as int, self.devices@.len() as int).len() == 0);
                None
            }
        }
    }

    /// The identifier of a cached device with this MAC address (the first
    /// cached).
    pub fn find_device_by_mac(&self, mac: MacAddress) -> (r: Option<DeviceId>)
        ensures
            match r {
                Some(id) => exists|k: int| 0 <= k < self.devices().len() && (#[trigger] self.devices()[k])@.mac == mac
                    && self.devices()[k]@.id == id,
                None => forall|k: int| 0 <= k < self.devices().len() ==> (#[trigger] self.devices()[k])@.mac != mac,
            },
    {
        let mut k: usize = 0;
        while k < self.devices.len()
            invariant
                k <= self.devices@.len(),
                forall|j: int| 0 <= j < k ==> (#[trigger] self.devices@[j])@.mac != mac,
            decreases self.devices@.len() - k,
        {
            if self.devices[k].mac() == mac {
                return Some(self.devices[k].id());
            }
            k = k + 1;
        }
        None
    }

    /// Caches a device, replacing the one with its identifier.
    pub fn insert(&mut self, device: NetworkDeviceAggregate)
        requires
            old(self).wf(),
            device.wf(),
        ensures
            final(self).wf(),
            forall|id: DeviceId| #[trigger] final(self).device(id) == (if id == device@.id { Some(device) } else { old(self).device(id) }),
    {
        let ghost before = self.devices@;
        let ghost d = device;
        match self.position(device.id()) {
            Some(p) => {
                self.devices.set(p, device);
                assert forall|id: DeviceId| #[trigger] device_in(self.devices@, id) == (if id == d@.id { Some(d) } else { device_in(before, id) }) by {
                    lemma_device_in_update(before, p as int, d, id);
                }
            }
            None => {
                self.devices.push(device);
                assert forall|id: DeviceId| #[trigger] device_in(self.devices@, id) == (if id == d@.id { Some(d) } else { device_in(before, id) }) by {
                    lemma_device_in_push(before, d, id);
                    lemma_device_in_skip(before, d@.id, before.len() as int);
                    assert(before.subrange(before.len() as int, before.len() as int).len() == 0);
                }
            }
        }
        assert forall|k: int| 0 <= k < self.devices@.len() implies (#[trigger] self.devices@[k]).wf() by {
            if k < before.len() && self.devices@[k] == before[k] {
            }
        }
    }

    /// The identifiers of all cached devices, in cache order.
    pub fn device_ids(&self) -> (r: Vec<DeviceId>)
        ensures
            r@ == self.devices().map_values(|d: NetworkDeviceAggregate| d@.id),
    {
        let mut r: Vec<DeviceId> = Vec::new();
        let mut k: usize = 0;
        while k < self.devices.len()
            invariant
                k <= self.devices@.len(),
                r@ == self.devices@.take(k as int).map_values(|d: NetworkDeviceAggregate| d@.id),
            decreases self.devices@.len() - k,
        {
            r.push(self.devices[k].id());
            assert(self.devices@.take(k + 1) =~= self.devices@.take(k as int).push(self.devices@[k as int]));
            assert(r@ =~= self.devices@.take(k + 1).map_values(|d: NetworkDeviceAggregate| d@.id));
            k = k + 1;
        }
        assert(self.devices@.take(self.devices@.len() as int) =~= self.devices@);
        r
    }

    /// The identifiers of the cached devices in a state, in cache order.
    pub fn device_ids_in_state(&self, state: DeviceState) -> (r: Vec<DeviceId>)
        ensures
            r@ == self.devices().filter(|d: NetworkDeviceAggregate| d@.state == state).map_values(|d: NetworkDeviceAggregate| d@.id),
    {
        let mut r: Vec<DeviceId> = Vec::new();
        let mut k: usize = 0;
        while k < self.devices.len()
            invariant
                k <= self.devices@.len(),
                r@ == self.devices@.take(k as int).filter(|d: NetworkDeviceAggregate| d@.state == state)
                    .map_values(|d: NetworkDeviceAggregate| d@.id),
            decreases self.devices@.len() - k,
        {
            let ghost t = self.devices@.take(k + 1);
            assert(t.drop_last() =~= self.devices@.take(k as int));
            assert(t.last() == self.devices@[k as int]);
            reveal(Seq::filter);
            if self.devices[k].state() == state {
                r.push(self.devices[k].id());
            }
            assert(r@ =~= t.filter(|d: NetworkDeviceAggregate| d@.state == state).map_values(|d: NetworkDeviceAggregate| d@.id));
            k = k + 1;
        }
        assert(self.devices@.take(self.devices@.len() as int) =~= self.devices@);
        r
    }
}

/// A newly discovered device for a vendor's device: its type inferred
/// from the model, named after the vendor's name when there is one, with
/// its events pending.
pub fn prepare_discovered_device(vd: &VendorDevice) -> (d: NetworkDeviceAggregate)
    ensures
        d.wf(),
        d@.mac == vd.mac,
        d@.ip_address == vd.ip_address,
        d@.state == DeviceState::Discovered,
        vd.name@.len() > 0 ==> d@.name == vd.name@,
        d@.version == (if vd.name@.len() > 0 { 2nat } else { 1nat }),
        d.pending().len() == d@.version,
{
    let device_type = infer_device_type(vd.model.as_str());
    let mut d = NetworkDeviceAggregate::new_discovered(vd.mac, device_type, vd.ip_address);
    if vd.name.as_str().unicode_len() > 0 {
        let _ = d.rename(vd.name.clone());
    }
    d
}

impl DeviceRegistry {
    /// Takes the cached device at `p` out, runs a step on it, and puts it
    /// back at `p`.
    fn take_at(&mut self, p: usize) -> (d: NetworkDeviceAggregate)
        requires
            p < old(self).devices@.len(),
        ensures
            d == old(self).devices@[p as int],
            final(self).devices@ == old(self).devices@.remove(p as int),
    {
        self.devices.remove(p)
    }

    fn put_at(&mut self, p: usize, d: NetworkDeviceAggregate)
        requires
            p <= old(self).devices@.len(),
        ensures
            final(self).devices@ == old(self).devices@.insert(p as int, d),
    {
        self.devices.insert(p, d);
    }

    /// Starts adopting a cached device under its MAC address as vendor
    /// identifier, and gives that identifier and the device's pending
    /// events for the event store. Refused for an unknown device, and when
    /// the device's lifecycle does not allow adoption.
    pub fn adopt(&mut self, device_id: DeviceId) -> (r: Result<(String, Vec<NetworkEvent>), PortError>)
        requires
            old(self).wf(),
            forall|d: NetworkDeviceAggregate| old(self).device(device_id) == Some(d) ==> d@.version < u64::MAX,
        ensures
            final(self).wf(),
            match old(self).device(device_id) {
                None => *final(self) == *old(self) && match r {
                    Err(PortError::DeviceNotFound(id)) => id == device_id,
                    _ => false,
                },
                Some(d) => if can_transition(d@.state, DeviceState::Adopting) {
                    exists|n: NetworkDeviceAggregate| {
                        &&& #[trigger] final(self).device(device_id) == Some(n)
                        &&& n@ == apply_event_view(d@, NetworkEvent::DeviceAdopting { device_id, vendor_id: r.unwrap().0 })
                        &&& n.pending().len() == 0
                        &&& r is Ok
                        &&& r.unwrap().0@ == mac_text(d@.mac@)
                        &&& r.unwrap().1@ == d.pending().push(NetworkEvent::DeviceAdopting { device_id, vendor_id: r.unwrap().0 })
                        &&& forall|id: DeviceId| id != device_id ==> final(self).device(id) == old(self).device(id)
                    }
                } else {
                    final(self).devices() == old(self).devices() && match r {
                        Err(PortError::VendorError(m)) =>
                            m@ == aggregate_error_text(AggregateError::InvalidTransition { from: d@.state, to: DeviceState::Adopting }),
                        _ => false,
                    }
                },
            },
    {
        let p = match self.position(device_id) {
            Some(p) => p,
            None => {
                proof { lemma_device_in_skip(self.devices@, device_id, self.devices@.len() as int); }
                assert(self.devices@.subrange(self.devices@.len() as int, self.devices@.len() as int).len() == 0);
                return Err(PortError::DeviceNotFound(device_id));
            }
        };
        proof { lemma_device_in_skip(self.devices@, device_id, p as int); }
        assert(self.devices@.subrange(p as int, self.devices@.len() as int)[0] == self.devices@[p as int]);
        let ghost before = self.devices@;
        let vendor_id = self.devices[p].mac().to_string();
        let mut d = self.take_at(p);
        assert(d.wf());
        match d.adopt(vendor_id.clone()) {
            Ok(()) => {
                let events = d.take_pending_events();
                let ghost nd = d;
                self.put_at(p, d);
                assert(self.devices@ =~= before.update(p as int, nd));
                assert forall|id: DeviceId| #[trigger] device_in(self.devices@, id) == (if id == nd@.id { Some(nd) } else { device_in(before, id) }) by {
                    lemma_device_in_update(before, p as int, nd, id);
                }
                assert forall|k: int| 0 <= k < self.devices@.len() implies (#[trigger] self.devices@[k]).wf() by {
                    if k != p { assert(self.devices@[k] == before[k]); }
                }
                Ok((vendor_id, events))
            }
            Err(e) => {
                self.put_at(p, d);
                assert(self.devices@ =~= before);
                Err(PortError::VendorError(e.to_string()))
            }
        }
    }

    /// Marks a cached device provisioned with its model and firmware, and
    /// gives its pending events for the event store. Refused for an
    /// unknown device, and when its lifecycle does not allow it.
    pub fn mark_provisioned(&mut self, device_id: DeviceId, model: String, firmware_version: String)
        -> (r: Result<Vec<NetworkEvent>, PortError>)
        requires
            old(self).wf(),
            forall|d: NetworkDeviceAggregate| old(self).device(device_id) == Some(d) ==> d@.version < u64::MAX,
        ensures
            final(self).wf(),
            match old(self).device(device_id) {
                None => *final(self) == *old(self) && match r {
                    Err(PortError::DeviceNotFound(id)) => id == device_id,
                    _ => false,
                },
                Some(d) => if can_transition(d@.state, DeviceState::Provisioned) {
                    let e = NetworkEvent::DeviceProvisioned { device_id, model, firmware_version };
                    exists|n: NetworkDeviceAggregate| {
                        &&& #[trigger] final(self).device(device_id) == Some(n)
                        &&& n@ == apply_event_view(d@, e)
                        &&& n.pending().len() == 0
                        &&& r is Ok && r.unwrap()@ == d.pending().push(e)
                        &&& forall|id: DeviceId| id != device_id ==> final(self).device(id) == old(self).device(id)
                    }
                } else {
                    final(self).devices() == old(self).devices()
                        && refused(r, AggregateError::InvalidTransition { from: d@.state, to: DeviceState::Provisioned })
                },
            },
    {
        let p = match self.position(device_id) {
            Some(p) => p,
            None => {
                proof { lemma_device_in_skip(self.devices@, device_id, self.devices@.len() as int); }
                assert(self.devices@.subrange(self.devices@.len() as int, self.devices@.len() as int).len() == 0);
                return Err(PortError::DeviceNotFound(device_id));
            }
        };
        proof { lemma_device_in_skip(self.devices@, device_id, p as int); }
        assert(self.devices@.subrange(p as int, self.devices@.len() as int)[0] == self.devices@[p as int]);
        let ghost before = self.devices@;
        let mut d = self.take_at(p);
        match d.mark_provisioned(model, firmware_version) {
            Ok(()) => {
                let events = d.take_pending_events();
                let ghost nd = d;
                self.put_at(p, d);
                assert(self.devices@ =~= before.update(p as int, nd));
                assert forall|id: DeviceId| #[trigger] device_in(self.devices@, id) == (if id == nd@.id { Some(nd) } else { device_in(before, id) }) by {
                    lemma_device_in_update(before, p as int, nd, id);
                }
                assert forall|k: int| 0 <= k < self.devices@.len() implies (#[trigger] self.devices@[k]).wf() by {
                    if k != p { assert(self.devices@[k] == before[k]); }
                }
                Ok(events)
            }
            Err(e) => {
                self.put_at(p, d);
                assert(self.devices@ =~= before);
                Err(PortError::VendorError(e.to_string()))
            }
        }
    }

    /// Decommissions a cached device and gives its pending events for the
    /// event store. Refused for an unknown device, and when its lifecycle
    /// does not allow it.
    pub fn decommission(&mut self, device_id: DeviceId) -> (r: Result<Vec<NetworkEvent>, PortError>)
        requires
            old(self).wf(),
            forall|d: NetworkDeviceAggregate| old(self).device(device_id) == Some(d) ==> d@.version < u64::MAX,
        ensures
            final(self).wf(),
            match old(self).device(device_id) {
                None => *final(self) == *old(self) && match r {
                    Err(PortError::DeviceNotFound(id)) => id == device_id,
                    _ => false,
                },
                Some(d) => if can_transition(d@.state, DeviceState::Decommissioned) {
                    let e = NetworkEvent::DeviceDecommissioned { device_id };
                    exists|n: NetworkDeviceAggregate| {
                        &&& #[trigger] final(self).device(device_id) == Some(n)
                        &&& n@ == apply_event_view(d@, e)
                        &&& n.pending().len() == 0
                        &&& r is Ok && r.unwrap()@ == d.pending().push(e)
                        &&& forall|id: DeviceId| id != device_id ==> final(self).device(id) == old(self).device(id)
                    }
                } else {
                    final(self).devices() == old(self).devices()
                        && refused(r, AggregateError::InvalidTransition { from: d@.state, to: DeviceState::Decommissioned })
                },
            },
    {
        let p = match self.position(device_id) {
            Some(p) => p,
            None => {
                proof { lemma_device_in_skip(self.devices@, device_id, self.devices@.len() as int); }
                assert(self.devices@.subrange(self.devices@.len() as int, self.devices@.len() as int).len() == 0);
                return Err(PortError::DeviceNotFound(device_id));
            }
        };
        proof { lemma_device_in_skip(self.devices@, device_id, p as int); }
        assert(self.devices@.subrange(p as int, self.devices@.len() as int)[0] == self.devices@[p as int]);
        let ghost before = self.devices@;
        let mut d = self.take_at(p);
        match d.decommission() {
            Ok(()) => {
                let events = d.take_pending_events();
                let ghost nd = d;
                self.put_at(p, d);
                assert(self.devices@ =~= before.update(p as int, nd));
                assert forall|id: DeviceId| #[trigger] device_in(self.devices@, id) == (if id == nd@.id { Some(nd) } else { device_in(before, id) }) by {
                    lemma_device_in_update(before, p as int, nd, id);
                }
                assert forall|k: int| 0 <= k < self.devices@.len() implies (#[trigger] self.devices@[k]).wf() by {
                    if k != p { assert(self.devices@[k] == before[k]); }
                }
                Ok(events)
            }
            Err(e) => {
                self.put_at(p, d);
                assert(self.devices@ =~= before);
                Err(PortError::VendorError(e.to_string()))
            }
        }
    }
}

/// The event recording that a device was synced to an inventory: its
/// record is `<system>-<device id>`.
pub fn inventory_sync_event(system_name: &str, device_id: DeviceId) -> (e: NetworkEvent)
    ensures
        match e {
            NetworkEvent::DeviceSyncedToInventory { device_id: d, inventory_id, system } =>
                d == device_id && inventory_id@ == system_name@ + "-"@ + uuid_text(device_id.value) && system@ == system_name@,
            _ => false,
        },
{
    let mut inventory_id = owned(system_name);
    push_str(&mut inventory_id, "-");
    push_str(&mut inventory_id, device_id.to_string().as_str());
    NetworkEvent::DeviceSyncedToInventory { device_id, inventory_id, system: owned(system_name) }
}

/// One step of the service's replay: a discovery starts a device afresh;
/// adoption, provisioning, decommissioning and renaming change the device
/// built so far when its lifecycle allows them; other events change
/// nothing.
pub open spec fn service_replay_step(acc: Option<DeviceView>, e: NetworkEvent) -> Option<DeviceView> {
    match e {
        NetworkEvent::DeviceDiscovered { device_id, mac, device_type, ip_address } =>
            Some(discovered_view(device_id, mac, device_type, ip_address)),
        NetworkEvent::DeviceAdopting { .. } => match acc {
            Some(d) => Some(if can_transition(d.state, DeviceState::Adopting) { apply_event_view(d, e) } else { d }),
            None => None,
        },
        NetworkEvent::DeviceProvisioned { .. } => match acc {
            Some(d) => Some(if can_transition(d.state, DeviceState::Provisioned) { apply_event_view(d, e) } else { d }),
            None => None,
        },
        NetworkEvent::DeviceDecommissioned { .. } => match acc {
            Some(d) => Some(if can_transition(d.state, DeviceState::Decommissioned) { apply_event_view(d, e) } else { d }),
            None => None,
        },
        NetworkEvent::DeviceRenamed { .. } => match acc {
            Some(d) => Some(if d.state != DeviceState::Decommissioned { apply_event_view(d, e) } else { d }),
            None => None,
        },
        _ => acc,
    }
}

/// The device the service rebuilds from a sequence of events, if any.
pub open spec fn service_replay(events: Seq<NetworkEvent>) -> Option<DeviceView>
    decreases events.len(),
{
    if events.len() == 0 {
        None
    } else {
        service_replay_step(service_replay(events.drop_last()), events.last())
    }
}

/// Rebuilds a device from its stored events as the service does, with no
/// events pending; `None` when no discovery is among them.
pub fn replay_device(events: &Vec<NetworkEvent>) -> (r: Option<NetworkDeviceAggregate>)
    requires
        events@.len() < u64::MAX - 1,
    ensures
        match service_replay(events@) {
            Some(v) => r is Some && r.unwrap()@ == v && r.unwrap().wf() && r.unwrap().pending().len() == 0,
            None => r is None,
        },
{
    let mut agg: Option<NetworkDeviceAggregate> = None;
    let mut k: usize = 0;
    while k < events.len()
        invariant
            k <= events@.len(),
            events@.len() < u64::MAX - 1,
            match service_replay(events@.take(k as int)) {
                Some(v) => agg is Some && agg.unwrap()@ == v && agg.unwrap().wf() && agg.unwrap().pending().len() == 0
                    && v.version <= k + 1,
                None => agg is None,
            },
        decreases events@.len() - k,
    {
        let ghost prefix = events@.take(k + 1);
        assert(prefix.drop_last() =~= events@.take(k as int));
        assert(prefix.last() == events@[k as int]);
        match &events[k] {
            NetworkEvent::DeviceDiscovered { device_id, mac, device_type, ip_address } => {
                let mut d = NetworkDeviceAggregate::discovered_with_id(*device_id, *mac, device_type.clone(), *ip_address);
                let _ = d.take_pending_events();
                agg = Some(d);
            }
            NetworkEvent::DeviceAdopting { vendor_id, .. } => {
                match agg {
                    Some(mut d) => {
                        let _ = d.adopt(vendor_id.clone());
                        let _ = d.take_pending_events();
                        agg = Some(d);
                    }
                    None => {}
                }
            }
            NetworkEvent::DeviceProvisioned { model, firmware_version, .. } => {
                match agg {
                    Some(mut d) => {
                        let _ = d.mark_provisioned(model.clone(), firmware_version.clone());
                        let _ = d.take_pending_events();
                        agg = Some(d);
                    }
                    None => {}
                }
            }
            NetworkEvent::DeviceDecommissioned { .. } => {
                match agg {
                    Some(mut d) => {
                        let _ = d.decommission();
                        let _ = d.take_pending_events();
                        agg = Some(d);
                    }
                    None => {}
                }
            }
            NetworkEvent::DeviceRenamed { new_name, .. } => {
                match agg {
                    Some(mut d) => {
                        let _ = d.rename(new_name.clone());
                        let _ = d.take_pending_events();
                        agg = Some(d);
                    }
                    None => {}
                }
            }
            _ => {}
        }
        k = k + 1;
    }
    assert(events@.take(events@.len() as int) =~= events@);
    agg
}

} // verus!

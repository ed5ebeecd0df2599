//! The network device aggregate: a consistency boundary for one device,
//! with a lifecycle state machine, an event for every change, and
//! reconstruction from its events.

use vstd::prelude::*;
use crate::ids::{DeviceId, uuid_text};
use crate::ip::IpAddress;
use crate::text::{push_str, owned};
use crate::events::NetworkEvent;
use crate::value_objects::{MacAddress, DeviceType, InterfaceConfig, VlanConfig, clone_interfaces, clone_vlans};

verus! {

/// Device lifecycle states.
#[derive(Debug, Clone, Copy, PartialEq, Eq, Structural, Hash)]
pub enum DeviceState {
    /// Device discovered but not yet adopted
    Discovered,
    /// Device is being adopted
    Adopting,
    /// Device is provisioned and operational
    Provisioned,
    /// Device is being configured
    Configuring,
    /// Device encountered an error
    Error,
    /// Device has been decommissioned (terminal state)
    Decommissioned,
}

/// The states a device may move to from `s`, in order.
pub open spec fn transitions_from(s: DeviceState) -> Seq<DeviceState> {
    match s {
        DeviceState::Discovered => seq![DeviceState::Adopting, DeviceState::Decommissioned],
        DeviceState::Adopting => seq![DeviceState::Provisioned, DeviceState::Error],
        DeviceState::Provisioned => seq![DeviceState::Configuring, DeviceState::Decommissioned],
        DeviceState::Configuring => seq![DeviceState::Provisioned, DeviceState::Error],
        DeviceState::Error => seq![DeviceState::Adopting, DeviceState::Decommissioned],
        DeviceState::Decommissioned => seq![],
    }
}

/// Whether the lifecycle allows moving from `from` to `to`.
pub open spec fn can_transition(from: DeviceState, to: DeviceState) -> bool {
    transitions_from(from).contains(to)
}

/// Name of a state.
pub open spec fn state_name(s: DeviceState) -> Seq<char> {
    match s {
        DeviceState::Discovered => "Discovered"@,
        DeviceState::Adopting => "Adopting"@,
        DeviceState::Provisioned => "Provisioned"@,
        DeviceState::Configuring => "Configuring"@,
        DeviceState::Error => "Error"@,
        DeviceState::Decommissioned => "Decommissioned"@,
    }
}

impl DeviceState {
    /// The states this state may move to.
    pub fn valid_transitions(&self) -> (v: Vec<DeviceState>)
        ensures
            v@ == transitions_from(*self),
    {
        let v = match self {
            DeviceState::Discovered => vec![DeviceState::Adopting, DeviceState::Decommissioned],
            DeviceState::Adopting => vec![DeviceState::Provisioned, DeviceState::Error],
            DeviceState::Provisioned => vec![DeviceState::Configuring, DeviceState::Decommissioned],
            DeviceState::Configuring => vec![DeviceState::Provisioned, DeviceState::Error],
            DeviceState::Error => vec![DeviceState::Adopting, DeviceState::Decommissioned],
            DeviceState::Decommissioned => Vec::new(),
        };
        assert(v@ =~= transitions_from(*self));
        v
    }

    /// Whether moving to `target` is a valid transition.
    pub fn can_transition_to(&self, target: DeviceState) -> (r: bool)
        ensures
            r == can_transition(*self, target),
    {
        let v = self.valid_transitions();
        let mut i: usize = 0;
        while i < v.len()
            invariant
                v@ == transitions_from(*self),
                i <= v@.len(),
                forall|j: int| 0 <= j < i ==> v@[j] != target,
            decreases v@.len() - i,
        {
            if v[i] == target {
                assert(v@[i as int] == target);
                return true;
            }
            i = i + 1;
        }
        false
    }

    /// Whether this is the terminal state.
    pub fn is_terminal(&self) -> (r: bool)
        ensures
            r == (*self == DeviceState::Decommissioned),
    {
        match self {
            DeviceState::Decommissioned => true,
            _ => false,
        }
    }

    /// The state's name.
    pub fn name(&self) -> (s: &'static str)
        ensures
            s@ == state_name(*self),
    {
        match self {
            DeviceState::Discovered => "Discovered",
            DeviceState::Adopting => "Adopting",
            DeviceState::Provisioned => "Provisioned",
            DeviceState::Configuring => "Configuring",
            DeviceState::Error => "Error",
            DeviceState::Decommissioned => "Decommissioned",
        }
    }

    /// The initial state, `Discovered`.
    pub fn default() -> (s: DeviceState)
        ensures
            s == DeviceState::Discovered,
    {
        DeviceState::Discovered
    }
}

/// Aggregate errors.
#[derive(Debug)]
pub enum AggregateError {
    /// The lifecycle does not allow this transition.
    InvalidTransition { from: DeviceState, to: DeviceState },
    /// The operation is not allowed in the current state.
    InvalidState { current: DeviceState, operation: String },
    /// Optimistic concurrency conflict.
    ConcurrencyConflict { expected: u64, actual: u64 },
}

/// Text of an aggregate error.
pub open spec fn aggregate_error_text(e: AggregateError) -> Seq<char> {
    match e {
        AggregateError::InvalidTransition { from, to } =>
            "Invalid state transition from "@ + state_name(from) + " to "@ + state_name(to),
        AggregateError::InvalidState { current, operation } =>
            "Invalid operation '"@ + operation@ + "' in state "@ + state_name(current),
        AggregateError::ConcurrencyConflict { expected, actual } =>
            "Concurrency conflict: expected version "@ + crate::text::dec(expected as nat) + ", found "@
            + crate::text::dec(actual as nat),
    }
}

impl AggregateError {
    /// The error's text.
    pub fn to_string(&self) -> (s: String)
        ensures
            s@ == aggregate_error_text(*self),
    {
        match self {
            AggregateError::InvalidTransition { from, to } => {
                let mut s = owned("Invalid state transition from ");
                push_str(&mut s, from.name());
                push_str(&mut s, " to ");
                push_str(&mut s, to.name());
                s
            }
            AggregateError::InvalidState { current, operation } => {
                let mut s = owned("Invalid operation '");
                push_str(&mut s, operation.as_str());
                push_str(&mut s, "' in state ");
                push_str(&mut s, current.name());
                s
            }
            AggregateError::ConcurrencyConflict { expected, actual } => {
                let mut s = owned("Concurrency conflict: expected version ");
                crate::text::push_dec(&mut s, *expected);
                push_str(&mut s, ", found ");
                crate::text::push_dec(&mut s, *actual);
                s
            }
        }
    }
}

/// Everything an aggregate holds except its pending events.
pub struct DeviceView {
    pub id: DeviceId,
    pub state: DeviceState,
    pub version: nat,
    pub mac: MacAddress,
    pub device_type: DeviceType,
    pub name: Seq<char>,
    pub model: Option<String>,
    pub firmware_version: Option<String>,
    pub ip_address: Option<IpAddress>,
    pub vendor_id: Option<String>,
    pub interfaces: Seq<InterfaceConfig>,
    pub vlans: Seq<VlanConfig>,
    pub error_message: Option<String>,
}

/// The default name of a device: `Device-` and the first eight characters
/// of its identifier's text.
pub open spec fn default_device_name(id: DeviceId) -> Seq<char> {
    "Device-"@ + uuid_text(id.value).subrange(0, 8)
}

/// A device as its discovery event creates it.
pub open spec fn discovered_view(
    id: DeviceId,
    mac: MacAddress,
    device_type: DeviceType,
    ip_address: Option<IpAddress>,
) -> DeviceView {
    DeviceView {
        id,
        state: DeviceState::Discovered,
        version: 1,
        mac,
        device_type,
        name: default_device_name(id),
        model: None,
        firmware_version: None,
        ip_address,
        vendor_id: None,
        interfaces: Seq::empty(),
        vlans: Seq::empty(),
        error_message: None,
    }
}

/// The effect of one recorded event (other than a discovery) on a device.
pub open spec fn apply_event_view(d: DeviceView, e: NetworkEvent) -> DeviceView {
    let d1 = DeviceView { version: d.version + 1, ..d };
    match e {
        NetworkEvent::DeviceAdopting { vendor_id, .. } => DeviceView {
            state: DeviceState::Adopting,
            vendor_id: Some(vendor_id),
            ..d1
        },
        NetworkEvent::DeviceProvisioned { model, firmware_version, .. } => DeviceView {
            state: DeviceState::Provisioned,
            model: Some(model),
            firmware_version: Some(firmware_version),
            ..d1
        },
        NetworkEvent::DeviceConfiguring { .. } => DeviceView { state: DeviceState::Configuring, ..d1 },
        NetworkEvent::DeviceConfigured { interfaces, vlans, .. } => DeviceView {
            state: DeviceState::Provisioned,
            interfaces: interfaces@,
            vlans: vlans@,
            ..d1
        },
        NetworkEvent::DeviceError { message, .. } => DeviceView {
            state: DeviceState::Error,
            error_message: Some(message),
            ..d1
        },
        NetworkEvent::DeviceDecommissioned { .. } => DeviceView { state: DeviceState::Decommissioned, ..d1 },
        NetworkEvent::DeviceRenamed { new_name, .. } => DeviceView { name: new_name@, ..d1 },
        _ => d1,
    }
}

/// One replay step: a discovery event starts a device afresh; any other
/// event changes the device built so far, if there is one.
pub open spec fn replay_step(acc: Option<DeviceView>, e: NetworkEvent) -> Option<DeviceView> {
    match e {
        NetworkEvent::DeviceDiscovered { device_id, mac, device_type, ip_address } =>
            Some(discovered_view(device_id, mac, device_type, ip_address)),
        _ => match acc {
            Some(d) => Some(apply_event_view(d, e)),
            None => None,
        },
    }
}

/// The device that a sequence of events rebuilds, if any.
pub open spec fn replay(events: Seq<NetworkEvent>) -> Option<DeviceView>
    decreases events.len(),
{
    if events.len() == 0 {
        None
    } else {
        replay_step(replay(events.drop_last()), events.last())
    }
}

/// Replaying one more event is one more replay step.
pub proof fn lemma_replay_push(events: Seq<NetworkEvent>, e: NetworkEvent)
    ensures
        replay(events.push(e)) == replay_step(replay(events), e),
{
    assert(events.push(e).drop_last() =~= events);
}

/// Network device aggregate.
#[derive(Clone)]
pub struct NetworkDeviceAggregate {
    id: DeviceId,
    state: DeviceState,
    version: u64,
    mac: MacAddress,
    device_type: DeviceType,
    name: String,
    model: Option<String>,
    firmware_version: Option<String>,
    ip_address: Option<IpAddress>,
    vendor_id: Option<String>,
    interfaces: Vec<InterfaceConfig>,
    vlans: Vec<VlanConfig>,
    pending_events: Vec<NetworkEvent>,
    error_message: Option<String>,
    history: Ghost<Seq<NetworkEvent>>,
}

impl View for NetworkDeviceAggregate {
    type V = DeviceView;

    closed spec fn view(&self) -> DeviceView {
        DeviceView {
            id: self.id,
            state: self.state,
            version: self.version as nat,
            mac: self.mac,
            device_type: self.device_type,
            name: self.name@,
            model: self.model,
            firmware_version: self.firmware_version,
            ip_address: self.ip_address,
            vendor_id: self.vendor_id,
            interfaces: self.interfaces@,
            vlans: self.vlans@,
            error_message: self.error_message,
        }
    }
}

impl NetworkDeviceAggregate {
    /// Events recorded and not yet taken.
    pub closed spec fn pending(&self) -> Seq<NetworkEvent> {
        self.pending_events@
    }

    /// The name as a string value.
    pub closed spec fn name_value(&self) -> String {
        self.name
    }

    /// Every event this aggregate was built from or has recorded, in order.
    pub closed spec fn history(&self) -> Seq<NetworkEvent> {
        self.history@
    }

    /// The aggregate is what its history replays to, and its pending events
    /// are the latest events of its history.
    pub closed spec fn wf(&self) -> bool {
        &&& replay(self.history@) == Some(self@)
        &&& self.pending_events@.len() <= self.history@.len()
        &&& self.history@.subrange(self.history@.len() - self.pending_events@.len(), self.history@.len() as int)
            == self.pending_events@
    }

    fn default_name(id: DeviceId) -> (s: String)
        ensures
            s@ == default_device_name(id),
    {
        let t = id.to_string();
        let mut s = owned("Device-");
        push_str(&mut s, t.as_str().substring_char(0, 8));
        s
    }

    /// Records an event: bumps the version and appends it to the pending
    /// events and the history.
    fn record(&mut self, e: NetworkEvent)
        requires
            old(self).version < u64::MAX,
            old(self).pending_events@.len() <= old(self).history@.len(),
            old(self).history@.subrange(
                old(self).history@.len() - old(self).pending_events@.len(),
                old(self).history@.len() as int,
            ) == old(self).pending_events@,
        ensures
            final(self).version == old(self).version + 1,
            final(self).pending_events@ == old(self).pending_events@.push(e),
            final(self).history@ == old(self).history@.push(e),
            final(self).pending_events@.len() <= final(self).history@.len(),
            final(self).history@.subrange(
                final(self).history@.len() - final(self).pending_events@.len(),
                final(self).history@.len() as int,
            ) == final(self).pending_events@,
            final(self).id == old(self).id,
            final(self).state == old(self).state,
            final(self).mac == old(self).mac,
            final(self).device_type == old(self).device_type,
            final(self).name == old(self).name,
            final(self).model == old(self).model,
            final(self).firmware_version == old(self).firmware_version,
            final(self).ip_address == old(self).ip_address,
            final(self).vendor_id == old(self).vendor_id,
            final(self).interfaces == old(self).interfaces,
            final(self).vlans == old(self).vlans,
            final(self).error_message == old(self).error_message,
    {
        let ghost ev = e;
        self.version = self.version + 1;
        self.pending_events.push(e);
        proof {
            self.history@ = self.history@.push(ev);
            let h = self.history@;
            let p = self.pending_events@;
            assert(h.subrange(h.len() - p.len(), h.len() as int) =~= p);
        }
    }

    /// A new device aggregate from discovery, with a fresh identifier and
    /// its discovery event pending.
    pub fn new_discovered(mac: MacAddress, device_type: DeviceType, ip_address: Option<IpAddress>) -> (d: Self)
        ensures
            d.wf(),
            d@ == discovered_view(d@.id, mac, device_type, ip_address),
            d.pending() == seq![NetworkEvent::DeviceDiscovered { device_id: d@.id, mac, device_type, ip_address }],
            d.history() == d.pending(),
    {
        Self::discovered_with_id(DeviceId::new(), mac, device_type, ip_address)
    }

    /// A device aggregate from discovery under the given identifier, with
    /// its discovery event pending.
    pub(crate) fn discovered_with_id(id: DeviceId, mac: MacAddress, device_type: DeviceType, ip_address: Option<IpAddress>)
        -> (d: Self)
        ensures
            d.wf(),
            d@.id == id,
            d@ == discovered_view(id, mac, device_type, ip_address),
            d.pending() == seq![NetworkEvent::DeviceDiscovered { device_id: id, mac, device_type, ip_address }],
            d.history() == d.pending(),
    {
        let ghost e = NetworkEvent::DeviceDiscovered { device_id: id, mac, device_type, ip_address };
        let mut device = NetworkDeviceAggregate {
            id,
            state: DeviceState::Discovered,
            version: 0,
            mac,
            device_type: device_type.clone(),
            name: Self::default_name(id),
            model: None,
            firmware_version: None,
            ip_address,
            vendor_id: None,
            interfaces: Vec::new(),
            vlans: Vec::new(),
            pending_events: Vec::new(),
            error_message: None,
            history: Ghost(Seq::empty()),
        };
        assert(device.history@.subrange(0, 0) =~= device.pending_events@);
        device.record(NetworkEvent::DeviceDiscovered { device_id: id, mac, device_type, ip_address });
        proof {
            lemma_replay_push(Seq::empty(), e);
            assert(seq![e] =~= Seq::<NetworkEvent>::empty().push(e));
            assert(device@ =~= discovered_view(id, mac, device_type, ip_address));
        }
        device
    }

    /// Rebuilds a device from its events: a discovery event starts it, the
    /// other events change it in order; `None` when no discovery event is
    /// among them.
    pub fn from_events(events: Vec<NetworkEvent>) -> (r: Option<Self>)
        ensures
            r.is_some() == replay(events@).is_some(),
            r.is_some() ==> r.unwrap()@ == replay(events@).unwrap() && r.unwrap().wf()
                && r.unwrap().pending() == Seq::<NetworkEvent>::empty()
                && r.unwrap().history() == events@,
    {
        let ghost all = events@;
        let total = events.len();
        // Reverse the events so that popping yields them in order.
        let mut src = events;
        let mut rev: Vec<NetworkEvent> = Vec::new();
        while src.len() > 0
            invariant
                src@.len() + rev@.len() == all.len(),
                forall|j: int| 0 <= j < src@.len() ==> src@[j] == all[j],
                forall|j: int| 0 <= j < rev@.len() ==> rev@[j] == all[all.len() - 1 - j],
            decreases src@.len(),
        {
            let e = src.pop().unwrap();
            rev.push(e);
        }
        let mut device: Option<Self> = None;
        let mut k: usize = 0;
        while rev.len() > 0
            invariant
                k + rev@.len() == all.len(),
                total == all.len(),
                forall|j: int| 0 <= j < rev@.len() ==> rev@[j] == all[all.len() - 1 - j],
                device.is_some() == replay(all.subrange(0, k as int)).is_some(),
                device.is_some() ==> device.unwrap()@ == replay(all.subrange(0, k as int)).unwrap()
                    && device.unwrap().history@ == all.subrange(0, k as int)
                    && device.unwrap().pending_events@ == Seq::<NetworkEvent>::empty()
                    && device.unwrap().version as int <= k,
            decreases rev@.len(),
        {
            let event = rev.pop().unwrap();
            let ghost ev = event;
            assert(ev == all[k as int]);
            let ghost prefix = all.subrange(0, k as int);
            proof {
                lemma_replay_push(prefix, ev);
                assert(all.subrange(0, k + 1) =~= prefix.push(ev));
            }
            match event {
                NetworkEvent::DeviceDiscovered { device_id, mac, device_type, ip_address } => {
                    let name = Self::default_name(device_id);
                    device = Some(NetworkDeviceAggregate {
                        id: device_id,
                        state: DeviceState::Discovered,
                        version: 1,
                        mac,
                        device_type,
                        name,
                        model: None,
                        firmware_version: None,
                        ip_address,
                        vendor_id: None,
                        interfaces: Vec::new(),
                        vlans: Vec::new(),
                        pending_events: Vec::new(),
                        error_message: None,
                        history: Ghost(all.subrange(0, k + 1)),
                    });
                    assert(device.unwrap()@ =~= discovered_view(device_id, mac, device_type, ip_address));
                }
                other => {
                    match device {
                        Some(mut d) => {
                            let ghost before = d@;
                            d.apply_existing_event(other);
                            proof {
                                d.history@ = all.subrange(0, k + 1);
                            }
                            assert(d@ =~= apply_event_view(before, ev));
                            device = Some(d);
                        }
                        None => {}
                    }
                }
            }
            k = k + 1;
        }
        assert(all.subrange(0, k as int) =~= all);
        match device {
            Some(d) => {
                assert(d.history@.subrange(d.history@.len() - 0, d.history@.len() as int) =~= d.pending_events@);
                Some(d)
            }
            None => None,
        }
    }

    /// Changes the device by a recorded event other than a discovery.
    fn apply_existing_event(&mut self, event: NetworkEvent)
        requires
            old(self).version < u64::MAX,
            !(event is DeviceDiscovered),
        ensures
            final(self)@ == apply_event_view(old(self)@, event),
            final(self).pending_events == old(self).pending_events,
            final(self).history == old(self).history,
    {
        match event {
            NetworkEvent::DeviceAdopting { vendor_id, .. } => {
                self.state = DeviceState::Adopting;
                self.vendor_id = Some(vendor_id);
            }
            NetworkEvent::DeviceProvisioned { model, firmware_version, .. } => {
                self.state = DeviceState::Provisioned;
                self.model = Some(model);
                self.firmware_version = Some(firmware_version);
            }
            NetworkEvent::DeviceConfiguring { .. } => {
                self.state = DeviceState::Configuring;
            }
            NetworkEvent::DeviceConfigured { interfaces, vlans, .. } => {
                self.state = DeviceState::Provisioned;
                self.interfaces = interfaces;
                self.vlans = vlans;
            }
            NetworkEvent::DeviceError { message, .. } => {
                self.state = DeviceState::Error;
                self.error_message = Some(message);
            }
            NetworkEvent::DeviceDecommissioned { .. } => {
                self.state = DeviceState::Decommissioned;
            }
            NetworkEvent::DeviceRenamed { new_name, .. } => {
                self.name = new_name;
            }
            _ => {}
        }
        self.version = self.version + 1;
    }

    /// Device identifier.
    pub fn id(&self) -> (r: DeviceId)
        ensures
            r == self@.id,
    {
        self.id
    }

    /// Current state.
    pub fn state(&self) -> (r: DeviceState)
        ensures
            r == self@.state,
    {
        self.state
    }

    /// Version: the number of events the device is built from.
    pub fn version(&self) -> (r: u64)
        ensures
            r == self@.version,
    {
        self.version
    }

    /// MAC address.
    pub fn mac(&self) -> (r: MacAddress)
        ensures
            r == self@.mac,
    {
        self.mac
    }

    /// Device type.
    pub fn device_type(&self) -> (r: &DeviceType)
        ensures
            *r == self@.device_type,
    {
        &self.device_type
    }

    /// Device name.
    pub fn name(&self) -> (r: &str)
        ensures
            r@ == self@.name,
    {
        self.name.as_str()
    }

    /// IP address.
    pub fn ip_address(&self) -> (r: Option<IpAddress>)
        ensures
            r == self@.ip_address,
    {
        self.ip_address
    }

    /// Vendor-specific identifier.
    pub fn vendor_id(&self) -> (r: Option<&String>)
        ensures
            r.is_some() == self@.vendor_id.is_some(),
            r.is_some() ==> *r.unwrap() == self@.vendor_id.unwrap(),
    {
        match &self.vendor_id {
            Some(v) => Some(v),
            None => None,
        }
    }

    /// Interface configurations.
    pub fn interfaces(&self) -> (r: &Vec<InterfaceConfig>)
        ensures
            r@ == self@.interfaces,
    {
        &self.interfaces
    }

    /// Hands out the pending events, leaving none pending.
    pub fn take_pending_events(&mut self) -> (r: Vec<NetworkEvent>)
        requires
            old(self).wf(),
        ensures
            final(self).wf(),
            r@ == old(self).pending(),
            final(self).pending() == Seq::<NetworkEvent>::empty(),
            final(self)@ == old(self)@,
            final(self).history() == old(self).history(),
    {
        let mut r: Vec<NetworkEvent> = Vec::new();
        std::mem::swap(&mut r, &mut self.pending_events);
        assert(self.history@.subrange(self.history@.len() - 0, self.history@.len() as int) =~= self.pending_events@);
        r
    }

    fn transition_to(&mut self, target: DeviceState) -> (r: Result<(), AggregateError>)
        ensures
            r.is_ok() == can_transition(old(self).state, target),
            r.is_ok() ==> *final(self) == (NetworkDeviceAggregate { state: target, ..*old(self) }),
            r.is_err() ==> *final(self) == *old(self)
                && r == Err::<(), AggregateError>((AggregateError::InvalidTransition { from: old(self).state, to: target })),
    {
        if !self.state.can_transition_to(target) {
            return Err(AggregateError::InvalidTransition { from: self.state, to: target });
        }
        self.state = target;
        Ok(())
    }

    /// Starts adoption: `Discovered` or `Error` to `Adopting`, recording the
    /// vendor identifier.
    pub fn adopt(&mut self, vendor_id: String) -> (r: Result<(), AggregateError>)
        requires
            old(self).wf(),
            old(self)@.version < u64::MAX,
        ensures
            final(self).wf(),
            r.is_ok() == can_transition(old(self)@.state, DeviceState::Adopting),
            r.is_err() ==> *final(self) == *old(self)
                && r == Err::<(), AggregateError>((AggregateError::InvalidTransition { from: old(self)@.state, to: DeviceState::Adopting })),
            r.is_ok() ==> {
                let e = NetworkEvent::DeviceAdopting { device_id: old(self)@.id, vendor_id };
                &&& final(self)@ == apply_event_view(old(self)@, e)
                &&& final(self).pending() == old(self).pending().push(e)
                &&& final(self).history() == old(self).history().push(e)
            },
    {
        self.transition_to(DeviceState::Adopting)?;
        self.vendor_id = Some(vendor_id.clone());
        let ghost e = NetworkEvent::DeviceAdopting { device_id: self.id, vendor_id };
        self.record(NetworkEvent::DeviceAdopting { device_id: self.id, vendor_id });
        proof { lemma_replay_push(old(self).history@, e); }
        assert(self@ =~= apply_event_view(old(self)@, e));
        Ok(())
    }

    /// Marks the device provisioned: `Adopting` or `Configuring` to
    /// `Provisioned`, recording model and firmware.
    pub fn mark_provisioned(&mut self, model: String, firmware: String) -> (r: Result<(), AggregateError>)
        requires
            old(self).wf(),
            old(self)@.version < u64::MAX,
        ensures
            final(self).wf(),
            r.is_ok() == can_transition(old(self)@.state, DeviceState::Provisioned),
            r.is_err() ==> *final(self) == *old(self)
                && r == Err::<(), AggregateError>((AggregateError::InvalidTransition { from: old(self)@.state, to: DeviceState::Provisioned })),
            r.is_ok() ==> {
                let e = NetworkEvent::DeviceProvisioned { device_id: old(self)@.id, model, firmware_version: firmware };
                &&& final(self)@ == apply_event_view(old(self)@, e)
                &&& final(self).pending() == old(self).pending().push(e)
                &&& final(self).history() == old(self).history().push(e)
            },
    {
        self.transition_to(DeviceState::Provisioned)?;
        self.model = Some(model.clone());
        self.firmware_version = Some(firmware.clone());
        let ghost e = NetworkEvent::DeviceProvisioned { device_id: self.id, model, firmware_version: firmware };
        self.record(NetworkEvent::DeviceProvisioned { device_id: self.id, model, firmware_version: firmware });
        proof { lemma_replay_push(old(self).history@, e); }
        assert(self@ =~= apply_event_view(old(self)@, e));
        Ok(())
    }

    /// Starts configuration: `Provisioned` to `Configuring`.
    pub fn start_configuration(&mut self) -> (r: Result<(), AggregateError>)
        requires
            old(self).wf(),
            old(self)@.version < u64::MAX,
        ensures
            final(self).wf(),
            r.is_ok() == can_transition(old(self)@.state, DeviceState::Configuring),
            r.is_err() ==> *final(self) == *old(self)
                && r == Err::<(), AggregateError>((AggregateError::InvalidTransition { from: old(self)@.state, to: DeviceState::Configuring })),
            r.is_ok() ==> {
                let e = NetworkEvent::DeviceConfiguring { device_id: old(self)@.id };
                &&& final(self)@ == apply_event_view(old(self)@, e)
                &&& final(self).pending() == old(self).pending().push(e)
                &&& final(self).history() == old(self).history().push(e)
            },
    {
        self.transition_to(DeviceState::Configuring)?;
        let ghost e = NetworkEvent::DeviceConfiguring { device_id: self.id };
        self.record(NetworkEvent::DeviceConfiguring { device_id: self.id });
        proof { lemma_replay_push(old(self).history@, e); }
        assert(self@ =~= apply_event_view(old(self)@, e));
        Ok(())
    }

    /// Completes configuration: `Configuring` to `Provisioned`, recording
    /// the interfaces and VLANs.
    pub fn complete_configuration(
        &mut self,
        interfaces: Vec<InterfaceConfig>,
        vlans: Vec<VlanConfig>,
    ) -> (r: Result<(), AggregateError>)
        requires
            old(self).wf(),
            old(self)@.version < u64::MAX,
        ensures
            final(self).wf(),
            r.is_ok() == can_transition(old(self)@.state, DeviceState::Provisioned),
            r.is_err() ==> *final(self) == *old(self)
                && r == Err::<(), AggregateError>((AggregateError::InvalidTransition { from: old(self)@.state, to: DeviceState::Provisioned })),
            r.is_ok() ==> {
                let e = NetworkEvent::DeviceConfigured { device_id: old(self)@.id, interfaces, vlans };
                &&& final(self)@ == apply_event_view(old(self)@, e)
                &&& final(self).pending() == old(self).pending().push(e)
                &&& final(self).history() == old(self).history().push(e)
            },
    {
        self.transition_to(DeviceState::Provisioned)?;
        self.interfaces = clone_interfaces(&interfaces);
        self.vlans = clone_vlans(&vlans);
        let ghost e = NetworkEvent::DeviceConfigured { device_id: self.id, interfaces, vlans };
        self.record(NetworkEvent::DeviceConfigured { device_id: self.id, interfaces, vlans });
        proof { lemma_replay_push(old(self).history@, e); }
        assert(self@ =~= apply_event_view(old(self)@, e));
        Ok(())
    }

    /// Records an error: `Adopting` or `Configuring` to `Error`, keeping
    /// the message.
    pub fn record_error(&mut self, message: String) -> (r: Result<(), AggregateError>)
        requires
            old(self).wf(),
            old(self)@.version < u64::MAX,
        ensures
            final(self).wf(),
            r.is_ok() == can_transition(old(self)@.state, DeviceState::Error),
            r.is_err() ==> *final(self) == *old(self)
                && r == Err::<(), AggregateError>((AggregateError::InvalidTransition { from: old(self)@.state, to: DeviceState::Error })),
            r.is_ok() ==> {
                let e = NetworkEvent::DeviceError { device_id: old(self)@.id, message };
                &&& final(self)@ == apply_event_view(old(self)@, e)
                &&& final(self).pending() == old(self).pending().push(e)
                &&& final(self).history() == old(self).history().push(e)
            },
    {
        self.transition_to(DeviceState::Error)?;
        self.error_message = Some(message.clone());
        let ghost e = NetworkEvent::DeviceError { device_id: self.id, message };
        self.record(NetworkEvent::DeviceError { device_id: self.id, message });
        proof { lemma_replay_push(old(self).history@, e); }
        assert(self@ =~= apply_event_view(old(self)@, e));
        Ok(())
    }

    /// Decommissions the device: `Discovered`, `Provisioned` or `Error` to
    /// the terminal `Decommissioned`.
    pub fn decommission(&mut self) -> (r: Result<(), AggregateError>)
        requires
            old(self).wf(),
            old(self)@.version < u64::MAX,
        ensures
            final(self).wf(),
            r.is_ok() == can_transition(old(self)@.state, DeviceState::Decommissioned),
            r.is_err() ==> *final(self) == *old(self)
                && r == Err::<(), AggregateError>((AggregateError::InvalidTransition { from: old(self)@.state, to: DeviceState::Decommissioned })),
            r.is_ok() ==> {
                let e = NetworkEvent::DeviceDecommissioned { device_id: old(self)@.id };
                &&& final(self)@ == apply_event_view(old(self)@, e)
                &&& final(self).pending() == old(self).pending().push(e)
                &&& final(self).history() == old(self).history().push(e)
            },
    {
        self.transition_to(DeviceState::Decommissioned)?;
        let ghost e = NetworkEvent::DeviceDecommissioned { device_id: self.id };
        self.record(NetworkEvent::DeviceDecommissioned { device_id: self.id });
        proof { lemma_replay_push(old(self).history@, e); }
        assert(self@ =~= apply_event_view(old(self)@, e));
        Ok(())
    }

    /// Renames the device, in any state but `Decommissioned`.
    pub fn rename(&mut self, name: String) -> (r: Result<(), AggregateError>)
        requires
            old(self).wf(),
            old(self)@.version < u64::MAX,
        ensures
            final(self).wf(),
            r.is_ok() == (old(self)@.state != DeviceState::Decommissioned),
            r.is_err() ==> *final(self) == *old(self) && (match r {
                Err(AggregateError::InvalidState { current, operation }) =>
                    current == DeviceState::Decommissioned && operation@ == "rename"@,
                _ => false,
            }),
            r.is_ok() ==> {
                let e = NetworkEvent::DeviceRenamed { device_id: old(self)@.id, old_name: old(self).name_value(), new_name: name };
                &&& final(self)@ == apply_event_view(old(self)@, e)
                &&& final(self).pending() == old(self).pending().push(e)
                &&& final(self).history() == old(self).history().push(e)
            },
    {
        if self.state == DeviceState::Decommissioned {
            return Err(AggregateError::InvalidState { current: self.state, operation: owned("rename") });
        }
        let mut old_name = name.clone();
        std::mem::swap(&mut old_name, &mut self.name);
        let ghost e = NetworkEvent::DeviceRenamed { device_id: self.id, old_name, new_name: name };
        self.record(NetworkEvent::DeviceRenamed { device_id: self.id, old_name, new_name: name });
        proof { lemma_replay_push(old(self).history@, e); }
        assert(self@ =~= apply_event_view(old(self)@, e));
        Ok(())
    }
}

/// Event sourcing: a well-formed device is exactly what its history of
/// events replays to, so `from_events` on that history rebuilds it.
pub proof fn law_history_replays_to_device(d: NetworkDeviceAggregate)
    requires
        d.wf(),
    ensures
        replay(d.history()) == Some(d@),
{
}

/// Event sourcing from creation: a new device records its discovery as
/// its whole history, and each operation, refused or not, keeps its pending
/// events equal to its history; so the events taken at once from a device
/// that was never drained replay to that device, and `from_events` on them
/// rebuilds it.
pub proof fn law_recorded_events_replay_to_device(d: NetworkDeviceAggregate)
    requires
        d.wf(),
        d.history() == d.pending(),
    ensures
        replay(d.pending()) == Some(d@),
{
}

/// The device lifecycle: a discovered device may be adopted or retired;
/// an adopting one ends provisioned or failed; a provisioned one may be
/// reconfigured or retired; configuring ends provisioned or failed; a
/// failed device may be adopted again or retired; a retired device stays
/// retired. No other move is allowed.
pub proof fn law_lifecycle_transitions(from: DeviceState, to: DeviceState)
    ensures
        can_transition(from, to) <==> {
            ||| from == DeviceState::Discovered && (to == DeviceState::Adopting || to == DeviceState::Decommissioned)
            ||| from == DeviceState::Adopting && (to == DeviceState::Provisioned || to == DeviceState::Error)
            ||| from == DeviceState::Provisioned && (to == DeviceState::Configuring || to == DeviceState::Decommissioned)
            ||| from == DeviceState::Configuring && (to == DeviceState::Provisioned || to == DeviceState::Error)
            ||| from == DeviceState::Error && (to == DeviceState::Adopting || to == DeviceState::Decommissioned)
        },
{
    let t = transitions_from(from);
    if t.len() == 2 {
        assert(t.contains(to) <==> (to == t[0] || to == t[1])) by {
            if t.contains(to) {
                let k = choose|k: int| 0 <= k < t.len() && t[k] == to;
            }
            if to == t[0] { assert(t[0] == to); }
            if to == t[1] { assert(t[1] == to); }
        }
    }
}

/// `Decommissioned` is terminal: no transition leaves it.
pub proof fn law_decommissioned_is_terminal(target: DeviceState)
    ensures
        !can_transition(DeviceState::Decommissioned, target),
{
}

/// A device only enters `Provisioned` from `Adopting` or `Configuring`.
pub proof fn law_provisioned_only_after_adoption_or_configuration(from: DeviceState)
    ensures
        can_transition(from, DeviceState::Provisioned) <==> (from == DeviceState::Adopting || from == DeviceState::Configuring),
{
    assert(transitions_from(DeviceState::Discovered)[0] != DeviceState::Provisioned);
}

} // verus!

//! Domain events of the network domain. Every state change produces an
//! event; events are the source of truth from which aggregates are rebuilt.

use vstd::prelude::*;
use crate::ids::{DeviceId, TopologyId, ConnectionId, uuid_text, uuid_to_string};
use crate::ip::IpAddress;
use crate::text::{push_str, owned};
use crate::value_objects::{MacAddress, DeviceType, PortId, InterfaceConfig, VlanConfig, ConnectionType, LinkSpeed};

verus! {

/// Network domain events.
#[derive(Debug, Clone)]
pub enum NetworkEvent {
    /// A new device was discovered on the network
    DeviceDiscovered { device_id: DeviceId, mac: MacAddress, device_type: DeviceType, ip_address: Option<IpAddress> },
    /// Device adoption has started
    DeviceAdopting { device_id: DeviceId, vendor_id: String },
    /// Device has been provisioned
    DeviceProvisioned { device_id: DeviceId, model: String, firmware_version: String },
    /// Device configuration has started
    DeviceConfiguring { device_id: DeviceId },
    /// Device configuration completed
    DeviceConfigured { device_id: DeviceId, interfaces: Vec<InterfaceConfig>, vlans: Vec<VlanConfig> },
    /// Device encountered an error
    DeviceError { device_id: DeviceId, message: String },
    /// Device was decommissioned
    DeviceDecommissioned { device_id: DeviceId },
    /// Device was renamed
    DeviceRenamed { device_id: DeviceId, old_name: String, new_name: String },
    /// Connection established between devices
    ConnectionEstablished {
        connection_id: ConnectionId,
        source_device: DeviceId,
        source_port: PortId,
        target_device: DeviceId,
        target_port: PortId,
        connection_type: ConnectionType,
    },
    /// Connection removed
    ConnectionRemoved { connection_id: ConnectionId },
    /// Connection link state changed
    ConnectionLinkChanged { connection_id: ConnectionId, link_up: bool, speed: Option<LinkSpeed> },
    /// Topology created
    TopologyCreated { topology_id: TopologyId, name: String },
    /// Device added to topology
    DeviceAddedToTopology { topology_id: TopologyId, device_id: DeviceId },
    /// Device removed from topology
    DeviceRemovedFromTopology { topology_id: TopologyId, device_id: DeviceId },
    /// Device synced to inventory (NetBox)
    DeviceSyncedToInventory { device_id: DeviceId, inventory_id: String, system: String },
    /// IP address allocated
    IpAddressAllocated { device_id: DeviceId, address: IpAddress, prefix_len: u8, interface: String },
}

/// The UUID value of the aggregate an event belongs to.
pub open spec fn event_aggregate_uuid(e: NetworkEvent) -> u128 {
    match e {
        NetworkEvent::DeviceDiscovered { device_id, .. } => device_id.value,
        NetworkEvent::DeviceAdopting { device_id, .. } => device_id.value,
        NetworkEvent::DeviceProvisioned { device_id, .. } => device_id.value,
        NetworkEvent::DeviceConfiguring { device_id } => device_id.value,
        NetworkEvent::DeviceConfigured { device_id, .. } => device_id.value,
        NetworkEvent::DeviceError { device_id, .. } => device_id.value,
        NetworkEvent::DeviceDecommissioned { device_id } => device_id.value,
        NetworkEvent::DeviceRenamed { device_id, .. } => device_id.value,
        NetworkEvent::ConnectionEstablished { connection_id, .. } => connection_id.value,
        NetworkEvent::ConnectionRemoved { connection_id } => connection_id.value,
        NetworkEvent::ConnectionLinkChanged { connection_id, .. } => connection_id.value,
        NetworkEvent::TopologyCreated { topology_id, .. } => topology_id.value,
        NetworkEvent::DeviceAddedToTopology { topology_id, .. } => topology_id.value,
        NetworkEvent::DeviceRemovedFromTopology { topology_id, .. } => topology_id.value,
        NetworkEvent::DeviceSyncedToInventory { device_id, .. } => device_id.value,
        NetworkEvent::IpAddressAllocated { device_id, .. } => device_id.value,
    }
}

/// The event type name: the variant's name.
pub open spec fn event_type_name(e: NetworkEvent) -> Seq<char> {
    match e {
        NetworkEvent::DeviceDiscovered { .. } => "DeviceDiscovered"@,
        NetworkEvent::DeviceAdopting { .. } => "DeviceAdopting"@,
        NetworkEvent::DeviceProvisioned { .. } => "DeviceProvisioned"@,
        NetworkEvent::DeviceConfiguring { .. } => "DeviceConfiguring"@,
        NetworkEvent::DeviceConfigured { .. } => "DeviceConfigured"@,
        NetworkEvent::DeviceError { .. } => "DeviceError"@,
        NetworkEvent::DeviceDecommissioned { .. } => "DeviceDecommissioned"@,
        NetworkEvent::DeviceRenamed { .. } => "DeviceRenamed"@,
        NetworkEvent::ConnectionEstablished { .. } => "ConnectionEstablished"@,
        NetworkEvent::ConnectionRemoved { .. } => "ConnectionRemoved"@,
        NetworkEvent::ConnectionLinkChanged { .. } => "ConnectionLinkChanged"@,
        NetworkEvent::TopologyCreated { .. } => "TopologyCreated"@,
        NetworkEvent::DeviceAddedToTopology { .. } => "DeviceAddedToTopology"@,
        NetworkEvent::DeviceRemovedFromTopology { .. } => "DeviceRemovedFromTopology"@,
        NetworkEvent::DeviceSyncedToInventory { .. } => "DeviceSyncedToInventory"@,
        NetworkEvent::IpAddressAllocated { .. } => "IpAddressAllocated"@,
    }
}

/// The aggregate type of an event: `device`, `connection`, `topology` or
/// `inventory`.
pub open spec fn event_aggregate_type(e: NetworkEvent) -> Seq<char> {
    match e {
        NetworkEvent::ConnectionEstablished { .. } | NetworkEvent::ConnectionRemoved { .. }
        | NetworkEvent::ConnectionLinkChanged { .. } => "connection"@,
        NetworkEvent::TopologyCreated { .. } | NetworkEvent::DeviceAddedToTopology { .. }
        | NetworkEvent::DeviceRemovedFromTopology { .. } => "topology"@,
        NetworkEvent::DeviceSyncedToInventory { .. } | NetworkEvent::IpAddressAllocated { .. } => "inventory"@,
        _ => "device"@,
    }
}

/// Subject `{prefix}.{aggregate_type}.{event_type}`.
pub open spec fn event_subject(e: NetworkEvent, prefix: Seq<char>) -> Seq<char> {
    prefix + "."@ + event_aggregate_type(e) + "."@ + event_type_name(e)
}

impl NetworkEvent {
    /// The text of the identifier of the aggregate this event belongs to.
    pub fn aggregate_id(&self) -> (s: String)
        ensures
            s@ == uuid_text(event_aggregate_uuid(*self)),
    {
        let v = match self {
            NetworkEvent::DeviceDiscovered { device_id, .. } => device_id.value,
            NetworkEvent::DeviceAdopting { device_id, .. } => device_id.value,
            NetworkEvent::DeviceProvisioned { device_id, .. } => device_id.value,
            NetworkEvent::DeviceConfiguring { device_id } => device_id.value,
            NetworkEvent::DeviceConfigured { device_id, .. } => device_id.value,
            NetworkEvent::DeviceError { device_id, .. } => device_id.value,
            NetworkEvent::DeviceDecommissioned { device_id } => device_id.value,
            NetworkEvent::DeviceRenamed { device_id, .. } => device_id.value,
            NetworkEvent::ConnectionEstablished { connection_id, .. } => connection_id.value,
            NetworkEvent::ConnectionRemoved { connection_id } => connection_id.value,
            NetworkEvent::ConnectionLinkChanged { connection_id, .. } => connection_id.value,
            NetworkEvent::TopologyCreated { topology_id, .. } => topology_id.value,
            NetworkEvent::DeviceAddedToTopology { topology_id, .. } => topology_id.value,
            NetworkEvent::DeviceRemovedFromTopology { topology_id, .. } => topology_id.value,
            NetworkEvent::DeviceSyncedToInventory { device_id, .. } => device_id.value,
            NetworkEvent::IpAddressAllocated { device_id, .. } => device_id.value,
        };
        uuid_to_string(v)
    }

    /// The event type name.
    pub fn event_type(&self) -> (s: &'static str)
        ensures
            s@ == event_type_name(*self),
    {
        match self {
            NetworkEvent::DeviceDiscovered { .. } => "DeviceDiscovered",
            NetworkEvent::DeviceAdopting { .. } => "DeviceAdopting",
            NetworkEvent::DeviceProvisioned { .. } => "DeviceProvisioned",
            NetworkEvent::DeviceConfiguring { .. } => "DeviceConfiguring",
            NetworkEvent::DeviceConfigured { .. } => "DeviceConfigured",
            NetworkEvent::DeviceError { .. } => "DeviceError",
            NetworkEvent::DeviceDecommissioned { .. } => "DeviceDecommissioned",
            NetworkEvent::DeviceRenamed { .. } => "DeviceRenamed",
            NetworkEvent::ConnectionEstablished { .. } => "ConnectionEstablished",
            NetworkEvent::ConnectionRemoved { .. } => "ConnectionRemoved",
            NetworkEvent::ConnectionLinkChanged { .. } => "ConnectionLinkChanged",
            NetworkEvent::TopologyCreated { .. } => "TopologyCreated",
            NetworkEvent::DeviceAddedToTopology { .. } => "DeviceAddedToTopology",
            NetworkEvent::DeviceRemovedFromTopology { .. } => "DeviceRemovedFromTopology",
            NetworkEvent::DeviceSyncedToInventory { .. } => "DeviceSyncedToInventory",
            NetworkEvent::IpAddressAllocated { .. } => "IpAddressAllocated",
        }
    }

    /// The aggregate type name.
    pub fn aggregate_type(&self) -> (s: &'static str)
        ensures
            s@ == event_aggregate_type(*self),
    {
        match self {
            NetworkEvent::ConnectionEstablished { .. } | NetworkEvent::ConnectionRemoved { .. }
            | NetworkEvent::ConnectionLinkChanged { .. } => "connection",
            NetworkEvent::TopologyCreated { .. } | NetworkEvent::DeviceAddedToTopology { .. }
            | NetworkEvent::DeviceRemovedFromTopology { .. } => "topology",
            NetworkEvent::DeviceSyncedToInventory { .. } | NetworkEvent::IpAddressAllocated { .. } => "inventory",
            _ => "device",
        }
    }

    /// Subject with the `network` prefix.
    pub fn nats_subject(&self) -> (s: String)
        ensures
            s@ == event_subject(*self, "network"@),
    {
        self.nats_subject_with_prefix("network")
    }

    /// Subject `{prefix}.{aggregate_type}.{event_type}`.
    pub fn nats_subject_with_prefix(&self, prefix: &str) -> (s: String)
        ensures
            s@ == event_subject(*self, prefix@),
    {
        let mut s = owned(prefix);
        push_str(&mut s, ".");
        push_str(&mut s, self.aggregate_type());
        push_str(&mut s, ".");
        push_str(&mut s, self.event_type());
        s
    }
}

} // verus!

//! Events of router, switch, topology and deployment management, with the
//! metadata that ties each event to its aggregate and its causes.

use vstd::prelude::*;
use crate::ids::{RouterId, SwitchId, NetworkId, CorrelationId, CausationId, EventId, NetworkTopologyId, DeviceId, ConnectionId};
use crate::ip::{IpAddress, IpNetwork};
use crate::value_objects::{MacAddress, PortId};
use crate::clock::now_millis;

verus! {

/// Metadata of an infrastructure event.
#[derive(Debug)]
pub struct EventMetadata {
    pub event_id: EventId,
    /// Text of the aggregate's identifier
    pub aggregate_id: String,
    pub correlation_id: CorrelationId,
    pub causation_id: CausationId,
    /// Milliseconds since the Unix epoch
    pub timestamp: i64,
    pub version: u64,
}

impl EventMetadata {
    /// Metadata with a fresh event id and the current time.
    pub fn new(aggregate_id: String, correlation_id: CorrelationId, causation_id: CausationId, version: u64) -> (m: Self)
        ensures
            m.aggregate_id == aggregate_id,
            m.correlation_id == correlation_id,
            m.causation_id == causation_id,
            m.version == version,
    {
        EventMetadata {
            event_id: EventId::new(),
            aggregate_id,
            correlation_id,
            causation_id,
            timestamp: now_millis(),
            version,
        }
    }
}

/// Operating system of a Cisco router.
#[derive(Debug, Clone, Copy, PartialEq, Eq, Structural)]
pub enum CiscoOs {
    Ios15_7,
    IosXe17_3,
    NxOs,
}

/// Router vendor.
#[derive(Debug, Clone, Copy, PartialEq, Eq, Structural)]
pub enum RouterVendor {
    Cisco { os: CiscoOs },
    Juniper,
    VyOS,
    MikroTik,
    Generic,
}

/// Maintenance window of a router.
#[derive(Debug)]
pub struct MaintenanceWindow {
    /// Start, milliseconds since the Unix epoch
    pub start: i64,
    /// End, milliseconds since the Unix epoch
    pub end: i64,
    pub reason: String,
}

impl Clone for MaintenanceWindow {
    fn clone(&self) -> (r: Self)
        ensures
            r == *self,
    {
        MaintenanceWindow { start: self.start, end: self.end, reason: self.reason.clone() }
    }
}

/// How a configuration was deployed.
#[derive(Debug)]
pub enum DeploymentMethod {
    Nix { flake_ref: String },
    Manual,
}

/// An interface in a configuration snapshot.
#[derive(Debug)]
pub struct Interface {
    pub name: String,
    pub ip_address: Option<IpAddress>,
    pub description: Option<String>,
    pub enabled: bool,
}

/// An OSPF area in a configuration snapshot.
#[derive(Debug)]
pub struct OspfArea {
    pub id: u32,
    pub networks: Vec<IpNetwork>,
}

/// A BGP neighbor in a configuration snapshot.
#[derive(Debug)]
pub struct BgpNeighbor {
    pub address: IpAddress,
    pub remote_as: u32,
}

/// A routing protocol in a configuration snapshot.
#[derive(Debug)]
pub enum RoutingProtocol {
    Ospf { process_id: u32, areas: Vec<OspfArea> },
    Bgp { as_number: u32, neighbors: Vec<BgpNeighbor> },
}

/// ACL action in a configuration snapshot.
#[derive(Debug, Clone, Copy, PartialEq, Eq, Structural)]
pub enum AclAction {
    Permit,
    Deny,
}

/// An ACL entry in a configuration snapshot.
#[derive(Debug)]
pub struct AclEntry {
    pub action: AclAction,
    pub protocol: String,
    pub source: IpNetwork,
    pub destination: IpNetwork,
}

/// An access list in a configuration snapshot.
#[derive(Debug)]
pub struct AccessList {
    pub id: String,
    pub entries: Vec<AclEntry>,
}

/// Snapshot of a router's configuration.
#[derive(Debug)]
pub struct RouterConfigSnapshot {
    pub interfaces: Vec<Interface>,
    pub routing_protocols: Vec<RoutingProtocol>,
    pub access_lists: Vec<AccessList>,
    pub timestamp: i64,
}

/// A rendered configuration text.
#[derive(Debug)]
pub struct RenderedConfiguration {
    pub config_content: String,
    pub checksum: String,
    pub generated_at: i64,
}

/// A configuration applied to a router.
#[derive(Debug)]
pub enum AppliedConfiguration {
    Snapshot(RouterConfigSnapshot),
    Rendered(RenderedConfiguration),
}

/// Events of router, switch, topology and deployment management.
#[derive(Debug)]
pub enum InfrastructureEvent {
    RouterProvisioningStarted { metadata: EventMetadata, router_id: RouterId, vendor: RouterVendor },
    RouterProvisioningCompleted { metadata: EventMetadata, router_id: RouterId },
    RouterConfigurationApplied {
        metadata: EventMetadata,
        router_id: RouterId,
        configuration: AppliedConfiguration,
        deployment_method: DeploymentMethod,
    },
    RouterConfigurationFailed { metadata: EventMetadata, router_id: RouterId, reason: String },
    RouterMaintenanceScheduled { metadata: EventMetadata, router_id: RouterId, window: MaintenanceWindow },
    RouterConfigurationRetryStarted { metadata: EventMetadata, router_id: RouterId, previous_failure: String },
    RouterInterfaceAdded { metadata: EventMetadata, router_id: RouterId, interface: Interface },
    RouterOspfConfigured { metadata: EventMetadata, router_id: RouterId, process_id: u32, areas: u32 },
    RouterBgpConfigured { metadata: EventMetadata, router_id: RouterId, local_as: u32, neighbors: u32 },
    RouterAccessListAdded { metadata: EventMetadata, router_id: RouterId, acl_number: u16, entries: u32 },
    VlanCreated { metadata: EventMetadata, switch_id: SwitchId, vlan_id: u16, name: String, description: Option<String> },
    VlanRemoved { metadata: EventMetadata, switch_id: SwitchId, vlan_id: u16 },
    SwitchPortConfigured { metadata: EventMetadata, switch_id: SwitchId, port_number: u16 },
    VlanAssignedToPort { metadata: EventMetadata, switch_id: SwitchId, port_number: u16, vlan_id: u16 },
    PortAssignedToVlan { metadata: EventMetadata, switch_id: SwitchId, port_id: PortId, vlan_id: u16, access_mode: bool },
    PortUnassignedFromVlan { metadata: EventMetadata, switch_id: SwitchId, port_id: PortId, previous_vlan_id: u16 },
    SpanningTreeConfigured {
        metadata: EventMetadata,
        switch_id: SwitchId,
        protocol: Option<String>,
        bridge_priority: Option<u16>,
    },
    SpanningTreeDisabled { metadata: EventMetadata, switch_id: SwitchId },
    MacAddressLearned { metadata: EventMetadata, switch_id: SwitchId, mac_address: MacAddress, port: u16, vlan: u16 },
    SwitchStackConfigured { metadata: EventMetadata, switch_id: SwitchId },
    SwitchConfigurationVerified {
        metadata: EventMetadata,
        switch_id: SwitchId,
        vlans_configured: u32,
        ports_configured: u32,
        spanning_tree_enabled: bool,
    },
    TopologyDeviceAdded { metadata: EventMetadata, topology_id: NetworkTopologyId, device_id: DeviceId },
    TopologyDeviceRemoved { metadata: EventMetadata, topology_id: NetworkTopologyId, device_id: DeviceId },
    TopologyConnectionAdded { metadata: EventMetadata, topology_id: NetworkTopologyId, connection_id: ConnectionId },
    NetworkDeploymentStarted { metadata: EventMetadata, network_id: NetworkId, deployment_plan: String },
    NetworkDeploymentCancelled { metadata: EventMetadata, network_id: NetworkId, reason: String },
    RouterDeploymentCompleted { metadata: EventMetadata, router_id: RouterId, deployment_method: String },
    RouterDeploymentRolledBack { metadata: EventMetadata, router_id: RouterId, reason: String },
    NetworkDeploymentCompleted {
        metadata: EventMetadata,
        network_id: NetworkId,
        routers_deployed: u32,
        switches_deployed: u32,
    },
}

} // verus!

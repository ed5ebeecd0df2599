use cim_network::events::NetworkEvent;
use cim_network::ids::{ConnectionId, DeviceId, TopologyId};
use cim_network::ip::IpAddress;
use cim_network::value_objects::{ConnectionType, DeviceType, LinkSpeed, MacAddress, PortId};

fn create_test_device_id() -> DeviceId {
    DeviceId::new()
}

fn create_test_mac() -> MacAddress {
    MacAddress::parse("00:11:22:33:44:55").unwrap()
}

#[test]
fn test_device_discovered_event() {
    let device_id = create_test_device_id();
    let mac = create_test_mac();
    let event = NetworkEvent::DeviceDiscovered {
        device_id,
        mac,
        device_type: DeviceType::Switch,
        ip_address: Some(IpAddress::v4(192, 168, 1, 1)),
    };
    assert_eq!(event.event_type(), "DeviceDiscovered");
    assert_eq!(event.aggregate_id(), device_id.to_string());
}

#[test]
fn test_device_adopting_event() {
    let device_id = create_test_device_id();
    let event = NetworkEvent::DeviceAdopting { device_id, vendor_id: "vendor-123".to_string() };
    assert_eq!(event.event_type(), "DeviceAdopting");
    assert_eq!(event.aggregate_id(), device_id.to_string());
}

#[test]
fn test_device_provisioned_event() {
    let device_id = create_test_device_id();
    let event = NetworkEvent::DeviceProvisioned {
        device_id,
        model: "USW-24".to_string(),
        firmware_version: "6.6.0".to_string(),
    };
    assert_eq!(event.event_type(), "DeviceProvisioned");
}

#[test]
fn test_device_configuring_event() {
    let device_id = create_test_device_id();
    let event = NetworkEvent::DeviceConfiguring { device_id };
    assert_eq!(event.event_type(), "DeviceConfiguring");
}

#[test]
fn test_device_configured_event() {
    let device_id = create_test_device_id();
    let event = NetworkEvent::DeviceConfigured { device_id, interfaces: vec![], vlans: vec![] };
    assert_eq!(event.event_type(), "DeviceConfigured");
}

#[test]
fn test_device_error_event() {
    let device_id = create_test_device_id();
    let event = NetworkEvent::DeviceError { device_id, message: "Connection timeout".to_string() };
    assert_eq!(event.event_type(), "DeviceError");
}

#[test]
fn test_device_decommissioned_event() {
    let device_id = create_test_device_id();
    let event = NetworkEvent::DeviceDecommissioned { device_id };
    assert_eq!(event.event_type(), "DeviceDecommissioned");
}

#[test]
fn test_device_renamed_event() {
    let device_id = create_test_device_id();
    let event = NetworkEvent::DeviceRenamed {
        device_id,
        old_name: "Old-Name".to_string(),
        new_name: "New-Name".to_string(),
    };
    assert_eq!(event.event_type(), "DeviceRenamed");
}

#[test]
fn test_connection_established_event() {
    let connection_id = ConnectionId::new();
    let source_device = create_test_device_id();
    let target_device = create_test_device_id();
    let event = NetworkEvent::ConnectionEstablished {
        connection_id,
        source_device,
        source_port: PortId::new("eth0"),
        target_device,
        target_port: PortId::new("port1"),
        connection_type: ConnectionType::Ethernet,
    };
    assert_eq!(event.event_type(), "ConnectionEstablished");
    assert_eq!(event.aggregate_id(), connection_id.to_string());
}

#[test]
fn test_connection_removed_event() {
    let connection_id = ConnectionId::new();
    let event = NetworkEvent::ConnectionRemoved { connection_id };
    assert_eq!(event.event_type(), "ConnectionRemoved");
    assert_eq!(event.aggregate_id(), connection_id.to_string());
}

#[test]
fn test_connection_link_changed_event() {
    let connection_id = ConnectionId::new();
    let event = NetworkEvent::ConnectionLinkChanged { connection_id, link_up: true, speed: Some(LinkSpeed::Gbps1) };
    assert_eq!(event.event_type(), "ConnectionLinkChanged");
}

#[test]
fn test_topology_created_event() {
    let topology_id = TopologyId::new();
    let event = NetworkEvent::TopologyCreated { topology_id, name: "Main Network".to_string() };
    assert_eq!(event.event_type(), "TopologyCreated");
    assert_eq!(event.aggregate_id(), topology_id.to_string());
}

#[test]
fn test_device_added_to_topology_event() {
    let topology_id = TopologyId::new();
    let device_id = create_test_device_id();
    let event = NetworkEvent::DeviceAddedToTopology { topology_id, device_id };
    assert_eq!(event.event_type(), "DeviceAddedToTopology");
    assert_eq!(event.aggregate_id(), topology_id.to_string());
}

#[test]
fn test_device_removed_from_topology_event() {
    let topology_id = TopologyId::new();
    let device_id = create_test_device_id();
    let event = NetworkEvent::DeviceRemovedFromTopology { topology_id, device_id };
    assert_eq!(event.event_type(), "DeviceRemovedFromTopology");
}

#[test]
fn test_device_synced_to_inventory_event() {
    let device_id = create_test_device_id();
    let event = NetworkEvent::DeviceSyncedToInventory {
        device_id,
        inventory_id: "nb-123".to_string(),
        system: "netbox".to_string(),
    };
    assert_eq!(event.event_type(), "DeviceSyncedToInventory");
    assert_eq!(event.aggregate_id(), device_id.to_string());
}

#[test]
fn test_ip_address_allocated_event() {
    let device_id = create_test_device_id();
    let event = NetworkEvent::IpAddressAllocated {
        device_id,
        address: IpAddress::v4(192, 168, 1, 100),
        prefix_len: 24,
        interface: "eth0".to_string(),
    };
    assert_eq!(event.event_type(), "IpAddressAllocated");
}

#[test]
fn test_nats_subject_device_events() {
    let device_id = create_test_device_id();
    let mac = create_test_mac();
    let event = NetworkEvent::DeviceDiscovered { device_id, mac, device_type: DeviceType::Switch, ip_address: None };
    assert_eq!(event.nats_subject(), "network.device.DeviceDiscovered");
    let event = NetworkEvent::DeviceAdopting { device_id, vendor_id: "v1".to_string() };
    assert_eq!(event.nats_subject(), "network.device.DeviceAdopting");
}

#[test]
fn test_nats_subject_connection_events() {
    let connection_id = ConnectionId::new();
    let event = NetworkEvent::ConnectionRemoved { connection_id };
    assert_eq!(event.nats_subject(), "network.connection.ConnectionRemoved");
}

#[test]
fn test_nats_subject_topology_events() {
    let topology_id = TopologyId::new();
    let event = NetworkEvent::TopologyCreated { topology_id, name: "Test".to_string() };
    assert_eq!(event.nats_subject(), "network.topology.TopologyCreated");
}

#[test]
fn test_nats_subject_inventory_events() {
    let device_id = create_test_device_id();
    let event = NetworkEvent::DeviceSyncedToInventory {
        device_id,
        inventory_id: "id".to_string(),
        system: "netbox".to_string(),
    };
    assert_eq!(event.nats_subject(), "network.inventory.DeviceSyncedToInventory");
}

#[test]
fn test_nats_subject_with_custom_prefix() {
    let device_id = create_test_device_id();
    let event = NetworkEvent::DeviceDecommissioned { device_id };
    assert_eq!(event.nats_subject_with_prefix("cim"), "cim.device.DeviceDecommissioned");
}

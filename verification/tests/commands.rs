use cim_network::commands::NetworkCommand;
use cim_network::ids::{ConnectionId, DeviceId, TopologyId};
use cim_network::value_objects::{ConnectionType, DeviceType, PortId};

fn create_test_device_id() -> DeviceId {
    DeviceId::new()
}

#[test]
fn test_discover_devices_command() {
    let cmd = NetworkCommand::DiscoverDevices { device_type: None };
    assert_eq!(cmd.command_type(), "DiscoverDevices");
    assert_eq!(cmd.nats_subject(), "network.device.cmd.DiscoverDevices");
}

#[test]
fn test_discover_devices_with_filter() {
    let cmd = NetworkCommand::DiscoverDevices { device_type: Some(DeviceType::Switch) };
    assert_eq!(cmd.command_type(), "DiscoverDevices");
}

#[test]
fn test_adopt_device_command() {
    let device_id = create_test_device_id();
    let cmd = NetworkCommand::AdoptDevice { device_id, vendor_id: "vendor-123".to_string() };
    assert_eq!(cmd.command_type(), "AdoptDevice");
    assert_eq!(cmd.nats_subject(), "network.device.cmd.AdoptDevice");
}

#[test]
fn test_configure_device_command() {
    let device_id = create_test_device_id();
    let cmd = NetworkCommand::ConfigureDevice {
        device_id,
        name: Some("MyDevice".to_string()),
        interfaces: vec![],
        vlans: vec![],
    };
    assert_eq!(cmd.command_type(), "ConfigureDevice");
    assert_eq!(cmd.nats_subject(), "network.device.cmd.ConfigureDevice");
}

#[test]
fn test_rename_device_command() {
    let device_id = create_test_device_id();
    let cmd = NetworkCommand::RenameDevice { device_id, new_name: "NewName".to_string() };
    assert_eq!(cmd.command_type(), "RenameDevice");
    assert_eq!(cmd.nats_subject(), "network.device.cmd.RenameDevice");
}

#[test]
fn test_restart_device_command() {
    let device_id = create_test_device_id();
    let cmd = NetworkCommand::RestartDevice { device_id };
    assert_eq!(cmd.command_type(), "RestartDevice");
    assert_eq!(cmd.nats_subject(), "network.device.cmd.RestartDevice");
}

#[test]
fn test_decommission_device_command() {
    let device_id = create_test_device_id();
    let cmd = NetworkCommand::DecommissionDevice { device_id };
    assert_eq!(cmd.command_type(), "DecommissionDevice");
    assert_eq!(cmd.nats_subject(), "network.device.cmd.DecommissionDevice");
}

#[test]
fn test_connect_devices_command() {
    let source_device = create_test_device_id();
    let target_device = create_test_device_id();
    let cmd = NetworkCommand::ConnectDevices {
        source_device,
        source_port: PortId::new("eth0"),
        target_device,
        target_port: PortId::new("port1"),
        connection_type: ConnectionType::Ethernet,
    };
    assert_eq!(cmd.command_type(), "ConnectDevices");
    assert_eq!(cmd.nats_subject(), "network.connection.cmd.ConnectDevices");
}

#[test]
fn test_disconnect_devices_command() {
    let connection_id = ConnectionId::new();
    let cmd = NetworkCommand::DisconnectDevices { connection_id };
    assert_eq!(cmd.command_type(), "DisconnectDevices");
    assert_eq!(cmd.nats_subject(), "network.connection.cmd.DisconnectDevices");
}

#[test]
fn test_create_topology_command() {
    let cmd = NetworkCommand::CreateTopology { name: "Main Network".to_string() };
    assert_eq!(cmd.command_type(), "CreateTopology");
    assert_eq!(cmd.nats_subject(), "network.topology.cmd.CreateTopology");
}

#[test]
fn test_add_device_to_topology_command() {
    let topology_id = TopologyId::new();
    let device_id = create_test_device_id();
    let cmd = NetworkCommand::AddDeviceToTopology { topology_id, device_id };
    assert_eq!(cmd.command_type(), "AddDeviceToTopology");
    assert_eq!(cmd.nats_subject(), "network.topology.cmd.AddDeviceToTopology");
}

#[test]
fn test_remove_device_from_topology_command() {
    let topology_id = TopologyId::new();
    let device_id = create_test_device_id();
    let cmd = NetworkCommand::RemoveDeviceFromTopology { topology_id, device_id };
    assert_eq!(cmd.command_type(), "RemoveDeviceFromTopology");
    assert_eq!(cmd.nats_subject(), "network.topology.cmd.RemoveDeviceFromTopology");
}

#[test]
fn test_sync_to_inventory_command() {
    let device_id = create_test_device_id();
    let cmd = NetworkCommand::SyncToInventory { device_id, system: "netbox".to_string() };
    assert_eq!(cmd.command_type(), "SyncToInventory");
    assert_eq!(cmd.nats_subject(), "network.inventory.cmd.SyncToInventory");
}

#[test]
fn test_allocate_ip_command() {
    let device_id = create_test_device_id();
    let cmd = NetworkCommand::AllocateIp {
        device_id,
        prefix: "192.168.1.0/24".to_string(),
        interface: "eth0".to_string(),
    };
    assert_eq!(cmd.command_type(), "AllocateIp");
    assert_eq!(cmd.nats_subject(), "network.inventory.cmd.AllocateIp");
}

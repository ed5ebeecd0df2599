//! Commands of the network domain: intentions to change state, validated
//! and either accepted (producing events) or rejected.

use vstd::prelude::*;
use crate::ids::{DeviceId, TopologyId, ConnectionId};
use crate::text::{push_str, owned};
use crate::value_objects::{DeviceType, PortId, InterfaceConfig, VlanConfig, ConnectionType};

verus! {

/// Network domain commands.
#[derive(Debug)]
pub enum NetworkCommand {
    /// Discover devices on the network, optionally of one type
    DiscoverDevices { device_type: Option<DeviceType> },
    /// Adopt a discovered device
    AdoptDevice { device_id: DeviceId, vendor_id: String },
    /// Configure a device
    ConfigureDevice { device_id: DeviceId, name: Option<String>, interfaces: Vec<InterfaceConfig>, vlans: Vec<VlanConfig> },
    /// Rename a device
    RenameDevice { device_id: DeviceId, new_name: String },
    /// Restart a device
    RestartDevice { device_id: DeviceId },
    /// Decommission a device
    DecommissionDevice { device_id: DeviceId },
    /// Connect two devices
    ConnectDevices {
        source_device: DeviceId,
        source_port: PortId,
        target_device: DeviceId,
        target_port: PortId,
        connection_type: ConnectionType,
    },
    /// Disconnect devices
    DisconnectDevices { connection_id: ConnectionId },
    /// Create a new topology
    CreateTopology { name: String },
    /// Add device to topology
    AddDeviceToTopology { topology_id: TopologyId, device_id: DeviceId },
    /// Remove device from topology
    RemoveDeviceFromTopology { topology_id: TopologyId, device_id: DeviceId },
    /// Sync device to inventory system
    SyncToInventory { device_id: DeviceId, system: String },
    /// Allocate IP address for device
    AllocateIp { device_id: DeviceId, prefix: String, interface: String },
}

/// The command type name: the variant's name.
pub open spec fn command_type_name(c: NetworkCommand) -> Seq<char> {
    match c {
        NetworkCommand::DiscoverDevices { .. } => "DiscoverDevices"@,
        NetworkCommand::AdoptDevice { .. } => "AdoptDevice"@,
        NetworkCommand::ConfigureDevice { .. } => "ConfigureDevice"@,
        NetworkCommand::RenameDevice { .. } => "RenameDevice"@,
        NetworkCommand::RestartDevice { .. } => "RestartDevice"@,
        NetworkCommand::DecommissionDevice { .. } => "DecommissionDevice"@,
        NetworkCommand::ConnectDevices { .. } => "ConnectDevices"@,
        NetworkCommand::DisconnectDevices { .. } => "DisconnectDevices"@,
        NetworkCommand::CreateTopology { .. } => "CreateTopology"@,
        NetworkCommand::AddDeviceToTopology { .. } => "AddDeviceToTopology"@,
        NetworkCommand::RemoveDeviceFromTopology { .. } => "RemoveDeviceFromTopology"@,
        NetworkCommand::SyncToInventory { .. } => "SyncToInventory"@,
        NetworkCommand::AllocateIp { .. } => "AllocateIp"@,
    }
}

/// The aggregate type a command addresses.
pub open spec fn command_aggregate_type(c: NetworkCommand) -> Seq<char> {
    match c {
        NetworkCommand::ConnectDevices { .. } | NetworkCommand::DisconnectDevices { .. } => "connection"@,
        NetworkCommand::CreateTopology { .. } | NetworkCommand::AddDeviceToTopology { .. }
        | NetworkCommand::RemoveDeviceFromTopology { .. } => "topology"@,
        NetworkCommand::SyncToInventory { .. } | NetworkCommand::AllocateIp { .. } => "inventory"@,
        _ => "device"@,
    }
}

impl NetworkCommand {
    /// The command type name.
    pub fn command_type(&self) -> (s: &'static str)
        ensures
            s@ == command_type_name(*self),
    {
        match self {
            NetworkCommand::DiscoverDevices { .. } => "DiscoverDevices",
            NetworkCommand::AdoptDevice { .. } => "AdoptDevice",
            NetworkCommand::ConfigureDevice { .. } => "ConfigureDevice",
            NetworkCommand::RenameDevice { .. } => "RenameDevice",
            NetworkCommand::RestartDevice { .. } => "RestartDevice",
            NetworkCommand::DecommissionDevice { .. } => "DecommissionDevice",
            NetworkCommand::ConnectDevices { .. } => "ConnectDevices",
            NetworkCommand::DisconnectDevices { .. } => "DisconnectDevices",
            NetworkCommand::CreateTopology { .. } => "CreateTopology",
            NetworkCommand::AddDeviceToTopology { .. } => "AddDeviceToTopology",
            NetworkCommand::RemoveDeviceFromTopology { .. } => "RemoveDeviceFromTopology",
            NetworkCommand::SyncToInventory { .. } => "SyncToInventory",
            NetworkCommand::AllocateIp { .. } => "AllocateIp",
        }
    }

    fn aggregate_type(&self) -> (s: &'static str)
        ensures
            s@ == command_aggregate_type(*self),
    {
        match self {
            NetworkCommand::ConnectDevices { .. } | NetworkCommand::DisconnectDevices { .. } => "connection",
            NetworkCommand::CreateTopology { .. } | NetworkCommand::AddDeviceToTopology { .. }
            | NetworkCommand::RemoveDeviceFromTopology { .. } => "topology",
            NetworkCommand::SyncToInventory { .. } | NetworkCommand::AllocateIp { .. } => "inventory",
            _ => "device",
        }
    }

    /// Subject `network.{aggregate_type}.cmd.{command_type}`.
    pub fn nats_subject(&self) -> (s: String)
        ensures
            s@ == "network."@ + command_aggregate_type(*self) + ".cmd."@ + command_type_name(*self),
    {
        let mut s = owned("network.");
        push_str(&mut s, self.aggregate_type());
        push_str(&mut s, ".cmd.");
        push_str(&mut s, self.command_type());
        s
    }
}

} // verus!

//! Data exchanged with the outside through the ports of the domain: device
//! controllers, inventories and the event store; and their errors.

use vstd::prelude::*;
use crate::ids::{DeviceId, ConnectionId, fresh_uuid_v7, uuid_to_string, uuid_text};
use crate::ip::IpAddress;
use crate::value_objects::{MacAddress, PortId, LinkSpeed, ConnectionType};
use crate::text::{owned, push_str};

verus! {

/// Error of a port operation.
#[derive(Debug)]
pub enum PortError {
    DeviceNotFound(DeviceId),
    ConnectionFailed(String),
    AuthenticationFailed(String),
    NotSupported(String),
    Timeout(String),
    VendorError(String),
    InventoryError(String),
}

/// Text of a port error.
pub open spec fn port_error_text(e: PortError) -> Seq<char> {
    match e {
        PortError::DeviceNotFound(id) => "Device not found: "@ + uuid_text(id.value),
        PortError::ConnectionFailed(m) => "Connection failed: "@ + m@,
        PortError::AuthenticationFailed(m) => "Authentication failed: "@ + m@,
        PortError::NotSupported(m) => "Operation not supported: "@ + m@,
        PortError::Timeout(m) => "Timeout: "@ + m@,
        PortError::VendorError(m) => "Vendor error: "@ + m@,
        PortError::InventoryError(m) => "Inventory error: "@ + m@,
    }
}

impl PortError {
    /// The error's text.
    pub fn to_string(&self) -> (s: String)
        ensures
            s@ == port_error_text(*self),
    {
        let (mut s, m) = match self {
            PortError::DeviceNotFound(id) => (owned("Device not found: "), id.to_string()),
            PortError::ConnectionFailed(m) => (owned("Connection failed: "), m.clone()),
            PortError::AuthenticationFailed(m) => (owned("Authentication failed: "), m.clone()),
            PortError::NotSupported(m) => (owned("Operation not supported: "), m.clone()),
            PortError::Timeout(m) => (owned("Timeout: "), m.clone()),
            PortError::VendorError(m) => (owned("Vendor error: "), m.clone()),
            PortError::InventoryError(m) => (owned("Inventory error: "), m.clone()),
        };
        push_str(&mut s, m.as_str());
        s
    }
}

/// A device as a vendor controller reports it. Properties are names with
/// their JSON text.
#[derive(Debug)]
pub struct VendorDevice {
    pub vendor_id: String,
    /// The domain device, when mapped
    pub device_id: Option<DeviceId>,
    pub mac: MacAddress,
    pub model: String,
    pub name: String,
    pub ip_address: Option<IpAddress>,
    pub adopted: bool,
    pub properties: Vec<(String, String)>,
}

/// Statistics of a device port.
#[derive(Debug)]
pub struct PortStats {
    pub port_id: PortId,
    pub link_up: bool,
    pub speed: Option<LinkSpeed>,
    pub rx_bytes: u64,
    pub tx_bytes: u64,
    pub rx_errors: u64,
    pub tx_errors: u64,
}

/// A connection as an inventory records it.
#[derive(Debug)]
pub struct ConnectionInfo {
    pub connection_id: ConnectionId,
    pub source_device: DeviceId,
    pub source_port: PortId,
    pub target_device: DeviceId,
    pub target_port: PortId,
    pub connection_type: ConnectionType,
    pub speed: Option<LinkSpeed>,
}

/// Status of an IP address in an inventory.
#[derive(Debug, Clone, Copy, PartialEq, Eq, Structural)]
pub enum IpStatus {
    Available,
    Reserved,
    Active,
    Deprecated,
}

/// An IP address assignment.
#[derive(Debug)]
pub struct IpAssignment {
    pub address: IpAddress,
    pub prefix_len: u8,
    pub device_id: Option<DeviceId>,
    pub interface: Option<String>,
    pub status: IpStatus,
}

/// A subscription to domain events, with its own identifier.
#[derive(Debug)]
pub struct EventSubscription {
    id: String,
    subject: String,
}

impl EventSubscription {
    /// A subscription to no subject yet, with the text of a fresh
    /// time-ordered UUID as identifier.
    pub fn new() -> (s: Self)
        ensures
            exists|v: u128| s.id_text() == #[trigger] uuid_text(v),
            s.subject_text() == Seq::<char>::empty(),
    {
        EventSubscription { id: uuid_to_string(fresh_uuid_v7()), subject: String::new() }
    }

    /// A subscription to a subject pattern.
    pub fn with_subject(subject: &str) -> (s: Self)
        ensures
            exists|v: u128| s.id_text() == #[trigger] uuid_text(v),
            s.subject_text() == subject@,
    {
        EventSubscription { id: uuid_to_string(fresh_uuid_v7()), subject: owned(subject) }
    }

    /// The identifier's text.
    pub closed spec fn id_text(&self) -> Seq<char> {
        self.id@
    }

    /// The subject pattern's text.
    pub closed spec fn subject_text(&self) -> Seq<char> {
        self.subject@
    }

    /// The identifier.
    pub fn id(&self) -> (r: &str)
        ensures
            r@ == self.id_text(),
    {
        self.id.as_str()
    }

    /// The subject pattern.
    pub fn subject(&self) -> (r: &str)
        ensures
            r@ == self.subject_text(),
    {
        self.subject.as_str()
    }
}

impl Default for EventSubscription {
    /// A subscription to no subject yet.
    fn default() -> (s: Self)
        ensures
            exists|v: u128| s.id_text() == #[trigger] uuid_text(v),
            s.subject_text() == Seq::<char>::empty(),
    {
        Self::new()
    }
}

} // verus!

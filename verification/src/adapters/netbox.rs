//! NetBox inventory: how domain objects are recorded as NetBox devices and
//! cables.

use vstd::prelude::*;
use crate::aggregates::DeviceState;
use crate::functor::{
    CableTermination, DomainObject, FunctorError, InventoryCustomFields, InventoryDeviceType, InventoryPayload,
    InventoryRepresentation, InventoryExtension,
};
use crate::ids::{DeviceId, uuid_text};
use crate::ip::ip_text;
use crate::ports::{PortError, IpAssignment};
use crate::value_objects::{DeviceType, ConnectionType, mac_text, port_id_text};
use crate::text::{owned, push_str, push_dec, chars_of, dec};
use crate::adapters::http::{url_encode, url_encoded, status_display, status_text, is_success};
use crate::params::string_of;

verus! {

/// A text without its trailing `/` characters.
pub open spec fn trim_trailing_slashes(s: Seq<char>) -> Seq<char>
    decreases s.len(),
{
    if s.len() > 0 && s.last() == '/' {
        trim_trailing_slashes(s.drop_last())
    } else {
        s
    }
}

/// A base URL without its trailing `/` characters.
pub fn trim_base_url(base_url: &str) -> (r: String)
    ensures
        r@ == trim_trailing_slashes(base_url@),
{
    let cs = chars_of(base_url);
    let mut end = cs.len();
    assert(cs@.subrange(0, cs@.len() as int) =~= cs@);
    while end > 0 && cs[end - 1] == '/'
        invariant
            end <= cs@.len(),
            cs@ == base_url@,
            trim_trailing_slashes(cs@) == trim_trailing_slashes(cs@.subrange(0, end as int)),
        decreases end,
    {
        assert(cs@.subrange(0, end as int).drop_last() =~= cs@.subrange(0, end - 1));
        end = end - 1;
    }
    assert(trim_trailing_slashes(cs@.subrange(0, end as int)) == cs@.subrange(0, end as int));
    string_of(&cs, 0, end)
}

/// The NetBox model of a device type.
pub open spec fn netbox_model(t: DeviceType) -> Seq<char> {
    match t {
        DeviceType::Gateway => "Gateway"@,
        DeviceType::Switch => "Switch"@,
        DeviceType::AccessPoint => "Access Point"@,
        DeviceType::Generic { model } => model@,
    }
}

/// The NetBox status of a device state.
pub open spec fn netbox_status(s: DeviceState) -> Seq<char> {
    match s {
        DeviceState::Provisioned => "active"@,
        DeviceState::Discovered => "planned"@,
        DeviceState::Configuring => "staged"@,
        DeviceState::Error => "failed"@,
        DeviceState::Decommissioned => "decommissioning"@,
        DeviceState::Adopting => "inventory"@,
    }
}

/// The NetBox cable type of a connection type.
pub open spec fn netbox_cable_type(c: ConnectionType) -> Seq<char> {
    match c {
        ConnectionType::Ethernet => "cat6"@,
        ConnectionType::Fiber => "smf"@,
        _ => "other"@,
    }
}

/// The NetBox inventory.
#[derive(Debug)]
pub struct NetBoxAdapter {
    base_url: String,
    api_token: String,
}

impl NetBoxAdapter {
    /// An adapter for the NetBox at a base URL, without trailing `/`.
    pub fn new(base_url: &str, api_token: &str) -> (a: Self)
        ensures
            a.base_url() == trim_trailing_slashes(base_url@),
            a.api_token() == api_token@,
    {
        NetBoxAdapter { base_url: trim_base_url(base_url), api_token: owned(api_token) }
    }

    /// The base URL.
    pub closed spec fn base_url(&self) -> Seq<char> {
        self.base_url@
    }

    /// The API token.
    pub closed spec fn api_token(&self) -> Seq<char> {
        self.api_token@
    }

    /// The inventory system's name.
    pub fn system_name(&self) -> (s: &'static str)
        ensures
            s@ == "netbox"@,
    {
        "netbox"
    }

    /// Records a device; NetBox accepts every device.
    pub fn sync_device(&self, device_id: DeviceId) -> (r: Result<(), PortError>)
        ensures
            r.is_ok(),
    {
        Ok(())
    }

    /// Removes a device; NetBox accepts every removal.
    pub fn remove_device(&self, device_id: DeviceId) -> (r: Result<(), PortError>)
        ensures
            r.is_ok(),
    {
        Ok(())
    }

    /// Records a connection as a cable; NetBox accepts every connection.
    pub fn sync_connection(&self, connection: &crate::ports::ConnectionInfo) -> (r: Result<(), PortError>)
        ensures
            r.is_ok(),
    {
        Ok(())
    }

    /// The addresses assigned in a prefix: none are recorded.
    pub fn get_ip_assignments(&self, prefix: &str) -> (r: Result<Vec<IpAssignment>, PortError>)
        ensures
            r.is_ok() && r.unwrap()@.len() == 0,
    {
        Ok(Vec::new())
    }

    /// Address allocation is not offered.
    pub fn allocate_ip(&self, prefix: &str, device_id: DeviceId) -> (r: Result<IpAssignment, PortError>)
        ensures
            match r {
                Err(PortError::NotSupported(m)) => m@ == "IP allocation not yet implemented"@,
                _ => false,
            },
    {
        Err(PortError::NotSupported(owned("IP allocation not yet implemented")))
    }

    /// The NetBox record of a domain object: a device record for a device,
    /// a cable record for a connection (referenced by its source device).
    /// Topologies would be sites, which are not recorded.
    pub fn extend(&self, domain_obj: &DomainObject) -> (r: Result<InventoryRepresentation, FunctorError>)
        ensures
            match domain_obj {
                DomainObject::Device(d) => match r {
                    Ok(rep) => {
                        &&& rep.system@ == "netbox"@
                        &&& rep.inventory_id@ == "netbox-"@ + uuid_text(d@.id.value)
                        &&& rep.device_id == d@.id
                        &&& match rep.payload {
                            InventoryPayload::Device { name, device_type, status, primary_ip4, custom_fields } => {
                                &&& name@ == d@.name
                                &&& device_type.model@ == netbox_model(d@.device_type)
                                &&& status@ == netbox_status(d@.state)
                                &&& match d@.ip_address {
                                    Some(ip) => primary_ip4 is Some && primary_ip4.unwrap()@ == ip_text(ip),
                                    None => primary_ip4 is None,
                                }
                                &&& custom_fields.mac_address@ == mac_text(d@.mac@)
                                &&& custom_fields.cim_device_id@ == uuid_text(d@.id.value)
                            },
                            _ => false,
                        }
                    },
                    Err(_) => false,
                },
                DomainObject::Connection(c) => match r {
                    Ok(rep) => {
                        &&& rep.system@ == "netbox"@
                        &&& rep.inventory_id@ == "netbox-cable-"@ + uuid_text(c.id.value)
                        &&& rep.device_id == c.source_device
                        &&& match rep.payload {
                            InventoryPayload::Cable { a_termination, b_termination, cable_type, status } => {
                                &&& a_termination.object_type@ == "dcim.interface"@
                                &&& a_termination.object_id@ == port_id_text(c.source_port)
                                &&& b_termination.object_type@ == "dcim.interface"@
                                &&& b_termination.object_id@ == port_id_text(c.target_port)
                                &&& cable_type@ == netbox_cable_type(c.connection_type)
                                &&& status@ == "connected"@
                            },
                            _ => false,
                        }
                    },
                    Err(_) => false,
                },
                DomainObject::Topology(_) => match r {
                    Err(FunctorError::MappingFailed(m)) => m@ == "Topology objects map to NetBox sites, not yet implemented"@,
                    _ => false,
                },
            },
    {
        match domain_obj {
            DomainObject::Device(device) => {
                let model = match device.device_type() {
                    DeviceType::Gateway => owned("Gateway"),
                    DeviceType::Switch => owned("Switch"),
                    DeviceType::AccessPoint => owned("Access Point"),
                    DeviceType::Generic { model } => model.clone(),
                };
                let status = owned(match device.state() {
                    DeviceState::Provisioned => "active",
                    DeviceState::Discovered => "planned",
                    DeviceState::Configuring => "staged",
                    DeviceState::Error => "failed",
                    DeviceState::Decommissioned => "decommissioning",
                    DeviceState::Adopting => "inventory",
                });
                let primary_ip4 = match device.ip_address() {
                    Some(ip) => Some(ip.to_string()),
                    None => None,
                };
                let id_text = device.id().to_string();
                let mut inventory_id = owned("netbox-");
                push_str(&mut inventory_id, id_text.as_str());
                Ok(InventoryRepresentation {
                    system: owned("netbox"),
                    inventory_id,
                    device_id: device.id(),
                    payload: InventoryPayload::Device {
                        name: owned(device.name()),
                        device_type: InventoryDeviceType { model },
                        status,
                        primary_ip4,
                        custom_fields: InventoryCustomFields { mac_address: device.mac().to_string(), cim_device_id: id_text },
                    },
                })
            }
            DomainObject::Connection(conn) => {
                let cable_type = owned(match conn.connection_type {
                    ConnectionType::Ethernet => "cat6",
                    ConnectionType::Fiber => "smf",
                    _ => "other",
                });
                let mut inventory_id = owned("netbox-cable-");
                push_str(&mut inventory_id, conn.id.to_string().as_str());
                Ok(InventoryRepresentation {
                    system: owned("netbox"),
                    inventory_id,
                    device_id: conn.source_device,
                    payload: InventoryPayload::Cable {
                        a_termination: CableTermination {
                            object_type: owned("dcim.interface"),
                            object_id: conn.source_port.to_string(),
                        },
                        b_termination: CableTermination {
                            object_type: owned("dcim.interface"),
                            object_id: conn.target_port.to_string(),
                        },
                        cable_type,
                        status: owned("connected"),
                    },
                })
            }
            DomainObject::Topology(_) => Err(FunctorError::MappingFailed(
                owned("Topology objects map to NetBox sites, not yet implemented"),
            )),
        }
    }
}

impl InventoryExtension for NetBoxAdapter {
    /// The inventory system's name.
    fn system_name(&self) -> (s: &str) {
        "netbox"
    }

    /// The NetBox record of a domain object.
    fn extend(&self, domain_obj: &DomainObject) -> (r: Result<InventoryRepresentation, FunctorError>) {
        NetBoxAdapter::extend(self, domain_obj)
    }
}

// ---------------------------------------------------------------------
// The NetBox REST API

/// Error of the NetBox API.
#[derive(Debug)]
pub enum NetBoxError {
    /// HTTP or network failure
    Http(String),
    /// Authentication refused
    Auth(String),
    /// Error answer of the API
    Api(String),
    /// Answer that could not be read
    Parse(String),
    /// Resource not found
    NotFound(String),
    /// Request refused as invalid
    Validation(String),
}

/// Text of a NetBox API error.
pub open spec fn netbox_error_text(e: NetBoxError) -> Seq<char> {
    match e {
        NetBoxError::Http(m) => "HTTP error: "@ + m@,
        NetBoxError::Auth(m) => "Authentication failed: "@ + m@,
        NetBoxError::Api(m) => "API error: "@ + m@,
        NetBoxError::Parse(m) => "Parse error: "@ + m@,
        NetBoxError::NotFound(m) => "Not found: "@ + m@,
        NetBoxError::Validation(m) => "Validation error: "@ + m@,
    }
}

impl NetBoxError {
    /// The error's text.
    pub fn to_string(&self) -> (s: String)
        ensures
            s@ == netbox_error_text(*self),
    {
        let (mut s, m) = match self {
            NetBoxError::Http(m) => (owned("HTTP error: "), m),
            NetBoxError::Auth(m) => (owned("Authentication failed: "), m),
            NetBoxError::Api(m) => (owned("API error: "), m),
            NetBoxError::Parse(m) => (owned("Parse error: "), m),
            NetBoxError::NotFound(m) => (owned("Not found: "), m),
            NetBoxError::Validation(m) => (owned("Validation error: "), m),
        };
        push_str(&mut s, m.as_str());
        s
    }
}

/// Where and as whom requests go to a NetBox: its base URL, without
/// trailing `/`, and an API token.
#[derive(Debug)]
pub struct NetBoxApi {
    base_url: String,
    api_token: String,
}

/// The message of an answer that failed with a status.
pub open spec fn request_failed_text(code: u16, body: Seq<char>) -> Seq<char> {
    "Request failed: "@ + status_text(code) + " - "@ + body
}

fn request_failed(code: u16, body: &str) -> (m: String)
    requires
        100 <= code <= 999,
    ensures
        m@ == request_failed_text(code, body@),
{
    let mut m = owned("Request failed: ");
    push_str(&mut m, status_display(code).as_str());
    push_str(&mut m, " - ");
    push_str(&mut m, body);
    m
}

/// The error of an answer to a read or a write, from its status and body:
/// none on success (2xx); not found on 404; a refused token on 401; the
/// body as a validation error on 400; any other failure as an API error
/// naming the status and the body.
pub fn response_failure(code: u16, body: &str) -> (r: Option<NetBoxError>)
    requires
        100 <= code <= 999,
    ensures
        code == 404 ==> (r matches Some(NetBoxError::NotFound(m)) && m@ == "Resource not found"@),
        code == 401 ==> (r matches Some(NetBoxError::Auth(m)) && m@ == "Invalid API token"@),
        code == 400 ==> (r matches Some(NetBoxError::Validation(m)) && m@ == body@),
        is_success(code) ==> r is None,
        (code != 404 && code != 401 && code != 400 && !is_success(code)) ==> (r matches Some(NetBoxError::Api(m))
            && m@ == request_failed_text(code, body@)),
{
    if code == 404 {
        Some(NetBoxError::NotFound(owned("Resource not found")))
    } else if code == 401 {
        Some(NetBoxError::Auth(owned("Invalid API token")))
    } else if code == 400 {
        Some(NetBoxError::Validation(owned(body)))
    } else if 200 <= code && code <= 299 {
        None
    } else {
        Some(NetBoxError::Api(request_failed(code, body)))
    }
}

/// The outcome of a deletion, from the answer's status and body: done on
/// success (2xx, 204 among them); not found on 404; a refused token on
/// 401; any other failure as an API error naming the status and the body.
pub fn delete_outcome(code: u16, body: &str) -> (r: Result<(), NetBoxError>)
    requires
        100 <= code <= 999,
    ensures
        is_success(code) ==> r is Ok,
        code == 404 ==> (r matches Err(NetBoxError::NotFound(m)) && m@ == "Resource not found"@),
        code == 401 ==> (r matches Err(NetBoxError::Auth(m)) && m@ == "Invalid API token"@),
        (code != 404 && code != 401 && !is_success(code)) ==> (r matches Err(NetBoxError::Api(m))
            && m@ == request_failed_text(code, body@)),
{
    if code == 204 || (200 <= code && code <= 299) {
        Ok(())
    } else if code == 404 {
        Err(NetBoxError::NotFound(owned("Resource not found")))
    } else if code == 401 {
        Err(NetBoxError::Auth(owned("Invalid API token")))
    } else {
        Err(NetBoxError::Api(request_failed(code, body)))
    }
}

impl NetBoxApi {
    /// Requests to the NetBox at a base URL (trailing `/` dropped) with a
    /// token.
    pub fn new(base_url: &str, api_token: &str) -> (a: Self)
        ensures
            a.base_url() == trim_trailing_slashes(base_url@),
            a.api_token() == api_token@,
    {
        NetBoxApi { base_url: trim_base_url(base_url), api_token: owned(api_token) }
    }

    /// The base URL.
    pub closed spec fn base_url(&self) -> Seq<char> {
        self.base_url@
    }

    /// The API token.
    pub closed spec fn api_token(&self) -> Seq<char> {
        self.api_token@
    }

    fn at(&self, path: &str) -> (u: String)
        ensures
            u@ == self.base_url() + path@,
    {
        let mut u = self.base_url.clone();
        push_str(&mut u, path);
        u
    }

    fn at_id(&self, path: &str, id: u64) -> (u: String)
        ensures
            u@ == self.base_url() + path@ + dec(id as nat) + "/"@,
    {
        let mut u = self.at(path);
        push_dec(&mut u, id);
        push_str(&mut u, "/");
        u
    }

    fn at_query(&self, path: &str, value: &str) -> (u: String)
        ensures
            u@ == self.base_url() + path@ + url_encoded(value@),
    {
        let mut u = self.at(path);
        push_str(&mut u, url_encode(value).as_str());
        u
    }

    /// The `Authorization` header's value: `Token <token>`.
    pub fn authorization(&self) -> (h: String)
        ensures
            h@ == "Token "@ + self.api_token(),
    {
        let mut h = owned("Token ");
        push_str(&mut h, self.api_token.as_str());
        h
    }

    /// URL of the device list.
    pub fn devices_url(&self) -> (u: String)
        ensures
            u@ == self.base_url() + "/api/dcim/devices/"@,
    {
        self.at("/api/dcim/devices/")
    }

    /// URL of a device.
    pub fn device_url(&self, id: u64) -> (u: String)
        ensures
            u@ == self.base_url() + "/api/dcim/devices/"@ + dec(id as nat) + "/"@,
    {
        self.at_id("/api/dcim/devices/", id)
    }

    /// URL of the devices with a name, the name percent-encoded.
    pub fn device_by_name_url(&self, name: &str) -> (u: String)
        ensures
            u@ == self.base_url() + "/api/dcim/devices/?name="@ + url_encoded(name@),
    {
        self.at_query("/api/dcim/devices/?name=", name)
    }

    /// URL of the cable list.
    pub fn cables_url(&self) -> (u: String)
        ensures
            u@ == self.base_url() + "/api/dcim/cables/"@,
    {
        self.at("/api/dcim/cables/")
    }

    /// URL of a cable.
    pub fn cable_url(&self, id: u64) -> (u: String)
        ensures
            u@ == self.base_url() + "/api/dcim/cables/"@ + dec(id as nat) + "/"@,
    {
        self.at_id("/api/dcim/cables/", id)
    }

    /// URL of the addresses within a prefix, the prefix percent-encoded.
    pub fn ip_addresses_url(&self, prefix: &str) -> (u: String)
        ensures
            u@ == self.base_url() + "/api/ipam/ip-addresses/?parent="@ + url_encoded(prefix@),
    {
        self.at_query("/api/ipam/ip-addresses/?parent=", prefix)
    }

    /// URL of the prefixes equal to a CIDR, percent-encoded.
    pub fn prefix_url(&self, prefix: &str) -> (u: String)
        ensures
            u@ == self.base_url() + "/api/ipam/prefixes/?prefix="@ + url_encoded(prefix@),
    {
        self.at_query("/api/ipam/prefixes/?prefix=", prefix)
    }

    /// URL that hands out the next free address of a prefix.
    pub fn available_ips_url(&self, prefix_id: u64) -> (u: String)
        ensures
            u@ == self.base_url() + "/api/ipam/prefixes/"@ + dec(prefix_id as nat) + "/available-ips/"@,
    {
        let mut u = self.at("/api/ipam/prefixes/");
        push_dec(&mut u, prefix_id);
        push_str(&mut u, "/available-ips/");
        u
    }

    /// URL of an address.
    pub fn ip_address_url(&self, id: u64) -> (u: String)
        ensures
            u@ == self.base_url() + "/api/ipam/ip-addresses/"@ + dec(id as nat) + "/"@,
    {
        self.at_id("/api/ipam/ip-addresses/", id)
    }
}

} // verus!

//! UniFi controller: its device and port records read into the domain,
//! domain devices as UniFi records, and UniFi events as domain events.

use vstd::prelude::*;
use crate::aggregates::state_name;
use crate::events::NetworkEvent;
use crate::functor::{DomainObject, FunctorError, VendorPayload, VendorRepresentation};
use crate::ids::DeviceId;
use crate::ip::IpAddress;
use crate::ports::{VendorDevice, PortStats};
use crate::value_objects::{MacAddress, DeviceType, PortId, LinkSpeed, mac_text, mac_error_text, parse_mac_spec};
use crate::text::{owned, push_str, push_char, chars_of};
use crate::functor::{lookup, get_entry, put_entry};
use crate::value_objects::strip_separators;
use crate::params::{lower_text, to_lower};
use crate::adapters::netbox::{trim_base_url, trim_trailing_slashes};
use crate::adapters::http::{status_display, status_text, is_success};
use crate::params::same_text;

verus! {

/// A device as the UniFi controller reports it. The IPv4 address is its
/// 32-bit value; properties are names with their JSON text.
#[derive(Debug)]
pub struct UniFiDevice {
    pub id: String,
    pub mac: MacAddress,
    pub model: String,
    pub name: String,
    pub ip: Option<u32>,
    pub adopted: bool,
    pub device_type: String,
    pub version: Option<String>,
    pub state: Option<i32>,
    pub properties: Vec<(String, String)>,
}

/// Statistics of a port as the UniFi controller reports them.
#[derive(Debug, Clone, Copy, PartialEq, Eq, Structural)]
pub struct UniFiPortStats {
    pub port_idx: u32,
    pub up: bool,
    /// Speed in Mbps
    pub speed: Option<u32>,
    pub full_duplex: Option<bool>,
    pub rx_bytes: u64,
    pub tx_bytes: u64,
    pub rx_errors: Option<u64>,
    pub tx_errors: Option<u64>,
}

/// Status part of a UniFi API answer.
#[derive(Debug)]
pub struct UniFiMeta {
    pub rc: String,
    pub msg: Option<String>,
}

impl UniFiMeta {
    /// The answer reports success: its code is `ok`.
    pub fn is_ok(&self) -> (r: bool)
        ensures
            r == (self.rc@ == "ok"@),
    {
        same_text(self.rc.as_str(), "ok")
    }
}

/// Error of the UniFi API.
#[derive(Debug)]
pub enum UniFiError {
    Http(String),
    Auth(String),
    Api(String),
    Parse(String),
    NotFound(String),
}

/// Text of a UniFi API error.
pub open spec fn unifi_error_text(e: UniFiError) -> Seq<char> {
    match e {
        UniFiError::Http(m) => "HTTP error: "@ + m@,
        UniFiError::Auth(m) => "Authentication failed: "@ + m@,
        UniFiError::Api(m) => "API error: "@ + m@,
        UniFiError::Parse(m) => "Parse error: "@ + m@,
        UniFiError::NotFound(m) => "Device not found: "@ + m@,
    }
}

impl UniFiError {
    /// The error's text.
    pub fn to_string(&self) -> (s: String)
        ensures
            s@ == unifi_error_text(*self),
    {
        let (mut s, m) = match self {
            UniFiError::Http(m) => (owned("HTTP error: "), m),
            UniFiError::Auth(m) => (owned("Authentication failed: "), m),
            UniFiError::Api(m) => (owned("API error: "), m),
            UniFiError::Parse(m) => (owned("Parse error: "), m),
            UniFiError::NotFound(m) => (owned("Device not found: "), m),
        };
        push_str(&mut s, m.as_str());
        s
    }
}

/// The link speed of a port speed in Mbps, for the speeds there are.
pub open spec fn speed_of_mbps(mbps: u32) -> Option<LinkSpeed> {
    if mbps == 10 {
        Some(LinkSpeed::Mbps10)
    } else if mbps == 100 {
        Some(LinkSpeed::Mbps100)
    } else if mbps == 1000 {
        Some(LinkSpeed::Gbps1)
    } else if mbps == 2500 {
        Some(LinkSpeed::Gbps2_5)
    } else if mbps == 5000 {
        Some(LinkSpeed::Gbps5)
    } else if mbps == 10000 {
        Some(LinkSpeed::Gbps10)
    } else if mbps == 25000 {
        Some(LinkSpeed::Gbps25)
    } else if mbps == 40000 {
        Some(LinkSpeed::Gbps40)
    } else if mbps == 100000 {
        Some(LinkSpeed::Gbps100)
    } else {
        None
    }
}

/// The link speed of a port speed in Mbps.
pub fn speed_from_mbps(mbps: u32) -> (r: Option<LinkSpeed>)
    ensures
        r == speed_of_mbps(mbps),
{
    match mbps {
        10 => Some(LinkSpeed::Mbps10),
        100 => Some(LinkSpeed::Mbps100),
        1000 => Some(LinkSpeed::Gbps1),
        2500 => Some(LinkSpeed::Gbps2_5),
        5000 => Some(LinkSpeed::Gbps5),
        10000 => Some(LinkSpeed::Gbps10),
        25000 => Some(LinkSpeed::Gbps25),
        40000 => Some(LinkSpeed::Gbps40),
        100000 => Some(LinkSpeed::Gbps100),
        _ => None,
    }
}

/// The domain statistics of a UniFi port: the port is `port[<index>]`,
/// unknown speeds and missing error counts read as none and zero.
pub fn port_stats_from(ps: &UniFiPortStats) -> (r: PortStats)
    ensures
        r.port_id.name@ == "port"@ && r.port_id.index == Some(ps.port_idx),
        r.link_up == ps.up,
        r.speed == (match ps.speed {
            Some(s) => speed_of_mbps(s),
            None => None,
        }),
        r.rx_bytes == ps.rx_bytes && r.tx_bytes == ps.tx_bytes,
        r.rx_errors == (match ps.rx_errors { Some(e) => e, None => 0 }),
        r.tx_errors == (match ps.tx_errors { Some(e) => e, None => 0 }),
{
    PortStats {
        port_id: PortId::with_index("port", ps.port_idx),
        link_up: ps.up,
        speed: match ps.speed {
            Some(s) => speed_from_mbps(s),
            None => None,
        },
        rx_bytes: ps.rx_bytes,
        tx_bytes: ps.tx_bytes,
        rx_errors: match ps.rx_errors { Some(e) => e, None => 0 },
        tx_errors: match ps.tx_errors { Some(e) => e, None => 0 },
    }
}

/// A copy of a list of name-text pairs.
fn copy_pairs(v: &Vec<(String, String)>) -> (r: Vec<(String, String)>)
    ensures
        r@ == v@,
{
    let mut r: Vec<(String, String)> = Vec::new();
    let mut k: usize = 0;
    while k < v.len()
        invariant
            k <= v@.len(),
            r@ == v@.take(k as int),
        decreases v@.len() - k,
    {
        r.push((v[k].0.clone(), v[k].1.clone()));
        assert(r@ =~= v@.take(k + 1));
        k = k + 1;
    }
    assert(v@.take(v@.len() as int) =~= v@);
    r
}

/// The vendor device of a UniFi device, mapped to a domain device or not.
pub fn vendor_device_from(d: &UniFiDevice, device_id: Option<DeviceId>) -> (v: VendorDevice)
    ensures
        v.vendor_id == d.id,
        v.device_id == device_id,
        v.mac == d.mac,
        v.model == d.model,
        v.name == d.name,
        v.ip_address == (match d.ip {
            Some(a) => Some(IpAddress::V4(a)),
            None => None,
        }),
        v.adopted == d.adopted,
        v.properties@ == d.properties@,
{
    VendorDevice {
        vendor_id: d.id.clone(),
        device_id,
        mac: d.mac,
        model: d.model.clone(),
        name: d.name.clone(),
        ip_address: match d.ip {
            Some(a) => Some(IpAddress::V4(a)),
            None => None,
        },
        adopted: d.adopted,
        properties: copy_pairs(&d.properties),
    }
}

/// The UniFi device type of a domain device type.
pub open spec fn unifi_type(t: DeviceType) -> Seq<char> {
    match t {
        DeviceType::Gateway => "ugw"@,
        DeviceType::Switch => "usw"@,
        DeviceType::AccessPoint => "uap"@,
        DeviceType::Generic { model } => model@,
    }
}

/// The UniFi record of a domain device: its UniFi type, MAC address, name
/// and state, under its vendor identifier (`pending` before adoption).
/// Only devices have one.
pub fn unifi_representation(domain_obj: &DomainObject) -> (r: Result<VendorRepresentation, FunctorError>)
    ensures
        match domain_obj {
            DomainObject::Device(d) => match r {
                Ok(rep) => {
                    &&& rep.vendor@ == "unifi"@
                    &&& rep.vendor_id@ == (match d@.vendor_id {
                        Some(v) => v@,
                        None => "pending"@,
                    })
                    &&& rep.device_id == d@.id
                    &&& rep.payload.device_type@ == unifi_type(d@.device_type)
                    &&& rep.payload.mac@ == mac_text(d@.mac@)
                    &&& rep.payload.name@ == d@.name
                    &&& rep.payload.state@ == state_name(d@.state)
                },
                Err(_) => false,
            },
            _ => match r {
                Err(FunctorError::MappingFailed(m)) => m@ == "Only Device objects can be extended to UniFi"@,
                _ => false,
            },
        },
{
    match domain_obj {
        DomainObject::Device(device) => {
            let device_type = match device.device_type() {
                DeviceType::Gateway => owned("ugw"),
                DeviceType::Switch => owned("usw"),
                DeviceType::AccessPoint => owned("uap"),
                DeviceType::Generic { model } => model.clone(),
            };
            let vendor_id = match device.vendor_id() {
                Some(v) => v.clone(),
                None => owned("pending"),
            };
            Ok(VendorRepresentation {
                vendor: owned("unifi"),
                vendor_id,
                device_id: device.id(),
                payload: VendorPayload {
                    device_type,
                    mac: device.mac().to_string(),
                    name: owned(device.name()),
                    state: owned(device.state().name()),
                },
            })
        }
        _ => Err(FunctorError::MappingFailed(owned("Only Device objects can be extended to UniFi"))),
    }
}

/// A field of a JSON object: absent, a string, or another value.
#[derive(Debug)]
pub enum JsonField {
    Absent,
    Text(String),
    Other,
}

/// The fields of a UniFi event that the domain reads.
#[derive(Debug)]
pub struct UniFiEvent {
    pub key: JsonField,
    pub ap: JsonField,
    pub sw: JsonField,
    pub gw: JsonField,
}

/// A device-connected event key.
pub open spec fn connected_key(k: Seq<char>) -> bool {
    k == "EVT_AP_Connected"@ || k == "EVT_SW_Connected"@ || k == "EVT_GW_Connected"@
}

/// The device field of an event: the first present of `ap`, `sw`, `gw`.
pub open spec fn device_field(e: UniFiEvent) -> JsonField {
    if !(e.ap is Absent) { e.ap } else if !(e.sw is Absent) { e.sw } else { e.gw }
}

/// The domain event of a UniFi event. A device-connected event whose
/// device field is a MAC address gives a provisioned event of a new
/// device with model and firmware `unknown`; other keys, a missing key or
/// a missing or bad MAC address are refused.
pub fn unifi_event_to_domain(e: &UniFiEvent) -> (r: Result<NetworkEvent, FunctorError>)
    ensures
        match e.key {
            JsonField::Text(k) => if connected_key(k@) {
                match device_field(*e) {
                    JsonField::Text(m) => match parse_mac_spec(m@) {
                        Ok(_) => match r {
                            Ok(NetworkEvent::DeviceProvisioned { device_id, model, firmware_version }) =>
                                model@ == "unknown"@ && firmware_version@ == "unknown"@,
                            _ => false,
                        },
                        Err(err) => match r {
                            Err(FunctorError::MappingFailed(x)) => x@ == mac_error_text(err),
                            _ => false,
                        },
                    },
                    _ => match r {
                        Err(FunctorError::MappingFailed(x)) => x@ == "Missing device MAC"@,
                        _ => false,
                    },
                }
            } else {
                match r {
                    Err(FunctorError::MappingFailed(x)) => x@ == "Unknown event type: "@ + k@,
                    _ => false,
                }
            },
            _ => match r {
                Err(FunctorError::MappingFailed(x)) => x@ == "Missing event key"@,
                _ => false,
            },
        },
{
    let key = match &e.key {
        JsonField::Text(k) => k,
        _ => { return Err(FunctorError::MappingFailed(owned("Missing event key"))); }
    };
    let k = key.as_str();
    if same_text(k, "EVT_AP_Connected") || same_text(k, "EVT_SW_Connected") || same_text(k, "EVT_GW_Connected") {
        let field = match &e.ap {
            JsonField::Absent => match &e.sw {
                JsonField::Absent => &e.gw,
                f => f,
            },
            f => f,
        };
        let mac_str = match field {
            JsonField::Text(m) => m,
            _ => { return Err(FunctorError::MappingFailed(owned("Missing device MAC"))); }
        };
        match MacAddress::parse(mac_str.as_str()) {
            Ok(_) => Ok(NetworkEvent::DeviceProvisioned {
                device_id: DeviceId::new(),
                model: owned("unknown"),
                firmware_version: owned("unknown"),
            }),
            Err(err) => Err(FunctorError::MappingFailed(err.to_string())),
        }
    } else {
        let mut m = owned("Unknown event type: ");
        push_str(&mut m, k);
        Err(FunctorError::MappingFailed(m))
    }
}

// ---------------------------------------------------------------------
// The UniFi controller API

/// Where and as whom requests go to a UniFi controller: its base URL,
/// without trailing `/`, and the login credentials.
#[derive(Debug)]
pub struct UniFiApi {
    base_url: String,
    username: String,
    password: String,
}

impl UniFiApi {
    /// Requests to the controller at a URL (trailing `/` dropped) with
    /// credentials.
    pub fn new(controller_url: &str, username: &str, password: &str) -> (a: Self)
        ensures
            a.base_url() == trim_trailing_slashes(controller_url@),
            a.login_name() == username@,
            a.login_secret() == password@,
    {
        UniFiApi { base_url: trim_base_url(controller_url), username: owned(username), password: owned(password) }
    }

    /// The base URL.
    pub closed spec fn base_url(&self) -> Seq<char> {
        self.base_url@
    }

    /// The user name of the login.
    pub closed spec fn login_name(&self) -> Seq<char> {
        self.username@
    }

    /// The password of the login.
    pub closed spec fn login_secret(&self) -> Seq<char> {
        self.password@
    }

    /// The user name of the login.
    pub fn username(&self) -> (u: &String)
        ensures
            u@ == self.login_name(),
    {
        &self.username
    }

    /// The password of the login.
    pub fn password(&self) -> (p: &String)
        ensures
            p@ == self.login_secret(),
    {
        &self.password
    }

    fn at(&self, path: &str) -> (u: String)
        ensures
            u@ == self.base_url() + path@,
    {
        let mut u = self.base_url.clone();
        push_str(&mut u, path);
        u
    }

    fn at_site(&self, site_id: &str, path: &str) -> (u: String)
        ensures
            u@ == self.base_url() + "/api/s/"@ + site_id@ + path@,
    {
        let mut u = self.at("/api/s/");
        push_str(&mut u, site_id);
        push_str(&mut u, path);
        u
    }

    /// URL of the login.
    pub fn login_url(&self) -> (u: String)
        ensures
            u@ == self.base_url() + "/api/login"@,
    {
        self.at("/api/login")
    }

    /// URL of the logout.
    pub fn logout_url(&self) -> (u: String)
        ensures
            u@ == self.base_url() + "/api/logout"@,
    {
        self.at("/api/logout")
    }

    /// URL of the devices of a site.
    pub fn devices_url(&self, site_id: &str) -> (u: String)
        ensures
            u@ == self.base_url() + "/api/s/"@ + site_id@ + "/stat/device"@,
    {
        self.at_site(site_id, "/stat/device")
    }

    /// URL of the device manager commands of a site (adopt, restart).
    pub fn device_command_url(&self, site_id: &str) -> (u: String)
        ensures
            u@ == self.base_url() + "/api/s/"@ + site_id@ + "/cmd/devmgr"@,
    {
        self.at_site(site_id, "/cmd/devmgr")
    }

    /// URL of a device's configuration.
    pub fn device_config_url(&self, site_id: &str, device_id: &str) -> (u: String)
        ensures
            u@ == self.base_url() + "/api/s/"@ + site_id@ + "/rest/device/"@ + device_id@,
    {
        let mut u = self.at_site(site_id, "/rest/device/");
        push_str(&mut u, device_id);
        u
    }
}

/// A MAC address as the controller takes it: lower case, without `:` and
/// `-`.
pub open spec fn normalized_mac(s: Seq<char>) -> Seq<char> {
    strip_separators(lower_text(s))
}

/// A MAC address in lower case without `:` and `-`.
pub fn normalize_mac(mac: &str) -> (r: String)
    ensures
        r@ == normalized_mac(mac@),
{
    let low = to_lower(mac);
    let cs = chars_of(low.as_str());
    let mut r = String::new();
    let mut k: usize = 0;
    while k < cs.len()
        invariant
            k <= cs@.len(),
            cs@ == lower_text(mac@),
            r@ == strip_separators(cs@.take(k as int)),
        decreases cs@.len() - k,
    {
        assert(cs@.take(k + 1).drop_last() =~= cs@.take(k as int));
        let c = cs[k];
        if c != ':' && c != '-' {
            push_char(&mut r, c);
        }
        k = k + 1;
    }
    assert(cs@.take(cs@.len() as int) =~= cs@);
    r
}

/// Whether a device's MAC address, normalized, is the given normalized
/// address.
pub open spec fn mac_matches(d: UniFiDevice, wanted: Seq<char>) -> bool {
    normalized_mac(mac_text(d.mac@)) == wanted
}

/// Whether position `i` holds the first device with the given normalized
/// MAC address.
pub open spec fn first_with_mac(ds: Seq<UniFiDevice>, i: int, wanted: Seq<char>) -> bool {
    &&& 0 <= i < ds.len()
    &&& mac_matches(ds[i], wanted)
    &&& forall|j: int| 0 <= j < i ==> !mac_matches(#[trigger] ds[j], wanted)
}

/// The first device whose MAC address, normalized, is the given one,
/// normalized; an error naming the address where there is none.
pub fn find_device(devices: Vec<UniFiDevice>, device_mac: &str) -> (r: Result<UniFiDevice, UniFiError>)
    ensures
        match r {
            Ok(d) => exists|i: int| #[trigger] first_with_mac(devices@, i, normalized_mac(device_mac@)) && d == devices@[i],
            Err(e) => (e matches UniFiError::NotFound(m) && m@ == device_mac@)
                && forall|j: int| 0 <= j < devices@.len() ==> !mac_matches(#[trigger] devices@[j], normalized_mac(device_mac@)),
        },
{
    let wanted = normalize_mac(device_mac);
    let mut list = devices;
    let ghost all = list@;
    let mut k: usize = 0;
    while k < list.len()
        invariant
            list@ == all,
            all == devices@,
            k <= all.len(),
            wanted@ == normalized_mac(device_mac@),
            forall|j: int| 0 <= j < k ==> !mac_matches(#[trigger] all[j], wanted@),
        decreases all.len() - k,
    {
        let candidate = normalize_mac(list[k].mac.to_string().as_str());
        if same_text(candidate.as_str(), wanted.as_str()) {
            let d = list.remove(k);
            assert(first_with_mac(all, k as int, wanted@));
            return Ok(d);
        }
        k = k + 1;
    }
    Err(UniFiError::NotFound(owned(device_mac)))
}

/// The outcome of an answer's status part: success where its code is `ok`,
/// else an API error with its message or, where it has none, the fallback.
pub fn api_outcome(meta: &UniFiMeta, fallback: &str) -> (r: Result<(), UniFiError>)
    ensures
        meta.rc@ == "ok"@ ==> r is Ok,
        meta.rc@ != "ok"@ ==> (r matches Err(UniFiError::Api(m)) && m@ == match meta.msg {
            Some(t) => t@,
            None => fallback@,
        }),
{
    if meta.is_ok() {
        Ok(())
    } else {
        match &meta.msg {
            Some(t) => Err(UniFiError::Api(t.clone())),
            None => Err(UniFiError::Api(owned(fallback))),
        }
    }
}

/// The outcome of a login: a failed status refuses it naming the status;
/// then the answer's status part must be `ok`, else its message (or
/// `Unknown error`) refuses it.
pub fn login_outcome(code: u16, meta: Option<&UniFiMeta>) -> (r: Result<(), UniFiError>)
    requires
        100 <= code <= 999,
    ensures
        !is_success(code) ==> (r matches Err(UniFiError::Auth(m)) && m@ == "Login failed with status "@ + status_text(code)),
        is_success(code) ==> match meta {
            None => r is Ok,
            Some(mt) => if mt.rc@ == "ok"@ { r is Ok } else {
                r matches Err(UniFiError::Auth(m)) && m@ == match mt.msg {
                    Some(t) => t@,
                    None => "Unknown error"@,
                }
            },
        },
{
    if !(200 <= code && code <= 299) {
        let mut m = owned("Login failed with status ");
        push_str(&mut m, status_display(code).as_str());
        return Err(UniFiError::Auth(m));
    }
    match meta {
        None => Ok(()),
        Some(mt) => {
            if mt.is_ok() {
                Ok(())
            } else {
                match &mt.msg {
                    Some(t) => Err(UniFiError::Auth(t.clone())),
                    None => Err(UniFiError::Auth(owned("Unknown error"))),
                }
            }
        }
    }
}

/// The outcome of a request's status: success for 2xx, else an HTTP error
/// naming the status.
pub fn request_outcome(code: u16) -> (r: Result<(), UniFiError>)
    requires
        100 <= code <= 999,
    ensures
        is_success(code) ==> r is Ok,
        !is_success(code) ==> (r matches Err(UniFiError::Http(m)) && m@ == "Request failed with status "@ + status_text(code)),
{
    if 200 <= code && code <= 299 {
        Ok(())
    } else {
        let mut m = owned("Request failed with status ");
        push_str(&mut m, status_display(code).as_str());
        Err(UniFiError::Http(m))
    }
}

/// Requests other than the login need a session.
pub fn ensure_authenticated(authenticated: bool) -> (r: Result<(), UniFiError>)
    ensures
        authenticated ==> r is Ok,
        !authenticated ==> (r matches Err(UniFiError::Auth(m)) && m@ == "Not authenticated"@),
{
    if authenticated { Ok(()) } else { Err(UniFiError::Auth(owned("Not authenticated"))) }
}

/// One entry of a device's port table, as far as it holds the fields read
/// from it.
#[derive(Debug, Clone, Copy, PartialEq, Eq, Structural)]
pub struct UniFiPortRecord {
    pub port_idx: Option<u64>,
    pub up: Option<bool>,
    pub speed: Option<u64>,
    pub full_duplex: Option<bool>,
    pub rx_bytes: Option<u64>,
    pub tx_bytes: Option<u64>,
    pub rx_errors: Option<u64>,
    pub tx_errors: Option<u64>,
}

/// The statistics of a port-table entry: none without an index or an up
/// flag; the index and speed cut to 32 bits; missing byte counts read as
/// zero.
pub open spec fn port_record_stats(p: UniFiPortRecord) -> Option<UniFiPortStats> {
    match (p.port_idx, p.up) {
        (Some(i), Some(u)) => Some(UniFiPortStats {
            port_idx: i as u32,
            up: u,
            speed: match p.speed { Some(v) => Some(v as u32), None => None },
            full_duplex: p.full_duplex,
            rx_bytes: match p.rx_bytes { Some(v) => v, None => 0 },
            tx_bytes: match p.tx_bytes { Some(v) => v, None => 0 },
            rx_errors: p.rx_errors,
            tx_errors: p.tx_errors,
        }),
        _ => None,
    }
}

/// The statistics of the entries of a port table that have them, in order.
pub open spec fn port_table_stats(ps: Seq<UniFiPortRecord>) -> Seq<UniFiPortStats>
    decreases ps.len(),
{
    if ps.len() == 0 {
        Seq::empty()
    } else {
        match port_record_stats(ps.last()) {
            Some(st) => port_table_stats(ps.drop_last()).push(st),
            None => port_table_stats(ps.drop_last()),
        }
    }
}

/// The port statistics of a port table: entries without an index or an
/// up flag are left out.
pub fn extract_port_stats(port_table: &Vec<UniFiPortRecord>) -> (r: Vec<UniFiPortStats>)
    ensures
        r@ == port_table_stats(port_table@),
{
    let mut r: Vec<UniFiPortStats> = Vec::new();
    let mut k: usize = 0;
    while k < port_table.len()
        invariant
            k <= port_table@.len(),
            r@ == port_table_stats(port_table@.take(k as int)),
        decreases port_table@.len() - k,
    {
        assert(port_table@.take(k + 1).drop_last() =~= port_table@.take(k as int));
        let p = port_table[k];
        match (p.port_idx, p.up) {
            (Some(i), Some(u)) => {
                #[verifier::truncate]
                let idx = i as u32;
                let speed = match p.speed {
                    Some(v) => {
                        #[verifier::truncate]
                        let s = v as u32;
                        Some(s)
                    }
                    None => None,
                };
                r.push(UniFiPortStats {
                    port_idx: idx,
                    up: u,
                    speed,
                    full_duplex: p.full_duplex,
                    rx_bytes: match p.rx_bytes { Some(v) => v, None => 0 },
                    tx_bytes: match p.tx_bytes { Some(v) => v, None => 0 },
                    rx_errors: p.rx_errors,
                    tx_errors: p.tx_errors,
                });
            }
            _ => {}
        }
        k = k + 1;
    }
    assert(port_table@.take(port_table@.len() as int) =~= port_table@);
    r
}

// ---------------------------------------------------------------------
// Which UniFi device stands for which domain device

/// What a domain device is mapped to: the first entry under its
/// identifier.
pub open spec fn id_lookup(s: Seq<(DeviceId, String)>, key: DeviceId) -> Option<Seq<char>>
    decreases s.len(),
{
    if s.len() == 0 {
        None
    } else if s[0].0 == key {
        Some(s[0].1@)
    } else {
        id_lookup(s.drop_first(), key)
    }
}

proof fn lemma_id_lookup_skip(s: Seq<(DeviceId, String)>, key: DeviceId, m: int)
    requires
        0 <= m <= s.len(),
        forall|j: int| 0 <= j < m ==> (#[trigger] s[j]).0 != key,
    ensures
        id_lookup(s, key) == id_lookup(s.subrange(m, s.len() as int), key),
    decreases m,
{
    if m > 0 {
        assert(s.drop_first().subrange(m - 1, s.drop_first().len() as int) =~= s.subrange(m, s.len() as int));
        assert forall|j: int| 0 <= j < m - 1 implies (#[trigger] s.drop_first()[j]).0 != key by {
            assert(s.drop_first()[j] == s[j + 1]);
        }
        lemma_id_lookup_skip(s.drop_first(), key, m - 1);
    } else {
        assert(s.subrange(0, s.len() as int) =~= s);
    }
}

proof fn lemma_id_lookup_push(s: Seq<(DeviceId, String)>, e: (DeviceId, String), key: DeviceId)
    ensures
        id_lookup(s.push(e), key) == (match id_lookup(s, key) {
            Some(v) => Some(v),
            None => if e.0 == key { Some(e.1@) } else { None },
        }),
    decreases s.len(),
{
    if s.len() == 0 {
        assert(s.push(e).drop_first() =~= Seq::<(DeviceId, String)>::empty());
        assert(id_lookup(Seq::<(DeviceId, String)>::empty(), key) is None);
        assert(s.push(e)[0] == e);
    } else {
        assert(s.push(e).drop_first() =~= s.drop_first().push(e));
        assert(s.push(e)[0] == s[0]);
        lemma_id_lookup_push(s.drop_first(), e, key);
    }
}

proof fn lemma_id_lookup_update(s: Seq<(DeviceId, String)>, p: int, e: (DeviceId, String), key: DeviceId)
    requires
        0 <= p < s.len(),
        s[p].0 == e.0,
        forall|j: int| 0 <= j < p ==> (#[trigger] s[j]).0 != e.0,
    ensures
        id_lookup(s.update(p, e), key) == (if key == e.0 { Some(e.1@) } else { id_lookup(s, key) }),
    decreases p,
{
    if p == 0 {
        assert(s.update(0, e).drop_first() =~= s.drop_first());
    } else {
        assert(s.update(p, e).drop_first() =~= s.drop_first().update(p - 1, e));
        assert forall|j: int| 0 <= j < p - 1 implies (#[trigger] s.drop_first()[j]).0 != e.0 by {
            assert(s.drop_first()[j] == s[j + 1]);
        }
        lemma_id_lookup_update(s.drop_first(), p - 1, e, key);
    }
}

fn find_id(s: &Vec<(DeviceId, String)>, key: DeviceId) -> (r: Option<usize>)
    ensures
        match r {
            Some(p) => p < s@.len() && s@[p as int].0 == key && forall|j: int| 0 <= j < p ==> (#[trigger] s@[j]).0 != key,
            None => forall|j: int| 0 <= j < s@.len() ==> (#[trigger] s@[j]).0 != key,
        },
{
    let mut k: usize = 0;
    while k < s.len()
        invariant
            k <= s@.len(),
            forall|j: int| 0 <= j < k ==> (#[trigger] s@[j]).0 != key,
        decreases s@.len() - k,
    {
        if s[k].0 == key {
            return Some(k);
        }
        k = k + 1;
    }
    None
}

/// The two directions of the mapping between domain devices and UniFi
/// device identifiers, each a map of its own: mapping a device sets both
/// directions for that device and that identifier.
#[derive(Debug)]
pub struct UniFiDeviceMapping {
    forward: Vec<(DeviceId, String)>,
    reverse: Vec<(String, DeviceId)>,
}

impl UniFiDeviceMapping {
    /// The UniFi identifier a domain device is mapped to.
    pub closed spec fn unifi_id_of(&self, d: DeviceId) -> Option<Seq<char>> {
        id_lookup(self.forward@, d)
    }

    /// The domain device a UniFi identifier is mapped to.
    pub closed spec fn device_of(&self, u: Seq<char>) -> Option<DeviceId> {
        lookup(self.reverse@, u)
    }

    /// A mapping of nothing.
    pub fn new() -> (m: Self)
        ensures
            forall|d: DeviceId| #[trigger] m.unifi_id_of(d) is None,
            forall|u: Seq<char>| #[trigger] m.device_of(u) is None,
    {
        UniFiDeviceMapping { forward: Vec::new(), reverse: Vec::new() }
    }

    /// Maps a domain device to a UniFi identifier and that identifier to
    /// the device; every other entry stays.
    pub fn map_device(&mut self, device_id: DeviceId, unifi_id: String)
        ensures
            forall|d: DeviceId| #[trigger] final(self).unifi_id_of(d) == (if d == device_id { Some(unifi_id@) } else { old(self).unifi_id_of(d) }),
            forall|u: Seq<char>| #[trigger] final(self).device_of(u) == (if u == unifi_id@ { Some(device_id) } else { old(self).device_of(u) }),
    {
        let ghost before = self.forward@;
        let e = (device_id, unifi_id.clone());
        let ghost ge = e;
        match find_id(&self.forward, device_id) {
            Some(p) => {
                self.forward.set(p, e);
                assert forall|d: DeviceId| #[trigger] id_lookup(self.forward@, d) == (if d == device_id { Some(unifi_id@) } else { id_lookup(before, d) }) by {
                    lemma_id_lookup_update(before, p as int, ge, d);
                }
            }
            None => {
                self.forward.push(e);
                assert forall|d: DeviceId| #[trigger] id_lookup(self.forward@, d) == (if d == device_id { Some(unifi_id@) } else { id_lookup(before, d) }) by {
                    lemma_id_lookup_push(before, ge, d);
                    lemma_id_lookup_skip(before, device_id, before.len() as int);
                    assert(before.subrange(before.len() as int, before.len() as int).len() == 0);
                }
            }
        }
        put_entry(&mut self.reverse, unifi_id, device_id);
    }

    /// The UniFi identifier of a domain device, where it is mapped.
    pub fn get_unifi_id(&self, device_id: DeviceId) -> (r: Option<String>)
        ensures
            match r {
                Some(u) => self.unifi_id_of(device_id) == Some(u@),
                None => self.unifi_id_of(device_id) is None,
            },
    {
        match find_id(&self.forward, device_id) {
            Some(p) => {
                proof { lemma_id_lookup_skip(self.forward@, device_id, p as int); }
                Some(self.forward[p].1.clone())
            }
            None => {
                proof {
                    lemma_id_lookup_skip(self.forward@, device_id, self.forward@.len() as int);
                    assert(self.forward@.subrange(self.forward@.len() as int, self.forward@.len() as int).len() == 0);
                }
                None
            }
        }
    }

    /// The domain device of a UniFi identifier, where it is mapped.
    pub fn get_device_id(&self, unifi_id: &str) -> (r: Option<DeviceId>)
        ensures
            r == self.device_of(unifi_id@),
    {
        match get_entry(&self.reverse, unifi_id) {
            Some(d) => Some(*d),
            None => None,
        }
    }
}

/// After a device is mapped to an identifier, each reads back the other.
pub proof fn law_mapping_reads_back(before: UniFiDeviceMapping, after: UniFiDeviceMapping, d: DeviceId, u: Seq<char>)
    requires
        forall|x: DeviceId| #[trigger] after.unifi_id_of(x) == (if x == d { Some(u) } else { before.unifi_id_of(x) }),
        forall|y: Seq<char>| #[trigger] after.device_of(y) == (if y == u { Some(d) } else { before.device_of(y) }),
    ensures
        after.unifi_id_of(d) == Some(u),
        after.device_of(u) == Some(d),
{
}

} // verus!

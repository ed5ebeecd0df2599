//! Interactive topology building: locations and connections read from
//! request parameters or typed commands, configuration formats, and the
//! sub-agent's description of itself.
//!
//! Parameters are key-value pairs; a key's value is that of its first
//! pair. The coordinates of an edge location are kept as the texts given:
//! reading them as numbers is left to the caller.

use vstd::prelude::*;
use crate::ip::{IpAddress, IpNetwork};
use crate::parse::parse_network_spec;
use crate::params::{param, get_param, parse_u16, parse_u16_spec, lower_text, lower_known, to_lower, same_text, words,
    split_words, trim_quotes, trim_quote_chars, word_string};
use crate::errors::NetworkError;
use crate::text::{push_str, owned};

verus! {

/// Where the user is in building a topology.
#[derive(Debug)]
pub enum InteractionState {
    WaitingForInput,
    ConfirmingAction { pending_action: String },
    BuildingTopology,
    ValidatingTopology,
    GeneratingConfig,
    Complete { topology_id: String },
}

/// A location of the topology.
#[derive(Debug)]
pub enum NetworkLocation {
    DataCenter { name: String, region: String, availability_zone: Option<String> },
    Office { name: String, address: String, size: OfficeSize },
    CloudRegion { provider: CloudProvider, region: String },
    /// The coordinates as given, when given
    EdgeLocation { name: String, latitude: Option<String>, longitude: Option<String> },
    VirtualSegment { name: String, subnet: IpNetwork, vlan_id: Option<u16> },
}

/// Office size.
#[derive(Debug, Clone, Copy, PartialEq, Eq, Structural)]
pub enum OfficeSize {
    Small,
    Medium,
    Large,
    Campus,
}

/// Cloud provider.
#[derive(Debug)]
pub enum CloudProvider {
    AWS,
    Azure,
    GCP,
    DigitalOcean,
    Custom(String),
}

/// A connection between locations.
#[derive(Debug)]
pub enum NetworkConnection {
    Fiber { bandwidth: String, redundant: bool },
    VPN { protocol: VPNProtocol, encrypted: bool },
    Internet { bandwidth: String, provider: String },
    DirectConnect { provider: CloudProvider, bandwidth: String },
    Virtual { protocol: String, bandwidth: Option<String> },
}

/// VPN protocol.
#[derive(Debug)]
pub enum VPNProtocol {
    IPSec,
    WireGuard,
    OpenVPN,
    Custom(String),
}

/// A command to the topology builder.
#[derive(Debug)]
pub enum TopologyCommand {
    AddLocation { location_id: String, location: NetworkLocation },
    ConnectLocations { from: String, to: String, connection: NetworkConnection },
    RemoveLocation { location_id: String },
    RemoveConnection { from: String, to: String },
    ListTopology,
    ValidateTopology,
    GenerateConfiguration { format: ConfigurationFormat },
    Reset,
    Complete,
}

/// Output format of a generated configuration.
#[derive(Debug, Clone, Copy, PartialEq, Eq, Structural)]
pub enum ConfigurationFormat {
    NixOS,
    NixDarwin,
    HomeManager,
    NixFlake,
    JSON,
}

/// Summary of a topology: location descriptions by identifier,
/// connections, and validation.
#[derive(Debug)]
pub struct TopologySummary {
    pub location_count: usize,
    pub connection_count: usize,
    pub locations: Vec<(String, String)>,
    pub connections: Vec<ConnectionSummary>,
    pub is_valid: bool,
    pub validation_messages: Vec<String>,
}

/// A connection, for display.
#[derive(Debug)]
pub struct ConnectionSummary {
    pub from: String,
    pub to: String,
    pub connection_type: String,
    pub details: String,
}

impl Clone for InteractionState {
    fn clone(&self) -> (r: Self)
        ensures
            r == *self,
    {
        match self {
            InteractionState::WaitingForInput => InteractionState::WaitingForInput,
            InteractionState::ConfirmingAction { pending_action } =>
                InteractionState::ConfirmingAction { pending_action: pending_action.clone() },
            InteractionState::BuildingTopology => InteractionState::BuildingTopology,
            InteractionState::ValidatingTopology => InteractionState::ValidatingTopology,
            InteractionState::GeneratingConfig => InteractionState::GeneratingConfig,
            InteractionState::Complete { topology_id } => InteractionState::Complete { topology_id: topology_id.clone() },
        }
    }
}

impl Clone for CloudProvider {
    fn clone(&self) -> (r: Self)
        ensures
            r == *self,
    {
        match self {
            CloudProvider::AWS => CloudProvider::AWS,
            CloudProvider::Azure => CloudProvider::Azure,
            CloudProvider::GCP => CloudProvider::GCP,
            CloudProvider::DigitalOcean => CloudProvider::DigitalOcean,
            CloudProvider::Custom(s) => CloudProvider::Custom(s.clone()),
        }
    }
}

impl Clone for VPNProtocol {
    fn clone(&self) -> (r: Self)
        ensures
            r == *self,
    {
        match self {
            VPNProtocol::IPSec => VPNProtocol::IPSec,
            VPNProtocol::WireGuard => VPNProtocol::WireGuard,
            VPNProtocol::OpenVPN => VPNProtocol::OpenVPN,
            VPNProtocol::Custom(s) => VPNProtocol::Custom(s.clone()),
        }
    }
}

/// A copy of an optional text.
fn copy_opt(t: &Option<String>) -> (r: Option<String>)
    ensures
        r == *t,
{
    match t {
        Some(s) => Some(s.clone()),
        None => None,
    }
}

impl Clone for NetworkLocation {
    fn clone(&self) -> (r: Self)
        ensures
            r == *self,
    {
        match self {
            NetworkLocation::DataCenter { name, region, availability_zone } => NetworkLocation::DataCenter {
                name: name.clone(),
                region: region.clone(),
                availability_zone: copy_opt(availability_zone),
            },
            NetworkLocation::Office { name, address, size } =>
                NetworkLocation::Office { name: name.clone(), address: address.clone(), size: *size },
            NetworkLocation::CloudRegion { provider, region } =>
                NetworkLocation::CloudRegion { provider: provider.clone(), region: region.clone() },
            NetworkLocation::EdgeLocation { name, latitude, longitude } => NetworkLocation::EdgeLocation {
                name: name.clone(),
                latitude: copy_opt(latitude),
                longitude: copy_opt(longitude),
            },
            NetworkLocation::VirtualSegment { name, subnet, vlan_id } =>
                NetworkLocation::VirtualSegment { name: name.clone(), subnet: *subnet, vlan_id: *vlan_id },
        }
    }
}

impl Clone for NetworkConnection {
    fn clone(&self) -> (r: Self)
        ensures
            r == *self,
    {
        match self {
            NetworkConnection::Fiber { bandwidth, redundant } =>
                NetworkConnection::Fiber { bandwidth: bandwidth.clone(), redundant: *redundant },
            NetworkConnection::VPN { protocol, encrypted } =>
                NetworkConnection::VPN { protocol: protocol.clone(), encrypted: *encrypted },
            NetworkConnection::Internet { bandwidth, provider } =>
                NetworkConnection::Internet { bandwidth: bandwidth.clone(), provider: provider.clone() },
            NetworkConnection::DirectConnect { provider, bandwidth } =>
                NetworkConnection::DirectConnect { provider: provider.clone(), bandwidth: bandwidth.clone() },
            NetworkConnection::Virtual { protocol, bandwidth } =>
                NetworkConnection::Virtual { protocol: protocol.clone(), bandwidth: copy_opt(bandwidth) },
        }
    }
}

impl NetworkLocation {
    /// The kind of location, as a word.
    pub fn location_type(&self) -> (s: &'static str)
        ensures
            s@ == location_type_text(*self),
    {
        match self {
            NetworkLocation::DataCenter { .. } => "datacenter",
            NetworkLocation::Office { .. } => "office",
            NetworkLocation::CloudRegion { .. } => "cloud",
            NetworkLocation::EdgeLocation { .. } => "edge",
            NetworkLocation::VirtualSegment { .. } => "segment",
        }
    }
}

/// The kind of a location, as a word.
pub open spec fn location_type_text(l: NetworkLocation) -> Seq<char> {
    match l {
        NetworkLocation::DataCenter { .. } => "datacenter"@,
        NetworkLocation::Office { .. } => "office"@,
        NetworkLocation::CloudRegion { .. } => "cloud"@,
        NetworkLocation::EdgeLocation { .. } => "edge"@,
        NetworkLocation::VirtualSegment { .. } => "segment"@,
    }
}

// ---------------------------------------------------------------------
// Reading parameters.

/// A parameter's value, or a default.
pub open spec fn param_or(ps: Seq<(String, String)>, key: Seq<char>, default: Seq<char>) -> Seq<char> {
    match param(ps, key) {
        Some(v) => v,
        None => default,
    }
}

/// The text of an optional string.
pub open spec fn opt_text(o: Option<String>) -> Option<Seq<char>> {
    match o {
        Some(s) => Some(s@),
        None => None,
    }
}

/// An office size named in lower case; any other name is medium.
pub open spec fn office_size_named(l: Seq<char>) -> OfficeSize {
    if l == "small"@ {
        OfficeSize::Small
    } else if l == "large"@ {
        OfficeSize::Large
    } else if l == "campus"@ {
        OfficeSize::Campus
    } else {
        OfficeSize::Medium
    }
}

/// The office size of the `size` parameter, medium when absent.
pub open spec fn office_size_param(ps: Seq<(String, String)>) -> OfficeSize {
    match param(ps, "size"@) {
        Some(v) => office_size_named(lower_text(v)),
        None => OfficeSize::Medium,
    }
}

/// The provider named `l` (in lower case), with the accepted aliases.
pub open spec fn provider_is(p: CloudProvider, l: Seq<char>, aliases: bool) -> bool {
    if l == "aws"@ {
        p is AWS
    } else if l == "azure"@ {
        p is Azure
    } else if l == "gcp"@ || (aliases && l == "google"@) {
        p is GCP
    } else if l == "digitalocean"@ || (aliases && l == "do"@) {
        p is DigitalOcean
    } else {
        match p {
            CloudProvider::Custom(s) => s@ == l,
            _ => false,
        }
    }
}

/// The lower-cased `provider` parameter, `aws` when absent.
pub open spec fn provider_param(ps: Seq<(String, String)>) -> Seq<char> {
    match param(ps, "provider"@) {
        Some(v) => lower_text(v),
        None => "aws"@,
    }
}

/// A location read from parameters, for a lower-cased location type.
pub open spec fn location_ok(loc: NetworkLocation, id: Seq<char>, t: Seq<char>, ps: Seq<(String, String)>) -> bool {
    if t == "datacenter"@ || t == "dc"@ {
        match loc {
            NetworkLocation::DataCenter { name, region, availability_zone } =>
                name@ == param_or(ps, "name"@, id) && region@ == param_or(ps, "region"@, "us-west-1"@)
                && opt_text(availability_zone) == param(ps, "az"@),
            _ => false,
        }
    } else if t == "office"@ {
        match loc {
            NetworkLocation::Office { name, address, size } =>
                name@ == param_or(ps, "name"@, id) && address@ == param_or(ps, "address"@, "Unknown Address"@)
                && size == office_size_param(ps),
            _ => false,
        }
    } else if t == "cloud"@ || t == "cloudregion"@ {
        match loc {
            NetworkLocation::CloudRegion { provider, region } =>
                provider_is(provider, provider_param(ps), true) && region@ == param_or(ps, "region"@, "us-east-1"@),
            _ => false,
        }
    } else if t == "edge"@ || t == "edgelocation"@ {
        match loc {
            NetworkLocation::EdgeLocation { name, latitude, longitude } =>
                name@ == param_or(ps, "name"@, id) && opt_text(latitude) == param(ps, "lat"@)
                && opt_text(longitude) == param(ps, "lng"@),
            _ => false,
        }
    } else {
        match loc {
            NetworkLocation::VirtualSegment { name, subnet, vlan_id } =>
                name@ == param_or(ps, "name"@, id)
                && subnet == (match param(ps, "subnet"@) {
                    Some(v) => match parse_network_spec(v) {
                        Ok(n) => n,
                        Err(_) => default_subnet(),
                    },
                    None => default_subnet(),
                })
                && vlan_id == (match param(ps, "vlan"@) {
                    Some(v) => parse_u16_spec(v),
                    None => None,
                }),
            _ => false,
        }
    }
}

/// 192.168.1.0/24.
pub open spec fn default_subnet() -> IpNetwork {
    IpNetwork { ip: IpAddress::V4(0xC0A8_0100), prefix: 24 }
}

/// The location types that can be added, in lower case.
pub open spec fn known_location_type(t: Seq<char>) -> bool {
    t == "datacenter"@ || t == "dc"@ || t == "office"@ || t == "cloud"@ || t == "cloudregion"@
        || t == "edge"@ || t == "edgelocation"@ || t == "segment"@ || t == "virtualsegment"@
}

/// The validation error with the given message.
pub open spec fn validation_error<T>(r: Result<T, NetworkError>, m: Seq<char>) -> bool {
    match r {
        Err(NetworkError::ValidationError(x)) => x@ == m,
        _ => false,
    }
}

/// A parameter's value as an owned string, or a default.
fn param_or_default(ps: &Vec<(String, String)>, key: &str, default: &str) -> (r: String)
    ensures
        r@ == param_or(ps@, key@, default@),
{
    match get_param(ps, key) {
        Some(v) => v.clone(),
        None => owned(default),
    }
}

/// A parameter's value as an owned string, if any.
fn param_owned(ps: &Vec<(String, String)>, key: &str) -> (r: Option<String>)
    ensures
        opt_text(r) == param(ps@, key@),
{
    match get_param(ps, key) {
        Some(v) => Some(v.clone()),
        None => None,
    }
}

/// The provider named by a lower-cased text.
fn provider_named(l: String, aliases: bool) -> (p: CloudProvider)
    ensures
        provider_is(p, l@, aliases),
{
    let s = l.as_str();
    if same_text(s, "aws") {
        CloudProvider::AWS
    } else if same_text(s, "azure") {
        CloudProvider::Azure
    } else if same_text(s, "gcp") || (aliases && same_text(s, "google")) {
        CloudProvider::GCP
    } else if same_text(s, "digitalocean") || (aliases && same_text(s, "do")) {
        CloudProvider::DigitalOcean
    } else {
        CloudProvider::Custom(l)
    }
}

/// Reads a location from parameters. The type is matched in lower case;
/// missing parameters take defaults.
pub fn location_from_params(location_id: &str, location_type: &str, parameters: &Vec<(String, String)>)
    -> (r: Result<NetworkLocation, NetworkError>)
    ensures
        known_location_type(lower_text(location_type@)) ==> r.is_ok()
            && location_ok(r.unwrap(), location_id@, lower_text(location_type@), parameters@),
        !known_location_type(lower_text(location_type@)) ==> validation_error(r, "Unknown location type: "@
            + location_type@ + ". Supported types: datacenter, office, cloud, edge, segment"@),
        lower_known(location_type@),
        lower_text(location_type@) == "office"@ ==> match param(parameters@, "size"@) {
            Some(v) => lower_known(v),
            None => true,
        },
        (lower_text(location_type@) == "cloud"@ || lower_text(location_type@) == "cloudregion"@)
            ==> match param(parameters@, "provider"@) {
            Some(v) => lower_known(v),
            None => true,
        },
{
    proof {
        reveal_strlit("datacenter");
        assert("datacenter"@.len() == 10);
        reveal_strlit("dc");
        assert("dc"@.len() == 2);
        reveal_strlit("office");
        assert("office"@.len() == 6);
        reveal_strlit("cloud");
        assert("cloud"@.len() == 5);
        reveal_strlit("cloudregion");
        assert("cloudregion"@.len() == 11);
        reveal_strlit("edge");
        assert("edge"@.len() == 4);
        reveal_strlit("edgelocation");
        assert("edgelocation"@.len() == 12);
        reveal_strlit("segment");
        assert("segment"@.len() == 7);
        reveal_strlit("virtualsegment");
        assert("virtualsegment"@.len() == 14);
    }
    let lt = to_lower(location_type);
    let t = lt.as_str();
    let ps = parameters;
    if same_text(t, "datacenter") || same_text(t, "dc") {
        Ok(NetworkLocation::DataCenter {
            name: param_or_default(ps, "name", location_id),
            region: param_or_default(ps, "region", "us-west-1"),
            availability_zone: param_owned(ps, "az"),
        })
    } else if same_text(t, "office") {
        let size = match get_param(ps, "size") {
            Some(v) => {
                let l = to_lower(v.as_str());
                let ls = l.as_str();
                if same_text(ls, "small") {
                    OfficeSize::Small
                } else if same_text(ls, "large") {
                    OfficeSize::Large
                } else if same_text(ls, "campus") {
                    OfficeSize::Campus
                } else {
                    OfficeSize::Medium
                }
            }
            None => OfficeSize::Medium,
        };
        Ok(NetworkLocation::Office {
            name: param_or_default(ps, "name", location_id),
            address: param_or_default(ps, "address", "Unknown Address"),
            size,
        })
    } else if same_text(t, "cloud") || same_text(t, "cloudregion") {
        let l = match get_param(ps, "provider") {
            Some(v) => to_lower(v.as_str()),
            None => owned("aws"),
        };
        Ok(NetworkLocation::CloudRegion {
            provider: provider_named(l, true),
            region: param_or_default(ps, "region", "us-east-1"),
        })
    } else if same_text(t, "edge") || same_text(t, "edgelocation") {
        Ok(NetworkLocation::EdgeLocation {
            name: param_or_default(ps, "name", location_id),
            latitude: param_owned(ps, "lat"),
            longitude: param_owned(ps, "lng"),
        })
    } else if same_text(t, "segment") || same_text(t, "virtualsegment") {
        let subnet = match get_param(ps, "subnet") {
            Some(v) => match IpNetwork::from_str(v.as_str()) {
                Ok(n) => n,
                Err(_) => IpNetwork { ip: IpAddress::V4(0xC0A8_0100), prefix: 24 },
            },
            None => IpNetwork { ip: IpAddress::V4(0xC0A8_0100), prefix: 24 },
        };
        let vlan_id = match get_param(ps, "vlan") {
            Some(v) => parse_u16(v.as_str()),
            None => None,
        };
        Ok(NetworkLocation::VirtualSegment { name: param_or_default(ps, "name", location_id), subnet, vlan_id })
    } else {
        let mut m = owned("Unknown location type: ");
        push_str(&mut m, location_type);
        push_str(&mut m, ". Supported types: datacenter, office, cloud, edge, segment");
        Err(NetworkError::ValidationError(m))
    }
}

/// A flag parameter: true exactly when it is `true`, the default when
/// absent.
pub open spec fn flag_param(ps: Seq<(String, String)>, key: Seq<char>, default: bool) -> bool {
    match param(ps, key) {
        Some(v) => v == "true"@,
        None => default,
    }
}

/// The VPN protocol named by a lower-cased text.
pub open spec fn vpn_protocol_is(p: VPNProtocol, l: Seq<char>, aliases: bool) -> bool {
    if l == "ipsec"@ {
        p is IPSec
    } else if l == "wireguard"@ || (aliases && l == "wg"@) {
        p is WireGuard
    } else if l == "openvpn"@ {
        p is OpenVPN
    } else {
        match p {
            VPNProtocol::Custom(s) => s@ == l,
            _ => false,
        }
    }
}

/// The connection types that can be added, in lower case.
pub open spec fn known_connection_type(t: Seq<char>) -> bool {
    t == "fiber"@ || t == "vpn"@ || t == "internet"@ || t == "directconnect"@ || t == "direct"@ || t == "virtual"@
}

/// A connection read from parameters, for a lower-cased connection type.
pub open spec fn connection_ok(c: NetworkConnection, t: Seq<char>, ps: Seq<(String, String)>) -> bool {
    if t == "fiber"@ {
        match c {
            NetworkConnection::Fiber { bandwidth, redundant } =>
                bandwidth@ == param_or(ps, "bandwidth"@, "1Gbps"@) && redundant == flag_param(ps, "redundant"@, false),
            _ => false,
        }
    } else if t == "vpn"@ {
        match c {
            NetworkConnection::VPN { protocol, encrypted } =>
                vpn_protocol_is(protocol, match param(ps, "protocol"@) {
                    Some(v) => lower_text(v),
                    None => "ipsec"@,
                }, true) && encrypted == flag_param(ps, "encrypted"@, true),
            _ => false,
        }
    } else if t == "internet"@ {
        match c {
            NetworkConnection::Internet { bandwidth, provider } =>
                bandwidth@ == param_or(ps, "bandwidth"@, "100Mbps"@) && provider@ == param_or(ps, "provider"@, "ISP"@),
            _ => false,
        }
    } else if t == "directconnect"@ || t == "direct"@ {
        match c {
            NetworkConnection::DirectConnect { provider, bandwidth } =>
                provider_is(provider, provider_param(ps), false) && bandwidth@ == param_or(ps, "bandwidth"@, "1Gbps"@),
            _ => false,
        }
    } else {
        match c {
            NetworkConnection::Virtual { protocol, bandwidth } =>
                protocol@ == param_or(ps, "protocol"@, "VLAN"@) && opt_text(bandwidth) == param(ps, "bandwidth"@),
            _ => false,
        }
    }
}

/// Whether a parameter is present and equal to `true`, or the default
/// when absent.
fn flag(ps: &Vec<(String, String)>, key: &str, default: bool) -> (r: bool)
    ensures
        r == flag_param(ps@, key@, default),
{
    match get_param(ps, key) {
        Some(v) => same_text(v.as_str(), "true"),
        None => default,
    }
}

/// Reads a connection from parameters. The type is matched in lower case;
/// missing parameters take defaults.
pub fn connection_from_params(connection_type: &str, parameters: &Vec<(String, String)>)
    -> (r: Result<NetworkConnection, NetworkError>)
    ensures
        known_connection_type(lower_text(connection_type@)) ==> r.is_ok()
            && connection_ok(r.unwrap(), lower_text(connection_type@), parameters@),
        !known_connection_type(lower_text(connection_type@)) ==> validation_error(r, "Unknown connection type: "@
            + connection_type@ + ". Supported types: fiber, vpn, internet, directconnect, virtual"@),
        lower_known(connection_type@),
        lower_text(connection_type@) == "vpn"@ ==> match param(parameters@, "protocol"@) {
            Some(v) => lower_known(v),
            None => true,
        },
        (lower_text(connection_type@) == "directconnect"@ || lower_text(connection_type@) == "direct"@)
            ==> match param(parameters@, "provider"@) {
            Some(v) => lower_known(v),
            None => true,
        },
{
    proof {
        reveal_strlit("fiber");
        assert("fiber"@.len() == 5);
        reveal_strlit("vpn");
        assert("vpn"@.len() == 3);
        reveal_strlit("internet");
        assert("internet"@.len() == 8);
        reveal_strlit("directconnect");
        assert("directconnect"@.len() == 13);
        reveal_strlit("direct");
        assert("direct"@.len() == 6);
        reveal_strlit("virtual");
        assert("virtual"@.len() == 7);
    }
    let lt = to_lower(connection_type);
    let t = lt.as_str();
    let ps = parameters;
    if same_text(t, "fiber") {
        Ok(NetworkConnection::Fiber {
            bandwidth: param_or_default(ps, "bandwidth", "1Gbps"),
            redundant: flag(ps, "redundant", false),
        })
    } else if same_text(t, "vpn") {
        let l = match get_param(ps, "protocol") {
            Some(v) => to_lower(v.as_str()),
            None => owned("ipsec"),
        };
        let ls = l.as_str();
        let protocol = if same_text(ls, "ipsec") {
            VPNProtocol::IPSec
        } else if same_text(ls, "wireguard") || same_text(ls, "wg") {
            VPNProtocol::WireGuard
        } else if same_text(ls, "openvpn") {
            VPNProtocol::OpenVPN
        } else {
            VPNProtocol::Custom(l.clone())
        };
        Ok(NetworkConnection::VPN { protocol, encrypted: flag(ps, "encrypted", true) })
    } else if same_text(t, "internet") {
        Ok(NetworkConnection::Internet {
            bandwidth: param_or_default(ps, "bandwidth", "100Mbps"),
            provider: param_or_default(ps, "provider", "ISP"),
        })
    } else if same_text(t, "directconnect") || same_text(t, "direct") {
        let l = match get_param(ps, "provider") {
            Some(v) => to_lower(v.as_str()),
            None => owned("aws"),
        };
        Ok(NetworkConnection::DirectConnect {
            provider: provider_named(l, false),
            bandwidth: param_or_default(ps, "bandwidth", "1Gbps"),
        })
    } else if same_text(t, "virtual") {
        Ok(NetworkConnection::Virtual {
            protocol: param_or_default(ps, "protocol", "VLAN"),
            bandwidth: param_owned(ps, "bandwidth"),
        })
    } else {
        let mut m = owned("Unknown connection type: ");
        push_str(&mut m, connection_type);
        push_str(&mut m, ". Supported types: fiber, vpn, internet, directconnect, virtual");
        Err(NetworkError::ValidationError(m))
    }
}

/// The configuration format named by a lower-cased text, if any.
pub open spec fn format_named(l: Seq<char>) -> Option<ConfigurationFormat> {
    if l == "nixos"@ || l == "nix"@ {
        Some(ConfigurationFormat::NixOS)
    } else if l == "nix-darwin"@ || l == "darwin"@ {
        Some(ConfigurationFormat::NixDarwin)
    } else if l == "home-manager"@ || l == "hm"@ {
        Some(ConfigurationFormat::HomeManager)
    } else if l == "flake"@ || l == "nix-flake"@ {
        Some(ConfigurationFormat::NixFlake)
    } else if l == "json"@ {
        Some(ConfigurationFormat::JSON)
    } else {
        None
    }
}

/// Reads a configuration format, matched in lower case.
pub fn configuration_format_from(format: &str) -> (r: Result<ConfigurationFormat, NetworkError>)
    ensures
        match format_named(lower_text(format@)) {
            Some(f) => r == Ok::<ConfigurationFormat, NetworkError>(f),
            None => validation_error(r, "Unknown configuration format: "@ + format@
                + ". Supported formats: nixos, nix-darwin, home-manager, flake, json"@),
        },
        lower_known(format@),
{
    let lt = to_lower(format);
    let t = lt.as_str();
    if same_text(t, "nixos") || same_text(t, "nix") {
        Ok(ConfigurationFormat::NixOS)
    } else if same_text(t, "nix-darwin") || same_text(t, "darwin") {
        Ok(ConfigurationFormat::NixDarwin)
    } else if same_text(t, "home-manager") || same_text(t, "hm") {
        Ok(ConfigurationFormat::HomeManager)
    } else if same_text(t, "flake") || same_text(t, "nix-flake") {
        Ok(ConfigurationFormat::NixFlake)
    } else if same_text(t, "json") {
        Ok(ConfigurationFormat::JSON)
    } else {
        let mut m = owned("Unknown configuration format: ");
        push_str(&mut m, format);
        push_str(&mut m, ". Supported formats: nixos, nix-darwin, home-manager, flake, json");
        Err(NetworkError::ValidationError(m))
    }
}


// ---------------------------------------------------------------------
// Typed commands.

/// What a typed line asks for.
#[derive(Debug)]
pub enum CliAction {
    /// Show the help text
    Help,
    /// Run a builder command
    Command(TopologyCommand),
    /// Show a message (usage or refusal); nothing is run
    Message(String),
    /// The line is not a command
    Unknown(String),
}

/// The rest of a text after a prefix, if it starts with the prefix.
pub open spec fn after_prefix(s: Seq<char>, prefix: Seq<char>) -> Option<Seq<char>> {
    if prefix.len() <= s.len() && s.subrange(0, prefix.len() as int) == prefix {
        Some(s.subrange(prefix.len() as int, s.len() as int))
    } else {
        None
    }
}

/// The text after `prefix`, if `s` starts with it.
fn strip_prefix(s: &str, prefix: &str) -> (r: Option<String>)
    ensures
        match r {
            Some(t) => after_prefix(s@, prefix@) == Some(t@),
            None => after_prefix(s@, prefix@) is None,
        },
{
    let cs = crate::text::chars_of(s);
    let ps = crate::text::chars_of(prefix);
    if ps.len() > cs.len() {
        return None;
    }
    let mut i: usize = 0;
    while i < ps.len()
        invariant
            cs@ == s@,
            ps@ == prefix@,
            ps@.len() <= cs@.len(),
            i <= ps@.len(),
            forall|j: int| 0 <= j < i ==> cs@[j] == ps@[j],
        decreases ps@.len() - i,
    {
        if cs[i] != ps[i] {
            assert(s@.subrange(0, prefix@.len() as int)[i as int] != prefix@[i as int]);
            return None;
        }
        i = i + 1;
    }
    assert(s@.subrange(0, prefix@.len() as int) =~= prefix@);
    let mut rest = String::new();
    let mut k: usize = ps.len();
    while k < cs.len()
        invariant
            cs@ == s@,
            ps@ == prefix@,
            ps@.len() <= k <= cs@.len(),
            rest@ == s@.subrange(prefix@.len() as int, k as int),
        decreases cs@.len() - k,
    {
        crate::text::push_char(&mut rest, cs[k]);
        assert(rest@ =~= s@.subrange(prefix@.len() as int, k + 1));
        k = k + 1;
    }
    Some(rest)
}

/// The message shown for an office size that is not known.
pub open spec fn bad_office_size_message() -> Seq<char> {
    "\u{274c} Invalid office size. Use: small, medium, large, campus"@
}

/// The usage line of a command.
pub open spec fn usage(cmd: Seq<char>) -> Seq<char> {
    if cmd == "add-datacenter"@ {
        "\u{274c} Usage: add-datacenter <id> <name> <region> [availability_zone]"@
    } else if cmd == "add-office"@ {
        "\u{274c} Usage: add-office <id> <name> <address> <size>"@
    } else if cmd == "add-cloud"@ {
        "\u{274c} Usage: add-cloud <id> <provider> <region>"@
    } else if cmd == "add-segment"@ {
        "\u{274c} Usage: add-segment <id> <name> <subnet> [vlan_id]"@
    } else if cmd == "connect-fiber"@ {
        "\u{274c} Usage: connect-fiber <from> <to> <bandwidth> [redundant]"@
    } else if cmd == "connect-vpn"@ {
        "\u{274c} Usage: connect-vpn <from> <to> <protocol> [encrypted]"@
    } else if cmd == "connect-internet"@ {
        "\u{274c} Usage: connect-internet <from> <to> <bandwidth> <provider>"@
    } else {
        "\u{274c} Usage: remove-connection <from> <to>"@
    }
}

/// The message of an action.
pub open spec fn is_message(a: CliAction, m: Seq<char>) -> bool {
    match a {
        CliAction::Message(x) => x@ == m,
        _ => false,
    }
}

/// The text of an address-parsing error.
pub open spec fn network_error_text(e: crate::ip::IpNetworkError) -> Seq<char> {
    match e {
        crate::ip::IpNetworkError::InvalidAddress => "invalid address"@,
        crate::ip::IpNetworkError::InvalidPrefix(p) => "invalid prefix length "@ + crate::text::dec(p as nat),
    }
}

/// An added location with the given identifier.
pub open spec fn adds_location(a: CliAction, id: Seq<char>) -> Option<NetworkLocation> {
    match a {
        CliAction::Command(TopologyCommand::AddLocation { location_id, location }) =>
            if location_id@ == id { Some(location) } else { None },
        _ => None,
    }
}

/// A connection between the given locations.
pub open spec fn adds_connection(a: CliAction, from: Seq<char>, to: Seq<char>) -> Option<NetworkConnection> {
    match a {
        CliAction::Command(TopologyCommand::ConnectLocations { from: f, to: t, connection }) =>
            if f@ == from && t@ == to { Some(connection) } else { None },
        _ => None,
    }
}

/// The action of the words after `add-datacenter `.
pub open spec fn datacenter_ok(a: CliAction, w: Seq<Seq<char>>) -> bool {
    if w.len() < 3 {
        is_message(a, usage("add-datacenter"@))
    } else {
        match adds_location(a, w[0]) {
            Some(NetworkLocation::DataCenter { name, region, availability_zone }) =>
                name@ == trim_quotes(w[1]) && region@ == w[2]
                && opt_text(availability_zone) == (if w.len() > 3 { Some(w[3]) } else { None }),
            _ => false,
        }
    }
}

/// The action of the words after `add-office `.
pub open spec fn office_ok(a: CliAction, w: Seq<Seq<char>>) -> bool {
    if w.len() < 4 {
        is_message(a, usage("add-office"@))
    } else {
        let l = lower_text(w[3]);
        if l == "small"@ || l == "medium"@ || l == "large"@ || l == "campus"@ {
            match adds_location(a, w[0]) {
                Some(NetworkLocation::Office { name, address, size }) =>
                    name@ == trim_quotes(w[1]) && address@ == trim_quotes(w[2]) && size == office_size_named(l),
                _ => false,
            }
        } else {
            is_message(a, bad_office_size_message())
        }
    }
}

/// The action of the words after `add-cloud `.
pub open spec fn cloud_ok(a: CliAction, w: Seq<Seq<char>>) -> bool {
    if w.len() < 3 {
        is_message(a, usage("add-cloud"@))
    } else {
        let l = lower_text(w[1]);
        match adds_location(a, w[0]) {
            Some(NetworkLocation::CloudRegion { provider, region }) => region@ == w[2] && (
                if l == "aws"@ || l == "azure"@ || l == "gcp"@ || l == "digitalocean"@ {
                    provider_is(provider, l, false)
                } else {
                    match provider {
                        CloudProvider::Custom(s) => s@ == w[1],
                        _ => false,
                    }
                }),
            _ => false,
        }
    }
}

/// The result for the words after `add-segment `.
pub open spec fn segment_ok(r: Result<CliAction, NetworkError>, w: Seq<Seq<char>>) -> bool {
    if w.len() < 3 {
        r.is_ok() && is_message(r.unwrap(), usage("add-segment"@))
    } else {
        match parse_network_spec(w[2]) {
            Err(e) => validation_error(r, "Invalid subnet: "@ + network_error_text(e)),
            Ok(n) => r.is_ok() && match adds_location(r.unwrap(), w[0]) {
                Some(NetworkLocation::VirtualSegment { name, subnet, vlan_id }) =>
                    name@ == trim_quotes(w[1]) && subnet == n
                    && vlan_id == (if w.len() > 3 { parse_u16_spec(w[3]) } else { None }),
                _ => false,
            },
        }
    }
}

/// The action of the words after `connect-fiber `.
pub open spec fn fiber_ok(a: CliAction, w: Seq<Seq<char>>) -> bool {
    if w.len() < 3 {
        is_message(a, usage("connect-fiber"@))
    } else {
        match adds_connection(a, w[0], w[1]) {
            Some(NetworkConnection::Fiber { bandwidth, redundant }) =>
                bandwidth@ == w[2] && redundant == (w.len() > 3 && w[3] == "redundant"@),
            _ => false,
        }
    }
}

/// The action of the words after `connect-vpn `.
pub open spec fn vpn_ok(a: CliAction, w: Seq<Seq<char>>) -> bool {
    if w.len() < 3 {
        is_message(a, usage("connect-vpn"@))
    } else {
        let l = lower_text(w[2]);
        match adds_connection(a, w[0], w[1]) {
            Some(NetworkConnection::VPN { protocol, encrypted }) =>
                encrypted == (w.len() <= 3 || w[3] == "encrypted"@) && (
                    if l == "ipsec"@ || l == "wireguard"@ || l == "openvpn"@ {
                        vpn_protocol_is(protocol, l, false)
                    } else {
                        match protocol {
                            VPNProtocol::Custom(s) => s@ == w[2],
                            _ => false,
                        }
                    }),
            _ => false,
        }
    }
}

/// The action of the words after `connect-internet `.
pub open spec fn internet_ok(a: CliAction, w: Seq<Seq<char>>) -> bool {
    if w.len() < 4 {
        is_message(a, usage("connect-internet"@))
    } else {
        match adds_connection(a, w[0], w[1]) {
            Some(NetworkConnection::Internet { bandwidth, provider }) => bandwidth@ == w[2] && provider@ == w[3],
            _ => false,
        }
    }
}

/// The action of the text after `generate `: the formats the builder
/// produces that the line names; others are refused with a message.
pub open spec fn generate_ok(a: CliAction, f: Seq<char>) -> bool {
    let l = lower_text(f);
    if l == "nixos"@ || l == "nix"@ {
        a == CliAction::Command(TopologyCommand::GenerateConfiguration { format: ConfigurationFormat::NixOS })
    } else if l == "json"@ {
        a == CliAction::Command(TopologyCommand::GenerateConfiguration { format: ConfigurationFormat::JSON })
    } else {
        is_message(a, "\u{274c} Unknown format: "@ + f + ". Use: nixos, terraform, ansible, json, yaml"@)
    }
}

/// The action of the words after `remove-connection `.
pub open spec fn remove_connection_ok(a: CliAction, w: Seq<Seq<char>>) -> bool {
    if w.len() != 2 {
        is_message(a, usage("remove-connection"@))
    } else {
        match a {
            CliAction::Command(TopologyCommand::RemoveConnection { from, to }) => from@ == w[0] && to@ == w[1],
            _ => false,
        }
    }
}

/// What a typed line does: the keywords, then the commands with
/// arguments, each by its prefix; anything else is unknown.
pub open spec fn cli_ok(r: Result<CliAction, NetworkError>, input: Seq<char>) -> bool {
    if input == "help"@ || input == "h"@ {
        r == Ok::<CliAction, NetworkError>(CliAction::Help)
    } else if input == "list"@ || input == "ls"@ {
        r == Ok::<CliAction, NetworkError>(CliAction::Command(TopologyCommand::ListTopology))
    } else if input == "validate"@ || input == "check"@ {
        r == Ok::<CliAction, NetworkError>(CliAction::Command(TopologyCommand::ValidateTopology))
    } else if input == "reset"@ || input == "clear"@ {
        r == Ok::<CliAction, NetworkError>(CliAction::Command(TopologyCommand::Reset))
    } else if input == "complete"@ || input == "done"@ {
        r == Ok::<CliAction, NetworkError>(CliAction::Command(TopologyCommand::Complete))
    } else if let Some(rest) = after_prefix(input, "add-datacenter "@) {
        r.is_ok() && datacenter_ok(r.unwrap(), words(rest))
    } else if let Some(rest) = after_prefix(input, "add-office "@) {
        r.is_ok() && office_ok(r.unwrap(), words(rest))
    } else if let Some(rest) = after_prefix(input, "add-cloud "@) {
        r.is_ok() && cloud_ok(r.unwrap(), words(rest))
    } else if let Some(rest) = after_prefix(input, "add-segment "@) {
        segment_ok(r, words(rest))
    } else if let Some(rest) = after_prefix(input, "connect-fiber "@) {
        r.is_ok() && fiber_ok(r.unwrap(), words(rest))
    } else if let Some(rest) = after_prefix(input, "connect-vpn "@) {
        r.is_ok() && vpn_ok(r.unwrap(), words(rest))
    } else if let Some(rest) = after_prefix(input, "connect-internet "@) {
        r.is_ok() && internet_ok(r.unwrap(), words(rest))
    } else if let Some(rest) = after_prefix(input, "generate "@) {
        r.is_ok() && generate_ok(r.unwrap(), rest)
    } else if let Some(rest) = after_prefix(input, "remove-location "@) {
        r.is_ok() && match r.unwrap() {
            CliAction::Command(TopologyCommand::RemoveLocation { location_id }) => location_id@ == rest,
            _ => false,
        }
    } else if let Some(rest) = after_prefix(input, "remove-connection "@) {
        r.is_ok() && remove_connection_ok(r.unwrap(), words(rest))
    } else {
        r.is_ok() && match r.unwrap() {
            CliAction::Unknown(x) => x@ == input,
            _ => false,
        }
    }
}

/// The words of a text as strings.
fn word_strings(s: &str) -> (r: Vec<String>)
    ensures
        r@.len() == words(s@).len(),
        forall|i: int| 0 <= i < r@.len() ==> (#[trigger] r@[i])@ == words(s@)[i],
{
    let w = split_words(s);
    let mut r: Vec<String> = Vec::new();
    let mut i: usize = 0;
    while i < w.len()
        invariant
            w@.len() == words(s@).len(),
            forall|j: int| 0 <= j < w@.len() ==> (#[trigger] w@[j])@ == words(s@)[j],
            i <= w@.len(),
            r@.len() == i,
            forall|j: int| 0 <= j < i ==> (#[trigger] r@[j])@ == words(s@)[j],
        decreases w@.len() - i,
    {
        r.push(word_string(&w[i]));
        i = i + 1;
    }
    r
}

/// A word without its surrounding quotes.
fn unquoted(w: &String) -> (r: String)
    ensures
        r@ == trim_quotes(w@),
{
    let cs = crate::text::chars_of(w.as_str());
    trim_quote_chars(&cs)
}

/// The usage message of a command, as a string.
fn usage_message(cmd: &str) -> (m: String)
    requires
        cmd@ == "add-datacenter"@ || cmd@ == "add-office"@ || cmd@ == "add-cloud"@ || cmd@ == "add-segment"@
            || cmd@ == "connect-fiber"@ || cmd@ == "connect-vpn"@ || cmd@ == "connect-internet"@
            || cmd@ == "remove-connection"@,
    ensures
        m@ == usage(cmd@),
{
    if same_text(cmd, "add-datacenter") {
        owned("\u{274c} Usage: add-datacenter <id> <name> <region> [availability_zone]")
    } else if same_text(cmd, "add-office") {
        owned("\u{274c} Usage: add-office <id> <name> <address> <size>")
    } else if same_text(cmd, "add-cloud") {
        owned("\u{274c} Usage: add-cloud <id> <provider> <region>")
    } else if same_text(cmd, "add-segment") {
        owned("\u{274c} Usage: add-segment <id> <name> <subnet> [vlan_id]")
    } else if same_text(cmd, "connect-fiber") {
        owned("\u{274c} Usage: connect-fiber <from> <to> <bandwidth> [redundant]")
    } else if same_text(cmd, "connect-vpn") {
        owned("\u{274c} Usage: connect-vpn <from> <to> <protocol> [encrypted]")
    } else if same_text(cmd, "connect-internet") {
        owned("\u{274c} Usage: connect-internet <from> <to> <bandwidth> <provider>")
    } else {
        owned("\u{274c} Usage: remove-connection <from> <to>")
    }
}

fn datacenter_action(rest: &str) -> (a: CliAction)
    ensures
        datacenter_ok(a, words(rest@)),
{
    let w = word_strings(rest);
    if w.len() < 3 {
        return CliAction::Message(usage_message("add-datacenter"));
    }
    let availability_zone = if w.len() > 3 { Some(w[3].clone()) } else { None };
    CliAction::Command(TopologyCommand::AddLocation {
        location_id: w[0].clone(),
        location: NetworkLocation::DataCenter { name: unquoted(&w[1]), region: w[2].clone(), availability_zone },
    })
}

fn office_action(rest: &str) -> (a: CliAction)
    ensures
        office_ok(a, words(rest@)),
{
    let w = word_strings(rest);
    if w.len() < 4 {
        return CliAction::Message(usage_message("add-office"));
    }
    let l = to_lower(w[3].as_str());
    let ls = l.as_str();
    let ghost lv = l@;
    assert(lv == lower_text(words(rest@)[3]));
    if !(same_text(ls, "small") || same_text(ls, "medium") || same_text(ls, "large") || same_text(ls, "campus")) {
        return CliAction::Message(owned("\u{274c} Invalid office size. Use: small, medium, large, campus"));
    }
    let size = if same_text(ls, "small") {
        OfficeSize::Small
    } else if same_text(ls, "large") {
        OfficeSize::Large
    } else if same_text(ls, "campus") {
        OfficeSize::Campus
    } else {
        OfficeSize::Medium
    };
    assert(size == office_size_named(lv));
    let name = unquoted(&w[1]);
    let address = unquoted(&w[2]);
    let location_id = w[0].clone();
    CliAction::Command(TopologyCommand::AddLocation {
        location_id,
        location: NetworkLocation::Office { name, address, size },
    })
}

fn cloud_action(rest: &str) -> (a: CliAction)
    ensures
        cloud_ok(a, words(rest@)),
{
    let w = word_strings(rest);
    if w.len() < 3 {
        return CliAction::Message(usage_message("add-cloud"));
    }
    let l = to_lower(w[1].as_str());
    let ls = l.as_str();
    let provider = if same_text(ls, "aws") {
        CloudProvider::AWS
    } else if same_text(ls, "azure") {
        CloudProvider::Azure
    } else if same_text(ls, "gcp") {
        CloudProvider::GCP
    } else if same_text(ls, "digitalocean") {
        CloudProvider::DigitalOcean
    } else {
        CloudProvider::Custom(w[1].clone())
    };
    CliAction::Command(TopologyCommand::AddLocation {
        location_id: w[0].clone(),
        location: NetworkLocation::CloudRegion { provider, region: w[2].clone() },
    })
}

/// The text of an address-parsing error.
pub fn network_error_string(e: crate::ip::IpNetworkError) -> (m: String)
    ensures
        m@ == network_error_text(e),
{
    match e {
        crate::ip::IpNetworkError::InvalidAddress => owned("invalid address"),
        crate::ip::IpNetworkError::InvalidPrefix(p) => {
            let mut m = owned("invalid prefix length ");
            crate::text::push_dec(&mut m, p as u64);
            m
        }
    }
}

fn network_error_message(e: crate::ip::IpNetworkError) -> (m: String)
    ensures
        m@ == "Invalid subnet: "@ + network_error_text(e),
{
    let mut m = owned("Invalid subnet: ");
    let t = network_error_string(e);
    push_str(&mut m, t.as_str());
    m
}

fn segment_action(rest: &str) -> (r: Result<CliAction, NetworkError>)
    ensures
        segment_ok(r, words(rest@)),
{
    let w = word_strings(rest);
    if w.len() < 3 {
        return Ok(CliAction::Message(usage_message("add-segment")));
    }
    let subnet = match IpNetwork::from_str(w[2].as_str()) {
        Ok(n) => n,
        Err(e) => {
            return Err(NetworkError::ValidationError(network_error_message(e)));
        }
    };
    let vlan_id = if w.len() > 3 { parse_u16(w[3].as_str()) } else { None };
    Ok(CliAction::Command(TopologyCommand::AddLocation {
        location_id: w[0].clone(),
        location: NetworkLocation::VirtualSegment { name: unquoted(&w[1]), subnet, vlan_id },
    }))
}

fn fiber_action(rest: &str) -> (a: CliAction)
    ensures
        fiber_ok(a, words(rest@)),
{
    let w = word_strings(rest);
    if w.len() < 3 {
        return CliAction::Message(usage_message("connect-fiber"));
    }
    let redundant = w.len() > 3 && same_text(w[3].as_str(), "redundant");
    CliAction::Command(TopologyCommand::ConnectLocations {
        from: w[0].clone(),
        to: w[1].clone(),
        connection: NetworkConnection::Fiber { bandwidth: w[2].clone(), redundant },
    })
}

fn vpn_action(rest: &str) -> (a: CliAction)
    ensures
        vpn_ok(a, words(rest@)),
{
    let w = word_strings(rest);
    if w.len() < 3 {
        return CliAction::Message(usage_message("connect-vpn"));
    }
    let l = to_lower(w[2].as_str());
    let ls = l.as_str();
    let protocol = if same_text(ls, "ipsec") {
        VPNProtocol::IPSec
    } else if same_text(ls, "wireguard") {
        VPNProtocol::WireGuard
    } else if same_text(ls, "openvpn") {
        VPNProtocol::OpenVPN
    } else {
        VPNProtocol::Custom(w[2].clone())
    };
    let encrypted = w.len() <= 3 || same_text(w[3].as_str(), "encrypted");
    CliAction::Command(TopologyCommand::ConnectLocations {
        from: w[0].clone(),
        to: w[1].clone(),
        connection: NetworkConnection::VPN { protocol, encrypted },
    })
}

fn internet_action(rest: &str) -> (a: CliAction)
    ensures
        internet_ok(a, words(rest@)),
{
    let w = word_strings(rest);
    if w.len() < 4 {
        return CliAction::Message(usage_message("connect-internet"));
    }
    CliAction::Command(TopologyCommand::ConnectLocations {
        from: w[0].clone(),
        to: w[1].clone(),
        connection: NetworkConnection::Internet { bandwidth: w[2].clone(), provider: w[3].clone() },
    })
}

fn generate_action(rest: &str) -> (a: CliAction)
    ensures
        generate_ok(a, rest@),
{
    let l = to_lower(rest);
    let ls = l.as_str();
    if same_text(ls, "nixos") || same_text(ls, "nix") {
        CliAction::Command(TopologyCommand::GenerateConfiguration { format: ConfigurationFormat::NixOS })
    } else if same_text(ls, "json") {
        CliAction::Command(TopologyCommand::GenerateConfiguration { format: ConfigurationFormat::JSON })
    } else {
        let mut m = owned("\u{274c} Unknown format: ");
        push_str(&mut m, rest);
        push_str(&mut m, ". Use: nixos, terraform, ansible, json, yaml");
        CliAction::Message(m)
    }
}

fn remove_connection_action(rest: &str) -> (a: CliAction)
    ensures
        remove_connection_ok(a, words(rest@)),
{
    let w = word_strings(rest);
    if w.len() != 2 {
        return CliAction::Message(usage_message("remove-connection"));
    }
    CliAction::Command(TopologyCommand::RemoveConnection { from: w[0].clone(), to: w[1].clone() })
}

/// Reads a typed line (already trimmed) as an action.
pub fn process_input(input: &str) -> (r: Result<CliAction, NetworkError>)
    ensures
        cli_ok(r, input@),
{
    if same_text(input, "help") || same_text(input, "h") {
        return Ok(CliAction::Help);
    }
    if same_text(input, "list") || same_text(input, "ls") {
        return Ok(CliAction::Command(TopologyCommand::ListTopology));
    }
    if same_text(input, "validate") || same_text(input, "check") {
        return Ok(CliAction::Command(TopologyCommand::ValidateTopology));
    }
    if same_text(input, "reset") || same_text(input, "clear") {
        return Ok(CliAction::Command(TopologyCommand::Reset));
    }
    if same_text(input, "complete") || same_text(input, "done") {
        return Ok(CliAction::Command(TopologyCommand::Complete));
    }
    if let Some(rest) = strip_prefix(input, "add-datacenter ") {
        return Ok(datacenter_action(rest.as_str()));
    }
    if let Some(rest) = strip_prefix(input, "add-office ") {
        return Ok(office_action(rest.as_str()));
    }
    if let Some(rest) = strip_prefix(input, "add-cloud ") {
        return Ok(cloud_action(rest.as_str()));
    }
    if let Some(rest) = strip_prefix(input, "add-segment ") {
        return segment_action(rest.as_str());
    }
    if let Some(rest) = strip_prefix(input, "connect-fiber ") {
        return Ok(fiber_action(rest.as_str()));
    }
    if let Some(rest) = strip_prefix(input, "connect-vpn ") {
        return Ok(vpn_action(rest.as_str()));
    }
    if let Some(rest) = strip_prefix(input, "connect-internet ") {
        return Ok(internet_action(rest.as_str()));
    }
    if let Some(rest) = strip_prefix(input, "generate ") {
        return Ok(generate_action(rest.as_str()));
    }
    if let Some(rest) = strip_prefix(input, "remove-location ") {
        return Ok(CliAction::Command(TopologyCommand::RemoveLocation { location_id: rest }));
    }
    if let Some(rest) = strip_prefix(input, "remove-connection ") {
        return Ok(remove_connection_action(rest.as_str()));
    }
    Ok(CliAction::Unknown(owned(input)))
}


// ---------------------------------------------------------------------
// The sub-agent.

/// What the sub-agent is doing.
#[derive(Debug)]
pub enum SubAgentStatus {
    Ready,
    Processing,
    WaitingForInput,
    Error { message: String },
    Completed,
}

/// The sub-agent's description of itself.
#[derive(Debug)]
pub struct SubAgentMetadata {
    pub name: String,
    pub description: String,
    pub version: String,
    pub capabilities: Vec<String>,
    pub status: SubAgentStatus,
}

/// Initial parameters of a topology build.
#[derive(Debug)]
pub struct InitialTopologyParams {
    pub base_network: Option<String>,
    pub target_environment: Option<String>,
    pub scale: Option<String>,
    pub use_case: Option<String>,
}

/// A task for the sub-agent.
#[derive(Debug)]
pub enum SubAgentTask {
    BuildTopology { initial_params: Option<InitialTopologyParams> },
    AddLocation { location_id: String, location_type: String, parameters: Vec<(String, String)> },
    ConnectLocations { from: String, to: String, connection_type: String, parameters: Vec<(String, String)> },
    GenerateConfiguration { format: String },
    ValidateTopology,
    GetStatus,
    Reset,
    Complete,
}

/// The capabilities the sub-agent announces, in order.
pub open spec fn capability_texts() -> Seq<Seq<char>> {
    seq![
        "Add network locations (data centers, offices, cloud regions, virtual segments)"@,
        "Connect locations with various connection types (fiber, VPN, internet, direct connect)"@,
        "Validate network topology completeness and correctness"@,
        "Generate configurations in multiple formats (NixOS, Terraform, Ansible, JSON, YAML)"@,
        "Provide intelligent suggestions based on current topology state"@,
        "Maintain full event audit trail for topology construction"@
    ]
}

/// The metadata of a new sub-agent: its name, description, version 1.0.0,
/// its capabilities, ready.
pub fn subagent_metadata() -> (m: SubAgentMetadata)
    ensures
        m.name@ == "Network Topology Builder"@,
        m.description@ == "Interactive sub-agent for building network topologies using event-driven context graphs"@,
        m.version@ == "1.0.0"@,
        m.capabilities@.map_values(|c: String| c@) == capability_texts(),
        m.status is Ready,
{
    let mut capabilities: Vec<String> = Vec::new();
    capabilities.push(owned("Add network locations (data centers, offices, cloud regions, virtual segments)"));
    capabilities.push(owned("Connect locations with various connection types (fiber, VPN, internet, direct connect)"));
    capabilities.push(owned("Validate network topology completeness and correctness"));
    capabilities.push(owned("Generate configurations in multiple formats (NixOS, Terraform, Ansible, JSON, YAML)"));
    capabilities.push(owned("Provide intelligent suggestions based on current topology state"));
    capabilities.push(owned("Maintain full event audit trail for topology construction"));
    assert(capabilities@.map_values(|c: String| c@) =~= capability_texts());
    SubAgentMetadata {
        name: owned("Network Topology Builder"),
        description: owned("Interactive sub-agent for building network topologies using event-driven context graphs"),
        version: owned("1.0.0"),
        capabilities,
        status: SubAgentStatus::Ready,
    }
}

/// The initial parameters of a build: present when any is given.
pub fn initial_topology_params(
    base_network: Option<String>,
    target_environment: Option<String>,
    scale: Option<String>,
    use_case: Option<String>,
) -> (r: Option<InitialTopologyParams>)
    ensures
        r is Some <==> (base_network is Some || target_environment is Some || scale is Some || use_case is Some),
        r is Some ==> r.unwrap() == (InitialTopologyParams { base_network, target_environment, scale, use_case }),
{
    if base_network.is_some() || target_environment.is_some() || scale.is_some() || use_case.is_some() {
        Some(InitialTopologyParams { base_network, target_environment, scale, use_case })
    } else {
        None
    }
}

/// What is known of the lower-case form of the kind a task names: its
/// location type, connection type or format.
pub open spec fn task_kind_lowered(t: SubAgentTask) -> bool {
    match t {
        SubAgentTask::AddLocation { location_type, .. } => lower_known(location_type@),
        SubAgentTask::ConnectLocations { connection_type, .. } => lower_known(connection_type@),
        SubAgentTask::GenerateConfiguration { format } => lower_known(format@),
        _ => true,
    }
}

/// The builder command a task stands for.
pub open spec fn task_command_ok(r: Result<TopologyCommand, NetworkError>, t: SubAgentTask) -> bool {
    match t {
        SubAgentTask::BuildTopology { .. } => r == Ok::<TopologyCommand, NetworkError>(TopologyCommand::ListTopology),
        SubAgentTask::AddLocation { location_id, location_type, parameters } => {
            let lt = lower_text(location_type@);
            if known_location_type(lt) {
                r.is_ok() && match r.unwrap() {
                    TopologyCommand::AddLocation { location_id: id, location } =>
                        id@ == location_id@ && location_ok(location, location_id@, lt, parameters@),
                    _ => false,
                }
            } else {
                validation_error(r, "Unknown location type: "@ + location_type@
                    + ". Supported types: datacenter, office, cloud, edge, segment"@)
            }
        },
        SubAgentTask::ConnectLocations { from, to, connection_type, parameters } => {
            let lt = lower_text(connection_type@);
            if known_connection_type(lt) {
                r.is_ok() && match r.unwrap() {
                    TopologyCommand::ConnectLocations { from: f, to: t, connection } =>
                        f@ == from@ && t@ == to@ && connection_ok(connection, lt, parameters@),
                    _ => false,
                }
            } else {
                validation_error(r, "Unknown connection type: "@ + connection_type@
                    + ". Supported types: fiber, vpn, internet, directconnect, virtual"@)
            }
        },
        SubAgentTask::GenerateConfiguration { format } => match format_named(lower_text(format@)) {
            Some(f) => r == Ok::<TopologyCommand, NetworkError>(TopologyCommand::GenerateConfiguration { format: f }),
            None => validation_error(r, "Unknown configuration format: "@ + format@
                + ". Supported formats: nixos, nix-darwin, home-manager, flake, json"@),
        },
        SubAgentTask::ValidateTopology => r == Ok::<TopologyCommand, NetworkError>(TopologyCommand::ValidateTopology),
        SubAgentTask::GetStatus => r == Ok::<TopologyCommand, NetworkError>(TopologyCommand::ListTopology),
        SubAgentTask::Reset => r == Ok::<TopologyCommand, NetworkError>(TopologyCommand::Reset),
        SubAgentTask::Complete => r == Ok::<TopologyCommand, NetworkError>(TopologyCommand::Complete),
    }
}

/// The builder command a task stands for: a build starts with the current
/// topology, locations and connections are read from their parameters.
pub fn task_command(task: &SubAgentTask) -> (r: Result<TopologyCommand, NetworkError>)
    ensures
        task_command_ok(r, *task),
        task_kind_lowered(*task),
{
    match task {
        SubAgentTask::BuildTopology { .. } => Ok(TopologyCommand::ListTopology),
        SubAgentTask::AddLocation { location_id, location_type, parameters } => {
            match location_from_params(location_id.as_str(), location_type.as_str(), parameters) {
                Ok(location) => Ok(TopologyCommand::AddLocation { location_id: location_id.clone(), location }),
                Err(e) => Err(e),
            }
        }
        SubAgentTask::ConnectLocations { from, to, connection_type, parameters } => {
            match connection_from_params(connection_type.as_str(), parameters) {
                Ok(connection) => Ok(TopologyCommand::ConnectLocations { from: from.clone(), to: to.clone(), connection }),
                Err(e) => Err(e),
            }
        }
        SubAgentTask::GenerateConfiguration { format } => {
            match configuration_format_from(format.as_str()) {
                Ok(f) => Ok(TopologyCommand::GenerateConfiguration { format: f }),
                Err(e) => Err(e),
            }
        }
        SubAgentTask::ValidateTopology => Ok(TopologyCommand::ValidateTopology),
        SubAgentTask::GetStatus => Ok(TopologyCommand::ListTopology),
        SubAgentTask::Reset => Ok(TopologyCommand::Reset),
        SubAgentTask::Complete => Ok(TopologyCommand::Complete),
    }
}

} // verus!

//! A topology building session: the user adds and connects locations,
//! validates, generates configurations and completes the topology; each
//! step is recorded as an event of the session and answered with a
//! message, a summary and suggestions.
//!
//! The Nix generator of a session is never started on a topology, so
//! generation of NixOS, nix-darwin and flake configurations gives the
//! fallback texts that name the generator's error.

use vstd::prelude::*;
use crate::agents::{
    InteractionState, NetworkLocation, NetworkConnection, OfficeSize, CloudProvider, VPNProtocol, TopologyCommand,
    ConfigurationFormat, TopologySummary,
};
use crate::errors::NetworkError;
use crate::ids::{CorrelationId, CausationId, fresh_uuid_v4, uuid_to_string, uuid_text};
use crate::ip::ip_text;
use crate::text::{dec, push_str, push_dec, owned};

verus! {

/// The Home Manager configuration of a session.
pub const HOME_MANAGER_CONFIG: &'static str = r#"# Generated Home Manager Network Configuration
{ config, pkgs, ... }:

{
  # Network-related user programs and services
  programs.ssh = {
    enable = true;
    serverAliveInterval = 60;
    controlMaster = "auto";
    controlPersist = "10m";
  };

  # Network monitoring tools
  home.packages = with pkgs; [
    nmap
    wireshark
    tcpdump
    iperf3
    mtr
    dig
  ];

  # User systemd services for network monitoring
  systemd.user.services.network-monitor = {
    Unit = {
      Description = "Network Monitoring Service";
    };
    Service = {
      Type = "simple";
      ExecStart = "${pkgs.bash}/bin/bash -c 'while true; do echo Network status: $(date); sleep 60; done'";
    };
  };
}
        "#;

/// The flake a session falls back to, up to the generator's error.
pub const FLAKE_FALLBACK: &'static str = r#"# Generated Network Topology Flake
{
  description = "CIM Network Topology Configuration";

  inputs = {
    nixpkgs.url = "github:NixOS/nixpkgs/nixos-unstable";
    nix-darwin.url = "github:LnL7/nix-darwin";
    home-manager.url = "github:nix-community/home-manager";
  };

  outputs = { self, nixpkgs, nix-darwin, home-manager }: {
    # NixOS configurations for Linux nodes
    nixosConfigurations = {
      # Network nodes would be generated here
    };

    # nix-darwin configurations for macOS nodes  
    darwinConfigurations = {
      # macOS network nodes would be generated here
    };

    # Home Manager configurations
    homeConfigurations = {
      # User configurations would be generated here
    };

    # Development shell
    devShells = nixpkgs.lib.genAttrs [ "x86_64-linux" "aarch64-darwin" ] (system: 
      let pkgs = nixpkgs.legacyPackages.${system}; in
      pkgs.mkShell {
        buildInputs = with pkgs; [ 
          nix
          git 
        ];
      }
    );
  };
}
# Generation error: "#;

/// What follows the generator's error in the fallback flake.
pub const FLAKE_FALLBACK_END: &'static str = "\n                ";

/// The error of the session's Nix generator, which has no topology.
pub const GENERATOR_ERROR: &'static str = "Validation error: No active topology";

/// The `Debug` text of a string: quoted, with special characters escaped
/// as `std` does.
pub uninterp spec fn str_debug(s: Seq<char>) -> Seq<char>;

/// Whether a character is printable ASCII other than `"` and `\`, which
/// `Debug` writes as it is.
pub open spec fn debug_plain(c: char) -> bool {
    ' ' <= c && c <= '~' && c != '"' && c != '\\'
}

/// The `Debug` text of a string (`format!("{:?}", s)` of `std`): the named
/// text; a text of printable ASCII without `"` and `\` is written between
/// double quotes as it is. The other escaping rules are not spelled out.
#[verifier::external_body]
pub(crate) fn debug_text(s: &str) -> (r: String)
    ensures
        r@ == str_debug(s@),
        (forall|i: int| 0 <= i < s@.len() ==> debug_plain(#[trigger] s@[i])) ==> r@ == seq!['"'] + s@ + seq!['"'],
{
    format!("{:?}", s)
}

/// The `Debug` text of an office size.
pub open spec fn office_size_text(s: OfficeSize) -> Seq<char> {
    match s {
        OfficeSize::Small => "Small"@,
        OfficeSize::Medium => "Medium"@,
        OfficeSize::Large => "Large"@,
        OfficeSize::Campus => "Campus"@,
    }
}

/// The `Debug` text of a cloud provider.
pub open spec fn provider_text(p: CloudProvider) -> Seq<char> {
    match p {
        CloudProvider::AWS => "AWS"@,
        CloudProvider::Azure => "Azure"@,
        CloudProvider::GCP => "GCP"@,
        CloudProvider::DigitalOcean => "DigitalOcean"@,
        CloudProvider::Custom(s) => "Custom("@ + str_debug(s@) + ")"@,
    }
}

/// The `Debug` text of a VPN protocol.
pub open spec fn vpn_text(p: VPNProtocol) -> Seq<char> {
    match p {
        VPNProtocol::IPSec => "IPSec"@,
        VPNProtocol::WireGuard => "WireGuard"@,
        VPNProtocol::OpenVPN => "OpenVPN"@,
        VPNProtocol::Custom(s) => "Custom("@ + str_debug(s@) + ")"@,
    }
}

/// The `Debug` text of a configuration format.
pub open spec fn format_text(f: ConfigurationFormat) -> Seq<char> {
    match f {
        ConfigurationFormat::NixOS => "NixOS"@,
        ConfigurationFormat::NixDarwin => "NixDarwin"@,
        ConfigurationFormat::HomeManager => "HomeManager"@,
        ConfigurationFormat::NixFlake => "NixFlake"@,
        ConfigurationFormat::JSON => "JSON"@,
    }
}

/// A coordinate as displayed: the text given, or `0` when none was.
pub open spec fn coordinate_text(c: Option<String>) -> Seq<char> {
    match c {
        Some(t) => t@,
        None => "0"@,
    }
}

/// A location, described for the user.
pub open spec fn location_description(l: NetworkLocation) -> Seq<char> {
    match l {
        NetworkLocation::DataCenter { name, region, .. } => "Data center '"@ + name@ + "' in "@ + region@,
        NetworkLocation::Office { name, address, size } =>
            "Office '"@ + name@ + "' at "@ + address@ + " ("@ + office_size_text(size) + ")"@,
        NetworkLocation::CloudRegion { provider, region } => provider_text(provider) + " region "@ + region@,
        NetworkLocation::EdgeLocation { name, latitude, longitude } =>
            "Edge location '"@ + name@ + "' at ("@ + coordinate_text(latitude) + ", "@ + coordinate_text(longitude) + ")"@,
        NetworkLocation::VirtualSegment { name, subnet, vlan_id } =>
            "Virtual segment '"@ + name@ + "' on "@ + ip_text(subnet.ip) + seq!['/'] + dec(subnet.prefix as nat) + " "@
            + match vlan_id {
                Some(v) => "(VLAN "@ + dec(v as nat) + ")"@,
                None => Seq::empty(),
            },
    }
}

/// A connection, described for the user.
pub open spec fn connection_description(c: NetworkConnection) -> Seq<char> {
    match c {
        NetworkConnection::Fiber { bandwidth, redundant } =>
            (if redundant { "redundant "@ } else { Seq::empty() }) + "fiber connection ("@ + bandwidth@ + ")"@,
        NetworkConnection::VPN { protocol, encrypted } =>
            (if encrypted { "encrypted "@ } else { Seq::empty() }) + vpn_text(protocol) + " VPN"@,
        NetworkConnection::Internet { bandwidth, provider } =>
            "Internet connection via "@ + provider@ + " ("@ + bandwidth@ + ")"@,
        NetworkConnection::DirectConnect { provider, bandwidth } =>
            provider_text(provider) + " Direct Connect ("@ + bandwidth@ + ")"@,
        NetworkConnection::Virtual { protocol, bandwidth } =>
            "Virtual "@ + protocol@ + " connection "@ + match bandwidth {
                Some(b) => "("@ + b@ + ")"@,
                None => Seq::empty(),
            },
    }
}

fn office_size_string(s: OfficeSize) -> (r: String)
    ensures
        r@ == office_size_text(s),
{
    owned(match s {
        OfficeSize::Small => "Small",
        OfficeSize::Medium => "Medium",
        OfficeSize::Large => "Large",
        OfficeSize::Campus => "Campus",
    })
}

fn provider_string(p: &CloudProvider) -> (r: String)
    ensures
        r@ == provider_text(*p),
{
    match p {
        CloudProvider::AWS => owned("AWS"),
        CloudProvider::Azure => owned("Azure"),
        CloudProvider::GCP => owned("GCP"),
        CloudProvider::DigitalOcean => owned("DigitalOcean"),
        CloudProvider::Custom(s) => {
            let mut r = owned("Custom(");
            push_str(&mut r, debug_text(s.as_str()).as_str());
            push_str(&mut r, ")");
            r
        }
    }
}

fn vpn_string(p: &VPNProtocol) -> (r: String)
    ensures
        r@ == vpn_text(*p),
{
    match p {
        VPNProtocol::IPSec => owned("IPSec"),
        VPNProtocol::WireGuard => owned("WireGuard"),
        VPNProtocol::OpenVPN => owned("OpenVPN"),
        VPNProtocol::Custom(s) => {
            let mut r = owned("Custom(");
            push_str(&mut r, debug_text(s.as_str()).as_str());
            push_str(&mut r, ")");
            r
        }
    }
}

fn format_string(f: ConfigurationFormat) -> (r: String)
    ensures
        r@ == format_text(f),
{
    owned(match f {
        ConfigurationFormat::NixOS => "NixOS",
        ConfigurationFormat::NixDarwin => "NixDarwin",
        ConfigurationFormat::HomeManager => "HomeManager",
        ConfigurationFormat::NixFlake => "NixFlake",
        ConfigurationFormat::JSON => "JSON",
    })
}

fn coordinate_string(c: &Option<String>) -> (r: String)
    ensures
        r@ == coordinate_text(*c),
{
    match c {
        Some(t) => t.clone(),
        None => owned("0"),
    }
}

/// Describes a location for the user.
pub fn describe_location(l: &NetworkLocation) -> (r: String)
    ensures
        r@ == location_description(*l),
{
    match l {
        NetworkLocation::DataCenter { name, region, .. } => {
            let mut r = owned("Data center '");
            push_str(&mut r, name.as_str());
            push_str(&mut r, "' in ");
            push_str(&mut r, region.as_str());
            r
        }
        NetworkLocation::Office { name, address, size } => {
            let mut r = owned("Office '");
            push_str(&mut r, name.as_str());
            push_str(&mut r, "' at ");
            push_str(&mut r, address.as_str());
            push_str(&mut r, " (");
            push_str(&mut r, office_size_string(*size).as_str());
            push_str(&mut r, ")");
            r
        }
        NetworkLocation::CloudRegion { provider, region } => {
            let mut r = provider_string(provider);
            push_str(&mut r, " region ");
            push_str(&mut r, region.as_str());
            r
        }
        NetworkLocation::EdgeLocation { name, latitude, longitude } => {
            let mut r = owned("Edge location '");
            push_str(&mut r, name.as_str());
            push_str(&mut r, "' at (");
            push_str(&mut r, coordinate_string(latitude).as_str());
            push_str(&mut r, ", ");
            push_str(&mut r, coordinate_string(longitude).as_str());
            push_str(&mut r, ")");
            r
        }
        NetworkLocation::VirtualSegment { name, subnet, vlan_id } => {
            let mut r = owned("Virtual segment '");
            push_str(&mut r, name.as_str());
            push_str(&mut r, "' on ");
            push_str(&mut r, subnet.to_string().as_str());
                        push_str(&mut r, " ");
            match vlan_id {
                Some(v) => {
                    push_str(&mut r, "(VLAN ");
                    push_dec(&mut r, *v as u64);
                    push_str(&mut r, ")");
                }
                None => {}
            }
            assert(r@ =~= location_description(*l));
            r
        }
    }
}

/// Describes a connection for the user.
pub fn describe_connection(c: &NetworkConnection) -> (r: String)
    ensures
        r@ == connection_description(*c),
{
    match c {
        NetworkConnection::Fiber { bandwidth, redundant } => {
            let mut r = if *redundant { owned("redundant ") } else { String::new() };
            push_str(&mut r, "fiber connection (");
            push_str(&mut r, bandwidth.as_str());
            push_str(&mut r, ")");
            r
        }
        NetworkConnection::VPN { protocol, encrypted } => {
            let mut r = if *encrypted { owned("encrypted ") } else { String::new() };
            push_str(&mut r, vpn_string(protocol).as_str());
            push_str(&mut r, " VPN");
            r
        }
        NetworkConnection::Internet { bandwidth, provider } => {
            let mut r = owned("Internet connection via ");
            push_str(&mut r, provider.as_str());
            push_str(&mut r, " (");
            push_str(&mut r, bandwidth.as_str());
            push_str(&mut r, ")");
            r
        }
        NetworkConnection::DirectConnect { provider, bandwidth } => {
            let mut r = provider_string(provider);
            push_str(&mut r, " Direct Connect (");
            push_str(&mut r, bandwidth.as_str());
            push_str(&mut r, ")");
            r
        }
        NetworkConnection::Virtual { protocol, bandwidth } => {
            let mut r = owned("Virtual ");
            push_str(&mut r, protocol.as_str());
            push_str(&mut r, " connection ");
            match bandwidth {
                Some(b) => {
                    push_str(&mut r, "(");
                    push_str(&mut r, b.as_str());
                    push_str(&mut r, ")");
                }
                None => {}
            }
            assert(r@ =~= connection_description(*c));
            r
        }
    }
}

// ---------------------------------------------------------------------
// Session events.

/// What happened in a session.
#[derive(Debug)]
pub enum SessionPayload {
    /// A location entered the topology as a new entity of a topology
    LocationAdded { topology_id: u128, entity_id: u128, entity_type: String, location: NetworkLocation },
    ConnectionAdded { from: String, to: String, connection: NetworkConnection },
    NodeRemoved { node_id: String },
    EdgeRemoved { edge_id: String, from: String, to: String },
    ValidationCompleted { validation_result: bool, validation_messages: Vec<String> },
    ConfigurationGenerated { format: String, content: String },
    TopologyCompleted { topology_id: String, event_count: usize },
}

/// An event of a session, under the session's identifier.
#[derive(Debug)]
pub struct SessionEvent {
    pub event_id: u128,
    pub aggregate_id: u128,
    pub correlation_id: u128,
    pub causation_id: Option<u128>,
    pub payload: SessionPayload,
}

/// `b` is a copy of `a`: the same, with the same texts in lists.
pub open spec fn copied_payload(a: SessionPayload, b: SessionPayload) -> bool {
    match (a, b) {
        (
            SessionPayload::ValidationCompleted { validation_result: x, validation_messages: m },
            SessionPayload::ValidationCompleted { validation_result: y, validation_messages: n },
        ) => x == y && m@ == n@,
        _ => a == b,
    }
}

/// `b` is a copy of the event `a`.
pub open spec fn copied_event(a: SessionEvent, b: SessionEvent) -> bool {
    &&& a.event_id == b.event_id
    &&& a.aggregate_id == b.aggregate_id
    &&& a.correlation_id == b.correlation_id
    &&& a.causation_id == b.causation_id
    &&& copied_payload(a.payload, b.payload)
}

fn copy_strings(v: &Vec<String>) -> (r: Vec<String>)
    ensures
        r@ == v@,
{
    let mut r: Vec<String> = Vec::new();
    let mut k: usize = 0;
    while k < v.len()
        invariant
            k <= v@.len(),
            r@ == v@.take(k as int),
        decreases v@.len() - k,
    {
        r.push(v[k].clone());
        assert(r@ =~= v@.take(k + 1));
        k = k + 1;
    }
    assert(v@.take(v@.len() as int) =~= v@);
    r
}

impl SessionEvent {
    /// A copy of the event.
    pub fn copy(&self) -> (r: SessionEvent)
        ensures
            copied_event(*self, r),
    {
        let payload = match &self.payload {
            SessionPayload::LocationAdded { topology_id, entity_id, entity_type, location } => SessionPayload::LocationAdded {
                topology_id: *topology_id,
                entity_id: *entity_id,
                entity_type: entity_type.clone(),
                location: location.clone(),
            },
            SessionPayload::ConnectionAdded { from, to, connection } =>
                SessionPayload::ConnectionAdded { from: from.clone(), to: to.clone(), connection: connection.clone() },
            SessionPayload::NodeRemoved { node_id } => SessionPayload::NodeRemoved { node_id: node_id.clone() },
            SessionPayload::EdgeRemoved { edge_id, from, to } =>
                SessionPayload::EdgeRemoved { edge_id: edge_id.clone(), from: from.clone(), to: to.clone() },
            SessionPayload::ValidationCompleted { validation_result, validation_messages } => SessionPayload::ValidationCompleted {
                validation_result: *validation_result,
                validation_messages: copy_strings(validation_messages),
            },
            SessionPayload::ConfigurationGenerated { format, content } =>
                SessionPayload::ConfigurationGenerated { format: format.clone(), content: content.clone() },
            SessionPayload::TopologyCompleted { topology_id, event_count } =>
                SessionPayload::TopologyCompleted { topology_id: topology_id.clone(), event_count: *event_count },
        };
        SessionEvent {
            event_id: self.event_id,
            aggregate_id: self.aggregate_id,
            correlation_id: self.correlation_id,
            causation_id: self.causation_id,
            payload,
        }
    }
}

// ---------------------------------------------------------------------
// The agent.

/// The answer to a command.
#[derive(Debug)]
pub struct AgentResponse {
    pub message: String,
    pub topology_summary: TopologySummary,
    pub suggested_actions: Vec<String>,
    /// The event the command recorded, if any
    pub events: Vec<SessionEvent>,
    pub new_state: InteractionState,
}

/// State of a session.
pub struct BuilderView {
    pub session: u128,
    pub events: Seq<SessionEvent>,
    pub state: InteractionState,
}

/// A topology building session.
#[derive(Debug)]
pub struct NetworkTopologyBuilderAgent {
    session_uuid: u128,
    session_id: String,
    events: Vec<SessionEvent>,
    interaction_state: InteractionState,
}

impl View for NetworkTopologyBuilderAgent {
    type V = BuilderView;

    closed spec fn view(&self) -> BuilderView {
        BuilderView { session: self.session_uuid, events: self.events@, state: self.interaction_state }
    }
}

/// The texts of a list of strings.
pub open spec fn texts(s: Seq<String>) -> Seq<Seq<char>> {
    s.map_values(|x: String| x@)
}

/// The summary a session gives: nothing counted, valid.
pub open spec fn session_summary(s: TopologySummary) -> bool {
    &&& s.location_count == 0
    &&& s.connection_count == 0
    &&& s.locations@.len() == 0
    &&& s.connections@.len() == 0
    &&& s.is_valid
    &&& s.validation_messages@.len() == 0
}

/// An event of the session with the given correlation and cause.
pub open spec fn session_event(e: SessionEvent, session: u128, corr: CorrelationId, cause: CausationId) -> bool {
    e.aggregate_id == session && e.correlation_id == corr.value && e.causation_id == Some(cause.value)
}

/// A response with the given message, suggestions, recorded event and
/// state, and the session summary.
pub open spec fn answered(
    r: AgentResponse,
    message: Seq<char>,
    actions: Seq<Seq<char>>,
    event: Option<SessionEvent>,
    state: InteractionState,
) -> bool {
    &&& r.message@ == message
    &&& session_summary(r.topology_summary)
    &&& texts(r.suggested_actions@) == actions
    &&& match event {
        Some(e) => r.events@.len() == 1 && copied_event(e, r.events@[0]),
        None => r.events@.len() == 0,
    }
    &&& r.new_state == state
}

/// The session after a command that records one event and sets a state.
pub open spec fn recorded(old: BuilderView, new: BuilderView, state: InteractionState) -> bool {
    &&& new.session == old.session
    &&& new.events.len() == old.events.len() + 1
    &&& new.events.drop_last() == old.events
    &&& new.state == state
}

/// The configuration a session generates in a format.
pub open spec fn generated_content(f: ConfigurationFormat, session: u128) -> Seq<char> {
    match f {
        ConfigurationFormat::NixOS => "# NixOS network configuration from cim-domain-nix\n# Error during generation: "@
            + GENERATOR_ERROR@ + "\n# Fallback: Basic topology configuration would be generated here\n# Session: "@
            + uuid_text(session),
        ConfigurationFormat::NixDarwin => "# nix-darwin network configuration from cim-domain-nix\n# Error: "@
            + GENERATOR_ERROR@ + "\n# Would generate Darwin-specific system configuration"@,
        ConfigurationFormat::HomeManager => HOME_MANAGER_CONFIG@,
        ConfigurationFormat::NixFlake => FLAKE_FALLBACK@ + GENERATOR_ERROR@ + FLAKE_FALLBACK_END@,
        ConfigurationFormat::JSON => EMPTY_SUMMARY_JSON@,
    }
}

/// The session summary in pretty JSON.
pub const EMPTY_SUMMARY_JSON: &'static str =
    "{\n  \"location_count\": 0,\n  \"connection_count\": 0,\n  \"locations\": {},\n  \"connections\": [],\n  \"is_valid\": true,\n  \"validation_messages\": []\n}";

/// What a command does to a session and answers.
pub open spec fn command_outcome(
    old: BuilderView,
    new: BuilderView,
    command: TopologyCommand,
    corr: CorrelationId,
    cause: CausationId,
    r: Result<AgentResponse, NetworkError>,
) -> bool {
    match command {
        TopologyCommand::AddLocation { location_id, location } => {
            &&& recorded(old, new, InteractionState::BuildingTopology)
            &&& session_event(new.events.last(), old.session, corr, cause)
            &&& new.events.last().payload matches SessionPayload::LocationAdded { entity_type, location: l, .. }
                && entity_type@ == "NetworkLocation"@ && l == location
            &&& r is Ok && answered(r.unwrap(), "✅ Added location: "@ + location_description(location),
                seq!["Add another location"@, "Connect locations"@, "Validate topology"@],
                Some(new.events.last()), InteractionState::BuildingTopology)
        },
        TopologyCommand::ConnectLocations { from, to, connection } => {
            &&& recorded(old, new, old.state)
            &&& session_event(new.events.last(), old.session, corr, cause)
            &&& new.events.last().payload == (SessionPayload::ConnectionAdded { from, to, connection })
            &&& r is Ok && answered(r.unwrap(), "🔗 Connected "@ + from@ + " → "@ + to@ + " via "@ + connection_description(connection),
                seq!["Add more connections"@, "Validate topology"@, "Generate configuration"@],
                Some(new.events.last()), old.state)
        },
        TopologyCommand::RemoveLocation { location_id } => {
            &&& recorded(old, new, old.state)
            &&& session_event(new.events.last(), old.session, corr, cause)
            &&& new.events.last().payload == (SessionPayload::NodeRemoved { node_id: location_id })
            &&& r is Ok && answered(r.unwrap(), "🗑️ Removed location: "@ + location_id@,
                seq!["Add replacement location"@, "Validate topology"@], Some(new.events.last()), old.state)
        },
        TopologyCommand::RemoveConnection { from, to } => {
            &&& recorded(old, new, old.state)
            &&& session_event(new.events.last(), old.session, corr, cause)
            &&& new.events.last().payload matches SessionPayload::EdgeRemoved { edge_id, from: f, to: t }
                && edge_id@ == from@ + "-"@ + to@ && f == from && t == to
            &&& r is Ok && answered(r.unwrap(), "✂️ Removed connection: "@ + from@ + " → "@ + to@,
                seq!["Add replacement connection"@, "Validate topology"@], Some(new.events.last()), old.state)
        },
        TopologyCommand::ListTopology => {
            &&& new == old
            &&& r is Ok && answered(r.unwrap(), "📋 Current network topology:"@,
                seq!["Add location"@, "Add connection"@, "Validate topology"@, "Generate configuration"@], None, old.state)
        },
        TopologyCommand::ValidateTopology => {
            &&& recorded(old, new, InteractionState::BuildingTopology)
            &&& session_event(new.events.last(), old.session, corr, cause)
            &&& new.events.last().payload matches SessionPayload::ValidationCompleted { validation_result, validation_messages }
                && validation_result && validation_messages@.len() == 0
            &&& r is Ok && answered(r.unwrap(), "✅ Topology validation passed!"@,
                seq!["Generate configuration"@, "Complete topology"@], Some(new.events.last()), InteractionState::BuildingTopology)
        },
        TopologyCommand::GenerateConfiguration { format } => {
            &&& recorded(old, new, InteractionState::BuildingTopology)
            &&& session_event(new.events.last(), old.session, corr, cause)
            &&& new.events.last().payload matches SessionPayload::ConfigurationGenerated { format: f, content }
                && f@ == format_text(format) && content@ == generated_content(format, old.session)
            &&& r is Ok && answered(r.unwrap(),
                "🔧 Generated "@ + format_text(format) + " configuration:\n\n"@ + generated_content(format, old.session),
                seq!["Generate other formats"@, "Complete topology"@, "Modify topology"@],
                Some(new.events.last()), InteractionState::BuildingTopology)
        },
        TopologyCommand::Reset => {
            &&& new.session == old.session
            &&& new.events.len() == 0
            &&& new.state == InteractionState::WaitingForInput
            &&& r is Ok && answered(r.unwrap(), "🔄 Topology reset. Starting fresh!"@, seq!["Add your first location"@],
                None, InteractionState::WaitingForInput)
        },
        TopologyCommand::Complete => {
            &&& new.session == old.session
            &&& new.events.len() == old.events.len() + 1
            &&& new.events.drop_last() == old.events
            &&& session_event(new.events.last(), old.session, corr, cause)
            &&& exists|v: u128| #![trigger uuid_text(v)] {
                &&& new.state matches InteractionState::Complete { topology_id } && topology_id@ == uuid_text(v)
                &&& new.events.last().payload matches SessionPayload::TopologyCompleted { topology_id, event_count }
                    && topology_id@ == uuid_text(v) && event_count == old.events.len()
                &&& r is Ok && answered(r.unwrap(), "🎉 Network topology completed! Topology ID: "@ + uuid_text(v),
                    seq!["Export configuration"@, "Start new topology"@], Some(new.events.last()), new.state)
            }
        },
    }
}

/// Pushes a text onto a list of strings.
fn push_text(v: &mut Vec<String>, t: &str)
    ensures
        texts(final(v)@) == texts(old(v)@).push(t@),
{
    let ghost before = v@;
    v.push(owned(t));
    assert(texts(v@) =~= texts(before).push(t@));
}

/// Suggestions as strings.
fn suggestions(a: &str, b: &str, c: &str, d: &str, n: usize) -> (r: Vec<String>)
    requires
        1 <= n <= 4,
    ensures
        texts(r@) == seq![a@, b@, c@, d@].take(n as int),
{
    let mut r: Vec<String> = Vec::new();
    push_text(&mut r, a);
    if n > 1 { push_text(&mut r, b); }
    if n > 2 { push_text(&mut r, c); }
    if n > 3 { push_text(&mut r, d); }
    assert(texts(r@) =~= seq![a@, b@, c@, d@].take(n as int));
    r
}

impl NetworkTopologyBuilderAgent {
    /// The session's identifier text is that of its UUID.
    pub closed spec fn wf(&self) -> bool {
        self.session_id@ == uuid_text(self.session_uuid)
    }

    /// A new session with a fresh random identifier, waiting for input.
    pub fn new() -> (a: Self)
        ensures
            a.wf(),
            a@.events.len() == 0,
            a@.state == InteractionState::WaitingForInput,
    {
        let v = fresh_uuid_v4();
        NetworkTopologyBuilderAgent {
            session_uuid: v,
            session_id: uuid_to_string(v),
            events: Vec::new(),
            interaction_state: InteractionState::WaitingForInput,
        }
    }

    /// The summary of the session: nothing is counted yet.
    fn get_topology_summary(&self) -> (s: TopologySummary)
        ensures
            session_summary(s),
    {
        TopologySummary {
            location_count: 0,
            connection_count: 0,
            locations: Vec::new(),
            connections: Vec::new(),
            is_valid: true,
            validation_messages: Vec::new(),
        }
    }

    /// A response from the session's summary and state.
    fn respond(&self, message: String, actions: Vec<String>, events: Vec<SessionEvent>) -> (r: AgentResponse)
        ensures
            r.message == message,
            session_summary(r.topology_summary),
            r.suggested_actions == actions,
            r.events == events,
            r.new_state == self@.state,
    {
        AgentResponse {
            message,
            topology_summary: self.get_topology_summary(),
            suggested_actions: actions,
            events,
            new_state: self.interaction_state.clone(),
        }
    }

    /// Records an event of the session and gives a copy of it.
    fn record(&mut self, corr: CorrelationId, cause: CausationId, payload: SessionPayload) -> (r: Vec<SessionEvent>)
        ensures
            final(self)@.session == old(self)@.session,
            final(self)@.state == old(self)@.state,
            final(self)@.events == old(self)@.events.push(final(self)@.events.last()),
            final(self)@.events.drop_last() == old(self)@.events,
            final(self).wf() == old(self).wf(),
            session_event(final(self)@.events.last(), old(self)@.session, corr, cause),
            final(self)@.events.last().payload == payload,
            r@.len() == 1 && copied_event(final(self)@.events.last(), r@[0]),
    {
        let event = SessionEvent {
            event_id: fresh_uuid_v4(),
            aggregate_id: self.session_uuid,
            correlation_id: corr.value,
            causation_id: Some(cause.value),
            payload,
        };
        let copy = event.copy();
        self.events.push(event);
        assert(self@.events.drop_last() =~= old(self)@.events);
        let mut r: Vec<SessionEvent> = Vec::new();
        r.push(copy);
        r
    }

    /// Processes a command with the given correlation and cause.
    pub fn process_command_with(
        &mut self,
        command: TopologyCommand,
        correlation_id: CorrelationId,
        causation_id: CausationId,
    ) -> (r: Result<AgentResponse, NetworkError>)
        requires
            old(self).wf(),
        ensures
            final(self).wf(),
            command_outcome(old(self)@, final(self)@, command, correlation_id, causation_id, r),
    {
        let ghost cmd = command;
        proof {
            reveal_strlit("-");
        }
        match command {
            TopologyCommand::AddLocation { location_id, location } => {
                let mut message = owned("✅ Added location: ");
                push_str(&mut message, describe_location(&location).as_str());
                let ghost loc = location;
                let events = self.record(correlation_id, causation_id, SessionPayload::LocationAdded {
                    topology_id: fresh_uuid_v4(),
                    entity_id: fresh_uuid_v4(),
                    entity_type: owned("NetworkLocation"),
                    location,
                });
                self.interaction_state = InteractionState::BuildingTopology;
                let actions = suggestions("Add another location", "Connect locations", "Validate topology", "", 3);
                assert(seq!["Add another location"@, "Connect locations"@, "Validate topology"@, ""@].take(3)
                    =~= seq!["Add another location"@, "Connect locations"@, "Validate topology"@]);
                Ok(self.respond(message, actions, events))
            }
            TopologyCommand::ConnectLocations { from, to, connection } => {
                let mut message = owned("🔗 Connected ");
                push_str(&mut message, from.as_str());
                push_str(&mut message, " → ");
                push_str(&mut message, to.as_str());
                push_str(&mut message, " via ");
                push_str(&mut message, describe_connection(&connection).as_str());
                let events = self.record(correlation_id, causation_id, SessionPayload::ConnectionAdded { from, to, connection });
                let actions = suggestions("Add more connections", "Validate topology", "Generate configuration", "", 3);
                assert(seq!["Add more connections"@, "Validate topology"@, "Generate configuration"@, ""@].take(3)
                    =~= seq!["Add more connections"@, "Validate topology"@, "Generate configuration"@]);
                Ok(self.respond(message, actions, events))
            }
            TopologyCommand::RemoveLocation { location_id } => {
                let mut message = owned("🗑️ Removed location: ");
                push_str(&mut message, location_id.as_str());
                let events = self.record(correlation_id, causation_id, SessionPayload::NodeRemoved { node_id: location_id });
                let actions = suggestions("Add replacement location", "Validate topology", "", "", 2);
                assert(seq!["Add replacement location"@, "Validate topology"@, ""@, ""@].take(2)
                    =~= seq!["Add replacement location"@, "Validate topology"@]);
                Ok(self.respond(message, actions, events))
            }
            TopologyCommand::RemoveConnection { from, to } => {
                let mut message = owned("✂️ Removed connection: ");
                push_str(&mut message, from.as_str());
                push_str(&mut message, " → ");
                push_str(&mut message, to.as_str());
                let mut edge_id = from.clone();
                push_str(&mut edge_id, "-");
                push_str(&mut edge_id, to.as_str());
                let events = self.record(correlation_id, causation_id, SessionPayload::EdgeRemoved { edge_id, from, to });
                let actions = suggestions("Add replacement connection", "Validate topology", "", "", 2);
                assert(seq!["Add replacement connection"@, "Validate topology"@, ""@, ""@].take(2)
                    =~= seq!["Add replacement connection"@, "Validate topology"@]);
                Ok(self.respond(message, actions, events))
            }
            TopologyCommand::ListTopology => {
                let actions = suggestions("Add location", "Add connection", "Validate topology", "Generate configuration", 4);
                assert(seq!["Add location"@, "Add connection"@, "Validate topology"@, "Generate configuration"@].take(4)
                    =~= seq!["Add location"@, "Add connection"@, "Validate topology"@, "Generate configuration"@]);
                Ok(self.respond(owned("📋 Current network topology:"), actions, Vec::new()))
            }
            TopologyCommand::ValidateTopology => {
                self.interaction_state = InteractionState::ValidatingTopology;
                let events = self.record(correlation_id, causation_id, SessionPayload::ValidationCompleted {
                    validation_result: true,
                    validation_messages: Vec::new(),
                });
                self.interaction_state = InteractionState::BuildingTopology;
                let actions = suggestions("Generate configuration", "Complete topology", "", "", 2);
                assert(seq!["Generate configuration"@, "Complete topology"@, ""@, ""@].take(2)
                    =~= seq!["Generate configuration"@, "Complete topology"@]);
                Ok(self.respond(owned("✅ Topology validation passed!"), actions, events))
            }
            TopologyCommand::GenerateConfiguration { format } => {
                self.interaction_state = InteractionState::GeneratingConfig;
                let content = self.generate_content(format);
                let mut message = owned("🔧 Generated ");
                push_str(&mut message, format_string(format).as_str());
                push_str(&mut message, " configuration:\n\n");
                push_str(&mut message, content.as_str());
                let events = self.record(correlation_id, causation_id, SessionPayload::ConfigurationGenerated {
                    format: format_string(format),
                    content,
                });
                self.interaction_state = InteractionState::BuildingTopology;
                let actions = suggestions("Generate other formats", "Complete topology", "Modify topology", "", 3);
                assert(seq!["Generate other formats"@, "Complete topology"@, "Modify topology"@, ""@].take(3)
                    =~= seq!["Generate other formats"@, "Complete topology"@, "Modify topology"@]);
                Ok(self.respond(message, actions, events))
            }
            TopologyCommand::Reset => {
                self.events = Vec::new();
                self.interaction_state = InteractionState::WaitingForInput;
                let actions = suggestions("Add your first location", "", "", "", 1);
                assert(seq!["Add your first location"@, ""@, ""@, ""@].take(1) =~= seq!["Add your first location"@]);
                Ok(self.respond(owned("🔄 Topology reset. Starting fresh!"), actions, Vec::new()))
            }
            TopologyCommand::Complete => {
                let v = fresh_uuid_v4();
                let topology_id = uuid_to_string(v);
                let count = self.events.len();
                let mut message = owned("🎉 Network topology completed! Topology ID: ");
                push_str(&mut message, topology_id.as_str());
                let events = self.record(correlation_id, causation_id, SessionPayload::TopologyCompleted {
                    topology_id: topology_id.clone(),
                    event_count: count,
                });
                self.interaction_state = InteractionState::Complete { topology_id };
                let actions = suggestions("Export configuration", "Start new topology", "", "", 2);
                assert(seq!["Export configuration"@, "Start new topology"@, ""@, ""@].take(2)
                    =~= seq!["Export configuration"@, "Start new topology"@]);
                Ok(self.respond(message, actions, events))
            }
        }
    }

    /// The configuration generated in a format.
    fn generate_content(&self, format: ConfigurationFormat) -> (s: String)
        requires
            self.wf(),
        ensures
            s@ == generated_content(format, self@.session),
    {
        match format {
            ConfigurationFormat::NixOS => {
                let mut s = owned("# NixOS network configuration from cim-domain-nix\n# Error during generation: ");
                push_str(&mut s, GENERATOR_ERROR);
                push_str(&mut s, "\n# Fallback: Basic topology configuration would be generated here\n# Session: ");
                push_str(&mut s, self.session_id.as_str());
                s
            }
            ConfigurationFormat::NixDarwin => {
                let mut s = owned("# nix-darwin network configuration from cim-domain-nix\n# Error: ");
                push_str(&mut s, GENERATOR_ERROR);
                push_str(&mut s, "\n# Would generate Darwin-specific system configuration");
                s
            }
            ConfigurationFormat::HomeManager => owned(HOME_MANAGER_CONFIG),
            ConfigurationFormat::NixFlake => {
                let mut s = owned(FLAKE_FALLBACK);
                push_str(&mut s, GENERATOR_ERROR);
                push_str(&mut s, FLAKE_FALLBACK_END);
                s
            }
            ConfigurationFormat::JSON => owned(EMPTY_SUMMARY_JSON),
        }
    }

    /// Processes a command under fresh correlation and causation
    /// identifiers.
    pub fn process_command(&mut self, command: TopologyCommand) -> (r: Result<AgentResponse, NetworkError>)
        requires
            old(self).wf(),
        ensures
            final(self).wf(),
            exists|corr: CorrelationId, cause: CausationId|
                command_outcome(old(self)@, final(self)@, command, corr, cause, r),
    {
        let corr = CorrelationId::new();
        let cause = CausationId::new();
        self.process_command_with(command, corr, cause)
    }

    /// The events of the session.
    pub fn get_events(&self) -> (r: &Vec<SessionEvent>)
        ensures
            r@ == self@.events,
    {
        &self.events
    }

    /// The session's identifier.
    pub fn session_id(&self) -> (r: &str)
        requires
            self.wf(),
        ensures
            r@ == uuid_text(self@.session),
    {
        self.session_id.as_str()
    }

    /// Where the user is.
    pub fn interaction_state(&self) -> (r: &InteractionState)
        ensures
            *r == self@.state,
    {
        &self.interaction_state
    }
}

impl Default for NetworkTopologyBuilderAgent {
    /// A new session.
    fn default() -> (a: Self)
        ensures
            a.wf(),
            a@.events.len() == 0,
            a@.state == InteractionState::WaitingForInput,
    {
        Self::new()
    }
}

} // verus!

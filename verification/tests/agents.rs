use cim_network::agents::{
    CloudProvider, ConfigurationFormat, ConnectionSummary, InteractionState, NetworkConnection, NetworkLocation,
    OfficeSize, SubAgentStatus, SubAgentTask, TopologyCommand, TopologySummary, VPNProtocol,
};
use cim_network::cli::{display_response, NetworkTopologyCLI, HELP_TEXT};
use cim_network::ip::IpNetwork;
use cim_network::subagent::{create_build_topology_request, create_subagent_request, NetworkTopologySubAgent};
use cim_network::topology_builder::{
    describe_connection, describe_location, AgentResponse, NetworkTopologyBuilderAgent, SessionPayload,
};

#[test]
fn builder_adds_and_connects_locations() {
    let mut agent = NetworkTopologyBuilderAgent::new();
    let r = agent
        .process_command(TopologyCommand::AddLocation {
            location_id: "dc1".to_string(),
            location: NetworkLocation::DataCenter { name: "Primary".to_string(), region: "us-west-1".to_string(), availability_zone: None },
        })
        .unwrap();
    assert_eq!(r.message, "✅ Added location: Data center 'Primary' in us-west-1");
    assert_eq!(r.suggested_actions, vec!["Add another location", "Connect locations", "Validate topology"]);
    assert_eq!(r.events.len(), 1);
    assert!(matches!(r.new_state, InteractionState::BuildingTopology));
    assert_eq!(r.topology_summary.location_count, 0);
    let r = agent
        .process_command(TopologyCommand::ConnectLocations {
            from: "dc1".to_string(),
            to: "hq".to_string(),
            connection: NetworkConnection::Fiber { bandwidth: "10Gbps".to_string(), redundant: true },
        })
        .unwrap();
    assert_eq!(r.message, "🔗 Connected dc1 → hq via redundant fiber connection (10Gbps)");
    assert_eq!(agent.get_events().len(), 2);
    let r = agent.process_command(TopologyCommand::RemoveConnection { from: "dc1".to_string(), to: "hq".to_string() }).unwrap();
    assert_eq!(r.message, "✂️ Removed connection: dc1 → hq");
    match &agent.get_events()[2].payload {
        SessionPayload::EdgeRemoved { edge_id, .. } => assert_eq!(edge_id, "dc1-hq"),
        _ => panic!("expected an edge removal"),
    }
    let r = agent.process_command(TopologyCommand::ListTopology).unwrap();
    assert_eq!(r.message, "📋 Current network topology:");
    assert!(r.events.is_empty());
    assert_eq!(agent.get_events().len(), 3);
}

#[test]
fn builder_validates_generates_resets_and_completes() {
    let mut agent = NetworkTopologyBuilderAgent::default();
    let r = agent.process_command(TopologyCommand::ValidateTopology).unwrap();
    assert_eq!(r.message, "✅ Topology validation passed!");
    let r = agent.process_command(TopologyCommand::GenerateConfiguration { format: ConfigurationFormat::NixDarwin }).unwrap();
    assert_eq!(
        r.message,
        "🔧 Generated NixDarwin configuration:\n\n# nix-darwin network configuration from cim-domain-nix\n# Error: Validation error: No active topology\n# Would generate Darwin-specific system configuration"
    );
    let r = agent.process_command(TopologyCommand::GenerateConfiguration { format: ConfigurationFormat::NixOS }).unwrap();
    assert!(r.message.ends_with(&format!("# Session: {}", agent.session_id())));
    let r = agent.process_command(TopologyCommand::GenerateConfiguration { format: ConfigurationFormat::JSON }).unwrap();
    assert!(r.message.contains("\"location_count\": 0"));
    let r = agent.process_command(TopologyCommand::GenerateConfiguration { format: ConfigurationFormat::HomeManager }).unwrap();
    assert!(r.message.contains("programs.ssh"));
    let r = agent.process_command(TopologyCommand::Complete).unwrap();
    assert!(r.message.starts_with("🎉 Network topology completed! Topology ID: "));
    match agent.interaction_state() {
        InteractionState::Complete { topology_id } => assert_eq!(topology_id.len(), 36),
        _ => panic!("expected completion"),
    }
    match &agent.get_events().last().unwrap().payload {
        SessionPayload::TopologyCompleted { event_count, .. } => assert_eq!(*event_count, 5),
        _ => panic!("expected completion event"),
    }
    let r = agent.process_command(TopologyCommand::Reset).unwrap();
    assert_eq!(r.message, "🔄 Topology reset. Starting fresh!");
    assert!(agent.get_events().is_empty());
    assert!(matches!(agent.interaction_state(), InteractionState::WaitingForInput));
}

#[test]
fn location_and_connection_descriptions() {
    let office = NetworkLocation::Office { name: "HQ".to_string(), address: "1 Main St".to_string(), size: OfficeSize::Large };
    assert_eq!(describe_location(&office), "Office 'HQ' at 1 Main St (Large)");
    let cloud = NetworkLocation::CloudRegion { provider: CloudProvider::Custom("Hetzner".to_string()), region: "fsn1".to_string() };
    assert_eq!(describe_location(&cloud), "Custom(\"Hetzner\") region fsn1");
    let seg = NetworkLocation::VirtualSegment { name: "lab".to_string(), subnet: IpNetwork::from_str("10.0.0.0/24").unwrap(), vlan_id: Some(7) };
    assert_eq!(describe_location(&seg), "Virtual segment 'lab' on 10.0.0.0/24 (VLAN 7)");
    let edge = NetworkLocation::EdgeLocation { name: "e".to_string(), latitude: Some("1.5".to_string()), longitude: None };
    assert_eq!(describe_location(&edge), "Edge location 'e' at (1.5, 0)");
    let vpn = NetworkConnection::VPN { protocol: VPNProtocol::WireGuard, encrypted: true };
    assert_eq!(describe_connection(&vpn), "encrypted WireGuard VPN");
    let virt = NetworkConnection::Virtual { protocol: "VXLAN".to_string(), bandwidth: None };
    assert_eq!(describe_connection(&virt), "Virtual VXLAN connection ");
    let dc = NetworkConnection::DirectConnect { provider: CloudProvider::AWS, bandwidth: "1Gbps".to_string() };
    assert_eq!(describe_connection(&dc), "AWS Direct Connect (1Gbps)");
}

#[test]
fn subagent_answers_requests() {
    let mut sub = NetworkTopologySubAgent::new();
    assert_eq!(sub.metadata().name, "Network Topology Builder");
    assert!(matches!(sub.metadata().status, SubAgentStatus::Ready));
    let r = sub.process_request(create_subagent_request(SubAgentTask::AddLocation {
        location_id: "dc1".to_string(),
        location_type: "datacenter".to_string(),
        parameters: vec![("region".to_string(), "eu-west-1".to_string())],
    }));
    assert!(r.success);
    assert_eq!(r.message, "✅ Added location: Data center 'dc1' in eu-west-1");
    assert_eq!(r.data.as_ref().unwrap().events_generated, 1);
    let r = sub.process_request(create_subagent_request(SubAgentTask::GenerateConfiguration { format: "terraform".to_string() }));
    assert!(!r.success);
    assert_eq!(
        r.errors,
        vec!["Validation error: Unknown configuration format: terraform. Supported formats: nixos, nix-darwin, home-manager, flake, json".to_string()]
    );
    assert!(r.message.starts_with("Task failed: Validation error: Unknown configuration format"));
    assert!(matches!(sub.metadata().status, SubAgentStatus::Error { .. }));
    assert!(r.data.is_none());
    let info = sub.session_info();
    assert_eq!(info.events_generated, 1);
    let req = create_build_topology_request(None, None, None, None);
    assert!(matches!(req.task, SubAgentTask::BuildTopology { initial_params: None }));
    let r = sub.process_request(req);
    assert!(r.success);
    assert_eq!(r.message, "🌐 Starting interactive network topology building!");
    assert!(matches!(sub.metadata().status, SubAgentStatus::Ready));
}

#[test]
fn command_line_lines() {
    let mut cli = NetworkTopologyCLI::new();
    assert_eq!(cli.process_line("help").unwrap(), HELP_TEXT);
    let out = cli.process_line("frobnicate").unwrap();
    assert_eq!(out, "❓ Unknown command: 'frobnicate'\nType 'help' for available commands.\n\n");
    let out = cli.process_line("list").unwrap();
    assert!(out.starts_with("📋 Current network topology:\n\n💡 Suggested actions:\n  • Add location\n"));
    let out = cli.process_line("add-datacenter dc1 \"Primary\" us-west-1").unwrap();
    assert!(out.starts_with("✅ Added location: Data center 'Primary' in us-west-1\n"));
    assert!(out.ends_with("\n📝 Generated 1 event(s)\n\n"));
}

#[test]
fn response_display_shows_summary() {
    let r = AgentResponse {
        message: "m".to_string(),
        topology_summary: TopologySummary {
            location_count: 1,
            connection_count: 1,
            locations: vec![("a".to_string(), "A".to_string())],
            connections: vec![ConnectionSummary {
                from: "a".to_string(),
                to: "b".to_string(),
                connection_type: "fiber".to_string(),
                details: "10G".to_string(),
            }],
            is_valid: true,
            validation_messages: vec![],
        },
        suggested_actions: vec![],
        events: vec![],
        new_state: InteractionState::BuildingTopology,
    };
    assert_eq!(
        display_response(&r),
        "m\n\n📊 Topology Summary:\n  Locations: 1\n  Connections: 1\n  📍 Locations:\n    - a: A\n  🔗 Connections:\n    - a → b (fiber): 10G\n\n"
    );
}

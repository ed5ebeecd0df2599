use cim_network::agents::{SubAgentStatus, SubAgentTask};
use cim_network::api::{NetworkDeploymentRequest, TopologyTypeSpec};
use cim_network::ids::RouterId;
use cim_network::infra_events::{CiscoOs, RouterVendor};
use cim_network::ip::IpNetwork;
use cim_network::network_topology::TopologyType;
use cim_network::subagent::{create_build_topology_request, create_subagent_request, NetworkTopologySubAgent};
use cim_network::workflow_router_configuration::WorkflowRouterConfiguration;
use cim_network::workflows::nix_deployment::{NetworkDeploymentOptions, NixNetworkDeploymentWorkflow};

#[test]
fn test_subagent_creation() {
    let subagent = NetworkTopologySubAgent::new();
    assert_eq!(subagent.metadata().name, "Network Topology Builder");
    assert!(matches!(subagent.metadata().status, SubAgentStatus::Ready));
}

#[test]
fn test_build_topology_request() {
    let mut subagent = NetworkTopologySubAgent::new();
    let request = create_build_topology_request(
        Some("10.0.0.0/8".to_string()),
        Some("production".to_string()),
        Some("enterprise".to_string()),
        Some("multi-region-cloud".to_string()),
    );
    let response = subagent.process_request(request);
    assert!(response.success);
    assert!(response.message.contains("Starting interactive network topology building"));
    assert_eq!(
        response.message,
        "🌐 Starting interactive network topology building!\n\nInitial Parameters:\n• Base Network: 10.0.0.0/8\n• Target Environment: production\n• Scale: enterprise\n• Use Case: multi-region-cloud"
    );
}

#[test]
fn test_add_datacenter() {
    let mut subagent = NetworkTopologySubAgent::new();
    let params = vec![
        ("name".to_string(), "Primary DC".to_string()),
        ("region".to_string(), "us-west-1".to_string()),
        ("az".to_string(), "us-west-1a".to_string()),
    ];
    let request = create_subagent_request(SubAgentTask::AddLocation {
        location_id: "dc1".to_string(),
        location_type: "datacenter".to_string(),
        parameters: params,
    });
    let response = subagent.process_request(request);
    assert!(response.success);
    assert!(response.message.contains("Added location"));
}

#[test]
fn test_connect_locations() {
    let mut subagent = NetworkTopologySubAgent::new();
    let dc_params = vec![("name".to_string(), "DC1".to_string()), ("region".to_string(), "us-west-1".to_string())];
    let add_dc_request = create_subagent_request(SubAgentTask::AddLocation {
        location_id: "dc1".to_string(),
        location_type: "datacenter".to_string(),
        parameters: dc_params,
    });
    let office_params = vec![
        ("name".to_string(), "HQ".to_string()),
        ("address".to_string(), "123 Main St".to_string()),
        ("size".to_string(), "large".to_string()),
    ];
    let add_office_request = create_subagent_request(SubAgentTask::AddLocation {
        location_id: "hq".to_string(),
        location_type: "office".to_string(),
        parameters: office_params,
    });
    subagent.process_request(add_dc_request);
    subagent.process_request(add_office_request);
    let conn_params = vec![("bandwidth".to_string(), "10Gbps".to_string()), ("redundant".to_string(), "true".to_string())];
    let connect_request = create_subagent_request(SubAgentTask::ConnectLocations {
        from: "dc1".to_string(),
        to: "hq".to_string(),
        connection_type: "fiber".to_string(),
        parameters: conn_params,
    });
    let response = subagent.process_request(connect_request);
    assert!(response.success);
    assert!(response.message.contains("Connected"));
}

#[test]
fn test_network_deployment_request() {
    let request = NetworkDeploymentRequest {
        ip_network: "192.168.1.0/24".to_string(),
        network_name: "test-network".to_string(),
        topology_type: Some(TopologyTypeSpec::SingleRouter { interface_count: 4 }),
        output_directory: Some("/tmp/test-deployment".to_string()),
        generate_documentation: Some(true),
        include_examples: Some(true),
    };
    assert_eq!(request.ip_network, "192.168.1.0/24");
    assert_eq!(request.network_name, "test-network");
    assert!(request.generate_documentation.unwrap());
}

#[test]
fn test_workflow_router_creation() {
    let router = WorkflowRouterConfiguration::new(
        RouterId::new(),
        "test-router".to_string(),
        RouterVendor::Cisco { os: CiscoOs::Ios15_7 },
    );
    assert_eq!(router.name(), "test-router");
    assert_eq!(router.version(), 1);
}

#[test]
fn test_generate_configuration_workflow() {
    let mut router = WorkflowRouterConfiguration::new(
        RouterId::new(),
        "test-router".to_string(),
        RouterVendor::Cisco { os: CiscoOs::Ios15_7 },
    );
    match router.generate_configuration(Ok("hostname test-router\n".to_string())) {
        Ok(config) => {
            assert!(!config.is_empty());
            assert_eq!(router.version(), 2);
        }
        Err(_) => panic!("a successful workflow gives its configuration"),
    }
    assert!(router.generate_configuration(Err("engine unavailable".to_string())).is_err());
    assert_eq!(router.version(), 2);
}

#[test]
fn test_network_deployment_workflow_creation() {
    let ip = IpNetwork::from_str("192.168.1.0/24").unwrap();
    let workflow = NixNetworkDeploymentWorkflow::new(
        ip,
        "test-network".to_string(),
        Some(TopologyType::RouterSwitch { switch_count: 1, ports_per_switch: 24 }),
        NetworkDeploymentOptions::default(),
    );
    assert_eq!(workflow.network_name, "test-network");
    assert_eq!(workflow.base_ip, ip);
    let context = workflow.create_context();
    assert_eq!(context.network_name, "test-network");
    assert_eq!(context.base_ip, ip);
    assert!(!context.deployment_ready);
}

use cim_network::ids::SwitchId;
use cim_network::infra_events::InfrastructureEvent;
use cim_network::ip::IpNetwork;
use cim_network::network_topology::TopologyType;
use cim_network::nix_types::{
    DeploymentTarget, DocumentationAssets, GeneratedFiles, GenerationId, NixTopologyError, NixTopologyGenerationResponse,
    ValidationResults, ValidationStatus,
};
use cim_network::value_objects::PortId;
use cim_network::workflows::nix_deployment::{
    network_deployment_from_ip_and_name, CreateNetworkTopologyStep, DeployNetworkStep, GenerateDocumentationStep,
    GenerateNixConfigurationStep, NetworkDeploymentOptions, NetworkDeploymentResult, NixDeploymentError,
    NixNetworkDeploymentWorkflow, PrepareDeploymentStep, ValidateNixConfigurationStep,
};
use cim_network::workflows::switch_configuration::{
    ConfigurePortsStep, ConfigureSpanningTreeStep, CreateVlansStep, PortAssignmentRequest, SwitchConfigError,
    SwitchConfigurationWorkflow, ValidateSwitchConfigStep, VerifyConfigurationStep, VlanConfigRequest,
};

fn vlan(id: u16, name: &str) -> VlanConfigRequest {
    VlanConfigRequest { vlan_id: id, name: name.to_string(), description: None }
}

fn assign(port: &str, vlan_id: u16) -> PortAssignmentRequest {
    PortAssignmentRequest { port_id: PortId::new(port), vlan_id, access_mode: true }
}

#[test]
fn switch_workflow_runs_all_steps() {
    let id = SwitchId::new();
    let wf = SwitchConfigurationWorkflow::new(id, "sw1".to_string(), vec![vlan(10, "users")], vec![assign("ge-0/0/1", 10)]);
    assert_eq!(wf.workflow_id(), format!("switch_config_{}", id.to_string()));
    assert_eq!(wf.workflow_name(), "Switch Configuration");
    let mut ctx = wf.create_context();
    assert!(ValidateSwitchConfigStep::new(id).execute(&mut ctx).is_ok());
    CreateVlansStep::new(vec![vlan(10, "users"), vlan(20, "voice")]).execute(&mut ctx).unwrap();
    assert_eq!(ctx.created_vlans.len(), 2);
    assert_eq!(ctx.events.len(), 2);
    assert!(matches!(ctx.events[0], InfrastructureEvent::VlanCreated { vlan_id: 10, .. }));
    ConfigurePortsStep::new(vec![assign("ge-0/0/1", 10), assign("ge-0/0/2", 20)]).execute(&mut ctx).unwrap();
    assert_eq!(ctx.configured_ports.len(), 2);
    // Verification needs spanning tree.
    match VerifyConfigurationStep::new(id).execute(&mut ctx) {
        Err(e) => assert_eq!(e.to_string(), "Validation error: Spanning tree protocol is not configured"),
        Ok(()) => panic!("spanning tree is not configured"),
    }
    ConfigureSpanningTreeStep::new(id).execute(&mut ctx).unwrap();
    assert!(ctx.spanning_tree_configured);
    match ctx.events.last().unwrap() {
        InfrastructureEvent::SpanningTreeConfigured { protocol, bridge_priority, .. } => {
            assert_eq!(protocol.as_deref(), Some("RSTP"));
            assert_eq!(*bridge_priority, Some(32768));
        }
        _ => panic!("expected spanning tree event"),
    }
    VerifyConfigurationStep::new(id).execute(&mut ctx).unwrap();
    match ctx.events.last().unwrap() {
        InfrastructureEvent::SwitchConfigurationVerified { vlans_configured, ports_configured, spanning_tree_enabled, .. } => {
            assert_eq!(*vlans_configured, 2);
            assert_eq!(*ports_configured, 2);
            assert!(*spanning_tree_enabled);
        }
        _ => panic!("expected verification event"),
    }
}

#[test]
fn switch_workflow_refusals_and_compensation() {
    let id = SwitchId::new();
    let wf = SwitchConfigurationWorkflow::new(id, String::new(), vec![], vec![]);
    let mut ctx = wf.create_context();
    match ValidateSwitchConfigStep::new(id).execute(&mut ctx) {
        Err(SwitchConfigError::Validation(m)) => assert_eq!(m, "Validation failed: Switch name cannot be empty"),
        _ => panic!("empty name must be refused"),
    }
    assert_eq!(ctx.validation_errors, vec!["Switch name cannot be empty".to_string()]);
    match VerifyConfigurationStep::new(id).execute(&mut ctx) {
        Err(SwitchConfigError::Validation(m)) => assert_eq!(m, "No VLANs were created"),
        _ => panic!("no VLANs must be refused"),
    }
    let create = CreateVlansStep::new(vec![vlan(10, "a"), vlan(10, "b")]);
    create.execute(&mut ctx).unwrap();
    assert_eq!(ctx.created_vlans.len(), 1);
    assert_eq!(ctx.created_vlans[0].name, "b");
    let ports = ConfigurePortsStep::new(vec![assign("p1", 10), assign("p2", 99), assign("p3", 10)]);
    match ports.execute(&mut ctx) {
        Err(e) => assert_eq!(e.to_string(), "Port configuration error: VLAN 99 does not exist for port assignment"),
        Ok(()) => panic!("unknown VLAN must be refused"),
    }
    assert_eq!(ctx.configured_ports.len(), 1);
    // Compensation removes what the steps added.
    ports.compensate(&mut ctx).unwrap();
    assert!(ctx.configured_ports.is_empty());
    create.compensate(&mut ctx).unwrap();
    assert!(ctx.created_vlans.is_empty());
    assert!(matches!(ctx.events.last().unwrap(), InfrastructureEvent::VlanRemoved { vlan_id: 10, .. }));
    // A port left in a VLAN that is gone is reported.
    CreateVlansStep::new(vec![vlan(5, "x")]).execute(&mut ctx).unwrap();
    ctx.configured_ports.push((PortId::with_index("port", 3), 7));
    match VerifyConfigurationStep::new(id).execute(&mut ctx) {
        Err(SwitchConfigError::Validation(m)) => assert_eq!(m, "Port port[3] is assigned to non-existent VLAN 7"),
        _ => panic!("orphan port must be reported"),
    }
}

#[test]
fn duplicate_vlan_ids_are_reported() {
    let id = SwitchId::new();
    let wf = SwitchConfigurationWorkflow::new(id, "sw".to_string(), vec![], vec![]);
    let mut ctx = wf.create_context();
    ctx.created_vlans.push(vlan(3, "a"));
    ctx.created_vlans.push(vlan(3, "b"));
    match ValidateSwitchConfigStep::new(id).execute(&mut ctx) {
        Err(e) => assert_eq!(e.to_string(), "Validation error: Validation failed: Duplicate VLAN ID: 3"),
        Ok(()) => panic!("duplicate must be refused"),
    }
}

fn files(modules: usize) -> GeneratedFiles {
    GeneratedFiles {
        flake_nix: "out/flake.nix".to_string(),
        topology_nix: "out/topology.nix".to_string(),
        nixos_modules: (0..modules).map(|i| (format!("d{}", i), format!("out/modules/d{}.nix", i))).collect(),
        network_modules: vec![],
        deployment_scripts: vec![],
        validation_scripts: vec![],
    }
}

fn docs() -> DocumentationAssets {
    DocumentationAssets { mermaid_diagram: None, topology_graph: None, svg_diagram: None, readme: None, deployment_guide: None }
}

#[test]
fn nix_deployment_steps() {
    let ip = IpNetwork::from_str("192.168.1.0/24").unwrap();
    let wf = NixNetworkDeploymentWorkflow::new(
        ip,
        "test network".to_string(),
        Some(TopologyType::RouterSwitch { switch_count: 1, ports_per_switch: 24 }),
        NetworkDeploymentOptions::default(),
    );
    assert_eq!(wf.workflow_id(), "nix_network_deployment_test_network");
    assert_eq!(wf.workflow_name(), "Nix Network Deployment: test network");
    let mut ctx = wf.create_context();
    assert_eq!(ctx.network_name, "test network");
    assert_eq!(ctx.base_ip, ip);
    assert!(!ctx.deployment_ready);

    let gen = GenerateNixConfigurationStep::new(NetworkDeploymentOptions::default());
    let none: Result<NixTopologyGenerationResponse, NixTopologyError> = Err(NixTopologyError::IoError("x".to_string()));
    match gen.execute(&mut ctx, none) {
        Err(NixDeploymentError::NixGeneration(m)) => assert_eq!(m, "No network topology available"),
        _ => panic!("no topology yet"),
    }
    let create = CreateNetworkTopologyStep::new(ip, "test network".to_string(), Some(TopologyType::RouterSwitch { switch_count: 1, ports_per_switch: 24 }));
    create.execute(&mut ctx).unwrap();
    assert!(ctx.network_topology.is_some());
    let opts = gen.generation_options();
    assert_eq!(opts.output_directory, "./network-deployment");
    assert!(opts.custom_modules.is_empty() && opts.template_overrides.is_none());

    let failed: Result<NixTopologyGenerationResponse, NixTopologyError> = Err(NixTopologyError::TemplateError("bad".to_string()));
    match gen.execute(&mut ctx, failed) {
        Err(e) => assert_eq!(e.to_string(), "Nix generation error: Template error: bad"),
        Ok(()) => panic!("failed generation must be refused"),
    }
    let response = NixTopologyGenerationResponse {
        generation_id: GenerationId::new(),
        generated_files: files(2),
        documentation: docs(),
        validation_results: ValidationResults {
            overall_status: ValidationStatus::Error,
            syntax_errors: vec!["a".to_string(), "b".to_string()],
            semantic_warnings: vec![],
            recommendations: vec![],
        },
        events: vec![],
    };
    gen.execute(&mut ctx, Ok(response)).unwrap();
    match ValidateNixConfigurationStep::new().execute(&mut ctx) {
        Err(e) => assert_eq!(e.to_string(), "Validation error: Validation errors: a, b"),
        Ok(()) => panic!("errors must be refused"),
    }
    ctx.validation_results.as_mut().unwrap().overall_status = ValidationStatus::Warning;
    assert!(ValidateNixConfigurationStep::new().execute(&mut ctx).is_ok());
    assert!(GenerateDocumentationStep::new().execute(&mut ctx).is_ok());

    let prepare = PrepareDeploymentStep::new();
    match prepare.execute(&mut ctx, false, true) {
        Err(NixDeploymentError::Deployment(m)) => assert_eq!(m, "flake.nix not found"),
        _ => panic!("missing flake"),
    }
    match prepare.execute(&mut ctx, true, false) {
        Err(NixDeploymentError::Deployment(m)) => assert_eq!(m, "topology.nix not found"),
        _ => panic!("missing topology"),
    }
    match DeployNetworkStep::new(false).execute(&mut ctx) {
        Err(NixDeploymentError::Deployment(m)) => assert_eq!(m, "Deployment not ready"),
        _ => panic!("not ready"),
    }
    prepare.execute(&mut ctx, true, true).unwrap();
    assert!(ctx.deployment_ready);
    assert!(DeployNetworkStep::new(true).execute(&mut ctx).is_ok());
    let result = NetworkDeploymentResult::from_context(ctx);
    assert!(result.topology_id.is_some());
    assert!(result.deployment_ready);
}

#[test]
fn nix_deployment_refusals() {
    let ip = IpNetwork::from_str("10.0.0.0/30").unwrap();
    let wf = NixNetworkDeploymentWorkflow::new(ip, "n".to_string(), None, NetworkDeploymentOptions::default());
    let mut ctx = wf.create_context();
    let create = CreateNetworkTopologyStep::new(ip, "n".to_string(), Some(TopologyType::SingleRouter { interface_count: 8 }));
    match create.execute(&mut ctx) {
        Err(e) => assert_eq!(e.to_string(), "Topology creation error: Invalid configuration: Not enough IP addresses"),
        Ok(()) => panic!("too small"),
    }
    assert!(ctx.network_topology.is_none());
    match PrepareDeploymentStep::new().execute(&mut ctx, true, true) {
        Err(NixDeploymentError::Deployment(m)) => assert_eq!(m, "No generated files available"),
        _ => panic!("no files"),
    }
    match GenerateDocumentationStep::new().execute(&mut ctx) {
        Err(NixDeploymentError::Documentation(m)) => assert_eq!(m, "No documentation available"),
        _ => panic!("no documentation"),
    }
    match ValidateNixConfigurationStep::new().execute(&mut ctx) {
        Err(NixDeploymentError::Validation(m)) => assert_eq!(m, "No validation results available"),
        _ => panic!("no results"),
    }
    ctx.generated_files = Some(files(0));
    match PrepareDeploymentStep::new().execute(&mut ctx, true, true) {
        Err(NixDeploymentError::Deployment(m)) => assert_eq!(m, "No NixOS modules generated"),
        _ => panic!("no modules"),
    }
}

#[test]
fn deployment_from_text() {
    match network_deployment_from_ip_and_name("300.1.1.0/24", "x".to_string(), None, None) {
        Err(NixDeploymentError::TopologyCreation(m)) => assert_eq!(m, "Invalid IP network '300.1.1.0/24': invalid address"),
        _ => panic!("bad address"),
    }
    let wf = network_deployment_from_ip_and_name("10.1.0.0/16", "campus".to_string(), None, None).unwrap();
    assert_eq!(wf.base_ip, IpNetwork::from_str("10.1.0.0/16").unwrap());
    assert!(matches!(wf.deployment_options.deployment_target, DeploymentTarget::Local));
    assert!(!wf.deployment_options.auto_deploy);
}

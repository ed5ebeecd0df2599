use cim_network::api::TopologyTypeSpec;
use cim_network::ip::IpNetwork;
use cim_network::network_topology::{NetworkTopology, TopologyType};
use cim_network::nix_types::DeploymentTarget;
use cim_network::workflows::nix_deployment::NetworkDeploymentOptions;

#[test]
fn test_create_topology_from_ip_and_name() {
    let ip = IpNetwork::from_str("192.168.1.0/24").unwrap();
    let topology = NetworkTopology::from_ip_and_name(ip, "test-network".to_string(), None).unwrap();
    assert_eq!(topology.name(), "test-network");
    assert_eq!(topology.base_ip(), ip);
    assert!(!topology.devices().is_empty());
}

#[test]
fn test_generate_nix_topology() {
    let ip = IpNetwork::from_str("192.168.1.0/24").unwrap();
    let mut topology = NetworkTopology::from_ip_and_name(
        ip,
        "test-network".to_string(),
        Some(TopologyType::SingleRouter { interface_count: 2 }),
    )
    .unwrap();
    let nix_config = topology.generate_nix_topology().unwrap();
    assert_eq!(nix_config.topology_name, "test-network");
    assert!(!nix_config.devices.is_empty());
    assert!(!nix_config.networks.is_empty());
}

#[test]
fn test_topology_type_conversion() {
    let spec = TopologyTypeSpec::RouterSwitch { switch_count: 2, ports_per_switch: 24 };
    let topology_type: TopologyType = spec.into();
    match topology_type {
        TopologyType::RouterSwitch { switch_count, ports_per_switch } => {
            assert_eq!(switch_count, 2);
            assert_eq!(ports_per_switch, 24);
        }
        _ => panic!("Expected RouterSwitch topology type"),
    }
}

#[test]
fn test_network_deployment_options() {
    let options = NetworkDeploymentOptions::default();
    assert_eq!(options.output_directory, "./network-deployment");
    assert!(matches!(options.deployment_target, DeploymentTarget::Local));
    assert!(options.generate_documentation);
    assert!(options.include_examples);
    assert!(!options.auto_deploy);
}

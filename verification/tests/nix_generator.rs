use cim_network::ip::IpNetwork;
use cim_network::network_topology::{
    ConnectionSpec, CustomTopologySpec, DeviceSpec, DeviceType, HostOS, NetworkTopology, RouterVendor, RoutingProtocol,
    TopologyType,
};
use cim_network::nix_generator::{build_template_context_at, generate_readme_at};
use cim_network::topology_text::topology_type_text;
use cim_network::nix_generator::{
    device_type_to_string, generate_deployment_script, generate_device_module, generate_flake_nix,
    generate_mermaid_diagram, generate_topology_nix, replace_all, sanitize_name, DEPLOY_DEVICES, DEPLOY_GENERATED,
    DEPLOY_HEAD, DEPLOY_STEPS, DEPLOY_TAIL, FLAKE_TEMPLATE, GENERIC_TAIL, HOST_TAIL, MODULE_HEAD, MODULE_INTERFACES,
    ROUTER_TAIL, SWITCH_TAIL, TOPOLOGY_HEAD, TOPOLOGY_TAIL,
};
use cim_network::nix_types::{
    DeviceContext, GenerationMetadata, InterfaceContext, NetworkContext, NetworkTopologyContext, TemplateContext,
};

fn context(name: &str, devices: Vec<DeviceContext>, networks: Vec<NetworkContext>) -> TemplateContext {
    TemplateContext {
        topology: NetworkTopologyContext {
            name: name.to_string(),
            base_network: "10.0.0.0/24".to_string(),
            topology_type: "SingleRouter".to_string(),
            device_count: devices.len(),
            network_count: networks.len(),
        },
        devices,
        networks,
        connections: Vec::new(),
        generation_metadata: GenerationMetadata {
            generation_timestamp: "2024-01-01T00:00:00+00:00".to_string(),
            generator_version: "0.1.0".to_string(),
            target_system: "x86_64-linux".to_string(),
        },
    }
}

fn device(name: &str, kind: &str) -> DeviceContext {
    DeviceContext {
        name: name.to_string(),
        device_type: kind.to_string(),
        ip_address: "10.0.0.1".to_string(),
        interfaces: vec![
            InterfaceContext {
                name: "eth0".to_string(),
                network: "lan".to_string(),
                address: Some("10.0.0.1/24".to_string()),
                dhcp: false,
                enabled: true,
            },
            InterfaceContext {
                name: "eth1".to_string(),
                network: "lan".to_string(),
                address: None,
                dhcp: false,
                enabled: true,
            },
        ],
        services: Vec::new(),
        nix_module_path: format!("./modules/{}.nix", name),
    }
}

#[test]
fn test_replace_all_replaces_every_occurrence() {
    assert_eq!(replace_all("aXbXc", "X", "--"), "a--b--c");
    assert_eq!(replace_all("aaa", "aa", "b"), "ba");
    assert_eq!(replace_all("none here", "X", "y"), "none here");
    assert_eq!(replace_all("", "X", "y"), "");
}

#[test]
fn test_flake_fills_every_slot() {
    let c = context("office", vec![device("r1", "router")], Vec::new());
    let flake = generate_flake_nix(&c);
    let expected = FLAKE_TEMPLATE
        .replace("{{ topology.name }}", "office")
        .replace("{{ generation_metadata.target_system }}", "x86_64-linux")
        .replace("{{ generation_metadata.generation_timestamp }}", "2024-01-01T00:00:00+00:00")
        .replace("{{ topology.device_count }}", "1")
        .replace("{{ topology.network_count }}", "0");
    assert_eq!(flake, expected);
    assert!(flake.contains("description = \"office - Generated CIM Network Topology\";"));
    assert!(flake.contains("system = \"x86_64-linux\";"));
    assert!(flake.contains("echo \"Devices: 1\""));
    assert!(!flake.contains("{{ topology.name }}"));
}

#[test]
fn test_flake_slots_are_filled_in_turn() {
    // a name that holds a later slot has that slot filled too
    let c = context("n{{ topology.device_count }}", Vec::new(), Vec::new());
    let flake = generate_flake_nix(&c);
    assert!(flake.contains("description = \"n0 - Generated CIM Network Topology\";"));
}

#[test]
fn test_topology_nix_networks() {
    let nets = vec![
        NetworkContext { name: "lan".to_string(), cidr: "10.0.0.0/24".to_string(), vlan: None, dhcp: false, gateway: Some("10.0.0.1".to_string()) },
        NetworkContext { name: "mgmt".to_string(), cidr: "10.0.1.0/24".to_string(), vlan: Some(20), dhcp: true, gateway: None },
    ];
    let c = context("office", Vec::new(), nets);
    let text = generate_topology_nix(&c);
    let section = "    lan = {\n      cidr = \"10.0.0.0/24\";\n      enableDHCP = false;\n      gateway = \"10.0.0.1\";\n    };\n    mgmt = {\n      cidr = \"10.0.1.0/24\";\n      enableDHCP = true;\n      vlan = 20;\n      \n    };";
    assert_eq!(text, format!("{}{}{}", TOPOLOGY_HEAD, section, TOPOLOGY_TAIL));
    assert!(text.starts_with("{ pkgs }:\n\n{\n  networks = {\n    lan = {"));
}

#[test]
fn test_device_modules_by_type() {
    let ifaces = "eth0 = {\n        ipv4.addresses = [{ address = \"10.0.0.1\"; prefixLength = 24; }];\n      };\n      eth1 = {\n        \n      };";
    for (kind, tail) in [("router", ROUTER_TAIL), ("switch", SWITCH_TAIL), ("host", HOST_TAIL), ("vm", GENERIC_TAIL)] {
        let m = generate_device_module(&device("d1", kind));
        assert_eq!(m, format!("{}d1{}{}{}", MODULE_HEAD, MODULE_INTERFACES, ifaces, tail));
    }
    let router = generate_device_module(&device("r1", "router"));
    assert!(router.contains("hostName = \"r1\";"));
    assert!(router.contains("forwarding = true;"));
    let host = generate_device_module(&device("h1", "host"));
    assert!(host.contains("firewall.allowedTCPPorts = [ 22 80 443 ];"));
}

#[test]
fn test_deployment_script() {
    let c = context("office", vec![device("r1", "router"), device("s1", "switch")], Vec::new());
    let script = generate_deployment_script(&c);
    let steps = "echo \"Deploying r1...\"\n# nixos-rebuild switch --flake .#r1 --target-host 10.0.0.1\necho \"Deploying s1...\"\n# nixos-rebuild switch --flake .#s1 --target-host 10.0.0.1";
    assert_eq!(
        script,
        format!("{}office{}2024-01-01T00:00:00+00:00{}2{}{}{}", DEPLOY_HEAD, DEPLOY_GENERATED, DEPLOY_DEVICES, DEPLOY_STEPS, steps, DEPLOY_TAIL)
    );
    assert!(script.starts_with("#!/usr/bin/env bash\nset -euo pipefail\n"));
}

#[test]
fn test_sanitize_name_and_type_words() {
    assert_eq!(sanitize_name("core-sw.1"), "core_sw_1");
    assert_eq!(sanitize_name("plain"), "plain");
    let ip = IpNetwork::from_str("192.168.1.0/24").unwrap();
    let topology = NetworkTopology::from_ip_and_name(ip, "t".to_string(), Some(TopologyType::SingleRouter { interface_count: 2 })).unwrap();
    assert_eq!(device_type_to_string(&topology.devices()[0].device_type), "router");
}

#[test]
fn test_mermaid_diagram() {
    let ip = IpNetwork::from_str("192.168.1.0/24").unwrap();
    let topology = NetworkTopology::from_ip_and_name(
        ip,
        "my-net".to_string(),
        Some(TopologyType::RouterSwitch { switch_count: 1, ports_per_switch: 24 }),
    )
    .unwrap();
    let diagram = generate_mermaid_diagram(&topology);
    let mut expected = String::from("graph TB\n    subgraph \"Network: my-net (192.168.1.0/24)\"\n");
    for d in topology.devices() {
        expected.push_str(&format!(
            "        {}[{}📱{}<br/>{}]\n",
            d.name.replace('-', "_").replace('.', "_"),
            device_type_to_string(&d.device_type),
            d.name,
            d.ip_address.to_string()
        ));
    }
    expected.push_str("    end\n\n");
    for c in topology.connections() {
        expected.push_str(&format!(
            "    device_{} ---|Ethernet| device_{}\n",
            c.source.device_id.to_string(),
            c.target.device_id.to_string()
        ));
    }
    expected.push_str("\n    classDef router fill:#e1f5fe\n    classDef switch fill:#f3e5f5\n    classDef host fill:#e8f5e8\n");
    assert_eq!(diagram, expected);
    assert!(diagram.contains("router📱"));
    assert!(topology.connections().len() >= 1);
}

#[test]
fn test_topology_type_text() {
    assert_eq!(
        topology_type_text(&TopologyType::RouterSwitch { switch_count: 1, ports_per_switch: 24 }),
        format!("{:?}", TopologyType::RouterSwitch { switch_count: 1, ports_per_switch: 24 })
    );
    assert_eq!(topology_type_text(&TopologyType::SingleRouter { interface_count: 4 }), "SingleRouter { interface_count: 4 }");
    let custom = TopologyType::Custom(CustomTopologySpec {
        devices: vec![
            DeviceSpec {
                name: "r\"1".to_string(),
                device_type: DeviceType::Router {
                    vendor: RouterVendor::VyOS,
                    routing_protocols: vec![RoutingProtocol::OSPF { area: "0".to_string() }, RoutingProtocol::BGP { asn: 65000 }, RoutingProtocol::Static],
                },
                interface_count: 2,
                ip_offset: Some(1),
            },
            DeviceSpec {
                name: "h1".to_string(),
                device_type: DeviceType::Host { os: HostOS::NixOS, services: vec!["ssh".to_string(), "dns".to_string()] },
                interface_count: 1,
                ip_offset: None,
            },
        ],
        connections: vec![ConnectionSpec {
            source_device: "r1".to_string(),
            source_interface: "eth0".to_string(),
            target_device: "h1".to_string(),
            target_interface: "eth0".to_string(),
            vlan: Some(10),
        }],
    });
    assert_eq!(topology_type_text(&custom), format!("{:?}", custom));
}

#[test]
fn test_build_template_context() {
    let ip = IpNetwork::from_str("10.1.0.0/24").unwrap();
    let topology = NetworkTopology::from_ip_and_name(
        ip,
        "branch".to_string(),
        Some(TopologyType::RouterSwitch { switch_count: 1, ports_per_switch: 24 }),
    )
    .unwrap();
    let c = build_template_context_at(&topology, "2024-05-01T12:00:00+00:00".to_string());
    assert_eq!(c.topology.name, "branch");
    assert_eq!(c.topology.base_network, "10.1.0.0/24");
    assert_eq!(c.topology.topology_type, "RouterSwitch { switch_count: 1, ports_per_switch: 24 }");
    assert_eq!(c.topology.device_count, topology.devices().len());
    assert_eq!(c.topology.network_count, 0);
    assert_eq!(c.networks.len(), 1);
    assert_eq!(c.networks[0].name, "lan");
    assert_eq!(c.networks[0].cidr, "10.1.0.0/24");
    assert_eq!(c.networks[0].gateway.as_deref(), Some("10.1.0.1"));
    assert_eq!(c.devices.len(), topology.devices().len());
    for (d, dc) in topology.devices().iter().zip(c.devices.iter()) {
        assert_eq!(dc.name, d.name);
        assert_eq!(dc.nix_module_path, format!("./modules/{}.nix", d.name));
        assert_eq!(dc.ip_address, d.ip_address.to_string());
        assert_eq!(dc.interfaces.len(), d.interfaces.len());
        for (f, fc) in d.interfaces.iter().zip(dc.interfaces.iter()) {
            assert_eq!(fc.network, "lan");
            match f.ip_address {
                Some(a) => assert_eq!(fc.address.clone().unwrap(), format!("{}/{}", a.to_string(), f.subnet_mask.unwrap_or(24))),
                None => assert!(fc.address.is_none()),
            }
        }
    }
    assert_eq!(c.connections.len(), topology.connections().len());
    for (n, cc) in topology.connections().iter().zip(c.connections.iter()) {
        assert_eq!(cc.source.device, format!("device_{}", n.source.device_id.to_string()));
        assert_eq!(cc.target.interface, format!("interface_{}", n.target.interface_id.to_string()));
        assert_eq!(cc.connection_type, "Ethernet");
    }
    assert_eq!(c.generation_metadata.generation_timestamp, "2024-05-01T12:00:00+00:00");
    assert_eq!(c.generation_metadata.generator_version, "0.1.0");
    assert_eq!(c.generation_metadata.target_system, "x86_64-linux");
}

#[test]
fn test_readme() {
    let ip = IpNetwork::from_str("192.168.7.0/24").unwrap();
    let topology = NetworkTopology::from_ip_and_name(ip, "home".to_string(), Some(TopologyType::SingleRouter { interface_count: 2 })).unwrap();
    let readme = generate_readme_at(&topology, "2024-05-01 12:00:00 UTC");
    assert!(readme.starts_with("# home Network Deployment\n\nThis directory contains the generated Nix configuration for deploying the \"home\" network topology."));
    assert!(readme.contains("- **Base Network**: 192.168.7.0/24\n- **Topology Type**: SingleRouter { interface_count: 2 }\n"));
    assert!(readme.contains("- **Generated**: 2024-05-01 12:00:00 UTC"));
    assert!(readme.contains("- **LAN Network**: 192.168.7.0/24\n- **Gateway**: 192.168.7.1\n"));
    let d = &topology.devices()[0];
    assert!(readme.contains(&format!("- **{}** (router): {}", d.name, d.ip_address.to_string())));
    assert!(readme.contains(&format!("# Deploy {}\nnixos-rebuild switch --flake .#{} --target-host {}", d.name, d.name, d.ip_address.to_string())));
    assert!(readme.ends_with("For more information, see: https://github.com/thecowboyai/cim-network\n"));
}

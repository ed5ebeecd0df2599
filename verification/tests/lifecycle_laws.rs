use cim_network::adapters::netbox::NetBoxAdapter;
use cim_network::agents::{SubAgentStatus, SubAgentTask};
use cim_network::functor::{ConnectionInfo, DomainObject, InventoryPayload};
use cim_network::aggregates::{DeviceState, NetworkDeviceAggregate};
use cim_network::cisco_ios::CiscoIosGenerator;
use cim_network::ids::{CausationId, ConnectionId, CorrelationId, DeviceId, RouterId};
use cim_network::infra_events::{CiscoOs, InfrastructureEvent, RouterVendor};
use cim_network::ip::{IpAddress, IpNetwork};
use cim_network::router_configuration::{RouterConfiguration, RouterTemplate};
use cim_network::service::DeviceRegistry;
use cim_network::subagent::{create_subagent_request, NetworkTopologySubAgent};
use cim_network::value_objects::{ConnectionType, DeviceType, InterfaceConfig, MacAddress, PortId};

#[test]
fn wildcard_and_subnet_masks_cover_prefix_zero() {
    assert_eq!(CiscoIosGenerator::to_wildcard_mask(0), "255.255.255.255");
    assert_eq!(CiscoIosGenerator::to_subnet_mask(0), "0.0.0.0");
    assert_eq!(CiscoIosGenerator::to_wildcard_mask(24), "0.0.0.255");
    assert_eq!(CiscoIosGenerator::to_subnet_mask(24), "255.255.255.0");
    assert_eq!(CiscoIosGenerator::to_wildcard_mask(32), "0.0.0.0");
}

#[test]
fn events_taken_from_a_new_device_rebuild_it() {
    let mac = MacAddress::from_bytes([0x00, 0x11, 0x22, 0x33, 0x44, 0x55]);
    let mut d = NetworkDeviceAggregate::new_discovered(mac, DeviceType::Switch, Some(IpAddress::V4(0x0A00_0001)));
    assert!(d.adopt("ctrl-1".to_string()).is_ok());
    assert!(d.adopt("again".to_string()).is_err());
    assert!(d.start_configuration().is_err());
    assert!(d.mark_provisioned("USW-24".to_string(), "6.5.1".to_string()).is_ok());
    assert!(d.start_configuration().is_ok());
    let iface = InterfaceConfig {
        name: "eth0".to_string(),
        ip_address: Some(IpAddress::V4(0x0A00_0002)),
        prefix_len: Some(24),
        vlan_id: None,
        enabled: true,
    };
    assert!(d.complete_configuration(vec![iface], vec![]).is_ok());
    assert!(d.rename("core-switch".to_string()).is_ok());
    let events = d.take_pending_events();
    assert_eq!(events.len(), 6);
    let r = NetworkDeviceAggregate::from_events(events).expect("a discovery is among the events");
    assert_eq!(r.id(), d.id());
    assert_eq!(r.state(), d.state());
    assert_eq!(r.state(), DeviceState::Provisioned);
    assert_eq!(r.version(), d.version());
    assert_eq!(r.mac(), d.mac());
    assert_eq!(r.device_type(), d.device_type());
    assert_eq!(r.name(), d.name());
    assert_eq!(r.ip_address(), d.ip_address());
    assert_eq!(r.vendor_id(), d.vendor_id());
    assert_eq!(r.interfaces(), d.interfaces());
}

#[test]
fn unknown_location_type_is_refused_without_an_event() {
    let mut subagent = NetworkTopologySubAgent::new();
    let before = subagent.session_info().events_generated;
    let request = create_subagent_request(SubAgentTask::AddLocation {
        location_id: "m1".to_string(),
        location_type: "Mars".to_string(),
        parameters: vec![],
    });
    let response = subagent.process_request(request);
    assert!(!response.success);
    assert_eq!(
        response.errors,
        vec!["Validation error: Unknown location type: Mars. Supported types: datacenter, office, cloud, edge, segment".to_string()]
    );
    assert_eq!(subagent.session_info().events_generated, before);
    assert!(matches!(subagent.metadata().status, SubAgentStatus::Error { .. }));
}

#[test]
fn known_location_type_in_any_case_adds_one_event() {
    let mut subagent = NetworkTopologySubAgent::new();
    let before = subagent.session_info().events_generated;
    let request = create_subagent_request(SubAgentTask::AddLocation {
        location_id: "edge-7".to_string(),
        location_type: "EdgeLocation".to_string(),
        parameters: vec![],
    });
    let response = subagent.process_request(request);
    assert!(response.success);
    assert!(response.errors.is_empty());
    assert!(response.message.contains("Edge location 'edge-7'"));
    assert_eq!(subagent.session_info().events_generated, before + 1);
    assert!(matches!(subagent.metadata().status, SubAgentStatus::Ready));
}

#[test]
fn edge_template_events_carry_the_callers_ids() {
    let mut router = RouterConfiguration::new(
        RouterId::new(),
        "edge-1".to_string(),
        RouterVendor::Cisco { os: CiscoOs::Ios15_7 },
    );
    let corr = CorrelationId::new();
    let cause = CausationId::new();
    let template = RouterTemplate::EdgeRouter {
        internal_networks: vec![IpNetwork { ip: IpAddress::V4(0xC0A8_0A01), prefix: 24 }],
        wan_ip: IpAddress::V4(0xCB00_7101),
    };
    let events = router.apply_template(template, corr, cause).expect("the edge template applies");
    assert_eq!(events.len(), 4);
    for (k, e) in events.iter().enumerate() {
        let m = match e {
            InfrastructureEvent::RouterInterfaceAdded { metadata, .. }
            | InfrastructureEvent::RouterOspfConfigured { metadata, .. }
            | InfrastructureEvent::RouterAccessListAdded { metadata, .. } => metadata,
            other => panic!("unexpected event {:?}", other),
        };
        assert_eq!(m.correlation_id, corr);
        assert_eq!(m.causation_id, cause);
        assert_eq!(m.version, k as u64 + 1);
    }
    match &events[1] {
        InfrastructureEvent::RouterInterfaceAdded { interface, .. } => {
            assert_eq!(interface.name, "GigabitEthernet0/1");
            assert_eq!(interface.description.as_deref(), Some("LAN Network 1"));
            assert_eq!(interface.ip_address, Some(IpAddress::V4(0xC0A8_0A01)));
        }
        other => panic!("unexpected event {:?}", other),
    }
    assert!(matches!(events[3], InfrastructureEvent::RouterAccessListAdded { acl_number: 100, entries: 4, .. }));
}

#[test]
fn registry_lists_device_ids_in_cache_order() {
    let mut registry = DeviceRegistry::new();
    let a = NetworkDeviceAggregate::new_discovered(MacAddress::from_bytes([2, 0, 0, 0, 0, 1]), DeviceType::Switch, None);
    let b = NetworkDeviceAggregate::new_discovered(MacAddress::from_bytes([2, 0, 0, 0, 0, 2]), DeviceType::Gateway, None);
    let (ia, ib) = (a.id(), b.id());
    registry.insert(a);
    registry.insert(b);
    assert_eq!(registry.device_ids(), vec![ia, ib]);
}

#[test]
fn refused_edge_template_keeps_the_interfaces_added_before() {
    let mut router = RouterConfiguration::new(
        RouterId::new(),
        "edge-2".to_string(),
        RouterVendor::Cisco { os: CiscoOs::Ios15_7 },
    );
    let lan = IpNetwork { ip: IpAddress::V4(0xC0A8_0A01), prefix: 24 };
    let template = RouterTemplate::EdgeRouter { internal_networks: vec![lan, lan], wan_ip: IpAddress::V4(0xCB00_7101) };
    let r = router.apply_template(template, CorrelationId::new(), CausationId::new());
    assert!(r.is_err());
    let names: Vec<&str> = router.interfaces().iter().map(|i| i.name.as_str()).collect();
    assert_eq!(names, vec!["GigabitEthernet0/0", "GigabitEthernet0/1"]);
    assert_eq!(router.version(), 2);
    assert!(router.routing_protocols().is_empty());
    assert!(router.access_lists().is_empty());
}

#[test]
fn netbox_cable_terminations_are_interfaces() {
    let nb = NetBoxAdapter::new("https://netbox.example.com", "token");
    let conn = ConnectionInfo {
        id: ConnectionId::new(),
        source_device: DeviceId::new(),
        source_port: PortId::new("eth1"),
        target_device: DeviceId::new(),
        target_port: PortId::new("eth2"),
        connection_type: ConnectionType::Ethernet,
    };
    match nb.extend(&DomainObject::Connection(conn)).unwrap().payload {
        InventoryPayload::Cable { a_termination, b_termination, cable_type, .. } => {
            assert_eq!((a_termination.object_type.as_str(), a_termination.object_id.as_str()), ("dcim.interface", "eth1"));
            assert_eq!((b_termination.object_type.as_str(), b_termination.object_id.as_str()), ("dcim.interface", "eth2"));
            assert_eq!(cable_type, "cat6");
        }
        _ => panic!("expected a cable record"),
    }
}

#[test]
fn mac_parse_ignores_case_and_separator_style() {
    assert_eq!(MacAddress::parse("AA:BB:CC:DD:EE:FF"), MacAddress::parse("aa-bb-cc-dd-ee-ff"));
    assert_ne!(MacAddress::parse("00:11:22:33:44:55"), MacAddress::parse("AA:BB:CC:DD:EE:FF"));
    let m = MacAddress::from_bytes([0x0a, 0x1b, 0x2c, 0x3d, 0x4e, 0x5f]);
    assert_eq!(MacAddress::parse(&m.to_string()), Ok(m));
}

use cim_network::adapters::netbox::NetBoxAdapter;
use cim_network::adapters::unifi::{
    port_stats_from, speed_from_mbps, unifi_event_to_domain, unifi_representation, vendor_device_from, JsonField,
    UniFiDevice, UniFiError, UniFiEvent, UniFiMeta, UniFiPortStats,
};
use cim_network::aggregates::{DeviceState, NetworkDeviceAggregate};
use cim_network::events::NetworkEvent;
use cim_network::functor::{
    ConnectionInfo, DomainMorphismType, DomainObject, FunctorError, InventoryPayload, NetworkEdgeType, NetworkFunctor,
    NetworkGraphEdge, NetworkGraphNode, NetworkNodeType, TopologyInfo,
};
use cim_network::ids::{ConnectionId, DeviceId, TopologyId};
use cim_network::ip::IpAddress;
use cim_network::ports::{EventSubscription, PortError};
use cim_network::value_objects::{ConnectionType, DeviceType, LinkSpeed, MacAddress, PortId};

fn node(id: &str, t: NetworkNodeType, props: &[(&str, Option<&str>)]) -> NetworkGraphNode {
    NetworkGraphNode {
        id: id.to_string(),
        node_type: t,
        properties: props.iter().map(|(k, v)| (k.to_string(), v.map(|s| s.to_string()))).collect(),
    }
}

#[test]
fn functor_maps_device_nodes() {
    let mut f = NetworkFunctor::new();
    let n = node(
        "n1",
        NetworkNodeType::Device,
        &[("mac", Some("00:11:22:33:44:55")), ("device_type", Some("switch")), ("ip_address", Some("10.0.0.5"))],
    );
    match f.map_node(&n).unwrap() {
        DomainObject::Device(d) => {
            assert_eq!(d.mac(), MacAddress::parse("00:11:22:33:44:55").unwrap());
            assert_eq!(*d.device_type(), DeviceType::Switch);
            assert_eq!(d.ip_address(), Some(IpAddress::v4(10, 0, 0, 5)));
            assert_eq!(d.state(), DeviceState::Discovered);
            match f.get_domain_object("n1") {
                Some(DomainObject::Device(e)) => assert_eq!(e.id(), d.id()),
                _ => panic!("mapping must be remembered"),
            }
        }
        _ => panic!("expected a device"),
    }
    let g = node("n2", NetworkNodeType::Device, &[("mac", Some("00:11:22:33:44:66")), ("device_type", Some("router-x"))]);
    match f.map_node(&g).unwrap() {
        DomainObject::Device(d) => {
            assert_eq!(*d.device_type(), DeviceType::Generic { model: "router-x".to_string() });
            assert_eq!(d.ip_address(), None);
        }
        _ => panic!("expected a device"),
    }
    let h = node("n3", NetworkNodeType::Device, &[("mac", Some("00:11:22:33:44:77"))]);
    match f.map_node(&h).unwrap() {
        DomainObject::Device(d) => assert_eq!(*d.device_type(), DeviceType::Generic { model: "unknown".to_string() }),
        _ => panic!("expected a device"),
    }
    match f.map_node(&node("p", NetworkNodeType::Port, &[])) {
        Err(e) => assert_eq!(e.to_string(), "Node type Port does not map to an aggregate"),
        Ok(_) => panic!("ports are not aggregates"),
    }
    match f.map_node(&node("x", NetworkNodeType::Device, &[("mac", Some("zz"))])) {
        Err(FunctorError::MissingProperty(m)) => assert_eq!(m, "mac"),
        _ => panic!("bad mac"),
    }
    match f.map_node(&node("y", NetworkNodeType::Device, &[("mac", None)])) {
        Err(e) => assert_eq!(e.to_string(), "Missing required property: mac"),
        _ => panic!("non-string mac"),
    }
    assert!(f.get_domain_object("x").is_none());
    assert!(f.verify_composition(&vec!["a".to_string(), "b".to_string()]));
}

#[test]
fn functor_maps_edges() {
    let mut f = NetworkFunctor::default();
    let e = NetworkGraphEdge {
        id: "e1".to_string(),
        source: "a".to_string(),
        target: "b".to_string(),
        edge_type: NetworkEdgeType::Uplink,
        properties: vec![],
    };
    let m = f.map_edge(&e).unwrap();
    assert_eq!(m.morphism_type, DomainMorphismType::DependsOn);
    assert_eq!(m.source, "a");
    let e2 = NetworkGraphEdge { edge_type: NetworkEdgeType::InVlan, ..e };
    assert_eq!(f.map_edge(&e2).unwrap().morphism_type, DomainMorphismType::Contains);
}

fn device() -> NetworkDeviceAggregate {
    NetworkDeviceAggregate::new_discovered(
        MacAddress::parse("aa:bb:cc:dd:ee:ff").unwrap(),
        DeviceType::AccessPoint,
        Some(IpAddress::v4(192, 168, 1, 2)),
    )
}

#[test]
fn netbox_records() {
    let nb = NetBoxAdapter::new("https://netbox.example.com///", "token");
    assert_eq!(nb.system_name(), "netbox");
    let d = device();
    let id = d.id();
    let rep = nb.extend(&DomainObject::Device(d)).unwrap();
    assert_eq!(rep.inventory_id, format!("netbox-{}", id.to_string()));
    match rep.payload {
        InventoryPayload::Device { device_type, status, primary_ip4, custom_fields, .. } => {
            assert_eq!(device_type.model, "Access Point");
            assert_eq!(status, "planned");
            assert_eq!(primary_ip4.as_deref(), Some("192.168.1.2"));
            assert_eq!(custom_fields.mac_address, "aa:bb:cc:dd:ee:ff");
            assert_eq!(custom_fields.cim_device_id, id.to_string());
        }
        _ => panic!("expected a device record"),
    }
    let conn = ConnectionInfo {
        id: ConnectionId::new(),
        source_device: DeviceId::new(),
        source_port: PortId::new("eth0"),
        target_device: DeviceId::new(),
        target_port: PortId::with_index("port", 2),
        connection_type: ConnectionType::Fiber,
    };
    match nb.extend(&DomainObject::Connection(conn)).unwrap().payload {
        InventoryPayload::Cable { a_termination, b_termination, cable_type, status } => {
            assert_eq!(a_termination.object_type, "dcim.interface");
            assert_eq!(a_termination.object_id, "eth0");
            assert_eq!(b_termination.object_type, "dcim.interface");
            assert_eq!(b_termination.object_id, "port[2]");
            assert_eq!(cable_type, "smf");
            assert_eq!(status, "connected");
        }
        _ => panic!("expected a cable record"),
    }
    let topo = TopologyInfo { id: TopologyId::new(), name: "t".to_string(), devices: vec![] };
    match nb.extend(&DomainObject::Topology(topo)) {
        Err(e) => assert_eq!(e.to_string(), "Mapping failed: Topology objects map to NetBox sites, not yet implemented"),
        Ok(_) => panic!("topologies are not recorded"),
    }
    match nb.allocate_ip("10.0.0.0/24", DeviceId::new()) {
        Err(e) => assert_eq!(e.to_string(), "Operation not supported: IP allocation not yet implemented"),
        Ok(_) => panic!("allocation is not offered"),
    }
    assert!(nb.get_ip_assignments("10.0.0.0/24").unwrap().is_empty());
}

#[test]
fn unifi_mappings() {
    let rep = unifi_representation(&DomainObject::Device(device())).unwrap();
    assert_eq!(rep.vendor, "unifi");
    assert_eq!(rep.vendor_id, "pending");
    assert_eq!(rep.payload.device_type, "uap");
    assert_eq!(rep.payload.state, "Discovered");
    assert_eq!(speed_from_mbps(2500), Some(LinkSpeed::Gbps2_5));
    assert_eq!(speed_from_mbps(1234), None);
    let ps = port_stats_from(&UniFiPortStats {
        port_idx: 4,
        up: true,
        speed: Some(1000),
        full_duplex: None,
        rx_bytes: 10,
        tx_bytes: 20,
        rx_errors: None,
        tx_errors: Some(3),
    });
    assert_eq!(ps.port_id.to_string(), "port[4]");
    assert_eq!(ps.speed, Some(LinkSpeed::Gbps1));
    assert_eq!((ps.rx_errors, ps.tx_errors), (0, 3));
    assert!(UniFiMeta { rc: "ok".to_string(), msg: None }.is_ok());
    assert!(!UniFiMeta { rc: "error".to_string(), msg: None }.is_ok());
    assert_eq!(UniFiError::Auth("bad".to_string()).to_string(), "Authentication failed: bad");
    let ud = UniFiDevice {
        id: "u1".to_string(),
        mac: MacAddress::parse("00:00:00:00:00:01").unwrap(),
        model: "USW-24".to_string(),
        name: "sw".to_string(),
        ip: Some(0x0a000001),
        adopted: false,
        device_type: "usw".to_string(),
        version: None,
        state: None,
        properties: vec![],
    };
    let vd = vendor_device_from(&ud, None);
    assert_eq!(vd.ip_address, Some(IpAddress::v4(10, 0, 0, 1)));
    let ev = UniFiEvent {
        key: JsonField::Text("EVT_SW_Connected".to_string()),
        ap: JsonField::Absent,
        sw: JsonField::Text("00:11:22:33:44:55".to_string()),
        gw: JsonField::Absent,
    };
    assert!(matches!(unifi_event_to_domain(&ev), Ok(NetworkEvent::DeviceProvisioned { .. })));
    let bad = UniFiEvent { key: JsonField::Text("EVT_X".to_string()), ap: JsonField::Absent, sw: JsonField::Absent, gw: JsonField::Absent };
    match unifi_event_to_domain(&bad) {
        Err(e) => assert_eq!(e.to_string(), "Mapping failed: Unknown event type: EVT_X"),
        Ok(_) => panic!("unknown key"),
    }
    let bad_mac = UniFiEvent { key: JsonField::Text("EVT_AP_Connected".to_string()), ap: JsonField::Text("12".to_string()), sw: JsonField::Absent, gw: JsonField::Absent };
    match unifi_event_to_domain(&bad_mac) {
        Err(FunctorError::MappingFailed(m)) => assert_eq!(m, "Invalid MAC address length"),
        _ => panic!("bad mac"),
    }
    let no_key = UniFiEvent { key: JsonField::Other, ap: JsonField::Absent, sw: JsonField::Absent, gw: JsonField::Absent };
    match unifi_event_to_domain(&no_key) {
        Err(FunctorError::MappingFailed(m)) => assert_eq!(m, "Missing event key"),
        _ => panic!("no key"),
    }
    let no_mac = UniFiEvent { key: JsonField::Text("EVT_GW_Connected".to_string()), ap: JsonField::Other, sw: JsonField::Absent, gw: JsonField::Absent };
    match unifi_event_to_domain(&no_mac) {
        Err(FunctorError::MappingFailed(m)) => assert_eq!(m, "Missing device MAC"),
        _ => panic!("no mac"),
    }
}

#[test]
fn port_errors_and_subscriptions() {
    let id = DeviceId::new();
    assert_eq!(PortError::DeviceNotFound(id).to_string(), format!("Device not found: {}", id.to_string()));
    assert_eq!(PortError::Timeout("t".to_string()).to_string(), "Timeout: t");
    let s = EventSubscription::with_subject("network.>");
    assert_eq!(s.subject(), "network.>");
    assert_eq!(s.id().len(), 36);
    assert_eq!(EventSubscription::default().subject(), "");
}

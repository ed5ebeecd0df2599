use cim_network::adapters::netbox::NetBoxAdapter;
use cim_network::adapters::unifi::unifi_representation;
use cim_network::functor::{
    DomainObject, FunctorError, NetworkFunctor, NetworkGraphNode, NetworkKanExtension, NetworkNodeType,
    VendorExtension, VendorRepresentation,
};

struct UniFiVendor;

impl VendorExtension for UniFiVendor {
    fn vendor_name(&self) -> &str {
        "unifi"
    }

    fn extend(&self, domain_obj: &DomainObject) -> Result<VendorRepresentation, FunctorError> {
        unifi_representation(domain_obj)
    }
}

fn device_node(id: &str, mac: &str) -> NetworkGraphNode {
    NetworkGraphNode {
        id: id.to_string(),
        node_type: NetworkNodeType::Device,
        properties: vec![("mac".to_string(), Some(mac.to_string())), ("device_type".to_string(), Some("switch".to_string()))],
    }
}

#[test]
fn test_unregistered_systems_are_refused() {
    let mut kan = NetworkKanExtension::new(NetworkFunctor::new());
    let mut f = NetworkFunctor::new();
    let obj = f.map_node(&device_node("n1", "00:11:22:33:44:55")).unwrap();
    match kan.extend_to_vendor(&obj, "unifi") {
        Err(e) => assert_eq!(e.to_string(), "Unknown vendor: unifi"),
        Ok(_) => panic!("no vendor is registered"),
    }
    match kan.extend_to_inventory(&obj, "netbox") {
        Err(e) => assert_eq!(e.to_string(), "Unknown inventory system: netbox"),
        Ok(_) => panic!("no inventory is registered"),
    }
}

#[test]
fn test_registered_extensions_make_records() {
    let mut kan = NetworkKanExtension::new(NetworkFunctor::new());
    kan.register_vendor("unifi", Box::new(UniFiVendor));
    kan.register_inventory("netbox", Box::new(NetBoxAdapter::new("https://nb.example.com", "t")));
    let mut f = NetworkFunctor::new();
    let obj = f.map_node(&device_node("n1", "00:11:22:33:44:55")).unwrap();
    let v = kan.extend_to_vendor(&obj, "unifi").unwrap();
    assert_eq!(v.vendor, "unifi");
    assert_eq!(v.payload.device_type, "usw");
    let i = kan.extend_to_inventory(&obj, "netbox").unwrap();
    assert_eq!(i.system, "netbox");
    assert_eq!(i.device_id, v.device_id);
}

#[test]
fn test_compose_through() {
    let mut kan = NetworkKanExtension::new(NetworkFunctor::new());
    kan.register_vendor("unifi", Box::new(UniFiVendor));
    let port = NetworkGraphNode { id: "p1".to_string(), node_type: NetworkNodeType::Port, properties: Vec::new() };
    match kan.compose_through(&port, "unifi") {
        Err(e) => assert_eq!(e.to_string(), "Node type Port does not map to an aggregate"),
        Ok(_) => panic!("ports are not aggregates"),
    }
    let v = kan.compose_through(&device_node("n2", "aa:bb:cc:dd:ee:ff"), "unifi").unwrap();
    assert_eq!(v.payload.mac, "aa:bb:cc:dd:ee:ff");
    assert!(kan.base_functor().get_domain_object("n2").is_some());
    match kan.compose_through(&device_node("n3", "aa:bb:cc:dd:ee:01"), "other") {
        Err(e) => assert_eq!(e.to_string(), "Unknown vendor: other"),
        Ok(_) => panic!("vendor not registered"),
    }
}

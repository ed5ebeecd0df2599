use cim_network::aggregates::{DeviceState, NetworkDeviceAggregate};
use cim_network::infrastructure_bridge::{network_device_from_metadata, resource_id_text, resource_metadata};
use cim_network::ip::IpAddress;
use cim_network::value_objects::{DeviceType, MacAddress};

fn create_test_device() -> NetworkDeviceAggregate {
    let mac = MacAddress::parse("00:11:22:33:44:55").unwrap();
    NetworkDeviceAggregate::new_discovered(mac, DeviceType::Switch, Some(IpAddress::v4(192, 168, 1, 100)))
}

fn entry<'a>(m: &'a [(String, String)], key: &str) -> Option<&'a str> {
    m.iter().find(|(k, _)| k == key).map(|(_, v)| v.as_str())
}

#[test]
fn test_resource_metadata() {
    let device = create_test_device();
    let m = resource_metadata(&device);
    assert_eq!(entry(&m, "mac_address"), Some("00:11:22:33:44:55"));
    assert_eq!(entry(&m, "device_type"), Some("Switch"));
    assert_eq!(entry(&m, "device_state"), Some("Discovered"));
    assert_eq!(entry(&m, "ip_address"), Some("192.168.1.100"));
    assert_eq!(entry(&m, "vendor_id"), None);
    assert_eq!(resource_id_text(&device), format!("net-{}", device.id().to_string()));
}

#[test]
fn test_roundtrip_conversion() {
    let device = create_test_device();
    let metadata = resource_metadata(&device);
    let recovered = network_device_from_metadata(&metadata);
    assert!(recovered.is_some());
    let recovered = recovered.unwrap();
    assert_eq!(recovered.mac(), device.mac());
    assert_eq!(*recovered.device_type(), DeviceType::Switch);
    assert_eq!(recovered.ip_address(), device.ip_address());
    assert_eq!(recovered.state(), DeviceState::Discovered);
}

#[test]
fn test_metadata_without_device_fields() {
    let missing = vec![("device_type".to_string(), "Gateway".to_string())];
    assert!(network_device_from_metadata(&missing).is_none());
    let bad = vec![("mac_address".to_string(), "zz:zz".to_string())];
    assert!(network_device_from_metadata(&bad).is_none());
    let bare = vec![("mac_address".to_string(), "aa-bb-cc-dd-ee-ff".to_string())];
    let d = network_device_from_metadata(&bare).unwrap();
    assert_eq!(*d.device_type(), DeviceType::Generic { model: "Unknown".to_string() });
    assert_eq!(d.ip_address(), None);
    let custom = vec![
        ("mac_address".to_string(), "aa:bb:cc:dd:ee:ff".to_string()),
        ("device_type".to_string(), "Generic(EdgeRouter)".to_string()),
        ("ip_address".to_string(), "not-an-ip".to_string()),
    ];
    let d = network_device_from_metadata(&custom).unwrap();
    assert_eq!(*d.device_type(), DeviceType::Generic { model: "EdgeRouter".to_string() });
    assert_eq!(d.ip_address(), None);
}

#[test]
fn test_text_reads_back() {
    for text in ["00:11:22:33:44:55", "aa:bb:cc:dd:ee:ff", "0a:0b:0c:0d:0e:0f"] {
        let m = MacAddress::parse(text).unwrap();
        assert_eq!(MacAddress::parse(&m.to_string()).unwrap(), m);
    }
    for ip in [IpAddress::v4(0, 0, 0, 0), IpAddress::v4(10, 200, 3, 45), IpAddress::v4(255, 255, 255, 255)] {
        let metadata = vec![
            ("mac_address".to_string(), "00:00:00:00:00:01".to_string()),
            ("ip_address".to_string(), ip.to_string()),
        ];
        assert_eq!(network_device_from_metadata(&metadata).unwrap().ip_address(), Some(ip));
    }
}

use cim_network::ids::DeviceId;
use cim_network::ip::IpAddress;
use cim_network::value_objects::{
    ConnectionType, DeviceType, InterfaceConfig, LinkSpeed, MacAddress, MacAddressError, PortId, VlanConfig, VlanError,
};

#[test]
fn test_device_id_new() {
    let id1 = DeviceId::new();
    let id2 = DeviceId::new();
    assert_ne!(id1, id2);
}

#[test]
fn test_device_id_display() {
    let id = DeviceId::new();
    let display = id.to_string();
    assert!(!display.is_empty());
    assert_eq!(display.len(), 36);
}

#[test]
fn test_mac_address_parse_valid() {
    let mac = MacAddress::parse("00:11:22:33:44:55");
    assert!(mac.is_ok());
    let mac = MacAddress::parse("AA-BB-CC-DD-EE-FF");
    assert!(mac.is_ok());
    let mac = MacAddress::parse("de:ad:be:ef:ca:fe");
    assert!(mac.is_ok());
}

#[test]
fn test_mac_address_parse_invalid_length() {
    let mac = MacAddress::parse("00:11:22:33:44");
    assert!(mac.is_err());
    assert!(matches!(mac.unwrap_err(), MacAddressError::InvalidLength));
}

#[test]
fn test_mac_address_parse_invalid_format() {
    let mac = MacAddress::parse("00:11:22:33:44:GG");
    assert!(mac.is_err());
    assert!(matches!(mac.unwrap_err(), MacAddressError::InvalidFormat));
}

#[test]
fn test_mac_address_display() {
    let mac = MacAddress::parse("00:11:22:33:44:55").unwrap();
    assert_eq!(mac.to_string(), "00:11:22:33:44:55");
    let mac = MacAddress::parse("AA:BB:CC:DD:EE:FF").unwrap();
    assert_eq!(mac.to_string(), "aa:bb:cc:dd:ee:ff");
}

#[test]
fn test_mac_address_equality() {
    let mac1 = MacAddress::parse("00:11:22:33:44:55").unwrap();
    let mac2 = MacAddress::parse("00:11:22:33:44:55").unwrap();
    let mac3 = MacAddress::parse("AA:BB:CC:DD:EE:FF").unwrap();
    assert_eq!(mac1, mac2);
    assert_ne!(mac1, mac3);
}

#[test]
fn test_device_type_display() {
    assert_eq!(DeviceType::Gateway.to_string(), "Gateway");
    assert_eq!(DeviceType::Switch.to_string(), "Switch");
    assert_eq!(DeviceType::AccessPoint.to_string(), "AccessPoint");
    assert_eq!(DeviceType::Generic { model: "Custom".to_string() }.to_string(), "Generic(Custom)");
}

#[test]
fn test_port_id_new() {
    let port = PortId::new("eth0");
    assert_eq!(port.name, "eth0");
    assert_eq!(port.index, None);
}

#[test]
fn test_port_id_with_index() {
    let port = PortId::with_index("port", 5);
    assert_eq!(port.name, "port");
    assert_eq!(port.index, Some(5));
}

#[test]
fn test_port_id_display() {
    let port1 = PortId::new("eth0");
    assert_eq!(port1.to_string(), "eth0");
    let port2 = PortId::with_index("port", 3);
    assert_eq!(port2.to_string(), "port[3]");
}

#[test]
fn test_vlan_config_valid() {
    let vlan = VlanConfig::new(100, "Management");
    assert!(vlan.is_ok());
    let vlan = vlan.unwrap();
    assert_eq!(vlan.id, 100);
    assert_eq!(vlan.name, "Management");
    assert!(!vlan.native);
}

#[test]
fn test_vlan_config_invalid_id_zero() {
    let vlan = VlanConfig::new(0, "Invalid");
    assert!(vlan.is_err());
    assert!(matches!(vlan.unwrap_err(), VlanError::InvalidId(0)));
}

#[test]
fn test_vlan_config_invalid_id_too_high() {
    let vlan = VlanConfig::new(4095, "Invalid");
    assert!(vlan.is_err());
    assert!(matches!(vlan.unwrap_err(), VlanError::InvalidId(4095)));
}

#[test]
fn test_vlan_config_boundary() {
    let vlan1 = VlanConfig::new(1, "Default");
    assert!(vlan1.is_ok());
    let vlan4094 = VlanConfig::new(4094, "Max");
    assert!(vlan4094.is_ok());
}

#[test]
fn test_link_speed_display() {
    assert_eq!(LinkSpeed::Mbps10.to_string(), "10 Mbps");
    assert_eq!(LinkSpeed::Mbps100.to_string(), "100 Mbps");
    assert_eq!(LinkSpeed::Gbps1.to_string(), "1 Gbps");
    assert_eq!(LinkSpeed::Gbps10.to_string(), "10 Gbps");
    assert_eq!(LinkSpeed::Gbps100.to_string(), "100 Gbps");
}

#[test]
fn test_connection_type_equality() {
    assert_eq!(ConnectionType::Ethernet, ConnectionType::Ethernet);
    assert_ne!(ConnectionType::Ethernet, ConnectionType::Fiber);
}

#[test]
fn test_interface_config() {
    let iface = InterfaceConfig {
        name: "eth0".to_string(),
        ip_address: Some(IpAddress::v4(192, 168, 1, 10)),
        prefix_len: Some(24),
        vlan_id: Some(100),
        enabled: true,
    };
    assert!(iface.enabled);
    assert_eq!(iface.name, "eth0");
    assert_eq!(iface.vlan_id, Some(100));
    assert_eq!(iface.prefix_len, Some(24));
}

#[test]
fn mac_address_mixed_separators_and_bytes() {
    let mac = MacAddress::parse("AA-bb:CC-dd:EE-ff").unwrap();
    assert_eq!(mac.as_bytes(), [0xaa, 0xbb, 0xcc, 0xdd, 0xee, 0xff]);
    assert_eq!(MacAddress::from_bytes([1, 2, 3, 4, 5, 6]).to_string(), "01:02:03:04:05:06");
    assert!(matches!(MacAddress::parse("0011223344556").unwrap_err(), MacAddressError::InvalidLength));
}

use cim_network::adapters::http::{status_display, url_encode};
use cim_network::adapters::netbox::{delete_outcome, response_failure, trim_base_url, NetBoxApi, NetBoxError};
use cim_network::adapters::unifi::{
    api_outcome, ensure_authenticated, extract_port_stats, find_device, login_outcome, normalize_mac, request_outcome,
    UniFiApi, UniFiDevice, UniFiDeviceMapping, UniFiError, UniFiMeta, UniFiPortRecord,
};
use cim_network::ids::DeviceId;
use cim_network::value_objects::MacAddress;

fn unifi_device(id: &str, mac: &str) -> UniFiDevice {
    UniFiDevice {
        id: id.to_string(),
        mac: MacAddress::parse(mac).unwrap(),
        model: "US-8".to_string(),
        name: id.to_string(),
        ip: None,
        adopted: true,
        device_type: "usw".to_string(),
        version: None,
        state: None,
        properties: Vec::new(),
    }
}

#[test]
fn test_url_encode() {
    assert_eq!(url_encode("core sw/1"), "core%20sw%2F1");
    assert_eq!(url_encode("10.0.0.0/24"), "10.0.0.0%2F24");
    assert_eq!(url_encode("a-b_c.d~e"), "a-b_c.d~e");
    assert_eq!(url_encode("é"), "%C3%A9");
}

#[test]
fn test_status_display() {
    assert_eq!(status_display(404), "404 Not Found");
    assert_eq!(status_display(500), "500 Internal Server Error");
    assert_eq!(status_display(299), "299 <unknown status code>");
}

#[test]
fn test_netbox_urls() {
    assert_eq!(trim_base_url("https://nb.example.com//"), "https://nb.example.com");
    let api = NetBoxApi::new("https://nb.example.com/", "secret");
    assert_eq!(api.authorization(), "Token secret");
    assert_eq!(api.devices_url(), "https://nb.example.com/api/dcim/devices/");
    assert_eq!(api.device_url(5), "https://nb.example.com/api/dcim/devices/5/");
    assert_eq!(api.device_by_name_url("core sw"), "https://nb.example.com/api/dcim/devices/?name=core%20sw");
    assert_eq!(api.cables_url(), "https://nb.example.com/api/dcim/cables/");
    assert_eq!(api.cable_url(12), "https://nb.example.com/api/dcim/cables/12/");
    assert_eq!(api.ip_addresses_url("10.0.0.0/24"), "https://nb.example.com/api/ipam/ip-addresses/?parent=10.0.0.0%2F24");
    assert_eq!(api.prefix_url("10.0.0.0/24"), "https://nb.example.com/api/ipam/prefixes/?prefix=10.0.0.0%2F24");
    assert_eq!(api.available_ips_url(3), "https://nb.example.com/api/ipam/prefixes/3/available-ips/");
    assert_eq!(api.ip_address_url(7), "https://nb.example.com/api/ipam/ip-addresses/7/");
}

#[test]
fn test_netbox_response_failures() {
    assert!(response_failure(200, "").is_none());
    assert!(response_failure(201, "").is_none());
    match response_failure(404, "x") {
        Some(NetBoxError::NotFound(m)) => assert_eq!(m, "Resource not found"),
        _ => panic!("expected not found"),
    }
    match response_failure(401, "x") {
        Some(NetBoxError::Auth(m)) => assert_eq!(m, "Invalid API token"),
        _ => panic!("expected auth"),
    }
    match response_failure(400, "bad name") {
        Some(e) => assert_eq!(e.to_string(), "Validation error: bad name"),
        None => panic!("expected validation"),
    }
    match response_failure(500, "boom") {
        Some(e) => assert_eq!(e.to_string(), "API error: Request failed: 500 Internal Server Error - boom"),
        None => panic!("expected api error"),
    }
}

#[test]
fn test_netbox_delete_outcome() {
    assert!(delete_outcome(204, "").is_ok());
    assert!(delete_outcome(200, "").is_ok());
    match delete_outcome(404, "") {
        Err(NetBoxError::NotFound(m)) => assert_eq!(m, "Resource not found"),
        _ => panic!("expected not found"),
    }
    match delete_outcome(400, "no") {
        Err(e) => assert_eq!(e.to_string(), "API error: Request failed: 400 Bad Request - no"),
        Ok(()) => panic!("expected api error"),
    }
}

#[test]
fn test_unifi_urls() {
    let api = UniFiApi::new("https://unifi.local:8443/", "admin", "pw");
    assert_eq!(api.username(), "admin");
    assert_eq!(api.password(), "pw");
    assert_eq!(api.login_url(), "https://unifi.local:8443/api/login");
    assert_eq!(api.logout_url(), "https://unifi.local:8443/api/logout");
    assert_eq!(api.devices_url("default"), "https://unifi.local:8443/api/s/default/stat/device");
    assert_eq!(api.device_command_url("default"), "https://unifi.local:8443/api/s/default/cmd/devmgr");
    assert_eq!(api.device_config_url("default", "abc"), "https://unifi.local:8443/api/s/default/rest/device/abc");
}

#[test]
fn test_normalize_mac() {
    assert_eq!(normalize_mac("AA:BB-cc:DD:ee:FF"), "aabbccddeeff");
    assert_eq!(normalize_mac("aabbccddeeff"), "aabbccddeeff");
}

#[test]
fn test_find_device_by_mac() {
    let devices = vec![unifi_device("one", "00:11:22:33:44:55"), unifi_device("two", "aa:bb:cc:dd:ee:ff")];
    match find_device(devices, "AA-BB-CC-DD-EE-FF") {
        Ok(d) => assert_eq!(d.id, "two"),
        Err(_) => panic!("expected a device"),
    }
    let devices = vec![unifi_device("one", "00:11:22:33:44:55")];
    match find_device(devices, "aa:bb:cc:dd:ee:ff") {
        Err(e) => assert_eq!(e.to_string(), "Device not found: aa:bb:cc:dd:ee:ff"),
        Ok(_) => panic!("expected not found"),
    }
}

#[test]
fn test_unifi_outcomes() {
    let ok = UniFiMeta { rc: "ok".to_string(), msg: None };
    let failed = UniFiMeta { rc: "error".to_string(), msg: Some("api.err.Invalid".to_string()) };
    let silent = UniFiMeta { rc: "error".to_string(), msg: None };
    assert!(api_outcome(&ok, "Adopt failed").is_ok());
    match api_outcome(&failed, "Adopt failed") {
        Err(UniFiError::Api(m)) => assert_eq!(m, "api.err.Invalid"),
        _ => panic!("expected api error"),
    }
    match api_outcome(&silent, "Adopt failed") {
        Err(UniFiError::Api(m)) => assert_eq!(m, "Adopt failed"),
        _ => panic!("expected api error"),
    }
    assert!(login_outcome(200, Some(&ok)).is_ok());
    match login_outcome(200, Some(&silent)) {
        Err(UniFiError::Auth(m)) => assert_eq!(m, "Unknown error"),
        _ => panic!("expected auth error"),
    }
    match login_outcome(401, None) {
        Err(UniFiError::Auth(m)) => assert_eq!(m, "Login failed with status 401 Unauthorized"),
        _ => panic!("expected auth error"),
    }
    assert!(request_outcome(200).is_ok());
    match request_outcome(503) {
        Err(UniFiError::Http(m)) => assert_eq!(m, "Request failed with status 503 Service Unavailable"),
        _ => panic!("expected http error"),
    }
    assert!(ensure_authenticated(true).is_ok());
    match ensure_authenticated(false) {
        Err(UniFiError::Auth(m)) => assert_eq!(m, "Not authenticated"),
        _ => panic!("expected auth error"),
    }
}

#[test]
fn test_extract_port_stats() {
    let full = UniFiPortRecord {
        port_idx: Some(1),
        up: Some(true),
        speed: Some(1000),
        full_duplex: Some(true),
        rx_bytes: Some(10),
        tx_bytes: None,
        rx_errors: Some(2),
        tx_errors: None,
    };
    let no_index = UniFiPortRecord { port_idx: None, ..full };
    let no_up = UniFiPortRecord { up: None, ..full };
    let stats = extract_port_stats(&vec![full, no_index, no_up]);
    assert_eq!(stats.len(), 1);
    assert_eq!(stats[0].port_idx, 1);
    assert!(stats[0].up);
    assert_eq!(stats[0].speed, Some(1000));
    assert_eq!(stats[0].rx_bytes, 10);
    assert_eq!(stats[0].tx_bytes, 0);
    assert_eq!(stats[0].rx_errors, Some(2));
    assert_eq!(stats[0].tx_errors, None);
}

#[test]
fn test_device_mapping_reads_back() {
    let mut m = UniFiDeviceMapping::new();
    let a = DeviceId::new();
    let b = DeviceId::new();
    assert_eq!(m.get_unifi_id(a), None);
    assert_eq!(m.get_device_id("u1"), None);
    m.map_device(a, "u1".to_string());
    assert_eq!(m.get_unifi_id(a), Some("u1".to_string()));
    assert_eq!(m.get_device_id("u1"), Some(a));
    m.map_device(b, "u1".to_string());
    assert_eq!(m.get_device_id("u1"), Some(b));
    assert_eq!(m.get_unifi_id(a), Some("u1".to_string()));
    assert_eq!(m.get_unifi_id(b), Some("u1".to_string()));
    m.map_device(a, "u2".to_string());
    assert_eq!(m.get_unifi_id(a), Some("u2".to_string()));
    assert_eq!(m.get_device_id("u2"), Some(a));
}

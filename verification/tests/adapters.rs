use cim_network::infrastructure_bridge::parse_device_type;
use cim_network::nats::{belongs_to_aggregate, subscription_consumer_name, NatsEventStoreConfig};
use cim_network::service::infer_device_type;
use cim_network::value_objects::DeviceType;

#[test]
fn test_config_default() {
    let config = NatsEventStoreConfig::default();
    assert_eq!(config.stream_name, "network-events");
    assert_eq!(config.nats_url, "nats://localhost:4222");
}

#[test]
fn test_parse_device_type() {
    assert_eq!(parse_device_type("Gateway"), DeviceType::Gateway);
    assert_eq!(parse_device_type("Switch"), DeviceType::Switch);
    assert_eq!(parse_device_type("AccessPoint"), DeviceType::AccessPoint);
    assert_eq!(parse_device_type("Generic(Custom)"), DeviceType::Generic { model: "Custom".to_string() });
}

#[test]
fn test_infer_device_type() {
    assert!(matches!(infer_device_type("USW-24-POE"), DeviceType::Switch));
    assert!(matches!(infer_device_type("UAP-AC-Pro"), DeviceType::AccessPoint));
    assert!(matches!(infer_device_type("UDM-Pro"), DeviceType::Gateway));
    assert!(matches!(infer_device_type("U6-Pro"), DeviceType::AccessPoint));
    assert!(matches!(infer_device_type("Unknown"), DeviceType::Generic { .. }));
}

#[test]
fn device_type_text_reads_back() {
    for t in [
        DeviceType::Gateway,
        DeviceType::Switch,
        DeviceType::AccessPoint,
        DeviceType::Generic { model: "Gateway".to_string() },
        DeviceType::Generic { model: String::new() },
    ] {
        assert_eq!(parse_device_type(&t.to_string()), t);
    }
    assert_eq!(parse_device_type("Router"), DeviceType::Generic { model: "Router".to_string() });
}

#[test]
fn infer_device_type_keeps_generic_model() {
    assert_eq!(infer_device_type("Mystery Box"), DeviceType::Generic { model: "Mystery Box".to_string() });
    assert_eq!(infer_device_type("Edge-Gateway"), DeviceType::Gateway);
}

#[test]
fn nats_names() {
    let config = NatsEventStoreConfig::default();
    assert_eq!(config.stream_subjects(), "network.*.*");
    assert_eq!(config.replay_filter_subject(), "network.>");
    assert_eq!(config.max_messages, 0);
    assert_eq!(config.max_age_seconds, 0);
    assert_eq!(config.replicas, 1);
    assert_eq!(subscription_consumer_name("network.device.*"), "sub-network-device-all");
    assert_eq!(subscription_consumer_name("network.>"), "sub-network-gt");
    let t = NatsEventStoreConfig::for_testing("nats://x:1");
    assert_eq!(t.nats_url, "nats://x:1");
    assert_eq!(t.stream_name.len(), 13);
    assert!(t.stream_name.starts_with("test-"));
    assert_eq!(t.stream_name, t.subject_prefix);
    assert!(belongs_to_aggregate(Some("abc"), "abc"));
    assert!(!belongs_to_aggregate(Some("abd"), "abc"));
    assert!(!belongs_to_aggregate(None, "abc"));
}

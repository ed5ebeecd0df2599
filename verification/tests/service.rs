use cim_network::aggregates::DeviceState;
use cim_network::events::NetworkEvent;
use cim_network::ids::DeviceId;
use cim_network::ports::{PortError, VendorDevice};
use cim_network::service::{inventory_sync_event, prepare_discovered_device, replay_device, DeviceRegistry};
use cim_network::value_objects::{DeviceType, MacAddress};
use cim_network::workflow_router_configuration::{
    RouterTemplateParameters, RouterTemplateType, ValidationResult, WorkflowRouterConfiguration, WorkflowRouterError,
};
use cim_network::ids::RouterId;
use cim_network::infra_events::{CiscoOs, RouterVendor};

fn vendor_device(mac: &str, model: &str, name: &str) -> VendorDevice {
    VendorDevice {
        vendor_id: "v".to_string(),
        device_id: None,
        mac: MacAddress::parse(mac).unwrap(),
        model: model.to_string(),
        name: name.to_string(),
        ip_address: None,
        adopted: false,
        properties: vec![],
    }
}

#[test]
fn registry_runs_the_device_lifecycle() {
    let mut reg = DeviceRegistry::new();
    let mut d = prepare_discovered_device(&vendor_device("00:11:22:33:44:55", "USW-Lite", "core-sw"));
    assert_eq!(d.name(), "core-sw");
    assert_eq!(*d.device_type(), DeviceType::Switch);
    let events = d.take_pending_events();
    assert_eq!(events.len(), 2);
    let id = d.id();
    reg.insert(d);
    assert_eq!(reg.find_device_by_mac(MacAddress::parse("00:11:22:33:44:55").unwrap()), Some(id));
    assert_eq!(reg.find_device_by_mac(MacAddress::parse("00:11:22:33:44:56").unwrap()), None);
    let (vendor_id, events) = reg.adopt(id).unwrap();
    assert_eq!(vendor_id, "00:11:22:33:44:55");
    assert!(matches!(events.as_slice(), [NetworkEvent::DeviceAdopting { .. }]));
    assert_eq!(reg.get(id).unwrap().state(), DeviceState::Adopting);
    match reg.adopt(id) {
        Err(e) => assert_eq!(e.to_string(), "Vendor error: Invalid state transition from Adopting to Adopting"),
        Ok(_) => panic!("cannot adopt twice"),
    }
    let events = reg.mark_provisioned(id, "USW".to_string(), "6.0".to_string()).unwrap();
    assert_eq!(events.len(), 1);
    assert_eq!(reg.device_ids_in_state(DeviceState::Provisioned), vec![id]);
    assert!(reg.device_ids_in_state(DeviceState::Discovered).is_empty());
    reg.decommission(id).unwrap();
    assert_eq!(reg.get(id).unwrap().state(), DeviceState::Decommissioned);
    match reg.decommission(DeviceId::new()) {
        Err(PortError::DeviceNotFound(_)) => {}
        _ => panic!("unknown device"),
    }
}

#[test]
fn replay_rebuilds_a_device() {
    let mut d = prepare_discovered_device(&vendor_device("00:11:22:33:44:55", "UAP-AC", ""));
    let id = d.id();
    let mut events = d.take_pending_events();
    events.push(NetworkEvent::DeviceAdopting { device_id: id, vendor_id: "x".to_string() });
    events.push(NetworkEvent::DeviceConfiguring { device_id: id });
    events.push(NetworkEvent::DeviceProvisioned { device_id: id, model: "m".to_string(), firmware_version: "f".to_string() });
    events.push(NetworkEvent::DeviceRenamed { device_id: id, old_name: "a".to_string(), new_name: "ap-1".to_string() });
    let r = replay_device(&events).unwrap();
    assert_eq!(r.id(), id);
    assert_eq!(r.state(), DeviceState::Provisioned);
    assert_eq!(r.name(), "ap-1");
    assert_eq!(r.version(), 4);
    assert!(replay_device(&vec![NetworkEvent::DeviceConfiguring { device_id: id }]).is_none());
    match inventory_sync_event("netbox", id) {
        NetworkEvent::DeviceSyncedToInventory { inventory_id, system, .. } => {
            assert_eq!(inventory_id, format!("netbox-{}", id.to_string()));
            assert_eq!(system, "netbox");
        }
        _ => panic!("expected a sync event"),
    }
}

#[test]
fn workflow_router_versions() {
    let mut r = WorkflowRouterConfiguration::new(RouterId::new(), "test-router".to_string(), RouterVendor::Cisco { os: CiscoOs::Ios15_7 });
    assert_eq!(r.name(), "test-router");
    assert_eq!(r.version(), 1);
    assert_eq!(r.generate_configuration(Ok("hostname r".to_string())).unwrap(), "hostname r");
    assert_eq!(r.version(), 2);
    match r.provision_router(Err("engine down".to_string())) {
        Err(e) => assert_eq!(e.to_string(), "Provisioning workflow error: engine down"),
        Ok(_) => panic!("failure must be reported"),
    }
    assert_eq!(r.version(), 2);
    let params = RouterTemplateParameters {
        management_ip: None,
        loopback_ip: None,
        ospf_area: Some("0".to_string()),
        bgp_asn: None,
        enable_dhcp: true,
        enable_nat: false,
    };
    let w = r.template_workflow(RouterTemplateType::EdgeRouter, params);
    assert_eq!(w.router_name, "test-router");
    assert!(r.apply_template(Ok(vec![])).is_ok());
    assert_eq!(r.version(), 3);
    let v = ValidationResult { is_valid: true, errors: vec![], warnings: vec![], recommendations: vec![] };
    assert!(r.validate_configuration(Ok(v)).unwrap().is_valid);
    assert!(matches!(r.validate_configuration(Err("x".to_string())), Err(WorkflowRouterError::ConfigurationValidation(_))));
}

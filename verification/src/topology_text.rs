//! The `Debug` texts of topology types, as `{:?}` writes them: variants
//! and structs with their fields, lists in brackets, strings quoted.

use vstd::prelude::*;
use crate::network_topology::{
    TopologyType, CustomTopologySpec, DeviceSpec, ConnectionSpec, DeviceType, RouterVendor, SwitchVendor,
    SwitchLayer, RoutingProtocol, HostOS, ContainerRuntime, Hypervisor,
};
use crate::text::{dec, owned, push_str, push_dec};
use crate::topology_builder::{str_debug, debug_text};

verus! {

/// Name of a router vendor.
pub open spec fn router_vendor_name(v: RouterVendor) -> Seq<char> {
    match v {
        RouterVendor::Cisco => "Cisco"@,
        RouterVendor::Juniper => "Juniper"@,
        RouterVendor::VyOS => "VyOS"@,
        RouterVendor::MikroTik => "MikroTik"@,
        RouterVendor::Generic => "Generic"@,
    }
}

/// Name of a switch vendor.
pub open spec fn switch_vendor_name(v: SwitchVendor) -> Seq<char> {
    match v {
        SwitchVendor::Cisco => "Cisco"@,
        SwitchVendor::Juniper => "Juniper"@,
        SwitchVendor::Arista => "Arista"@,
        SwitchVendor::Generic => "Generic"@,
    }
}

/// Name of a switch layer.
pub open spec fn switch_layer_name(l: SwitchLayer) -> Seq<char> {
    match l {
        SwitchLayer::Layer2 => "Layer2"@,
        SwitchLayer::Layer3 => "Layer3"@,
        SwitchLayer::Layer4Plus => "Layer4Plus"@,
    }
}

/// Name of a host operating system.
pub open spec fn host_os_name(o: HostOS) -> Seq<char> {
    match o {
        HostOS::NixOS => "NixOS"@,
        HostOS::Ubuntu => "Ubuntu"@,
        HostOS::CentOS => "CentOS"@,
        HostOS::Alpine => "Alpine"@,
        HostOS::Windows => "Windows"@,
    }
}

/// Name of a container runtime.
pub open spec fn runtime_name(r: ContainerRuntime) -> Seq<char> {
    match r {
        ContainerRuntime::Docker => "Docker"@,
        ContainerRuntime::Podman => "Podman"@,
        ContainerRuntime::Kubernetes => "Kubernetes"@,
    }
}

/// Name of a hypervisor.
pub open spec fn hypervisor_name(h: Hypervisor) -> Seq<char> {
    match h {
        Hypervisor::KVM => "KVM"@,
        Hypervisor::VirtualBox => "VirtualBox"@,
        Hypervisor::VMware => "VMware"@,
        Hypervisor::HyperV => "HyperV"@,
    }
}

/// `Debug` text of a routing protocol.
pub open spec fn protocol_debug(p: RoutingProtocol) -> Seq<char> {
    match p {
        RoutingProtocol::OSPF { area } => "OSPF { area: "@ + str_debug(area@) + " }"@,
        RoutingProtocol::BGP { asn } => "BGP { asn: "@ + dec(asn as nat) + " }"@,
        RoutingProtocol::Static => "Static"@,
        RoutingProtocol::RIP => "RIP"@,
    }
}

/// The items of a list of routing protocols, separated by `, `.
pub open spec fn protocols_items(s: Seq<RoutingProtocol>) -> Seq<char>
    decreases s.len(),
{
    if s.len() == 0 {
        Seq::empty()
    } else if s.len() == 1 {
        protocol_debug(s[0])
    } else {
        protocols_items(s.drop_last()) + ", "@ + protocol_debug(s.last())
    }
}

/// The items of a list of strings, quoted, separated by `, `.
pub open spec fn strings_items(s: Seq<String>) -> Seq<char>
    decreases s.len(),
{
    if s.len() == 0 {
        Seq::empty()
    } else if s.len() == 1 {
        str_debug(s[0]@)
    } else {
        strings_items(s.drop_last()) + ", "@ + str_debug(s.last()@)
    }
}

/// `Debug` text of a device type.
pub open spec fn device_type_debug(t: DeviceType) -> Seq<char> {
    match t {
        DeviceType::Router { vendor, routing_protocols } => "Router { vendor: "@ + router_vendor_name(vendor)
            + ", routing_protocols: ["@ + protocols_items(routing_protocols@) + "] }"@,
        DeviceType::Switch { vendor, layer, vlan_support } => "Switch { vendor: "@ + switch_vendor_name(vendor)
            + ", layer: "@ + switch_layer_name(layer) + ", vlan_support: "@ + (if vlan_support { "true"@ } else { "false"@ })
            + " }"@,
        DeviceType::Host { os, services } => "Host { os: "@ + host_os_name(os) + ", services: ["@ + strings_items(services@)
            + "] }"@,
        DeviceType::Container { runtime, image } => "Container { runtime: "@ + runtime_name(runtime) + ", image: "@
            + str_debug(image@) + " }"@,
        DeviceType::VM { hypervisor, os } => "VM { hypervisor: "@ + hypervisor_name(hypervisor) + ", os: "@ + str_debug(os@)
            + " }"@,
    }
}

/// `Debug` text of an optional number.
pub open spec fn option_debug(o: Option<nat>) -> Seq<char> {
    match o {
        Some(n) => "Some("@ + dec(n) + ")"@,
        None => "None"@,
    }
}

/// `Debug` text of a device of a custom topology.
pub open spec fn device_spec_debug(d: DeviceSpec) -> Seq<char> {
    "DeviceSpec { name: "@ + str_debug(d.name@) + ", device_type: "@ + device_type_debug(d.device_type)
        + ", interface_count: "@ + dec(d.interface_count as nat) + ", ip_offset: "@
        + option_debug(match d.ip_offset { Some(n) => Some(n as nat), None => None }) + " }"@
}

/// `Debug` text of a connection of a custom topology.
pub open spec fn connection_spec_debug(c: ConnectionSpec) -> Seq<char> {
    "ConnectionSpec { source_device: "@ + str_debug(c.source_device@) + ", source_interface: "@
        + str_debug(c.source_interface@) + ", target_device: "@ + str_debug(c.target_device@) + ", target_interface: "@
        + str_debug(c.target_interface@) + ", vlan: "@ + option_debug(match c.vlan { Some(n) => Some(n as nat), None => None })
        + " }"@
}

/// The items of a list of custom devices.
pub open spec fn device_specs_items(s: Seq<DeviceSpec>) -> Seq<char>
    decreases s.len(),
{
    if s.len() == 0 {
        Seq::empty()
    } else if s.len() == 1 {
        device_spec_debug(s[0])
    } else {
        device_specs_items(s.drop_last()) + ", "@ + device_spec_debug(s.last())
    }
}

/// The items of a list of custom connections.
pub open spec fn connection_specs_items(s: Seq<ConnectionSpec>) -> Seq<char>
    decreases s.len(),
{
    if s.len() == 0 {
        Seq::empty()
    } else if s.len() == 1 {
        connection_spec_debug(s[0])
    } else {
        connection_specs_items(s.drop_last()) + ", "@ + connection_spec_debug(s.last())
    }
}

/// `Debug` text of a topology type.
pub open spec fn topology_type_debug(t: TopologyType) -> Seq<char> {
    match t {
        TopologyType::SingleRouter { interface_count } => "SingleRouter { interface_count: "@ + dec(interface_count as nat)
            + " }"@,
        TopologyType::RouterSwitch { switch_count, ports_per_switch } => "RouterSwitch { switch_count: "@
            + dec(switch_count as nat) + ", ports_per_switch: "@ + dec(ports_per_switch as nat) + " }"@,
        TopologyType::ThreeTier { core_count, distribution_count, access_count, hosts_per_access } =>
            "ThreeTier { core_count: "@ + dec(core_count as nat) + ", distribution_count: "@ + dec(distribution_count as nat)
                + ", access_count: "@ + dec(access_count as nat) + ", hosts_per_access: "@ + dec(hosts_per_access as nat)
                + " }"@,
        TopologyType::SpineLeaf { spine_count, leaf_count, hosts_per_leaf } => "SpineLeaf { spine_count: "@
            + dec(spine_count as nat) + ", leaf_count: "@ + dec(leaf_count as nat) + ", hosts_per_leaf: "@
            + dec(hosts_per_leaf as nat) + " }"@,
        TopologyType::Custom(spec) => "Custom(CustomTopologySpec { devices: ["@ + device_specs_items(spec.devices@)
            + "], connections: ["@ + connection_specs_items(spec.connections@) + "] })"@,
    }
}

fn push_protocol(s: &mut String, p: &RoutingProtocol)
    ensures
        final(s)@ == old(s)@ + protocol_debug(*p),
{
    let ghost start = s@;
    match p {
        RoutingProtocol::OSPF { area } => {
            push_str(s, "OSPF { area: ");
            push_str(s, debug_text(area.as_str()).as_str());
            push_str(s, " }");
        }
        RoutingProtocol::BGP { asn } => {
            push_str(s, "BGP { asn: ");
            push_dec(s, *asn as u64);
            push_str(s, " }");
        }
        RoutingProtocol::Static => push_str(s, "Static"),
        RoutingProtocol::RIP => push_str(s, "RIP"),
    }
    assert(s@ =~= start + protocol_debug(*p));
}

fn push_protocols(s: &mut String, ps: &Vec<RoutingProtocol>)
    ensures
        final(s)@ == old(s)@ + protocols_items(ps@),
{
    let ghost start = s@;
    let mut k: usize = 0;
    while k < ps.len()
        invariant
            k <= ps@.len(),
            s@ == start + protocols_items(ps@.take(k as int)),
        decreases ps@.len() - k,
    {
        assert(ps@.take(k + 1).drop_last() =~= ps@.take(k as int));
        if k > 0 {
            push_str(s, ", ");
        } else {
            assert(ps@.take(0) =~= Seq::<RoutingProtocol>::empty());
        }
        push_protocol(s, &ps[k]);
        k = k + 1;
    }
    assert(ps@.take(ps@.len() as int) =~= ps@);
}

fn push_strings(s: &mut String, xs: &Vec<String>)
    ensures
        final(s)@ == old(s)@ + strings_items(xs@),
{
    let ghost start = s@;
    let mut k: usize = 0;
    while k < xs.len()
        invariant
            k <= xs@.len(),
            s@ == start + strings_items(xs@.take(k as int)),
        decreases xs@.len() - k,
    {
        assert(xs@.take(k + 1).drop_last() =~= xs@.take(k as int));
        if k > 0 {
            push_str(s, ", ");
        } else {
            assert(xs@.take(0) =~= Seq::<String>::empty());
        }
        push_str(s, debug_text(xs[k].as_str()).as_str());
        k = k + 1;
    }
    assert(xs@.take(xs@.len() as int) =~= xs@);
}

fn push_device_type(s: &mut String, t: &DeviceType)
    ensures
        final(s)@ == old(s)@ + device_type_debug(*t),
{
    let ghost start = s@;
    match t {
        DeviceType::Router { vendor, routing_protocols } => {
            push_str(s, "Router { vendor: ");
            push_str(s, match vendor {
                RouterVendor::Cisco => "Cisco",
                RouterVendor::Juniper => "Juniper",
                RouterVendor::VyOS => "VyOS",
                RouterVendor::MikroTik => "MikroTik",
                RouterVendor::Generic => "Generic",
            });
            push_str(s, ", routing_protocols: [");
            push_protocols(s, routing_protocols);
            push_str(s, "] }");
        }
        DeviceType::Switch { vendor, layer, vlan_support } => {
            push_str(s, "Switch { vendor: ");
            push_str(s, match vendor {
                SwitchVendor::Cisco => "Cisco",
                SwitchVendor::Juniper => "Juniper",
                SwitchVendor::Arista => "Arista",
                SwitchVendor::Generic => "Generic",
            });
            push_str(s, ", layer: ");
            push_str(s, match layer {
                SwitchLayer::Layer2 => "Layer2",
                SwitchLayer::Layer3 => "Layer3",
                SwitchLayer::Layer4Plus => "Layer4Plus",
            });
            push_str(s, ", vlan_support: ");
            push_str(s, if *vlan_support { "true" } else { "false" });
            push_str(s, " }");
        }
        DeviceType::Host { os, services } => {
            push_str(s, "Host { os: ");
            push_str(s, match os {
                HostOS::NixOS => "NixOS",
                HostOS::Ubuntu => "Ubuntu",
                HostOS::CentOS => "CentOS",
                HostOS::Alpine => "Alpine",
                HostOS::Windows => "Windows",
            });
            push_str(s, ", services: [");
            push_strings(s, services);
            push_str(s, "] }");
        }
        DeviceType::Container { runtime, image } => {
            push_str(s, "Container { runtime: ");
            push_str(s, match runtime {
                ContainerRuntime::Docker => "Docker",
                ContainerRuntime::Podman => "Podman",
                ContainerRuntime::Kubernetes => "Kubernetes",
            });
            push_str(s, ", image: ");
            push_str(s, debug_text(image.as_str()).as_str());
            push_str(s, " }");
        }
        DeviceType::VM { hypervisor, os } => {
            push_str(s, "VM { hypervisor: ");
            push_str(s, match hypervisor {
                Hypervisor::KVM => "KVM",
                Hypervisor::VirtualBox => "VirtualBox",
                Hypervisor::VMware => "VMware",
                Hypervisor::HyperV => "HyperV",
            });
            push_str(s, ", os: ");
            push_str(s, debug_text(os.as_str()).as_str());
            push_str(s, " }");
        }
    }
    assert(s@ =~= start + device_type_debug(*t));
}

fn push_option(s: &mut String, o: Option<u64>)
    ensures
        final(s)@ == old(s)@ + option_debug(match o { Some(n) => Some(n as nat), None => None }),
{
    let ghost start = s@;
    match o {
        Some(n) => {
            push_str(s, "Some(");
            push_dec(s, n);
            push_str(s, ")");
        }
        None => push_str(s, "None"),
    }
    assert(s@ =~= start + option_debug(match o { Some(n) => Some(n as nat), None => None }));
}

fn push_device_spec(s: &mut String, d: &DeviceSpec)
    ensures
        final(s)@ == old(s)@ + device_spec_debug(*d),
{
    let ghost start = s@;
    push_str(s, "DeviceSpec { name: ");
    push_str(s, debug_text(d.name.as_str()).as_str());
    push_str(s, ", device_type: ");
    push_device_type(s, &d.device_type);
    push_str(s, ", interface_count: ");
    push_dec(s, d.interface_count as u64);
    push_str(s, ", ip_offset: ");
    push_option(s, match d.ip_offset { Some(n) => Some(n as u64), None => None });
    push_str(s, " }");
    assert(s@ =~= start + device_spec_debug(*d));
}

fn push_connection_spec(s: &mut String, c: &ConnectionSpec)
    ensures
        final(s)@ == old(s)@ + connection_spec_debug(*c),
{
    let ghost start = s@;
    push_str(s, "ConnectionSpec { source_device: ");
    push_str(s, debug_text(c.source_device.as_str()).as_str());
    push_str(s, ", source_interface: ");
    push_str(s, debug_text(c.source_interface.as_str()).as_str());
    push_str(s, ", target_device: ");
    push_str(s, debug_text(c.target_device.as_str()).as_str());
    push_str(s, ", target_interface: ");
    push_str(s, debug_text(c.target_interface.as_str()).as_str());
    push_str(s, ", vlan: ");
    push_option(s, match c.vlan { Some(n) => Some(n as u64), None => None });
    push_str(s, " }");
    assert(s@ =~= start + connection_spec_debug(*c));
}

fn push_custom(s: &mut String, spec: &CustomTopologySpec)
    ensures
        final(s)@ == old(s)@ + "Custom(CustomTopologySpec { devices: ["@ + device_specs_items(spec.devices@)
            + "], connections: ["@ + connection_specs_items(spec.connections@) + "] })"@,
{
    let ghost start = s@;
    push_str(s, "Custom(CustomTopologySpec { devices: [");
    let ghost a = s@;
    let ds = &spec.devices;
    let mut k: usize = 0;
    while k < ds.len()
        invariant
            k <= ds@.len(),
            s@ == a + device_specs_items(ds@.take(k as int)),
        decreases ds@.len() - k,
    {
        assert(ds@.take(k + 1).drop_last() =~= ds@.take(k as int));
        if k > 0 {
            push_str(s, ", ");
        } else {
            assert(ds@.take(0) =~= Seq::<DeviceSpec>::empty());
        }
        push_device_spec(s, &ds[k]);
        k = k + 1;
    }
    assert(ds@.take(ds@.len() as int) =~= ds@);
    push_str(s, "], connections: [");
    let ghost b = s@;
    let cs = &spec.connections;
    let mut j: usize = 0;
    while j < cs.len()
        invariant
            j <= cs@.len(),
            s@ == b + connection_specs_items(cs@.take(j as int)),
        decreases cs@.len() - j,
    {
        assert(cs@.take(j + 1).drop_last() =~= cs@.take(j as int));
        if j > 0 {
            push_str(s, ", ");
        } else {
            assert(cs@.take(0) =~= Seq::<ConnectionSpec>::empty());
        }
        push_connection_spec(s, &cs[j]);
        j = j + 1;
    }
    assert(cs@.take(cs@.len() as int) =~= cs@);
    push_str(s, "] })");
    assert(s@ =~= start + "Custom(CustomTopologySpec { devices: ["@ + device_specs_items(spec.devices@)
        + "], connections: ["@ + connection_specs_items(spec.connections@) + "] })"@);
}

/// The `Debug` text of a topology type.
pub fn topology_type_text(t: &TopologyType) -> (s: String)
    ensures
        s@ == topology_type_debug(*t),
{
    let mut s = String::new();
    let ghost start = s@;
    match t {
        TopologyType::SingleRouter { interface_count } => {
            push_str(&mut s, "SingleRouter { interface_count: ");
            push_dec(&mut s, *interface_count as u64);
            push_str(&mut s, " }");
        }
        TopologyType::RouterSwitch { switch_count, ports_per_switch } => {
            push_str(&mut s, "RouterSwitch { switch_count: ");
            push_dec(&mut s, *switch_count as u64);
            push_str(&mut s, ", ports_per_switch: ");
            push_dec(&mut s, *ports_per_switch as u64);
            push_str(&mut s, " }");
        }
        TopologyType::ThreeTier { core_count, distribution_count, access_count, hosts_per_access } => {
            push_str(&mut s, "ThreeTier { core_count: ");
            push_dec(&mut s, *core_count as u64);
            push_str(&mut s, ", distribution_count: ");
            push_dec(&mut s, *distribution_count as u64);
            push_str(&mut s, ", access_count: ");
            push_dec(&mut s, *access_count as u64);
            push_str(&mut s, ", hosts_per_access: ");
            push_dec(&mut s, *hosts_per_access as u64);
            push_str(&mut s, " }");
        }
        TopologyType::SpineLeaf { spine_count, leaf_count, hosts_per_leaf } => {
            push_str(&mut s, "SpineLeaf { spine_count: ");
            push_dec(&mut s, *spine_count as u64);
            push_str(&mut s, ", leaf_count: ");
            push_dec(&mut s, *leaf_count as u64);
            push_str(&mut s, ", hosts_per_leaf: ");
            push_dec(&mut s, *hosts_per_leaf as u64);
            push_str(&mut s, " }");
        }
        TopologyType::Custom(spec) => push_custom(&mut s, spec),
    }
    assert(s@ =~= topology_type_debug(*t));
    s
}

} // verus!

//! Text of the files a nix-topology generation writes: the flake, the
//! topology, one NixOS module per device, the deployment script and the
//! Mermaid diagram, each rendered from the template context or the
//! topology.

use vstd::prelude::*;
use crate::nix_types::{
    TemplateContext, DeviceContext, InterfaceContext, NetworkContext, ConnectionContext, ConnectionEndpointContext,
    NetworkTopologyContext, GenerationMetadata,
};
use crate::text::{dec, owned, push_str, push_char, push_dec, chars_of};
use crate::network_topology::{
    NetworkTopology, TopologyView, DeviceType, NetworkDevice, NetworkConnection, ConnectionType, InterfaceSpec, NixNetwork,
};
use crate::topology_text::{topology_type_debug, topology_type_text};
use crate::clock::{utc_now_rfc3339, utc_now_stamp};
use crate::ip::ip_text;
use crate::ids::{uuid_text, uuid_to_string};

verus! {

// ---------------------------------------------------------------------
// Replacing every occurrence of a pattern.

/// `s` with every occurrence of `p` replaced by `r`, scanning from the
/// left and resuming after each replaced occurrence (`str::replace`).
pub open spec fn replaced(s: Seq<char>, p: Seq<char>, r: Seq<char>) -> Seq<char>
    decreases s.len(),
{
    if p.len() == 0 || s.len() < p.len() {
        s
    } else if s.take(p.len() as int) == p {
        r + replaced(s.skip(p.len() as int), p, r)
    } else {
        seq![s[0]] + replaced(s.skip(1), p, r)
    }
}

/// Whether `p` occurs in `s` at position `i`.
fn occurs_at(s: &Vec<char>, i: usize, p: &Vec<char>) -> (b: bool)
    requires
        i + p@.len() <= s@.len(),
    ensures
        b == (s@.subrange(i as int, i + p@.len()) == p@),
{
    let m = p.len();
    let mut j: usize = 0;
    while j < m
        invariant
            m == p@.len(),
            i + m <= s.len(),
            j <= m,
            forall|k: int| 0 <= k < j ==> s@[i + k] == p@[k],
        decreases m - j,
    {
        if s[i + j] != p[j] {
            assert(s@.subrange(i as int, i + m)[j as int] != p@[j as int]);
            return false;
        }
        j = j + 1;
    }
    assert(s@.subrange(i as int, i + m) =~= p@);
    true
}

/// `s` with every occurrence of the non-empty pattern `p` replaced by `r`.
pub fn replace_all(s: &str, p: &str, r: &str) -> (out: String)
    requires
        p@.len() > 0,
    ensures
        out@ == replaced(s@, p@, r@),
{
    let cs = chars_of(s);
    let ps = chars_of(p);
    let n = cs.len();
    let m = ps.len();
    let mut out = String::new();
    let mut i: usize = 0;
    assert(cs@.skip(0) =~= cs@);
    while i < n
        invariant
            cs@ == s@,
            ps@ == p@,
            n == cs@.len(),
            m == ps@.len(),
            m > 0,
            i <= n,
            out@ + replaced(cs@.skip(i as int), ps@, r@) == replaced(cs@, ps@, r@),
        decreases n - i,
    {
        let ghost t = cs@.skip(i as int);
        if m <= n - i && occurs_at(&cs, i, &ps) {
            assert(t.take(m as int) =~= cs@.subrange(i as int, i + m));
            assert(t.skip(m as int) =~= cs@.skip(i + m));
            let ghost before = out@;
            push_str(&mut out, r);
            assert(out@ + replaced(cs@.skip(i + m), ps@, r@) =~= before + replaced(t, ps@, r@));
            i = i + m;
        } else {
            let c = cs[i];
            assert(t.skip(1) =~= cs@.skip(i + 1));
            if m > n - i {
                assert(t.take(m as int) != ps@ || t.len() < m);
            } else {
                assert(t.take(m as int) =~= cs@.subrange(i as int, i + m));
            }
            assert(replaced(t, ps@, r@) == seq![c] + replaced(t.skip(1), ps@, r@)) by {
                if t.len() < m {
                    assert(t.skip(1).len() < m);
                    assert(t =~= seq![c] + t.skip(1));
                }
            }
            let ghost before = out@;
            push_char(&mut out, c);
            assert(out@ + replaced(cs@.skip(i + 1), ps@, r@) =~= before + replaced(t, ps@, r@));
            i = i + 1;
        }
    }
    assert(cs@.skip(n as int) =~= Seq::<char>::empty());
    assert(out@ + replaced(cs@.skip(n as int), ps@, r@) =~= out@);
    out
}

// ---------------------------------------------------------------------
// flake.nix

/// The flake template; its slots are filled from the template context.
pub const FLAKE_TEMPLATE: &'static str = r#"{
  description = "{{ topology.name }} - Generated CIM Network Topology";
  
  inputs = {
    nixpkgs.url = "github:NixOS/nixpkgs/nixos-unstable";
    nix-topology.url = "github:oddlama/nix-topology";
    cim-network.url = "github:thecowboyai/cim-network";
  };
  
  outputs = { self, nixpkgs, nix-topology, cim-network, ... }@inputs:
    let
      system = "{{ generation_metadata.target_system }}";
      pkgs = nixpkgs.legacyPackages.${system};
      
      topology = import ./topology.nix { inherit pkgs; };
      
    in {
      packages.${system} = {
        topology = nix-topology.lib.mkTopology {
          inherit pkgs;
          modules = [ topology ];
        };
        
        validate = pkgs.writeShellScriptBin "validate-topology" ''
          echo "Validating network topology: {{ topology.name }}"
          ${pkgs.nix}/bin/nix eval .#topology --show-trace
          echo "Topology validation completed successfully"
        '';
        
        deploy = pkgs.writeShellScriptBin "deploy-network" ''
          echo "Deploying network: {{ topology.name }}"
          echo "Generated: {{ generation_metadata.generation_timestamp }}"
          echo "Devices: {{ topology.device_count }}"
          echo "Networks: {{ topology.network_count }}"
          echo "Network deployment completed"
        '';
      };
      
      nixosConfigurations = {
        {{#each devices}}
        {{ this.name }} = nixpkgs.lib.nixosSystem {
          inherit system;
          modules = [
            {{ this.nix_module_path }}
          ];
          specialArgs = { inherit inputs; };
        };
        {{/each}}
      };
      
      devShells.${system}.default = pkgs.mkShell {
        buildInputs = with pkgs; [
          nixos-rebuild
          git
        ];
        
        shellHook = ''
          echo "🌐 CIM Network Topology: {{ topology.name }}"
          echo "📊 Generated: {{ generation_metadata.generation_timestamp }}"
          echo "🔧 Devices: {{ topology.device_count }}"
          echo "🔗 Networks: {{ topology.network_count }}"
          echo ""
          echo "Available commands:"
          echo "  nix run .#validate  - Validate topology"
          echo "  nix run .#deploy    - Deploy network"
          echo "  nix run .#topology  - Generate diagram"
        '';
      };
      
      formatter.${system} = pkgs.nixpkgs-fmt;
    };
}"#;

/// Slot of the topology's name in the flake template.
pub const NAME_SLOT: &'static str = "{{ topology.name }}";

/// Slot of the target system in the flake template.
pub const SYSTEM_SLOT: &'static str = "{{ generation_metadata.target_system }}";

/// Slot of the generation time in the flake template.
pub const TIMESTAMP_SLOT: &'static str = "{{ generation_metadata.generation_timestamp }}";

/// Slot of the number of devices in the flake template.
pub const DEVICE_COUNT_SLOT: &'static str = "{{ topology.device_count }}";

/// Slot of the number of networks in the flake template.
pub const NETWORK_COUNT_SLOT: &'static str = "{{ topology.network_count }}";

/// The flake: the template with the topology's name, the target system,
/// the generation time and the numbers of devices and networks put in
/// its slots, one slot after the other.
pub open spec fn flake_text(c: TemplateContext) -> Seq<char> {
    let a = replaced(FLAKE_TEMPLATE@, NAME_SLOT@, c.topology.name@);
    let b = replaced(a, SYSTEM_SLOT@, c.generation_metadata.target_system@);
    let d = replaced(b, TIMESTAMP_SLOT@, c.generation_metadata.generation_timestamp@);
    let e = replaced(d, DEVICE_COUNT_SLOT@, dec(c.topology.device_count as nat));
    replaced(e, NETWORK_COUNT_SLOT@, dec(c.topology.network_count as nat))
}

/// Renders flake.nix.
pub fn generate_flake_nix(context: &TemplateContext) -> (s: String)
    ensures
        s@ == flake_text(*context),
{
    proof {
        reveal_strlit("{{ topology.name }}");
        reveal_strlit("{{ generation_metadata.target_system }}");
        reveal_strlit("{{ generation_metadata.generation_timestamp }}");
        reveal_strlit("{{ topology.device_count }}");
        reveal_strlit("{{ topology.network_count }}");
    }
    let a = replace_all(FLAKE_TEMPLATE, NAME_SLOT, context.topology.name.as_str());
    let b = replace_all(a.as_str(), SYSTEM_SLOT, context.generation_metadata.target_system.as_str());
    let d = replace_all(b.as_str(), TIMESTAMP_SLOT, context.generation_metadata.generation_timestamp.as_str());
    let mut devices = String::new();
    push_dec(&mut devices, context.topology.device_count as u64);
    let e = replace_all(d.as_str(), DEVICE_COUNT_SLOT, devices.as_str());
    let mut networks = String::new();
    push_dec(&mut networks, context.topology.network_count as u64);
    replace_all(e.as_str(), NETWORK_COUNT_SLOT, networks.as_str())
}

// ---------------------------------------------------------------------
// topology.nix

/// What precedes the networks in topology.nix.
pub const TOPOLOGY_HEAD: &'static str = "{ pkgs }:\n\n{\n  networks = {\n";

/// What follows the networks in topology.nix: the node and connection
/// blocks of the template, as they stand.
pub const TOPOLOGY_TAIL: &'static str = r#"
  };
  
  nodes = {
    {{#each devices}}
    {{ this.name }} = {
      deviceType = "{{ this.device_type }}";
      image = "nixos/latest";
      
      interfaces = {
        {{#each this.interfaces}}
        {{ this.name }} = {
          network = "{{ this.network }}";
          {{#if this.address}}
          address = "{{ this.address }}";
          {{/if}}
          {{#if this.dhcp}}
          enableDHCP = {{ this.dhcp }};
          {{/if}}
        };
        {{/each}}
      };
      
      {{#if this.services}}
      services = [
        {{#each this.services}}
        "{{ this }}"{{#unless @last}},{{/unless}}
        {{/each}}
      ];
      {{/if}}
    };
    {{/each}}
  };
  
  connections = [
    {{#each connections}}
    {
      from = "{{ this.source.device }}.{{ this.source.interface }}";
      to = "{{ this.target.device }}.{{ this.target.interface }}";
      type = "{{ this.connection_type }}";
      {{#if this.bandwidth}}
      bandwidth = "{{ this.bandwidth }}";
      {{/if}}
    }{{#unless @last}},{{/unless}}
    {{/each}}
  ];
}"#;

/// The text of a flag.
pub open spec fn bool_text(b: bool) -> Seq<char> {
    if b { "true"@ } else { "false"@ }
}

/// One network of topology.nix: its name, CIDR and DHCP flag, then its
/// VLAN and its gateway where it has them.
pub open spec fn network_entry(n: NetworkContext) -> Seq<char> {
    "    "@ + n.name@ + " = {\n      cidr = \""@ + n.cidr@ + "\";\n      enableDHCP = "@ + bool_text(n.dhcp) + ";\n      "@
        + vlan_part(n.vlan) + gateway_part(n.gateway) + "\n    };"@
}

/// The VLAN line of a network, where it has one.
pub open spec fn vlan_part(v: Option<u16>) -> Seq<char> {
    match v {
        Some(v) => "vlan = "@ + dec(v as nat) + ";\n      "@,
        None => Seq::empty(),
    }
}

/// The gateway line of a network, where it has one.
pub open spec fn gateway_part(g: Option<String>) -> Seq<char> {
    match g {
        Some(g) => "gateway = \""@ + g@ + "\";"@,
        None => Seq::empty(),
    }
}

/// The networks of topology.nix, one after the other, separated by line
/// breaks.
pub open spec fn networks_section(ns: Seq<NetworkContext>) -> Seq<char>
    decreases ns.len(),
{
    if ns.len() == 0 {
        Seq::empty()
    } else if ns.len() == 1 {
        network_entry(ns[0])
    } else {
        networks_section(ns.drop_last()) + "\n"@ + network_entry(ns.last())
    }
}

/// topology.nix: the template with its network block replaced by the
/// context's networks.
pub open spec fn topology_text(c: TemplateContext) -> Seq<char> {
    TOPOLOGY_HEAD@ + networks_section(c.networks@) + TOPOLOGY_TAIL@
}

fn push_bool(s: &mut String, b: bool)
    ensures
        final(s)@ == old(s)@ + bool_text(b),
{
    if b { push_str(s, "true"); } else { push_str(s, "false"); }
}

fn push_vlan_part(s: &mut String, v: Option<u16>)
    ensures
        final(s)@ == old(s)@ + vlan_part(v),
{
    match v {
        Some(v) => {
            let ghost start = s@;
            push_str(s, "vlan = ");
            push_dec(s, v as u64);
            push_str(s, ";\n      ");
            assert(s@ =~= start + vlan_part(Some(v)));
        }
        None => { assert(s@ =~= old(s)@ + vlan_part(None)); }
    }
}

fn push_gateway_part(s: &mut String, g: &Option<String>)
    ensures
        final(s)@ == old(s)@ + gateway_part(*g),
{
    match g {
        Some(t) => {
            let ghost start = s@;
            push_str(s, "gateway = \"");
            push_str(s, t.as_str());
            push_str(s, "\";");
            assert(s@ =~= start + gateway_part(*g));
        }
        None => { assert(s@ =~= old(s)@ + gateway_part(*g)); }
    }
}

fn push_network_entry(s: &mut String, n: &NetworkContext)
    ensures
        final(s)@ == old(s)@ + network_entry(*n),
{
    let ghost start = s@;
    push_str(s, "    ");
    push_str(s, n.name.as_str());
    push_str(s, " = {\n      cidr = \"");
    push_str(s, n.cidr.as_str());
    push_str(s, "\";\n      enableDHCP = ");
    push_bool(s, n.dhcp);
    push_str(s, ";\n      ");
    push_vlan_part(s, n.vlan);
    push_gateway_part(s, &n.gateway);
    push_str(s, "\n    };");
    assert(s@ =~= start + network_entry(*n));
}

/// Renders topology.nix.
pub fn generate_topology_nix(context: &TemplateContext) -> (s: String)
    ensures
        s@ == topology_text(*context),
{
    let mut s = owned(TOPOLOGY_HEAD);
    let ghost start = s@;
    let ns = &context.networks;
    let mut k: usize = 0;
    while k < ns.len()
        invariant
            k <= ns@.len(),
            s@ == start + networks_section(ns@.take(k as int)),
        decreases ns@.len() - k,
    {
        assert(ns@.take(k + 1).drop_last() =~= ns@.take(k as int));
        if k > 0 {
            push_str(&mut s, "\n");
        } else {
            assert(ns@.take(0) =~= Seq::<NetworkContext>::empty());
        }
        push_network_entry(&mut s, &ns[k]);
        k = k + 1;
    }
    assert(ns@.take(ns@.len() as int) =~= ns@);
    push_str(&mut s, TOPOLOGY_TAIL);
    s
}

// ---------------------------------------------------------------------
// Device modules

/// Opening of every device module, up to the host name.
pub const MODULE_HEAD: &'static str = "{ config, lib, pkgs, ... }:\n\n{\n  system.stateVersion = \"24.05\";\n  \n  networking = {\n    hostName = \"";

/// Between the host name and the interfaces of a device module.
pub const MODULE_INTERFACES: &'static str = "\";\n    \n    # Interface configuration\n    interfaces = {\n      ";

/// Close of a router module: forwarding, no firewall, SSH and routing tools.
pub const ROUTER_TAIL: &'static str = "\n    };\n    \n    forwarding = true;\n    firewall.enable = false;\n  };\n  \n  # Routing services\n  services = {\n    openssh = {\n      enable = true;\n      settings = {\n        PermitRootLogin = \"yes\";\n        PasswordAuthentication = true;\n      };\n    };\n  };\n  \n  environment.systemPackages = with pkgs; [\n    iproute2\n    tcpdump\n    traceroute\n  ];\n}";

/// Close of a switch module: no firewall, SSH and bridging tools.
pub const SWITCH_TAIL: &'static str = "\n    };\n    \n    firewall.enable = false;\n  };\n  \n  # Switch services\n  services = {\n    openssh = {\n      enable = true;\n      settings = {\n        PermitRootLogin = \"yes\";\n        PasswordAuthentication = true;\n      };\n    };\n  };\n  \n  environment.systemPackages = with pkgs; [\n    bridge-utils\n    vlan\n    ethtool\n  ];\n}";

/// Close of a host module: a firewall open on ports 22, 80 and 443, SSH
/// and everyday tools.
pub const HOST_TAIL: &'static str = "\n    };\n    \n    firewall.enable = true;\n    firewall.allowedTCPPorts = [ 22 80 443 ];\n  };\n  \n  services = {\n    openssh = {\n      enable = true;\n      settings = {\n        PermitRootLogin = \"yes\";\n        PasswordAuthentication = true;\n      };\n    };\n  };\n  \n  environment.systemPackages = with pkgs; [\n    curl\n    wget\n    htop\n  ];\n}";

/// Close of any other module: SSH alone.
pub const GENERIC_TAIL: &'static str = "\n    };\n  };\n  \n  services = {\n    openssh = {\n      enable = true;\n      settings = {\n        PermitRootLogin = \"yes\";\n        PasswordAuthentication = true;\n      };\n    };\n  };\n}";

/// The part of a text before its first `/`, or all of it.
pub open spec fn before_slash(s: Seq<char>) -> Seq<char>
    decreases s.len(),
{
    if s.len() == 0 {
        s
    } else if s[0] == '/' {
        Seq::empty()
    } else {
        seq![s[0]] + before_slash(s.skip(1))
    }
}

proof fn lemma_before_slash(s: Seq<char>, j: int)
    requires
        0 <= j <= s.len(),
        forall|k: int| 0 <= k < j ==> s[k] != '/',
        j == s.len() || s[j] == '/',
    ensures
        before_slash(s) == s.take(j),
    decreases j,
{
    if j == 0 {
        assert(s.take(0) =~= Seq::<char>::empty());
    } else {
        let t = s.skip(1);
        assert forall|k: int| 0 <= k < j - 1 implies t[k] != '/' by {
            assert(t[k] == s[k + 1]);
        }
        lemma_before_slash(t, j - 1);
        assert(seq![s[0]] + t.take(j - 1) =~= s.take(j));
    }
}

/// The address line of an interface: its IPv4 address, without the
/// prefix length, as a /24; nothing where it has no address.
pub open spec fn address_line(a: Option<String>) -> Seq<char> {
    match a {
        Some(addr) => "ipv4.addresses = [{ address = \""@ + before_slash(addr@) + "\"; prefixLength = 24; }];"@,
        None => Seq::empty(),
    }
}

/// The block of one interface in a device module.
pub open spec fn interface_entry(f: InterfaceContext) -> Seq<char> {
    f.name@ + " = {\n        "@ + address_line(f.address) + "\n      };"@
}

/// The interface blocks of a device module, joined by a line break and
/// the block's indentation.
pub open spec fn interfaces_text(fs: Seq<InterfaceContext>) -> Seq<char>
    decreases fs.len(),
{
    if fs.len() == 0 {
        Seq::empty()
    } else if fs.len() == 1 {
        interface_entry(fs[0])
    } else {
        interfaces_text(fs.drop_last()) + "\n      "@ + interface_entry(fs.last())
    }
}

/// A device module up to its close: host name and interfaces.
pub open spec fn module_body(d: DeviceContext) -> Seq<char> {
    MODULE_HEAD@ + d.name@ + MODULE_INTERFACES@ + interfaces_text(d.interfaces@)
}

/// The close of a device's module, chosen by its type: `router`,
/// `switch`, `host`, or any other.
pub open spec fn module_tail(kind: Seq<char>) -> Seq<char> {
    if kind == "router"@ {
        ROUTER_TAIL@
    } else if kind == "switch"@ {
        SWITCH_TAIL@
    } else if kind == "host"@ {
        HOST_TAIL@
    } else {
        GENERIC_TAIL@
    }
}

/// The NixOS module of a device.
pub open spec fn device_module_text(d: DeviceContext) -> Seq<char> {
    module_body(d) + module_tail(d.device_type@)
}

fn push_address_line(s: &mut String, a: &Option<String>)
    ensures
        final(s)@ == old(s)@ + address_line(*a),
{
    match a {
        Some(addr) => {
            let cs = chars_of(addr.as_str());
            let mut j: usize = 0;
            while j < cs.len() && cs[j] != '/'
                invariant
                    j <= cs@.len(),
                    forall|k: int| 0 <= k < j ==> cs@[k] != '/',
                decreases cs@.len() - j,
            {
                j = j + 1;
            }
            proof { lemma_before_slash(cs@, j as int); }
            push_str(s, "ipv4.addresses = [{ address = \"");
            push_str(s, crate::params::string_of(&cs, 0, j).as_str());
            push_str(s, "\"; prefixLength = 24; }];");
        }
        None => {}
    }
}

fn push_interfaces(s: &mut String, fs: &Vec<InterfaceContext>)
    ensures
        final(s)@ == old(s)@ + interfaces_text(fs@),
{
    let ghost start = s@;
    let mut k: usize = 0;
    while k < fs.len()
        invariant
            k <= fs@.len(),
            s@ == start + interfaces_text(fs@.take(k as int)),
        decreases fs@.len() - k,
    {
        assert(fs@.take(k + 1).drop_last() =~= fs@.take(k as int));
        if k > 0 {
            push_str(s, "\n      ");
        } else {
            assert(fs@.take(0) =~= Seq::<InterfaceContext>::empty());
        }
        let f = &fs[k];
        push_str(s, f.name.as_str());
        push_str(s, " = {\n        ");
        push_address_line(s, &f.address);
        push_str(s, "\n      };");
        k = k + 1;
    }
    assert(fs@.take(fs@.len() as int) =~= fs@);
}

fn module_with_tail(device: &DeviceContext, tail: &str) -> (s: String)
    ensures
        s@ == module_body(*device) + tail@,
{
    let mut s = owned(MODULE_HEAD);
    push_str(&mut s, device.name.as_str());
    push_str(&mut s, MODULE_INTERFACES);
    push_interfaces(&mut s, &device.interfaces);
    push_str(&mut s, tail);
    s
}

/// The module of a router.
pub fn generate_router_module(device: &DeviceContext) -> (s: String)
    ensures
        s@ == module_body(*device) + ROUTER_TAIL@,
{
    module_with_tail(device, ROUTER_TAIL)
}

/// The module of a switch.
pub fn generate_switch_module(device: &DeviceContext) -> (s: String)
    ensures
        s@ == module_body(*device) + SWITCH_TAIL@,
{
    module_with_tail(device, SWITCH_TAIL)
}

/// The module of a host.
pub fn generate_host_module(device: &DeviceContext) -> (s: String)
    ensures
        s@ == module_body(*device) + HOST_TAIL@,
{
    module_with_tail(device, HOST_TAIL)
}

/// The module of any other device.
pub fn generate_generic_module(device: &DeviceContext) -> (s: String)
    ensures
        s@ == module_body(*device) + GENERIC_TAIL@,
{
    module_with_tail(device, GENERIC_TAIL)
}

/// The module of a device, by its type.
pub fn generate_device_module(device: &DeviceContext) -> (s: String)
    ensures
        s@ == device_module_text(*device),
{
    let kind = device.device_type.as_str();
    if crate::params::same_text(kind, "router") {
        generate_router_module(device)
    } else if crate::params::same_text(kind, "switch") {
        generate_switch_module(device)
    } else if crate::params::same_text(kind, "host") {
        generate_host_module(device)
    } else {
        generate_generic_module(device)
    }
}

// ---------------------------------------------------------------------
// The deployment script

/// Opening of the deployment script, up to the network's name.
pub const DEPLOY_HEAD: &'static str = "#!/usr/bin/env bash\nset -euo pipefail\n\necho \"🌐 Deploying CIM Network: ";

/// Between the network's name and the generation time.
pub const DEPLOY_GENERATED: &'static str = "\"\necho \"📊 Generated: ";

/// Between the generation time and the number of devices.
pub const DEPLOY_DEVICES: &'static str = "\"\necho \"🔧 Devices: ";

/// Between the number of devices and the per-device steps: the topology
/// is validated first.
pub const DEPLOY_STEPS: &'static str = "\"\n\n# Validate topology first\necho \"Validating topology...\"\nnix run .#validate\n\n# Deploy each device\n";

/// Close of the deployment script.
pub const DEPLOY_TAIL: &'static str = "\n\necho \"✅ Network deployment completed successfully\"\n";

/// The step of one device: an announcement and the (commented out)
/// rebuild of the device's configuration on its address.
pub open spec fn deploy_step(d: DeviceContext) -> Seq<char> {
    "echo \"Deploying "@ + d.name@ + "...\"\n# nixos-rebuild switch --flake .#"@ + d.name@ + " --target-host "@ + d.ip_address@
}

/// The device steps, separated by line breaks.
pub open spec fn deploy_steps(ds: Seq<DeviceContext>) -> Seq<char>
    decreases ds.len(),
{
    if ds.len() == 0 {
        Seq::empty()
    } else if ds.len() == 1 {
        deploy_step(ds[0])
    } else {
        deploy_steps(ds.drop_last()) + "\n"@ + deploy_step(ds.last())
    }
}

/// The deployment script of a context.
pub open spec fn deploy_script_text(c: TemplateContext) -> Seq<char> {
    DEPLOY_HEAD@ + c.topology.name@ + DEPLOY_GENERATED@ + c.generation_metadata.generation_timestamp@
        + DEPLOY_DEVICES@ + dec(c.topology.device_count as nat) + DEPLOY_STEPS@ + deploy_steps(c.devices@) + DEPLOY_TAIL@
}

/// Renders the deployment script (`scripts/deploy.sh`).
pub fn generate_deployment_script(context: &TemplateContext) -> (s: String)
    ensures
        s@ == deploy_script_text(*context),
{
    let mut s = owned(DEPLOY_HEAD);
    push_str(&mut s, context.topology.name.as_str());
    push_str(&mut s, DEPLOY_GENERATED);
    push_str(&mut s, context.generation_metadata.generation_timestamp.as_str());
    push_str(&mut s, DEPLOY_DEVICES);
    push_dec(&mut s, context.topology.device_count as u64);
    push_str(&mut s, DEPLOY_STEPS);
    let ghost start = s@;
    let ds = &context.devices;
    let mut k: usize = 0;
    while k < ds.len()
        invariant
            k <= ds@.len(),
            s@ == start + deploy_steps(ds@.take(k as int)),
        decreases ds@.len() - k,
    {
        assert(ds@.take(k + 1).drop_last() =~= ds@.take(k as int));
        if k > 0 {
            push_str(&mut s, "\n");
        } else {
            assert(ds@.take(0) =~= Seq::<DeviceContext>::empty());
        }
        let d = &ds[k];
        push_str(&mut s, "echo \"Deploying ");
        push_str(&mut s, d.name.as_str());
        push_str(&mut s, "...\"\n# nixos-rebuild switch --flake .#");
        push_str(&mut s, d.name.as_str());
        push_str(&mut s, " --target-host ");
        push_str(&mut s, d.ip_address.as_str());
        k = k + 1;
    }
    assert(ds@.take(ds@.len() as int) =~= ds@);
    push_str(&mut s, DEPLOY_TAIL);
    s
}

// ---------------------------------------------------------------------
// Names and the Mermaid diagram

/// The word for a device's type: `router`, `switch`, `host`,
/// `container` or `vm`.
pub open spec fn device_type_label(t: DeviceType) -> Seq<char> {
    match t {
        DeviceType::Router { .. } => "router"@,
        DeviceType::Switch { .. } => "switch"@,
        DeviceType::Host { .. } => "host"@,
        DeviceType::Container { .. } => "container"@,
        DeviceType::VM { .. } => "vm"@,
    }
}

/// The word for a device's type.
pub fn device_type_to_string(device_type: &DeviceType) -> (s: String)
    ensures
        s@ == device_type_label(*device_type),
{
    match device_type {
        DeviceType::Router { .. } => owned("router"),
        DeviceType::Switch { .. } => owned("switch"),
        DeviceType::Host { .. } => owned("host"),
        DeviceType::Container { .. } => owned("container"),
        DeviceType::VM { .. } => owned("vm"),
    }
}

/// A name with `-` and `.` spelled as `_`.
pub open spec fn sanitized(s: Seq<char>) -> Seq<char> {
    s.map_values(|c: char| if c == '-' || c == '.' { '_' } else { c })
}

/// A name fit for a diagram node: `-` and `.` become `_`.
pub fn sanitize_name(name: &str) -> (s: String)
    ensures
        s@ == sanitized(name@),
{
    let cs = chars_of(name);
    let mut s = String::new();
    let mut k: usize = 0;
    while k < cs.len()
        invariant
            k <= cs@.len(),
            cs@ == name@,
            s@ == sanitized(cs@.take(k as int)),
        decreases cs@.len() - k,
    {
        let c = cs[k];
        if c == '-' || c == '.' {
            push_char(&mut s, '_');
        } else {
            push_char(&mut s, c);
        }
        assert(s@ =~= sanitized(cs@.take(k + 1)));
        k = k + 1;
    }
    assert(cs@.take(cs@.len() as int) =~= cs@);
    s
}

/// The debug name of a connection type.
pub open spec fn connection_type_name(t: ConnectionType) -> Seq<char> {
    match t {
        ConnectionType::Ethernet => "Ethernet"@,
        ConnectionType::Fiber => "Fiber"@,
        ConnectionType::Serial => "Serial"@,
        ConnectionType::Wireless => "Wireless"@,
        ConnectionType::Virtual => "Virtual"@,
    }
}

fn connection_type_text(t: ConnectionType) -> (s: &'static str)
    ensures
        s@ == connection_type_name(t),
{
    match t {
        ConnectionType::Ethernet => "Ethernet",
        ConnectionType::Fiber => "Fiber",
        ConnectionType::Serial => "Serial",
        ConnectionType::Wireless => "Wireless",
        ConnectionType::Virtual => "Virtual",
    }
}

/// Mark between a device's type and its name in a diagram node.
pub const DEVICE_MARK: &'static str = "📱";

/// The diagram node of a device: its sanitized name, then its type, name
/// and address as the label.
pub open spec fn mermaid_node(d: NetworkDevice) -> Seq<char> {
    "        "@ + sanitized(d.name@) + "["@ + device_type_label(d.device_type) + DEVICE_MARK@ + d.name@ + "<br/>"@
        + ip_text(d.ip_address) + "]\n"@
}

/// The diagram edge of a connection, labelled by its type.
pub open spec fn mermaid_edge(c: NetworkConnection) -> Seq<char> {
    "    device_"@ + uuid_text(c.source.device_id.value) + " ---|"@ + connection_type_name(c.connection_type)
        + "| device_"@ + uuid_text(c.target.device_id.value) + "\n"@
}

/// The nodes of the devices, in order.
pub open spec fn mermaid_nodes(ds: Seq<NetworkDevice>) -> Seq<char>
    decreases ds.len(),
{
    if ds.len() == 0 { Seq::empty() } else { mermaid_nodes(ds.drop_last()) + mermaid_node(ds.last()) }
}

/// The edges of the connections, in order.
pub open spec fn mermaid_edges(cs: Seq<NetworkConnection>) -> Seq<char>
    decreases cs.len(),
{
    if cs.len() == 0 { Seq::empty() } else { mermaid_edges(cs.drop_last()) + mermaid_edge(cs.last()) }
}

/// Style classes closing the diagram.
pub const MERMAID_STYLES: &'static str = "\n    classDef router fill:#e1f5fe\n    classDef switch fill:#f3e5f5\n    classDef host fill:#e8f5e8\n";

/// The Mermaid diagram of a topology: a subgraph named after the network
/// holding a node per device, then an edge per connection, then the style
/// classes.
pub open spec fn mermaid_text(v: TopologyView) -> Seq<char> {
    "graph TB\n"@ + "    subgraph \"Network: "@ + v.name + " ("@ + ip_text(v.base_ip.ip) + seq!['/'] + dec(v.base_ip.prefix as nat)
        + ")\"\n"@ + mermaid_nodes(v.devices) + "    end\n\n"@ + mermaid_edges(v.connections) + MERMAID_STYLES@
}

/// Renders the Mermaid diagram of a topology (`docs/network-diagram.mmd`).
pub fn generate_mermaid_diagram(topology: &NetworkTopology) -> (s: String)
    ensures
        s@ == mermaid_text(topology@),
{
    let mut s = owned("graph TB\n");
    push_str(&mut s, "    subgraph \"Network: ");
    push_str(&mut s, topology.name().as_str());
    push_str(&mut s, " (");
    push_str(&mut s, topology.base_ip().to_string().as_str());
    push_str(&mut s, ")\"\n");
    let ghost start = s@;
    let ds = topology.devices();
    let mut k: usize = 0;
    while k < ds.len()
        invariant
            k <= ds@.len(),
            s@ == start + mermaid_nodes(ds@.take(k as int)),
        decreases ds@.len() - k,
    {
        assert(ds@.take(k + 1).drop_last() =~= ds@.take(k as int));
        let d = &ds[k];
        let ghost before = s@;
        push_str(&mut s, "        ");
        push_str(&mut s, sanitize_name(d.name.as_str()).as_str());
        push_str(&mut s, "[");
        push_str(&mut s, device_type_to_string(&d.device_type).as_str());
        push_str(&mut s, DEVICE_MARK);
        push_str(&mut s, d.name.as_str());
        push_str(&mut s, "<br/>");
        push_str(&mut s, d.ip_address.to_string().as_str());
        push_str(&mut s, "]\n");
        assert(s@ =~= before + mermaid_node(ds@[k as int]));
        k = k + 1;
    }
    assert(ds@.take(ds@.len() as int) =~= ds@);
    push_str(&mut s, "    end\n\n");
    let ghost mid = s@;
    let cs = topology.connections();
    let mut j: usize = 0;
    while j < cs.len()
        invariant
            j <= cs@.len(),
            s@ == mid + mermaid_edges(cs@.take(j as int)),
        decreases cs@.len() - j,
    {
        assert(cs@.take(j + 1).drop_last() =~= cs@.take(j as int));
        let c = &cs[j];
        let ghost before = s@;
        push_str(&mut s, "    device_");
        push_str(&mut s, c.source.device_id.to_string().as_str());
        push_str(&mut s, " ---|");
        push_str(&mut s, connection_type_text(c.connection_type));
        push_str(&mut s, "| device_");
        push_str(&mut s, c.target.device_id.to_string().as_str());
        push_str(&mut s, "\n");
        assert(s@ =~= before + mermaid_edge(cs@[j as int]));
        j = j + 1;
    }
    assert(cs@.take(cs@.len() as int) =~= cs@);
    push_str(&mut s, MERMAID_STYLES);
    s
}

// ---------------------------------------------------------------------
// The template context of a topology

/// The context of an interface: its name on the `lan` network, its
/// address with the prefix length (24 where none is given), no DHCP.
pub open spec fn interface_context_ok(f: InterfaceSpec, c: InterfaceContext) -> bool {
    &&& c.name@ == f.name@
    &&& c.network@ == "lan"@
    &&& match f.ip_address {
        Some(ip) => c.address is Some && c.address.unwrap()@ == ip_text(ip) + "/"@
            + dec(match f.subnet_mask { Some(m) => m as nat, None => 24 }),
        None => c.address is None,
    }
    &&& !c.dhcp
    &&& c.enabled == f.enabled
}

/// The context of a device: name, type word, address, interfaces, the
/// names of its services, and its module path `./modules/<name>.nix`.
pub open spec fn device_context_ok(d: NetworkDevice, c: DeviceContext) -> bool {
    &&& c.name@ == d.name@
    &&& c.device_type@ == device_type_label(d.device_type)
    &&& c.ip_address@ == ip_text(d.ip_address)
    &&& c.interfaces@.len() == d.interfaces@.len()
    &&& forall|i: int| 0 <= i < d.interfaces@.len() ==> interface_context_ok(d.interfaces@[i], #[trigger] c.interfaces@[i])
    &&& c.services@.len() == d.services@.len()
    &&& forall|i: int| 0 <= i < d.services@.len() ==> (#[trigger] c.services@[i])@ == d.services@[i].name@
    &&& c.nix_module_path@ == "./modules/"@ + d.name@ + ".nix"@
}

/// The context of a generated network: its parts as they are.
pub open spec fn network_context_ok(n: NixNetwork, c: NetworkContext) -> bool {
    &&& c.name@ == n.name@
    &&& c.cidr@ == n.cidr@
    &&& c.vlan == n.vlan
    &&& c.dhcp == n.dhcp
    &&& match n.gateway {
        Some(g) => c.gateway is Some && c.gateway.unwrap()@ == g@,
        None => c.gateway is None,
    }
}

/// The context of a connection: `device_<id>` and `interface_<id>` at each
/// end, the connection type's name, and the bandwidth as `<speed>Mbps`.
pub open spec fn connection_context_ok(n: NetworkConnection, c: ConnectionContext) -> bool {
    &&& c.source.device@ == "device_"@ + uuid_text(n.source.device_id.value)
    &&& c.source.interface@ == "interface_"@ + uuid_text(n.source.interface_id.value)
    &&& c.target.device@ == "device_"@ + uuid_text(n.target.device_id.value)
    &&& c.target.interface@ == "interface_"@ + uuid_text(n.target.interface_id.value)
    &&& c.connection_type@ == connection_type_name(n.connection_type)
    &&& match n.bandwidth {
        Some(b) => c.bandwidth is Some && c.bandwidth.unwrap()@ == dec(b.speed as nat) + "Mbps"@,
        None => c.bandwidth is None,
    }
}

/// The networks of a topology's context: those of its generated
/// configuration, or else one `lan` over the base network with the
/// network's second address as gateway.
pub open spec fn networks_ok(v: TopologyView, ns: Seq<NetworkContext>) -> bool {
    match v.nix_config {
        Some(cfg) => ns.len() == cfg.networks@.len()
            && forall|i: int| 0 <= i < ns.len() ==> network_context_ok(cfg.networks@[i], #[trigger] ns[i]),
        None => ns.len() == 1 && ns[0].name@ == "lan"@
            && ns[0].cidr@ == ip_text(v.base_ip.ip) + seq!['/'] + dec(v.base_ip.prefix as nat)
            && ns[0].vlan is None && !ns[0].dhcp
            && ns[0].gateway is Some && ns[0].gateway.unwrap()@ == ip_text(v.base_ip.nth_spec(1).unwrap()),
    }
}

/// The template context of a topology at a generation time.
pub open spec fn template_context_ok(v: TopologyView, timestamp: Seq<char>, c: TemplateContext) -> bool {
    &&& c.topology.name@ == v.name
    &&& c.topology.base_network@ == ip_text(v.base_ip.ip) + seq!['/'] + dec(v.base_ip.prefix as nat)
    &&& c.topology.topology_type@ == topology_type_debug(v.topology_type)
    &&& c.topology.device_count == v.devices.len()
    &&& c.topology.network_count == match v.nix_config { Some(cfg) => cfg.networks@.len(), None => 0 }
    &&& c.devices@.len() == v.devices.len()
    &&& forall|i: int| 0 <= i < v.devices.len() ==> device_context_ok(v.devices[i], #[trigger] c.devices@[i])
    &&& networks_ok(v, c.networks@)
    &&& c.connections@.len() == v.connections.len()
    &&& forall|i: int| 0 <= i < v.connections.len() ==> connection_context_ok(v.connections[i], #[trigger] c.connections@[i])
    &&& c.generation_metadata.generation_timestamp@ == timestamp
    &&& c.generation_metadata.generator_version@ == "0.1.0"@
    &&& c.generation_metadata.target_system@ == "x86_64-linux"@
}

fn interface_context(f: &InterfaceSpec) -> (c: InterfaceContext)
    ensures
        interface_context_ok(*f, c),
{
    let address = match f.ip_address {
        Some(ip) => {
            let mut a = ip.to_string();
            push_str(&mut a, "/");
            let mask: u8 = match f.subnet_mask { Some(m) => m, None => 24 };
            push_dec(&mut a, mask as u64);
            Some(a)
        }
        None => None,
    };
    InterfaceContext { name: f.name.clone(), network: owned("lan"), address, dhcp: false, enabled: f.enabled }
}

fn device_context(d: &NetworkDevice) -> (c: DeviceContext)
    ensures
        device_context_ok(*d, c),
{
    let mut interfaces: Vec<InterfaceContext> = Vec::new();
    let mut k: usize = 0;
    while k < d.interfaces.len()
        invariant
            k <= d.interfaces@.len(),
            interfaces@.len() == k,
            forall|i: int| 0 <= i < k ==> interface_context_ok(d.interfaces@[i], #[trigger] interfaces@[i]),
        decreases d.interfaces@.len() - k,
    {
        interfaces.push(interface_context(&d.interfaces[k]));
        k = k + 1;
    }
    let mut services: Vec<String> = Vec::new();
    let mut j: usize = 0;
    while j < d.services.len()
        invariant
            j <= d.services@.len(),
            services@.len() == j,
            forall|i: int| 0 <= i < j ==> (#[trigger] services@[i])@ == d.services@[i].name@,
        decreases d.services@.len() - j,
    {
        services.push(d.services[j].name.clone());
        j = j + 1;
    }
    let mut path = owned("./modules/");
    push_str(&mut path, d.name.as_str());
    push_str(&mut path, ".nix");
    DeviceContext {
        name: d.name.clone(),
        device_type: device_type_to_string(&d.device_type),
        ip_address: d.ip_address.to_string(),
        interfaces,
        services,
        nix_module_path: path,
    }
}

fn tagged_id(tag: &str, value: u128) -> (s: String)
    ensures
        s@ == tag@ + uuid_text(value),
{
    let mut s = owned(tag);
    push_str(&mut s, uuid_to_string(value).as_str());
    s
}

fn connection_context(n: &NetworkConnection) -> (c: ConnectionContext)
    ensures
        connection_context_ok(*n, c),
{
    let bandwidth = match n.bandwidth {
        Some(b) => {
            let mut t = String::new();
            push_dec(&mut t, b.speed);
            push_str(&mut t, "Mbps");
            Some(t)
        }
        None => None,
    };
    ConnectionContext {
        source: ConnectionEndpointContext {
            device: tagged_id("device_", n.source.device_id.value),
            interface: tagged_id("interface_", n.source.interface_id.value),
        },
        target: ConnectionEndpointContext {
            device: tagged_id("device_", n.target.device_id.value),
            interface: tagged_id("interface_", n.target.interface_id.value),
        },
        connection_type: owned(connection_type_text(n.connection_type)),
        bandwidth,
    }
}

fn network_context(n: &NixNetwork) -> (c: NetworkContext)
    ensures
        network_context_ok(*n, c),
{
    NetworkContext {
        name: n.name.clone(),
        cidr: n.cidr.clone(),
        vlan: n.vlan,
        dhcp: n.dhcp,
        gateway: match &n.gateway { Some(g) => Some(g.clone()), None => None },
    }
}

/// The template context of a topology, generated at the given time.
/// Without a generated configuration the one network is the base network,
/// whose second address must exist to be the gateway.
pub fn build_template_context_at(topology: &NetworkTopology, timestamp: String) -> (c: TemplateContext)
    requires
        topology@.nix_config is None ==> topology@.base_ip.nth_spec(1) is Some,
    ensures
        template_context_ok(topology@, timestamp@, c),
{
    let ds = topology.devices();
    let mut devices: Vec<DeviceContext> = Vec::new();
    let mut k: usize = 0;
    while k < ds.len()
        invariant
            k <= ds@.len(),
            devices@.len() == k,
            forall|i: int| 0 <= i < k ==> device_context_ok(ds@[i], #[trigger] devices@[i]),
        decreases ds@.len() - k,
    {
        devices.push(device_context(&ds[k]));
        k = k + 1;
    }
    let cs = topology.connections();
    let mut connections: Vec<ConnectionContext> = Vec::new();
    let mut j: usize = 0;
    while j < cs.len()
        invariant
            j <= cs@.len(),
            connections@.len() == j,
            forall|i: int| 0 <= i < j ==> connection_context_ok(cs@[i], #[trigger] connections@[i]),
        decreases cs@.len() - j,
    {
        connections.push(connection_context(&cs[j]));
        j = j + 1;
    }
    let base = topology.base_ip();
    let (networks, network_count) = match topology.nix_config() {
        Some(cfg) => {
            let mut ns: Vec<NetworkContext> = Vec::new();
            let mut m: usize = 0;
            while m < cfg.networks.len()
                invariant
                    m <= cfg.networks@.len(),
                    ns@.len() == m,
                    forall|i: int| 0 <= i < m ==> network_context_ok(cfg.networks@[i], #[trigger] ns@[i]),
                decreases cfg.networks@.len() - m,
            {
                ns.push(network_context(&cfg.networks[m]));
                m = m + 1;
            }
            (ns, cfg.networks.len())
        }
        None => {
            let gateway = match base.nth(1) {
                Some(g) => g.to_string(),
                None => String::new(),
            };
            let mut ns: Vec<NetworkContext> = Vec::new();
            ns.push(NetworkContext { name: owned("lan"), cidr: base.to_string(), vlan: None, dhcp: false, gateway: Some(gateway) });
            (ns, 0)
        }
    };
    TemplateContext {
        topology: NetworkTopologyContext {
            name: topology.name().clone(),
            base_network: base.to_string(),
            topology_type: topology_type_text(topology.topology_type()),
            device_count: ds.len(),
            network_count,
        },
        devices,
        networks,
        connections,
        generation_metadata: GenerationMetadata {
            generation_timestamp: timestamp,
            generator_version: owned("0.1.0"),
            target_system: owned("x86_64-linux"),
        },
    }
}

/// The template context of a topology, generated now (the time as RFC 3339
/// text).
pub fn build_template_context(topology: &NetworkTopology) -> (c: TemplateContext)
    requires
        topology@.nix_config is None ==> topology@.base_ip.nth_spec(1) is Some,
    ensures
        exists|t: Seq<char>| template_context_ok(topology@, t, c),
{
    build_template_context_at(topology, utc_now_rfc3339())
}

// ---------------------------------------------------------------------
// The README

/// Opening of the README, before the network's name.
pub const README_TITLE: &'static str = "# ";

/// After the title, before the name again.
pub const README_INTRO: &'static str = " Network Deployment\n\nThis directory contains the generated Nix configuration for deploying the \"";

/// Before the base network.
pub const README_BASE: &'static str = "\" network topology.\n\n## Network Overview\n\n- **Base Network**: ";

/// Before the topology type.
pub const README_TYPE: &'static str = "\n- **Topology Type**: ";

/// Before the number of devices.
pub const README_COUNT: &'static str = "\n- **Device Count**: ";

/// Before the generation time.
pub const README_GENERATED: &'static str = "\n- **Generated**: ";

/// Quick start and file layout, before the device list.
pub const README_DEVICES: &'static str = "\n\n## Quick Start\n\n1. **Validate the topology**:\n   ```bash\n   nix run .#validate\n   ```\n\n2. **Deploy the network**:\n   ```bash\n   nix run .#deploy\n   ```\n\n3. **Generate network diagram**:\n   ```bash\n   nix run .#topology\n   ```\n\n## Files Structure\n\n- `flake.nix` - Main Nix flake configuration\n- `topology.nix` - Network topology definition\n- `modules/` - Device-specific NixOS modules\n- `scripts/` - Deployment and management scripts\n- `docs/` - Generated documentation\n\n## Device Configuration\n\n";

/// Before the LAN network.
pub const README_LAN: &'static str = "\n\n## Network Configuration\n\n- **LAN Network**: ";

/// Before the gateway.
pub const README_GATEWAY: &'static str = "\n- **Gateway**: ";

/// Before the deployment commands.
pub const README_COMMANDS: &'static str = "\n\n## Deployment Commands\n\nEach device can be deployed individually:\n\n```bash\n";

/// Close of the README.
pub const README_TAIL: &'static str = "\n```\n\n## Generated with CIM-Network\n\nThis configuration was generated using the CIM-Network module with nix-topology integration.\nFor more information, see: https://github.com/thecowboyai/cim-network\n";

/// A device's line in the README: name, type word and address.
pub open spec fn readme_device_line(d: NetworkDevice) -> Seq<char> {
    "- **"@ + d.name@ + "** ("@ + device_type_label(d.device_type) + "): "@ + ip_text(d.ip_address)
}

/// A device's deployment command in the README.
pub open spec fn readme_deploy_entry(d: NetworkDevice) -> Seq<char> {
    "# Deploy "@ + d.name@ + "\nnixos-rebuild switch --flake .#"@ + d.name@ + " --target-host "@ + ip_text(d.ip_address)
}

/// The device lines, separated by line breaks.
pub open spec fn readme_device_lines(ds: Seq<NetworkDevice>) -> Seq<char>
    decreases ds.len(),
{
    if ds.len() == 0 {
        Seq::empty()
    } else if ds.len() == 1 {
        readme_device_line(ds[0])
    } else {
        readme_device_lines(ds.drop_last()) + "\n"@ + readme_device_line(ds.last())
    }
}

/// The deployment commands, separated by blank lines.
pub open spec fn readme_deploy_entries(ds: Seq<NetworkDevice>) -> Seq<char>
    decreases ds.len(),
{
    if ds.len() == 0 {
        Seq::empty()
    } else if ds.len() == 1 {
        readme_deploy_entry(ds[0])
    } else {
        readme_deploy_entries(ds.drop_last()) + "\n\n"@ + readme_deploy_entry(ds.last())
    }
}

/// The README of a topology generated at a time: overview, quick start,
/// file layout, devices, network and per-device deployment commands.
pub open spec fn readme_text(v: TopologyView, generated: Seq<char>) -> Seq<char> {
    let base = ip_text(v.base_ip.ip) + seq!['/'] + dec(v.base_ip.prefix as nat);
    README_TITLE@ + v.name + README_INTRO@ + v.name + README_BASE@ + base + README_TYPE@ + topology_type_debug(v.topology_type)
        + README_COUNT@ + dec(v.devices.len()) + README_GENERATED@ + generated + README_DEVICES@ + readme_device_lines(v.devices)
        + README_LAN@ + base + README_GATEWAY@ + ip_text(v.base_ip.nth_spec(1).unwrap()) + README_COMMANDS@
        + readme_deploy_entries(v.devices) + README_TAIL@
}

fn push_device_lines(s: &mut String, ds: &Vec<NetworkDevice>)
    ensures
        final(s)@ == old(s)@ + readme_device_lines(ds@),
{
    let ghost start = s@;
    let mut k: usize = 0;
    while k < ds.len()
        invariant
            k <= ds@.len(),
            s@ == start + readme_device_lines(ds@.take(k as int)),
        decreases ds@.len() - k,
    {
        assert(ds@.take(k + 1).drop_last() =~= ds@.take(k as int));
        if k > 0 {
            push_str(s, "\n");
        } else {
            assert(ds@.take(0) =~= Seq::<NetworkDevice>::empty());
        }
        let d = &ds[k];
        let ghost before = s@;
        push_str(s, "- **");
        push_str(s, d.name.as_str());
        push_str(s, "** (");
        push_str(s, device_type_to_string(&d.device_type).as_str());
        push_str(s, "): ");
        push_str(s, d.ip_address.to_string().as_str());
        assert(s@ =~= before + readme_device_line(ds@[k as int]));
        k = k + 1;
    }
    assert(ds@.take(ds@.len() as int) =~= ds@);
}

fn push_deploy_entries(s: &mut String, ds: &Vec<NetworkDevice>)
    ensures
        final(s)@ == old(s)@ + readme_deploy_entries(ds@),
{
    let ghost start = s@;
    let mut k: usize = 0;
    while k < ds.len()
        invariant
            k <= ds@.len(),
            s@ == start + readme_deploy_entries(ds@.take(k as int)),
        decreases ds@.len() - k,
    {
        assert(ds@.take(k + 1).drop_last() =~= ds@.take(k as int));
        if k > 0 {
            push_str(s, "\n\n");
        } else {
            assert(ds@.take(0) =~= Seq::<NetworkDevice>::empty());
        }
        let d = &ds[k];
        let ghost before = s@;
        push_str(s, "# Deploy ");
        push_str(s, d.name.as_str());
        push_str(s, "\nnixos-rebuild switch --flake .#");
        push_str(s, d.name.as_str());
        push_str(s, " --target-host ");
        push_str(s, d.ip_address.to_string().as_str());
        assert(s@ =~= before + readme_deploy_entry(ds@[k as int]));
        k = k + 1;
    }
    assert(ds@.take(ds@.len() as int) =~= ds@);
}

/// Renders the README of a topology generated at the given time
/// (`docs/README.md`); the network's second address is its gateway.
pub fn generate_readme_at(topology: &NetworkTopology, generated: &str) -> (s: String)
    requires
        topology@.base_ip.nth_spec(1) is Some,
    ensures
        s@ == readme_text(topology@, generated@),
{
    let base = topology.base_ip().to_string();
    let ds = topology.devices();
    let mut s = owned(README_TITLE);
    push_str(&mut s, topology.name().as_str());
    push_str(&mut s, README_INTRO);
    push_str(&mut s, topology.name().as_str());
    push_str(&mut s, README_BASE);
    push_str(&mut s, base.as_str());
    push_str(&mut s, README_TYPE);
    push_str(&mut s, topology_type_text(topology.topology_type()).as_str());
    push_str(&mut s, README_COUNT);
    push_dec(&mut s, ds.len() as u64);
    push_str(&mut s, README_GENERATED);
    push_str(&mut s, generated);
    push_str(&mut s, README_DEVICES);
    push_device_lines(&mut s, ds);
    push_str(&mut s, README_LAN);
    push_str(&mut s, base.as_str());
    push_str(&mut s, README_GATEWAY);
    match topology.base_ip().nth(1) {
        Some(g) => push_str(&mut s, g.to_string().as_str()),
        None => {}
    }
    push_str(&mut s, README_COMMANDS);
    push_deploy_entries(&mut s, ds);
    push_str(&mut s, README_TAIL);
    s
}

/// Renders the README of a topology generated now (the time as
/// `YYYY-MM-DD HH:MM:SS UTC`).
pub fn generate_readme(topology: &NetworkTopology) -> (s: String)
    requires
        topology@.base_ip.nth_spec(1) is Some,
    ensures
        exists|t: Seq<char>| s@ == readme_text(topology@, t),
{
    generate_readme_at(topology, utc_now_stamp().as_str())
}

} // verus!

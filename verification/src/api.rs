//! Network deployment from an address range and a name: read the range,
//! build the topology and its nix configuration, and, once the files are
//! written, report what was generated.

use vstd::prelude::*;
use crate::ip::IpNetwork;
use crate::parse::parse_network_spec;
use crate::network_topology::{
    NetworkTopology, TopologyType, TopologyView, chosen_type, generation_supported, generation_fails, generated,
    nix_config_ok,
};
use crate::nix_types::{NixGenerationOptions, DeploymentTarget, GeneratedFiles, DocumentationAssets};
use crate::errors::{NetworkError, error_text};
use crate::agents::network_error_text;
use crate::ids::uuid_text;
use crate::text::{push_str, owned, opt_view};

verus! {

/// A topology type a request may ask for.
#[derive(Debug, Clone, Copy, PartialEq, Eq, Structural)]
pub enum TopologyTypeSpec {
    SingleRouter { interface_count: u8 },
    RouterSwitch { switch_count: u8, ports_per_switch: u8 },
    ThreeTier { core_count: u8, distribution_count: u8, access_count: u8, hosts_per_access: u8 },
    SpineLeaf { spine_count: u8, leaf_count: u8, hosts_per_leaf: u8 },
}

/// The topology type a requested one stands for.
pub open spec fn topology_type_of(s: TopologyTypeSpec) -> TopologyType {
    match s {
        TopologyTypeSpec::SingleRouter { interface_count } => TopologyType::SingleRouter { interface_count },
        TopologyTypeSpec::RouterSwitch { switch_count, ports_per_switch } =>
            TopologyType::RouterSwitch { switch_count, ports_per_switch },
        TopologyTypeSpec::ThreeTier { core_count, distribution_count, access_count, hosts_per_access } =>
            TopologyType::ThreeTier { core_count, distribution_count, access_count, hosts_per_access },
        TopologyTypeSpec::SpineLeaf { spine_count, leaf_count, hosts_per_leaf } =>
            TopologyType::SpineLeaf { spine_count, leaf_count, hosts_per_leaf },
    }
}

impl From<TopologyTypeSpec> for TopologyType {
    fn from(spec: TopologyTypeSpec) -> (t: TopologyType) {
        match spec {
            TopologyTypeSpec::SingleRouter { interface_count } => TopologyType::SingleRouter { interface_count },
            TopologyTypeSpec::RouterSwitch { switch_count, ports_per_switch } =>
                TopologyType::RouterSwitch { switch_count, ports_per_switch },
            TopologyTypeSpec::ThreeTier { core_count, distribution_count, access_count, hosts_per_access } =>
                TopologyType::ThreeTier { core_count, distribution_count, access_count, hosts_per_access },
            TopologyTypeSpec::SpineLeaf { spine_count, leaf_count, hosts_per_leaf } =>
                TopologyType::SpineLeaf { spine_count, leaf_count, hosts_per_leaf },
        }
    }
}

impl vstd::std_specs::convert::FromSpecImpl<TopologyTypeSpec> for TopologyType {
    open spec fn obeys_from_spec() -> bool {
        true
    }

    open spec fn from_spec(spec: TopologyTypeSpec) -> TopologyType {
        topology_type_of(spec)
    }
}

/// A deployment request: the address range as text, the network's name,
/// the topology type (detected when absent), the output directory, and
/// whether to write documentation and examples (yes when absent).
#[derive(Debug)]
pub struct NetworkDeploymentRequest {
    pub ip_network: String,
    pub network_name: String,
    pub topology_type: Option<TopologyTypeSpec>,
    pub output_directory: Option<String>,
    pub generate_documentation: Option<bool>,
    pub include_examples: Option<bool>,
}

/// What a deployment produced.
#[derive(Debug)]
pub struct NetworkDeploymentResponse {
    pub success: bool,
    pub topology_id: Option<String>,
    pub generated_files: Vec<String>,
    pub documentation_files: Vec<String>,
    pub device_count: usize,
    pub event_count: usize,
    pub error_message: Option<String>,
    pub deployment_instructions: Vec<String>,
}

/// Error of a deployment.
#[derive(Debug)]
pub enum NetworkDeploymentError {
    InvalidInput(String),
    TopologyCreation(String),
    TopologyGeneration(String),
    NixGeneration(String),
    Network(NetworkError),
}

/// Network deployment entry points.
#[derive(Debug)]
pub struct NetworkDeploymentAPI;

/// The topology type a request's range and type lead to.
pub open spec fn requested_type(request: NetworkDeploymentRequest, n: IpNetwork) -> TopologyType {
    chosen_type(n, match request.topology_type {
        Some(s) => Some(topology_type_of(s)),
        None => None,
    })
}

/// A request whose range, once read, can carry the topology it leads to.
pub open spec fn deployable(request: NetworkDeploymentRequest) -> bool {
    match parse_network_spec(request.ip_network@) {
        Ok(n) => generation_supported(requested_type(request, n), n),
        Err(_) => true,
    }
}

/// The directory written to: the requested one, else
/// `./network-deployment`.
pub open spec fn output_directory_of(request: NetworkDeploymentRequest) -> Seq<char> {
    match request.output_directory {
        Some(d) => d@,
        None => "./network-deployment"@,
    }
}

/// The generation options of a request: a local target, documentation
/// and examples unless declined, no custom modules, inputs or overrides.
pub open spec fn options_ok(o: NixGenerationOptions, request: NetworkDeploymentRequest) -> bool {
    &&& o.deployment_target is Local
    &&& o.generate_documentation == (match request.generate_documentation { Some(b) => b, None => true })
    &&& o.include_examples == (match request.include_examples { Some(b) => b, None => true })
    &&& o.custom_modules@.len() == 0
    &&& o.flake_inputs@.len() == 0
    &&& o.template_overrides is None
    &&& o.output_directory@ == output_directory_of(request)
}

/// What preparing a deployment gives: the error for an unreadable range or
/// a failed topology, else the topology with its nix configuration and
/// the generation options.
pub open spec fn prepared_ok(r: Result<(NetworkTopology, NixGenerationOptions), NetworkDeploymentError>, request: NetworkDeploymentRequest) -> bool {
    match parse_network_spec(request.ip_network@) {
        Err(e) => match r {
            Err(NetworkDeploymentError::InvalidInput(m)) =>
                m@ == "Invalid IP network '"@ + request.ip_network@ + "': "@ + network_error_text(e),
            _ => false,
        },
        Ok(n) => if generation_fails(requested_type(request, n), n) {
            match r {
                Err(NetworkDeploymentError::TopologyCreation(m)) =>
                    m@ == "Invalid configuration: "@ + "Not enough IP addresses"@,
                _ => false,
            }
        } else {
            r.is_ok() && ({
                let (t, o) = r.unwrap();
                &&& t@.name == request.network_name@
                &&& t@.base_ip == n
                &&& t@.topology_type == requested_type(request, n)
                &&& t@.version == 1
                &&& generated(t@)
                &&& t.wf()
                &&& t@.nix_config is Some
                &&& nix_config_ok(t@.nix_config.unwrap(), TopologyView { nix_config: None, ..t@ })
                &&& options_ok(o, request)
            })
        },
    }
}

/// The instructions shown after a deployment, for an output directory.
pub open spec fn instructions(dir: Seq<char>) -> Seq<Seq<char>> {
    seq![
        "1. Navigate to the output directory"@,
        "   cd "@ + dir,
        "2. Validate the topology:"@,
        "   nix run .#validate"@,
        "3. Generate network diagram:"@,
        "   nix run .#topology"@,
        "4. Deploy the network:"@,
        "   nix run .#deploy"@,
        "5. Or deploy individual devices:"@
    ]
}

/// The texts of a list of strings.
pub open spec fn texts(s: Seq<String>) -> Seq<Seq<char>> {
    s.map_values(|x: String| x@)
}

/// The paths of the generated files: the flake, the topology, the device
/// modules, then the deployment scripts.
pub open spec fn generated_paths(g: GeneratedFiles) -> Seq<Seq<char>> {
    seq![g.flake_nix@, g.topology_nix@] + g.nixos_modules@.map_values(|p: (String, String)| p.1@)
        + texts(g.deployment_scripts@)
}

/// The paths of the documentation: the diagram, then the readme, those
/// written.
pub open spec fn documentation_paths(d: DocumentationAssets) -> Seq<Seq<char>> {
    (match d.mermaid_diagram { Some(m) => seq![m@], None => Seq::empty() })
        + (match d.readme { Some(r) => seq![r@], None => Seq::empty() })
}

/// Appends strings to a list.
fn push_all(out: &mut Vec<String>, src: &Vec<String>)
    ensures
        texts(final(out)@) == texts(old(out)@) + texts(src@),
{
    let ghost start = texts(out@);
    let mut k: usize = 0;
    while k < src.len()
        invariant
            k <= src@.len(),
            texts(out@) == start + texts(src@.take(k as int)),
        decreases src@.len() - k,
    {
        let ghost before = texts(out@);
        let x = src[k].clone();
        out.push(x);
        assert(src@.take(k + 1) =~= src@.take(k as int).push(src@[k as int]));
        assert(texts(out@) =~= before.push(x@));
        assert(texts(src@.take(k + 1)) =~= texts(src@.take(k as int)).push(src@[k as int]@));
        assert(texts(out@) =~= start + texts(src@.take(k + 1)));
        k = k + 1;
    }
    assert(src@.take(src@.len() as int) =~= src@);
}

impl NetworkDeploymentAPI {
    /// Reads the request's range, builds the topology and its nix
    /// configuration, and settles the generation options.
    pub fn prepare_deployment(request: &NetworkDeploymentRequest)
        -> (r: Result<(NetworkTopology, NixGenerationOptions), NetworkDeploymentError>)
        requires
            deployable(*request),
        ensures
            prepared_ok(r, *request),
    {
        let ip_network = match IpNetwork::from_str(request.ip_network.as_str()) {
            Ok(n) => n,
            Err(e) => {
                let mut m = owned("Invalid IP network '");
                push_str(&mut m, request.ip_network.as_str());
                push_str(&mut m, "': ");
                let et = crate::agents::network_error_string(e);
                push_str(&mut m, et.as_str());
                return Err(NetworkDeploymentError::InvalidInput(m));
            }
        };
        let topology_type = match request.topology_type {
            Some(s) => Some(TopologyType::from(s)),
            None => None,
        };
        let mut topology = match NetworkTopology::from_ip_and_name(ip_network, request.network_name.clone(), topology_type) {
            Ok(t) => t,
            Err(e) => {
                return Err(NetworkDeploymentError::TopologyCreation(e.to_string()));
            }
        };
        let ghost v0 = topology@;
        proof { crate::ip::lemma_pow2_mono(0, (crate::ip::addr_width(ip_network.ip) - ip_network.eff_prefix()) as nat); }
        match topology.generate_nix_topology() {
            Ok(_) => {}
            Err(e) => {
                return Err(NetworkDeploymentError::TopologyGeneration(e.to_string()));
            }
        }
        assert(TopologyView { nix_config: None, ..topology@ } == v0);
        let output_directory = match &request.output_directory {
            Some(d) => d.clone(),
            None => owned("./network-deployment"),
        };
        let options = NixGenerationOptions {
            deployment_target: DeploymentTarget::Local,
            generate_documentation: match request.generate_documentation { Some(b) => b, None => true },
            include_examples: match request.include_examples { Some(b) => b, None => true },
            custom_modules: Vec::new(),
            flake_inputs: Vec::new(),
            template_overrides: None,
            output_directory,
        };
        Ok((topology, options))
    }

    /// The response to a deployment whose files were written: the
    /// topology's identifier and device count, the file and documentation
    /// paths, the event count, and the instructions.
    pub fn deployment_response(
        topology: &NetworkTopology,
        generated: &GeneratedFiles,
        documentation: &DocumentationAssets,
        event_count: usize,
        output_directory: &str,
    ) -> (r: NetworkDeploymentResponse)
        ensures
            r.success,
            opt_view(r.topology_id) == Some(uuid_text(topology@.id.value)),
            texts(r.generated_files@) == generated_paths(*generated),
            texts(r.documentation_files@) == documentation_paths(*documentation),
            r.device_count == topology@.devices.len(),
            r.event_count == event_count,
            r.error_message is None,
            texts(r.deployment_instructions@) == instructions(output_directory@),
    {
        let mut files: Vec<String> = Vec::new();
        files.push(generated.flake_nix.clone());
        files.push(generated.topology_nix.clone());
        let ghost start = texts(files@);
        assert(start =~= seq![generated.flake_nix@, generated.topology_nix@]);
        let mut k: usize = 0;
        while k < generated.nixos_modules.len()
            invariant
                k <= generated.nixos_modules@.len(),
                texts(files@) == start + generated.nixos_modules@.take(k as int).map_values(|p: (String, String)| p.1@),
            decreases generated.nixos_modules@.len() - k,
        {
            let path = generated.nixos_modules[k].1.clone();
            let ghost before = texts(files@);
            files.push(path);
            assert(generated.nixos_modules@.take(k + 1) =~= generated.nixos_modules@.take(k as int).push(generated.nixos_modules@[k as int]));
            assert(texts(files@) =~= before.push(path@));
            assert(generated.nixos_modules@.take(k + 1).map_values(|p: (String, String)| p.1@)
                =~= generated.nixos_modules@.take(k as int).map_values(|p: (String, String)| p.1@).push(path@));
            k = k + 1;
        }
        assert(generated.nixos_modules@.take(generated.nixos_modules@.len() as int) =~= generated.nixos_modules@);
        push_all(&mut files, &generated.deployment_scripts);
        assert(texts(files@) =~= generated_paths(*generated));
        let mut docs: Vec<String> = Vec::new();
        match &documentation.mermaid_diagram {
            Some(m) => docs.push(m.clone()),
            None => {}
        }
        match &documentation.readme {
            Some(r) => docs.push(r.clone()),
            None => {}
        }
        assert(texts(docs@) =~= documentation_paths(*documentation));
        let mut steps: Vec<String> = Vec::new();
        steps.push(owned("1. Navigate to the output directory"));
        let mut cd = owned("   cd ");
        push_str(&mut cd, output_directory);
        steps.push(cd);
        steps.push(owned("2. Validate the topology:"));
        steps.push(owned("   nix run .#validate"));
        steps.push(owned("3. Generate network diagram:"));
        steps.push(owned("   nix run .#topology"));
        steps.push(owned("4. Deploy the network:"));
        steps.push(owned("   nix run .#deploy"));
        steps.push(owned("5. Or deploy individual devices:"));
        assert(texts(steps@) =~= instructions(output_directory@));
        NetworkDeploymentResponse {
            success: true,
            topology_id: Some(topology.id().to_string()),
            generated_files: files,
            documentation_files: docs,
            device_count: topology.devices().len(),
            event_count,
            error_message: None,
            deployment_instructions: steps,
        }
    }

    /// The request of a simple network: detected topology, default
    /// directory, documentation and examples.
    pub fn simple_network_request(ip_network: &str, network_name: String) -> (r: NetworkDeploymentRequest)
        ensures
            r.ip_network@ == ip_network@,
            r.network_name == network_name,
            r.topology_type is None,
            r.output_directory is None,
            r.generate_documentation == Some(true),
            r.include_examples == Some(true),
    {
        NetworkDeploymentRequest {
            ip_network: owned(ip_network),
            network_name,
            topology_type: None,
            output_directory: None,
            generate_documentation: Some(true),
            include_examples: Some(true),
        }
    }

    /// The request of a router-switch network.
    pub fn router_switch_network_request(
        ip_network: &str,
        network_name: String,
        switch_count: u8,
        ports_per_switch: u8,
        output_dir: Option<String>,
    ) -> (r: NetworkDeploymentRequest)
        ensures
            r.ip_network@ == ip_network@,
            r.network_name == network_name,
            r.topology_type == Some(TopologyTypeSpec::RouterSwitch { switch_count, ports_per_switch }),
            r.output_directory == output_dir,
            r.generate_documentation == Some(true),
            r.include_examples == Some(true),
    {
        NetworkDeploymentRequest {
            ip_network: owned(ip_network),
            network_name,
            topology_type: Some(TopologyTypeSpec::RouterSwitch { switch_count, ports_per_switch }),
            output_directory: output_dir,
            generate_documentation: Some(true),
            include_examples: Some(true),
        }
    }
}

} // verus!

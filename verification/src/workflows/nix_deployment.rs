//! End-to-end deployment of a network from a base network and a name:
//! create the topology, generate its Nix configuration, check it, check the
//! documentation, prepare and deploy. The generation itself, and the
//! checks on disk, are done by the caller, which hands their outcome to the
//! steps.

use vstd::prelude::*;
use crate::ids::NetworkTopologyId;
use crate::ip::IpNetwork;
use crate::errors::{NetworkError, error_text};
use crate::events::NetworkEvent;
use crate::network_topology::{
    NetworkTopology, TopologyType, chosen_type, generation_supported, generation_fails, generated, nix_config_ok,
};
use crate::nix_types::{
    DeploymentTarget, NixGenerationOptions, GeneratedFiles, DocumentationAssets, ValidationResults, ValidationStatus,
    NixTopologyGenerationResponse, NixTopologyError, nix_topology_error_text,
};
use crate::parse::parse_network_spec;
use crate::agents::{network_error_text, network_error_string};
use crate::text::{push_char, push_str, chars_of, owned};
use crate::workflows::network_deployment::{join, texts, join_comma};

verus! {

/// Options of a deployment. The output directory is a path.
#[derive(Debug)]
pub struct NetworkDeploymentOptions {
    pub output_directory: String,
    pub deployment_target: DeploymentTarget,
    pub generate_documentation: bool,
    pub include_examples: bool,
    pub auto_deploy: bool,
}

impl Default for NetworkDeploymentOptions {
    /// Output to `./network-deployment`, deploy locally, generate
    /// documentation and examples, no automatic deployment.
    fn default() -> (o: Self)
        ensures
            o.output_directory@ == "./network-deployment"@,
            o.deployment_target == DeploymentTarget::Local,
            o.generate_documentation,
            o.include_examples,
            !o.auto_deploy,
    {
        NetworkDeploymentOptions {
            output_directory: owned("./network-deployment"),
            deployment_target: DeploymentTarget::Local,
            generate_documentation: true,
            include_examples: true,
            auto_deploy: false,
        }
    }
}

impl Clone for NetworkDeploymentOptions {
    fn clone(&self) -> (r: Self)
        ensures
            r == *self,
    {
        NetworkDeploymentOptions {
            output_directory: self.output_directory.clone(),
            deployment_target: self.deployment_target.clone(),
            generate_documentation: self.generate_documentation,
            include_examples: self.include_examples,
            auto_deploy: self.auto_deploy,
        }
    }
}

/// A copy of an optional topology type; exact unless it is custom.
fn copy_topology_type(t: &Option<TopologyType>) -> (r: Option<TopologyType>)
    ensures
        t is None ==> r is None,
        t is Some && !(t.unwrap() is Custom) ==> r == *t,
{
    match t {
        Some(x) => Some(x.clone()),
        None => None,
    }
}

/// State of a deployment.
#[derive(Debug)]
pub struct NixDeploymentContext {
    pub base_ip: IpNetwork,
    pub network_name: String,
    pub topology_type: Option<TopologyType>,
    pub deployment_options: NetworkDeploymentOptions,
    pub network_topology: Option<NetworkTopology>,
    pub generated_files: Option<GeneratedFiles>,
    pub documentation: Option<DocumentationAssets>,
    pub validation_results: Option<ValidationResults>,
    pub deployment_ready: bool,
    pub events: Vec<NetworkEvent>,
}

/// Error of a deployment step.
#[derive(Debug)]
pub enum NixDeploymentError {
    TopologyCreation(String),
    NixGeneration(String),
    Validation(String),
    Documentation(String),
    Deployment(String),
}

/// Text of a deployment error.
pub open spec fn nix_deployment_error_text(e: NixDeploymentError) -> Seq<char> {
    match e {
        NixDeploymentError::TopologyCreation(m) => "Topology creation error: "@ + m@,
        NixDeploymentError::NixGeneration(m) => "Nix generation error: "@ + m@,
        NixDeploymentError::Validation(m) => "Validation error: "@ + m@,
        NixDeploymentError::Documentation(m) => "Documentation generation error: "@ + m@,
        NixDeploymentError::Deployment(m) => "Deployment error: "@ + m@,
    }
}

impl NixDeploymentError {
    /// The error's text.
    pub fn to_string(&self) -> (s: String)
        ensures
            s@ == nix_deployment_error_text(*self),
    {
        let (mut s, m) = match self {
            NixDeploymentError::TopologyCreation(m) => (owned("Topology creation error: "), m),
            NixDeploymentError::NixGeneration(m) => (owned("Nix generation error: "), m),
            NixDeploymentError::Validation(m) => (owned("Validation error: "), m),
            NixDeploymentError::Documentation(m) => (owned("Documentation generation error: "), m),
            NixDeploymentError::Deployment(m) => (owned("Deployment error: "), m),
        };
        push_str(&mut s, m.as_str());
        s
    }
}

/// A text with each space replaced by an underscore.
pub open spec fn underscored(s: Seq<char>) -> Seq<char> {
    s.map_values(|c: char| if c == ' ' { '_' } else { c })
}

/// A deployment of a network from a base network and a name.
#[derive(Debug)]
pub struct NixNetworkDeploymentWorkflow {
    pub base_ip: IpNetwork,
    pub network_name: String,
    pub topology_type: Option<TopologyType>,
    pub deployment_options: NetworkDeploymentOptions,
}

impl NixNetworkDeploymentWorkflow {
    /// A deployment with the given parts.
    pub fn new(
        base_ip: IpNetwork,
        network_name: String,
        topology_type: Option<TopologyType>,
        deployment_options: NetworkDeploymentOptions,
    ) -> (w: Self)
        ensures
            w == (NixNetworkDeploymentWorkflow { base_ip, network_name, topology_type, deployment_options }),
    {
        NixNetworkDeploymentWorkflow { base_ip, network_name, topology_type, deployment_options }
    }

    /// The workflow identifier: `nix_network_deployment_` and the name with
    /// spaces as underscores.
    pub fn workflow_id(&self) -> (s: String)
        ensures
            s@ == "nix_network_deployment_"@ + underscored(self.network_name@),
    {
        let mut s = owned("nix_network_deployment_");
        let cs = chars_of(self.network_name.as_str());
        let ghost start = s@;
        let mut k: usize = 0;
        while k < cs.len()
            invariant
                k <= cs@.len(),
                cs@ == self.network_name@,
                s@ == start + underscored(cs@.take(k as int)),
            decreases cs@.len() - k,
        {
            let c = cs[k];
            push_char(&mut s, if c == ' ' { '_' } else { c });
            assert(underscored(cs@.take(k + 1)) =~= underscored(cs@.take(k as int)).push(if c == ' ' { '_' } else { c }));
            k = k + 1;
        }
        assert(cs@.take(cs@.len() as int) =~= cs@);
        s
    }

    /// The workflow's name.
    pub fn workflow_name(&self) -> (s: String)
        ensures
            s@ == "Nix Network Deployment: "@ + self.network_name@,
    {
        let mut s = owned("Nix Network Deployment: ");
        push_str(&mut s, self.network_name.as_str());
        s
    }

    /// The initial context: nothing created, generated or ready.
    pub fn create_context(&self) -> (c: NixDeploymentContext)
        ensures
            c.base_ip == self.base_ip,
            c.network_name@ == self.network_name@,
            self.topology_type is None ==> c.topology_type is None,
            self.topology_type is Some && !(self.topology_type.unwrap() is Custom) ==> c.topology_type == self.topology_type,
            c.deployment_options == self.deployment_options,
            c.network_topology is None,
            c.generated_files is None,
            c.documentation is None,
            c.validation_results is None,
            !c.deployment_ready,
            c.events@.len() == 0,
    {
        NixDeploymentContext {
            base_ip: self.base_ip,
            network_name: self.network_name.clone(),
            topology_type: copy_topology_type(&self.topology_type),
            deployment_options: self.deployment_options.clone(),
            network_topology: None,
            generated_files: None,
            documentation: None,
            validation_results: None,
            deployment_ready: false,
            events: Vec::new(),
        }
    }
}

// ---------------------------------------------------------------------
// Step 1: topology.

/// Creates the network topology and its Nix topology configuration.
#[derive(Debug)]
pub struct CreateNetworkTopologyStep {
    base_ip: IpNetwork,
    network_name: String,
    topology_type: Option<TopologyType>,
}

impl CreateNetworkTopologyStep {
    /// A creation of the given topology.
    pub fn new(base_ip: IpNetwork, network_name: String, topology_type: Option<TopologyType>) -> (s: Self)
        ensures
            s.base_ip() == base_ip,
            s.network_name() == network_name@,
            s.topology_type() == topology_type,
    {
        CreateNetworkTopologyStep { base_ip, network_name, topology_type }
    }

    /// The base network.
    pub closed spec fn base_ip(&self) -> IpNetwork {
        self.base_ip
    }

    /// The network's name.
    pub closed spec fn network_name(&self) -> Seq<char> {
        self.network_name@
    }

    /// The requested topology type, if any.
    pub closed spec fn topology_type(&self) -> Option<TopologyType> {
        self.topology_type
    }

    /// Generates the topology and its Nix configuration and keeps it in the
    /// context; refused when the base network is too small for it.
    pub fn execute(&self, context: &mut NixDeploymentContext) -> (r: Result<(), NixDeploymentError>)
        requires
            generation_supported(chosen_type(self.base_ip(), self.topology_type()), self.base_ip()),
        ensures
            r.is_err() <==> generation_fails(chosen_type(self.base_ip(), self.topology_type()), self.base_ip()),
            r.is_ok() ==> {
                &&& *final(context) == (NixDeploymentContext { network_topology: final(context).network_topology, ..*old(context) })
                &&& final(context).network_topology is Some
                &&& ({
                    let t = final(context).network_topology.unwrap()@;
                    &&& t.name == self.network_name()
                    &&& t.base_ip == self.base_ip()
                    &&& t.topology_type == chosen_type(self.base_ip(), self.topology_type())
                    &&& t.version == 1
                    &&& generated(t)
                    &&& t.nix_config is Some
                    &&& nix_config_ok(t.nix_config.unwrap(), t)
                })
                &&& final(context).network_topology.unwrap().wf()
            },
            r.is_err() ==> *final(context) == *old(context) && match r {
                Err(NixDeploymentError::TopologyCreation(m)) => m@ == "Invalid configuration: "@ + "Not enough IP addresses"@,
                _ => false,
            },
    {
        let t = copy_topology_type(&self.topology_type);
        match NetworkTopology::from_ip_and_name(self.base_ip, self.network_name.clone(), t) {
            Ok(mut topology) => {
                let ghost before = topology@;
                match topology.generate_nix_topology() {
                    Ok(_) => {}
                    Err(e) => {
                        return Err(NixDeploymentError::TopologyCreation(e.to_string()));
                    }
                }
                context.network_topology = Some(topology);
                Ok(())
            }
            Err(e) => Err(NixDeploymentError::TopologyCreation(e.to_string())),
        }
    }

    /// Drops the topology.
    pub fn compensate(&self, context: &mut NixDeploymentContext) -> (r: Result<(), NixDeploymentError>)
        ensures
            r.is_ok(),
            *final(context) == (NixDeploymentContext { network_topology: None, ..*old(context) }),
    {
        context.network_topology = None;
        Ok(())
    }
}

// ---------------------------------------------------------------------
// Step 2: Nix configuration.

/// Generates the Nix configuration of the topology.
#[derive(Debug)]
pub struct GenerateNixConfigurationStep {
    deployment_options: NetworkDeploymentOptions,
}

impl GenerateNixConfigurationStep {
    /// A generation with the given options.
    pub fn new(deployment_options: NetworkDeploymentOptions) -> (s: Self)
        ensures
            s.deployment_options() == deployment_options,
    {
        GenerateNixConfigurationStep { deployment_options }
    }

    /// The deployment options.
    pub closed spec fn deployment_options(&self) -> NetworkDeploymentOptions {
        self.deployment_options
    }

    /// The options the generation runs with: the deployment's target,
    /// documentation, examples and output directory, with no custom
    /// modules, flake inputs or template overrides.
    pub fn generation_options(&self) -> (o: NixGenerationOptions)
        ensures
            o.deployment_target == self.deployment_options().deployment_target,
            o.generate_documentation == self.deployment_options().generate_documentation,
            o.include_examples == self.deployment_options().include_examples,
            o.custom_modules@.len() == 0,
            o.flake_inputs@.len() == 0,
            o.template_overrides is None,
            o.output_directory == self.deployment_options().output_directory,
    {
        NixGenerationOptions {
            deployment_target: self.deployment_options.deployment_target.clone(),
            generate_documentation: self.deployment_options.generate_documentation,
            include_examples: self.deployment_options.include_examples,
            custom_modules: Vec::new(),
            flake_inputs: Vec::new(),
            template_overrides: None,
            output_directory: self.deployment_options.output_directory.clone(),
        }
    }

    /// Keeps what the generation produced: its files, documentation and
    /// checks, and appends its events. Refused without a topology, and
    /// when the generation failed.
    pub fn execute(
        &self,
        context: &mut NixDeploymentContext,
        generation: Result<NixTopologyGenerationResponse, NixTopologyError>,
    ) -> (r: Result<(), NixDeploymentError>)
        ensures
            old(context).network_topology is None ==> *final(context) == *old(context) && match r {
                Err(NixDeploymentError::NixGeneration(m)) => m@ == "No network topology available"@,
                _ => false,
            },
            old(context).network_topology is Some ==> match generation {
                Ok(g) => {
                    &&& r.is_ok()
                    &&& *final(context) == (NixDeploymentContext {
                        generated_files: Some(g.generated_files),
                        documentation: Some(g.documentation),
                        validation_results: Some(g.validation_results),
                        events: final(context).events,
                        ..*old(context)
                    })
                    &&& final(context).events@ == old(context).events@ + g.events@
                },
                Err(e) => *final(context) == *old(context) && match r {
                    Err(NixDeploymentError::NixGeneration(m)) => m@ == nix_topology_error_text(e),
                    _ => false,
                },
            },
    {
        if context.network_topology.is_none() {
            return Err(NixDeploymentError::NixGeneration(owned("No network topology available")));
        }
        match generation {
            Ok(g) => {
                context.generated_files = Some(g.generated_files);
                context.documentation = Some(g.documentation);
                context.validation_results = Some(g.validation_results);
                let mut events = g.events;
                context.events.append(&mut events);
                Ok(())
            }
            Err(e) => Err(NixDeploymentError::NixGeneration(e.to_string())),
        }
    }

    /// Drops what the generation produced.
    pub fn compensate(&self, context: &mut NixDeploymentContext) -> (r: Result<(), NixDeploymentError>)
        ensures
            r.is_ok(),
            *final(context) == (NixDeploymentContext {
                generated_files: None,
                documentation: None,
                validation_results: None,
                ..*old(context)
            }),
    {
        context.generated_files = None;
        context.documentation = None;
        context.validation_results = None;
        Ok(())
    }
}

// ---------------------------------------------------------------------
// Step 3: checks of the generated configuration.

/// Refuses a generated configuration with errors.
#[derive(Debug)]
pub struct ValidateNixConfigurationStep {}

impl ValidateNixConfigurationStep {
    /// The step.
    pub fn new() -> (s: Self) {
        ValidateNixConfigurationStep {}
    }

    /// Passes valid configurations and those with warnings; refuses those
    /// with errors, listing the syntax errors, and a context without
    /// checks.
    pub fn execute(&self, context: &mut NixDeploymentContext) -> (r: Result<(), NixDeploymentError>)
        ensures
            *final(context) == *old(context),
            match old(context).validation_results {
                None => match r {
                    Err(NixDeploymentError::Validation(m)) => m@ == "No validation results available"@,
                    _ => false,
                },
                Some(v) => match v.overall_status {
                    ValidationStatus::Error => match r {
                        Err(NixDeploymentError::Validation(m)) =>
                            m@ == "Validation errors: "@ + join(texts(v.syntax_errors@), ", "@),
                        _ => false,
                    },
                    _ => r.is_ok(),
                },
            },
    {
        match &context.validation_results {
            None => Err(NixDeploymentError::Validation(owned("No validation results available"))),
            Some(v) => match v.overall_status {
                ValidationStatus::Error => {
                    let mut m = owned("Validation errors: ");
                    push_str(&mut m, join_comma(&v.syntax_errors).as_str());
                    Err(NixDeploymentError::Validation(m))
                }
                _ => Ok(()),
            },
        }
    }

    /// Nothing to undo.
    pub fn compensate(&self, context: &mut NixDeploymentContext) -> (r: Result<(), NixDeploymentError>)
        ensures
            r.is_ok(),
            *final(context) == *old(context),
    {
        Ok(())
    }
}

// ---------------------------------------------------------------------
// Step 4: documentation.

/// Checks that documentation was generated when asked for.
#[derive(Debug)]
pub struct GenerateDocumentationStep {}

impl GenerateDocumentationStep {
    /// The step.
    pub fn new() -> (s: Self) {
        GenerateDocumentationStep {}
    }

    /// Passes when documentation was not asked for or is there.
    pub fn execute(&self, context: &mut NixDeploymentContext) -> (r: Result<(), NixDeploymentError>)
        ensures
            *final(context) == *old(context),
            !old(context).deployment_options.generate_documentation ==> r.is_ok(),
            old(context).deployment_options.generate_documentation ==> (old(context).documentation is Some ==> r.is_ok())
                && (old(context).documentation is None ==> match r {
                    Err(NixDeploymentError::Documentation(m)) => m@ == "No documentation available"@,
                    _ => false,
                }),
    {
        if !context.deployment_options.generate_documentation {
            return Ok(());
        }
        match &context.documentation {
            None => Err(NixDeploymentError::Documentation(owned("No documentation available"))),
            Some(_) => Ok(()),
        }
    }

    /// Nothing to undo.
    pub fn compensate(&self, context: &mut NixDeploymentContext) -> (r: Result<(), NixDeploymentError>)
        ensures
            r.is_ok(),
            *final(context) == *old(context),
    {
        Ok(())
    }
}

// ---------------------------------------------------------------------
// Step 5: preparation.

/// Checks that the generated files are complete and marks the deployment
/// ready.
#[derive(Debug)]
pub struct PrepareDeploymentStep {}

impl PrepareDeploymentStep {
    /// The step.
    pub fn new() -> (s: Self) {
        PrepareDeploymentStep {}
    }

    /// Refuses a context without generated files, then a missing
    /// `flake.nix`, then a missing `topology.nix` (whether each exists on
    /// disk is given), then no NixOS module; otherwise marks the deployment
    /// ready.
    pub fn execute(&self, context: &mut NixDeploymentContext, flake_exists: bool, topology_exists: bool)
        -> (r: Result<(), NixDeploymentError>)
        ensures
            match old(context).generated_files {
                None => *final(context) == *old(context) && match r {
                    Err(NixDeploymentError::Deployment(m)) => m@ == "No generated files available"@,
                    _ => false,
                },
                Some(f) => if !flake_exists {
                    *final(context) == *old(context) && match r {
                        Err(NixDeploymentError::Deployment(m)) => m@ == "flake.nix not found"@,
                        _ => false,
                    }
                } else if !topology_exists {
                    *final(context) == *old(context) && match r {
                        Err(NixDeploymentError::Deployment(m)) => m@ == "topology.nix not found"@,
                        _ => false,
                    }
                } else if f.nixos_modules@.len() == 0 {
                    *final(context) == *old(context) && match r {
                        Err(NixDeploymentError::Deployment(m)) => m@ == "No NixOS modules generated"@,
                        _ => false,
                    }
                } else {
                    r.is_ok() && *final(context) == (NixDeploymentContext { deployment_ready: true, ..*old(context) })
                },
            },
    {
        let modules = match &context.generated_files {
            None => {
                return Err(NixDeploymentError::Deployment(owned("No generated files available")));
            }
            Some(f) => f.nixos_modules.len(),
        };
        if !flake_exists {
            return Err(NixDeploymentError::Deployment(owned("flake.nix not found")));
        }
        if !topology_exists {
            return Err(NixDeploymentError::Deployment(owned("topology.nix not found")));
        }
        if modules == 0 {
            return Err(NixDeploymentError::Deployment(owned("No NixOS modules generated")));
        }
        context.deployment_ready = true;
        Ok(())
    }

    /// Marks the deployment not ready.
    pub fn compensate(&self, context: &mut NixDeploymentContext) -> (r: Result<(), NixDeploymentError>)
        ensures
            r.is_ok(),
            *final(context) == (NixDeploymentContext { deployment_ready: false, ..*old(context) }),
    {
        context.deployment_ready = false;
        Ok(())
    }
}

// ---------------------------------------------------------------------
// Step 6: deployment.

/// Deploys the network, or leaves it for manual deployment.
#[derive(Debug)]
pub struct DeployNetworkStep {
    auto_deploy: bool,
}

impl DeployNetworkStep {
    /// A deployment, automatic or not.
    pub fn new(auto_deploy: bool) -> (s: Self)
        ensures
            s.auto_deploy() == auto_deploy,
    {
        DeployNetworkStep { auto_deploy }
    }

    /// Whether the deployment is automatic.
    pub closed spec fn auto_deploy(&self) -> bool {
        self.auto_deploy
    }

    /// Refuses a deployment that is not ready, and an automatic one
    /// without generated files.
    pub fn execute(&self, context: &mut NixDeploymentContext) -> (r: Result<(), NixDeploymentError>)
        ensures
            *final(context) == *old(context),
            !old(context).deployment_ready ==> match r {
                Err(NixDeploymentError::Deployment(m)) => m@ == "Deployment not ready"@,
                _ => false,
            },
            old(context).deployment_ready && !self.auto_deploy() ==> r.is_ok(),
            old(context).deployment_ready && self.auto_deploy() ==> (old(context).generated_files is Some ==> r.is_ok())
                && (old(context).generated_files is None ==> match r {
                    Err(NixDeploymentError::Deployment(m)) => m@ == "No generated files available"@,
                    _ => false,
                }),
    {
        if !context.deployment_ready {
            return Err(NixDeploymentError::Deployment(owned("Deployment not ready")));
        }
        if !self.auto_deploy {
            return Ok(());
        }
        match &context.generated_files {
            None => Err(NixDeploymentError::Deployment(owned("No generated files available"))),
            Some(_) => Ok(()),
        }
    }

    /// Nothing to undo.
    pub fn compensate(&self, context: &mut NixDeploymentContext) -> (r: Result<(), NixDeploymentError>)
        ensures
            r.is_ok(),
            *final(context) == *old(context),
    {
        Ok(())
    }
}

// ---------------------------------------------------------------------
// Entry and result.

/// What a deployment leaves.
#[derive(Debug)]
pub struct NetworkDeploymentResult {
    pub topology_id: Option<NetworkTopologyId>,
    pub generated_files: Option<GeneratedFiles>,
    pub documentation: Option<DocumentationAssets>,
    pub events: Vec<NetworkEvent>,
    pub deployment_ready: bool,
}

impl NetworkDeploymentResult {
    /// The result of a finished deployment's context.
    pub fn from_context(context: NixDeploymentContext) -> (r: Self)
        ensures
            match context.network_topology {
                Some(t) => r.topology_id == Some(t@.id),
                None => r.topology_id is None,
            },
            r.generated_files == context.generated_files,
            r.documentation == context.documentation,
            r.events == context.events,
            r.deployment_ready == context.deployment_ready,
    {
        let topology_id = match &context.network_topology {
            Some(t) => Some(t.id()),
            None => None,
        };
        NetworkDeploymentResult {
            topology_id,
            generated_files: context.generated_files,
            documentation: context.documentation,
            events: context.events,
            deployment_ready: context.deployment_ready,
        }
    }
}

/// The deployment of a network given as text: the base network is parsed,
/// missing options are the defaults. Refused when the text is no network.
pub fn network_deployment_from_ip_and_name(
    ip_str: &str,
    network_name: String,
    topology_type: Option<TopologyType>,
    deployment_options: Option<NetworkDeploymentOptions>,
) -> (r: Result<NixNetworkDeploymentWorkflow, NixDeploymentError>)
    ensures
        match parse_network_spec(ip_str@) {
            Ok(base) => r.is_ok() && ({
                let w = r.unwrap();
                &&& w.base_ip == base
                &&& w.network_name == network_name
                &&& w.topology_type == topology_type
                &&& match deployment_options {
                    Some(o) => w.deployment_options == o,
                    None => w.deployment_options.output_directory@ == "./network-deployment"@
                        && w.deployment_options.deployment_target == DeploymentTarget::Local
                        && w.deployment_options.generate_documentation
                        && w.deployment_options.include_examples
                        && !w.deployment_options.auto_deploy,
                }
            }),
            Err(e) => match r {
                Err(NixDeploymentError::TopologyCreation(m)) =>
                    m@ == "Invalid IP network '"@ + ip_str@ + "': "@ + network_error_text(e),
                _ => false,
            },
        },
{
    match IpNetwork::from_str(ip_str) {
        Err(e) => {
            let mut m = owned("Invalid IP network '");
            push_str(&mut m, ip_str);
            push_str(&mut m, "': ");
            push_str(&mut m, network_error_string(e).as_str());
            Err(NixDeploymentError::TopologyCreation(m))
        }
        Ok(base_ip) => {
            let options = match deployment_options {
                Some(o) => o,
                None => NetworkDeploymentOptions::default(),
            };
            Ok(NixNetworkDeploymentWorkflow::new(base_ip, network_name, topology_type, options))
        }
    }
}

} // verus!

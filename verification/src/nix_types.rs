//! Data of nix-topology generation: rendering contexts, generation options
//! and targets, and what a generation produces. Paths are kept as text.

use vstd::prelude::*;
use crate::events::NetworkEvent;
use crate::errors::{NetworkError, error_text};
use crate::ids::fresh_uuid_v4;
use crate::text::{owned, push_str};

verus! {

/// Everything a template renders from.
#[derive(Debug)]
pub struct TemplateContext {
    pub topology: NetworkTopologyContext,
    pub devices: Vec<DeviceContext>,
    pub networks: Vec<NetworkContext>,
    pub connections: Vec<ConnectionContext>,
    pub generation_metadata: GenerationMetadata,
}

/// The topology, for templates.
#[derive(Debug)]
pub struct NetworkTopologyContext {
    pub name: String,
    pub base_network: String,
    pub topology_type: String,
    pub device_count: usize,
    pub network_count: usize,
}

/// A device, for templates.
#[derive(Debug)]
pub struct DeviceContext {
    pub name: String,
    pub device_type: String,
    pub ip_address: String,
    pub interfaces: Vec<InterfaceContext>,
    pub services: Vec<String>,
    pub nix_module_path: String,
}

/// An interface, for templates.
#[derive(Debug)]
pub struct InterfaceContext {
    pub name: String,
    pub network: String,
    pub address: Option<String>,
    pub dhcp: bool,
    pub enabled: bool,
}

/// A network, for templates.
#[derive(Debug)]
pub struct NetworkContext {
    pub name: String,
    pub cidr: String,
    pub vlan: Option<u16>,
    pub dhcp: bool,
    pub gateway: Option<String>,
}

/// A connection, for templates.
#[derive(Debug)]
pub struct ConnectionContext {
    pub source: ConnectionEndpointContext,
    pub target: ConnectionEndpointContext,
    pub connection_type: String,
    pub bandwidth: Option<String>,
}

/// One end of a connection, for templates.
#[derive(Debug)]
pub struct ConnectionEndpointContext {
    pub device: String,
    pub interface: String,
}

/// When and by what a generation was made.
#[derive(Debug)]
pub struct GenerationMetadata {
    pub generation_timestamp: String,
    pub generator_version: String,
    pub target_system: String,
}

/// Where a generated configuration is deployed.
#[derive(Debug)]
pub enum DeploymentTarget {
    Local,
    Remote { host: String, user: String },
    Container { runtime: String },
    VM { hypervisor: String },
    Cloud { provider: String, region: String },
}

/// A flake input.
#[derive(Debug)]
pub struct FlakeInput {
    pub url: String,
    pub follows: Option<String>,
}

/// Template overrides: custom templates by name, and variables with their
/// values as JSON text.
#[derive(Debug)]
pub struct TemplateConfig {
    pub custom_templates: Vec<(String, String)>,
    pub template_variables: Vec<(String, String)>,
}

/// Options of a device module.
#[derive(Debug)]
pub struct DeviceModuleOptions {
    pub nixos_version: String,
    pub enable_ssh: bool,
    pub enable_monitoring: bool,
    pub custom_packages: Vec<String>,
}

/// Options of a generation.
#[derive(Debug)]
pub struct NixGenerationOptions {
    pub deployment_target: DeploymentTarget,
    pub generate_documentation: bool,
    pub include_examples: bool,
    pub custom_modules: Vec<(String, String)>,
    pub flake_inputs: Vec<(String, FlakeInput)>,
    pub template_overrides: Option<TemplateConfig>,
    pub output_directory: String,
}

/// The files a generation wrote; device modules by device name.
#[derive(Debug)]
pub struct GeneratedFiles {
    pub flake_nix: String,
    pub topology_nix: String,
    pub nixos_modules: Vec<(String, String)>,
    pub network_modules: Vec<String>,
    pub deployment_scripts: Vec<String>,
    pub validation_scripts: Vec<String>,
}

/// The documentation a generation wrote.
#[derive(Debug)]
pub struct DocumentationAssets {
    pub mermaid_diagram: Option<String>,
    pub topology_graph: Option<String>,
    pub svg_diagram: Option<String>,
    pub readme: Option<String>,
    pub deployment_guide: Option<String>,
}

/// Findings of checking generated files.
#[derive(Debug)]
pub struct ValidationResults {
    pub overall_status: ValidationStatus,
    pub syntax_errors: Vec<String>,
    pub semantic_warnings: Vec<String>,
    pub recommendations: Vec<String>,
}

/// Overall outcome of a check.
#[derive(Debug, Clone, Copy, PartialEq, Eq, Structural)]
pub enum ValidationStatus {
    Valid,
    Warning,
    Error,
}

/// Error of a generation.
#[derive(Debug)]
pub enum NixTopologyError {
    TemplateError(String),
    IoError(String),
    FormatterError(String),
    ValidationError(String),
    NetworkError(NetworkError),
}

/// Error of rendering a template.
#[derive(Debug)]
pub enum TemplateError {
    NotFound(String),
    SyntaxError(String),
    RenderError(String),
}

/// Error of formatting generated code.
#[derive(Debug)]
pub enum FormatterError {
    ExecutionFailed(String),
    InvalidSyntax(String),
}

impl Clone for DeploymentTarget {
    fn clone(&self) -> (r: Self)
        ensures
            r == *self,
    {
        match self {
            DeploymentTarget::Local => DeploymentTarget::Local,
            DeploymentTarget::Remote { host, user } => DeploymentTarget::Remote { host: host.clone(), user: user.clone() },
            DeploymentTarget::Container { runtime } => DeploymentTarget::Container { runtime: runtime.clone() },
            DeploymentTarget::VM { hypervisor } => DeploymentTarget::VM { hypervisor: hypervisor.clone() },
            DeploymentTarget::Cloud { provider, region } =>
                DeploymentTarget::Cloud { provider: provider.clone(), region: region.clone() },
        }
    }
}

/// Identifier of a generation.
#[derive(Debug, Clone, Copy, PartialEq, Eq, Structural)]
pub struct GenerationId {
    pub value: u128,
}

impl GenerationId {
    /// A fresh random identifier.
    pub fn new() -> (id: Self) {
        GenerationId { value: fresh_uuid_v4() }
    }
}

/// What a generation produced.
#[derive(Debug)]
pub struct NixTopologyGenerationResponse {
    pub generation_id: GenerationId,
    pub generated_files: GeneratedFiles,
    pub documentation: DocumentationAssets,
    pub validation_results: ValidationResults,
    pub events: Vec<NetworkEvent>,
}

/// Text of a generation error.
pub open spec fn nix_topology_error_text(e: NixTopologyError) -> Seq<char> {
    match e {
        NixTopologyError::TemplateError(m) => "Template error: "@ + m@,
        NixTopologyError::IoError(m) => "I/O error: "@ + m@,
        NixTopologyError::FormatterError(m) => "Formatter error: "@ + m@,
        NixTopologyError::ValidationError(m) => "Validation error: "@ + m@,
        NixTopologyError::NetworkError(n) => "Network error: "@ + error_text(n),
    }
}

impl NixTopologyError {
    /// The error's text.
    pub fn to_string(&self) -> (s: String)
        ensures
            s@ == nix_topology_error_text(*self),
    {
        match self {
            NixTopologyError::TemplateError(m) => { let mut s = owned("Template error: "); push_str(&mut s, m.as_str()); s }
            NixTopologyError::IoError(m) => { let mut s = owned("I/O error: "); push_str(&mut s, m.as_str()); s }
            NixTopologyError::FormatterError(m) => { let mut s = owned("Formatter error: "); push_str(&mut s, m.as_str()); s }
            NixTopologyError::ValidationError(m) => { let mut s = owned("Validation error: "); push_str(&mut s, m.as_str()); s }
            NixTopologyError::NetworkError(n) => {
                let mut s = owned("Network error: ");
                push_str(&mut s, n.to_string().as_str());
                s
            }
        }
    }
}

} // verus!

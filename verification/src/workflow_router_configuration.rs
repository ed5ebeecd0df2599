//! A router configured through workflows: provisioning, configuration
//! generation, template application and validation each run as a workflow
//! (run by the caller's engine), and the router keeps its version in step
//! with the workflows that succeeded.

use vstd::prelude::*;
use crate::ids::RouterId;
use crate::infra_events::{RouterVendor, InfrastructureEvent};
use crate::ip::IpNetwork;
use crate::errors::{NetworkError, error_text};
use crate::clock::now_millis;
use crate::text::{owned, push_str};

verus! {

/// Kinds of router templates.
#[derive(Debug, Clone, Copy, PartialEq, Eq, Structural)]
pub enum RouterTemplateType {
    EdgeRouter,
    CoreRouter,
    BranchRouter,
    DataCenterRouter,
}

/// Parameters of a router template.
#[derive(Debug)]
pub struct RouterTemplateParameters {
    pub management_ip: Option<IpNetwork>,
    pub loopback_ip: Option<IpNetwork>,
    pub ospf_area: Option<String>,
    pub bgp_asn: Option<u32>,
    pub enable_dhcp: bool,
    pub enable_nat: bool,
}

/// Outcome of a configuration validation.
#[derive(Debug)]
pub struct ValidationResult {
    pub is_valid: bool,
    pub errors: Vec<String>,
    pub warnings: Vec<String>,
    pub recommendations: Vec<String>,
}

/// State of a template application.
#[derive(Debug)]
pub struct RouterTemplateContext {
    pub router_id: RouterId,
    pub router_name: String,
    pub template_type: RouterTemplateType,
    pub parameters: RouterTemplateParameters,
    pub events: Vec<InfrastructureEvent>,
    pub applied_interfaces: Vec<String>,
    pub applied_protocols: Vec<String>,
}

/// State of a validation.
#[derive(Debug)]
pub struct RouterValidationContext {
    pub router_id: RouterId,
    pub router_name: String,
    pub vendor: RouterVendor,
    pub validation_result: ValidationResult,
    pub checks_performed: Vec<String>,
}

/// A template application workflow.
#[derive(Debug)]
pub struct RouterTemplateApplicationWorkflow {
    pub router_id: RouterId,
    pub router_name: String,
    pub template_type: RouterTemplateType,
    pub parameters: RouterTemplateParameters,
}

impl RouterTemplateApplicationWorkflow {
    /// An application of a template with its parameters to a router.
    pub fn new(
        router_id: RouterId,
        router_name: String,
        template_type: RouterTemplateType,
        parameters: RouterTemplateParameters,
    ) -> (w: Self)
        ensures
            w == (RouterTemplateApplicationWorkflow { router_id, router_name, template_type, parameters }),
    {
        RouterTemplateApplicationWorkflow { router_id, router_name, template_type, parameters }
    }
}

/// A validation workflow.
#[derive(Debug)]
pub struct RouterValidationWorkflow {
    pub router_id: RouterId,
    pub router_name: String,
    pub vendor: RouterVendor,
}

impl RouterValidationWorkflow {
    /// A validation of a router.
    pub fn new(router_id: RouterId, router_name: String, vendor: RouterVendor) -> (w: Self)
        ensures
            w == (RouterValidationWorkflow { router_id, router_name, vendor }),
    {
        RouterValidationWorkflow { router_id, router_name, vendor }
    }
}

/// Error of a router workflow.
#[derive(Debug)]
pub enum WorkflowRouterError {
    ProvisioningWorkflow(String),
    ConfigurationGeneration(String),
    TemplateApplication(String),
    ConfigurationValidation(String),
    Network(NetworkError),
}

/// Text of a router workflow error.
pub open spec fn workflow_router_error_text(e: WorkflowRouterError) -> Seq<char> {
    match e {
        WorkflowRouterError::ProvisioningWorkflow(m) => "Provisioning workflow error: "@ + m@,
        WorkflowRouterError::ConfigurationGeneration(m) => "Configuration generation error: "@ + m@,
        WorkflowRouterError::TemplateApplication(m) => "Template application error: "@ + m@,
        WorkflowRouterError::ConfigurationValidation(m) => "Configuration validation error: "@ + m@,
        WorkflowRouterError::Network(n) => "Network error: "@ + error_text(n),
    }
}

impl WorkflowRouterError {
    /// The error's text.
    pub fn to_string(&self) -> (s: String)
        ensures
            s@ == workflow_router_error_text(*self),
    {
        let (mut s, m) = match self {
            WorkflowRouterError::ProvisioningWorkflow(m) => (owned("Provisioning workflow error: "), m.clone()),
            WorkflowRouterError::ConfigurationGeneration(m) => (owned("Configuration generation error: "), m.clone()),
            WorkflowRouterError::TemplateApplication(m) => (owned("Template application error: "), m.clone()),
            WorkflowRouterError::ConfigurationValidation(m) => (owned("Configuration validation error: "), m.clone()),
            WorkflowRouterError::Network(n) => (owned("Network error: "), n.to_string()),
        };
        push_str(&mut s, m.as_str());
        s
    }
}

/// A router configured through workflows.
#[derive(Debug)]
pub struct WorkflowRouterConfiguration {
    id: RouterId,
    name: String,
    vendor: RouterVendor,
    version: u64,
    /// Milliseconds since the Unix epoch
    created_at: i64,
    updated_at: i64,
}

impl WorkflowRouterConfiguration {
    /// The router's version.
    pub closed spec fn version_spec(&self) -> nat {
        self.version as nat
    }

    /// The router's name.
    pub closed spec fn name_spec(&self) -> Seq<char> {
        self.name@
    }

    /// The router's identifier.
    pub closed spec fn id_spec(&self) -> RouterId {
        self.id
    }

    /// The router's vendor.
    pub closed spec fn vendor_spec(&self) -> RouterVendor {
        self.vendor
    }

    /// A router at version 1.
    pub fn new(id: RouterId, name: String, vendor: RouterVendor) -> (r: Self)
        ensures
            r.id_spec() == id,
            r.name_spec() == name@,
            r.vendor_spec() == vendor,
            r.version_spec() == 1,
    {
        let now = now_millis();
        WorkflowRouterConfiguration { id, name, vendor, version: 1, created_at: now, updated_at: now }
    }

    /// The router's identifier.
    pub fn id(&self) -> (r: RouterId)
        ensures
            r == self.id_spec(),
    {
        self.id
    }

    /// The router's name.
    pub fn name(&self) -> (r: &str)
        ensures
            r@ == self.name_spec(),
    {
        self.name.as_str()
    }

    /// The router's vendor.
    pub fn vendor(&self) -> (r: &RouterVendor)
        ensures
            *r == self.vendor_spec(),
    {
        &self.vendor
    }

    /// The router's version.
    pub fn version(&self) -> (r: u64)
        ensures
            r == self.version_spec(),
    {
        self.version
    }

    /// Moves to the next version after a workflow succeeded.
    fn advance(&mut self)
        requires
            old(self).version_spec() < u64::MAX,
        ensures
            final(self).version_spec() == old(self).version_spec() + 1,
            final(self).id_spec() == old(self).id_spec(),
            final(self).name_spec() == old(self).name_spec(),
            final(self).vendor_spec() == old(self).vendor_spec(),
    {
        self.version = self.version + 1;
        self.updated_at = now_millis();
    }

    /// Takes the outcome of the provisioning workflow: its events, with the
    /// router at its next version, or the workflow's error.
    pub fn provision_router(&mut self, outcome: Result<Vec<InfrastructureEvent>, String>)
        -> (r: Result<Vec<InfrastructureEvent>, WorkflowRouterError>)
        requires
            old(self).version_spec() < u64::MAX,
        ensures
            final(self).id_spec() == old(self).id_spec(),
            final(self).name_spec() == old(self).name_spec(),
            final(self).vendor_spec() == old(self).vendor_spec(),
            match outcome {
                Ok(events) => r == Ok::<Vec<InfrastructureEvent>, WorkflowRouterError>(events)
                    && final(self).version_spec() == old(self).version_spec() + 1,
                Err(m) => r == Err::<Vec<InfrastructureEvent>, WorkflowRouterError>(WorkflowRouterError::ProvisioningWorkflow(m))
                    && final(self).version_spec() == old(self).version_spec(),
            },
    {
        match outcome {
            Ok(events) => {
                self.advance();
                Ok(events)
            }
            Err(m) => Err(WorkflowRouterError::ProvisioningWorkflow(m)),
        }
    }

    /// Takes the outcome of the configuration generation workflow: the
    /// configuration, with the router at its next version, or the
    /// workflow's error.
    pub fn generate_configuration(&mut self, outcome: Result<String, String>) -> (r: Result<String, WorkflowRouterError>)
        requires
            old(self).version_spec() < u64::MAX,
        ensures
            final(self).id_spec() == old(self).id_spec(),
            final(self).name_spec() == old(self).name_spec(),
            final(self).vendor_spec() == old(self).vendor_spec(),
            match outcome {
                Ok(c) => r == Ok::<String, WorkflowRouterError>(c) && final(self).version_spec() == old(self).version_spec() + 1,
                Err(m) => r == Err::<String, WorkflowRouterError>(WorkflowRouterError::ConfigurationGeneration(m))
                    && final(self).version_spec() == old(self).version_spec(),
            },
    {
        match outcome {
            Ok(c) => {
                self.advance();
                Ok(c)
            }
            Err(m) => Err(WorkflowRouterError::ConfigurationGeneration(m)),
        }
    }

    /// The template application workflow for this router.
    pub fn template_workflow(&self, template_type: RouterTemplateType, parameters: RouterTemplateParameters)
        -> (w: RouterTemplateApplicationWorkflow)
        ensures
            w.router_id == self.id_spec(),
            w.router_name@ == self.name_spec(),
            w.template_type == template_type,
            w.parameters == parameters,
    {
        RouterTemplateApplicationWorkflow::new(self.id, self.name.clone(), template_type, parameters)
    }

    /// Takes the outcome of a template application: its events, with the
    /// router at its next version, or the workflow's error.
    pub fn apply_template(&mut self, outcome: Result<Vec<InfrastructureEvent>, String>)
        -> (r: Result<Vec<InfrastructureEvent>, WorkflowRouterError>)
        requires
            old(self).version_spec() < u64::MAX,
        ensures
            final(self).id_spec() == old(self).id_spec(),
            final(self).name_spec() == old(self).name_spec(),
            final(self).vendor_spec() == old(self).vendor_spec(),
            match outcome {
                Ok(events) => r == Ok::<Vec<InfrastructureEvent>, WorkflowRouterError>(events)
                    && final(self).version_spec() == old(self).version_spec() + 1,
                Err(m) => r == Err::<Vec<InfrastructureEvent>, WorkflowRouterError>(WorkflowRouterError::TemplateApplication(m))
                    && final(self).version_spec() == old(self).version_spec(),
            },
    {
        match outcome {
            Ok(events) => {
                self.advance();
                Ok(events)
            }
            Err(m) => Err(WorkflowRouterError::TemplateApplication(m)),
        }
    }

    /// Takes the outcome of a validation: its result, or the workflow's
    /// error. Validation leaves the version as it is.
    pub fn validate_configuration(&self, outcome: Result<ValidationResult, String>) -> (r: Result<ValidationResult, WorkflowRouterError>)
        ensures
            match outcome {
                Ok(v) => r == Ok::<ValidationResult, WorkflowRouterError>(v),
                Err(m) => r == Err::<ValidationResult, WorkflowRouterError>(WorkflowRouterError::ConfigurationValidation(m)),
            },
    {
        match outcome {
            Ok(v) => Ok(v),
            Err(m) => Err(WorkflowRouterError::ConfigurationValidation(m)),
        }
    }
}

} // verus!

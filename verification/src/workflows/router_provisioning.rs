//! Router provisioning workflow: start provisioning through the router's
//! state machine, provision the infrastructure, apply a configuration, and
//! activate the router.

use vstd::prelude::*;
use crate::ids::{RouterId, CorrelationId, CausationId, uuid_text};
use crate::infra_events::{
    RouterVendor, EventMetadata, InfrastructureEvent, DeploymentMethod, RenderedConfiguration, AppliedConfiguration,
};
use crate::state_machines::router::{RouterStateMachine, Planned, router_meta_ok};
use crate::text::{push_str, owned};
use crate::clock::now_millis;

verus! {

/// State of a router provisioning.
#[derive(Debug)]
pub struct RouterProvisioningContext {
    pub router_id: RouterId,
    pub router_name: String,
    pub vendor: RouterVendor,
    pub state_machine: Option<RouterStateMachine<Planned>>,
    pub events: Vec<InfrastructureEvent>,
    pub config_snapshot: Option<RenderedConfiguration>,
}

/// Error of a provisioning step.
#[derive(Debug)]
pub enum RouterProvisioningError {
    StateMachine(String),
    Configuration(String),
    Infrastructure(String),
}

/// A provisioning of one router.
#[derive(Debug)]
pub struct RouterProvisioningWorkflow {
    pub router_id: RouterId,
    pub router_name: String,
    pub vendor: RouterVendor,
}

impl RouterProvisioningWorkflow {
    /// A provisioning of the given router.
    pub fn new(router_id: RouterId, router_name: String, vendor: RouterVendor) -> (w: Self)
        ensures
            w == (RouterProvisioningWorkflow { router_id, router_name, vendor }),
    {
        RouterProvisioningWorkflow { router_id, router_name, vendor }
    }

    /// The workflow identifier: `router_provisioning_<router id>`.
    pub fn workflow_id(&self) -> (s: String)
        ensures
            s@ == "router_provisioning_"@ + uuid_text(self.router_id.value),
    {
        let mut s = owned("router_provisioning_");
        push_str(&mut s, self.router_id.to_string().as_str());
        s
    }

    /// The initial context: the router planned, no events, no
    /// configuration.
    pub fn create_context(&self) -> (c: RouterProvisioningContext)
        ensures
            c.router_id == self.router_id,
            c.router_name@ == self.router_name@,
            c.vendor == self.vendor,
            c.state_machine is Some,
            c.state_machine.unwrap()@.id == self.router_id,
            c.state_machine.unwrap()@.name == self.router_name@,
            c.state_machine.unwrap()@.vendor == self.vendor,
            c.events@.len() == 0,
            c.config_snapshot is None,
    {
        RouterProvisioningContext {
            router_id: self.router_id,
            router_name: self.router_name.clone(),
            vendor: self.vendor,
            state_machine: Some(RouterStateMachine::new(self.router_id, self.router_name.clone(), self.vendor)),
            events: Vec::new(),
            config_snapshot: None,
        }
    }
}

/// The context with only its events changed, one event added.
pub open spec fn one_event_added(a: RouterProvisioningContext, b: RouterProvisioningContext) -> bool {
    &&& b == (RouterProvisioningContext { events: b.events, ..a })
    &&& b.events@.len() == a.events@.len() + 1
    &&& b.events@.drop_last() == a.events@
}

/// Metadata with fresh correlation and causation identifiers.
fn fresh_metadata(id: RouterId, version: u64) -> (m: EventMetadata)
    ensures
        m.aggregate_id@ == uuid_text(id.value),
        m.version == version,
{
    EventMetadata::new(id.to_string(), CorrelationId::new(), CausationId::new(), version)
}

/// Starts provisioning.
#[derive(Debug)]
pub struct StartProvisioningStep {
    router_id: RouterId,
    vendor: RouterVendor,
}

impl StartProvisioningStep {
    /// A start of provisioning of the given router.
    pub fn new(router_id: RouterId, vendor: RouterVendor) -> (s: Self)
        ensures
            s.router_id() == router_id,
            s.vendor() == vendor,
    {
        StartProvisioningStep { router_id, vendor }
    }

    /// The router.
    pub closed spec fn router_id(&self) -> RouterId {
        self.router_id
    }

    /// The vendor.
    pub closed spec fn vendor(&self) -> RouterVendor {
        self.vendor
    }

    /// Moves the planned router to provisioning, taking it out of the
    /// context and recording the transition's event; refused when the
    /// context holds no planned router.
    pub fn execute(&self, context: &mut RouterProvisioningContext) -> (r: Result<(), RouterProvisioningError>)
        ensures
            match old(context).state_machine {
                Some(m) => {
                    &&& r.is_ok()
                    &&& final(context).state_machine is None
                    &&& final(context).events@.len() == old(context).events@.len() + 1
                    &&& final(context).events@.drop_last() == old(context).events@
                    &&& *final(context) == (RouterProvisioningContext {
                        state_machine: None,
                        events: final(context).events,
                        ..*old(context)
                    })
                    &&& match final(context).events@.last() {
                        InfrastructureEvent::RouterProvisioningStarted { metadata, router_id, vendor } =>
                            metadata.aggregate_id@ == uuid_text(m@.id.value) && metadata.version == 1
                            && router_id == m@.id && vendor == m@.vendor,
                        _ => false,
                    }
                },
                None => *final(context) == *old(context) && match r {
                    Err(RouterProvisioningError::StateMachine(msg)) => msg@ == "No state machine available"@,
                    _ => false,
                },
            },
    {
        let taken = context.state_machine.take();
        match taken {
            Some(machine) => {
                let ghost mv = machine@;
                match machine.start_provisioning(CorrelationId::new(), CausationId::new()) {
                    Ok((_next, event)) => {
                        context.events.push(event);
                        assert(context.events@.drop_last() =~= old(context).events@);
                        Ok(())
                    }
                    Err(e) => Err(RouterProvisioningError::StateMachine(e)),
                }
            }
            None => Err(RouterProvisioningError::StateMachine(owned("No state machine available"))),
        }
    }

    /// Nothing to undo.
    pub fn compensate(&self, context: &mut RouterProvisioningContext) -> (r: Result<(), RouterProvisioningError>)
        ensures
            r.is_ok(),
            *final(context) == *old(context),
    {
        Ok(())
    }
}

/// Provisions the router's infrastructure.
#[derive(Debug)]
pub struct ProvisionInfrastructureStep {
    router_id: RouterId,
}

impl ProvisionInfrastructureStep {
    /// A provisioning of the given router's infrastructure.
    pub fn new(router_id: RouterId) -> (s: Self)
        ensures
            s.router_id() == router_id,
    {
        ProvisionInfrastructureStep { router_id }
    }

    /// The router.
    pub closed spec fn router_id(&self) -> RouterId {
        self.router_id
    }

    /// Records that provisioning completed, at version 2.
    pub fn execute(&self, context: &mut RouterProvisioningContext) -> (r: Result<(), RouterProvisioningError>)
        ensures
            r.is_ok(),
            one_event_added(*old(context), *final(context)),
            match final(context).events@.last() {
                InfrastructureEvent::RouterProvisioningCompleted { metadata, router_id } =>
                    metadata.aggregate_id@ == uuid_text(self.router_id().value) && metadata.version == 2
                    && router_id == self.router_id(),
                _ => false,
            },
    {
        let event = InfrastructureEvent::RouterProvisioningCompleted {
            metadata: fresh_metadata(self.router_id, 2),
            router_id: self.router_id,
        };
        context.events.push(event);
        assert(context.events@.drop_last() =~= old(context).events@);
        Ok(())
    }

    /// Nothing to undo.
    pub fn compensate(&self, context: &mut RouterProvisioningContext) -> (r: Result<(), RouterProvisioningError>)
        ensures
            r.is_ok(),
            *final(context) == *old(context),
    {
        Ok(())
    }
}

/// The configuration text applied to a router.
pub open spec fn provisioned_config_text(id: RouterId) -> Seq<char> {
    "! Configuration for router "@ + uuid_text(id.value) + "\nhostname router-"@ + uuid_text(id.value)
}

/// A rendered configuration of the router with checksum `abc123`.
pub open spec fn provisioned_config_ok(c: RenderedConfiguration, id: RouterId) -> bool {
    c.config_content@ == provisioned_config_text(id) && c.checksum@ == "abc123"@
}

/// Applies a configuration to the router.
#[derive(Debug)]
pub struct ConfigureRouterStep {
    router_id: RouterId,
}

impl ConfigureRouterStep {
    /// A configuration of the given router.
    pub fn new(router_id: RouterId) -> (s: Self)
        ensures
            s.router_id() == router_id,
    {
        ConfigureRouterStep { router_id }
    }

    /// The router.
    pub closed spec fn router_id(&self) -> RouterId {
        self.router_id
    }

    /// Renders the router's configuration, keeps it in the context and
    /// records it applied through the `nixos#network` flake, at version 3.
    pub fn execute(&self, context: &mut RouterProvisioningContext) -> (r: Result<(), RouterProvisioningError>)
        ensures
            r.is_ok(),
            *final(context) == (RouterProvisioningContext {
                events: final(context).events,
                config_snapshot: final(context).config_snapshot,
                ..*old(context)
            }),
            final(context).config_snapshot is Some,
            provisioned_config_ok(final(context).config_snapshot.unwrap(), self.router_id()),
            final(context).events@.len() == old(context).events@.len() + 1,
            final(context).events@.drop_last() == old(context).events@,
            match final(context).events@.last() {
                InfrastructureEvent::RouterConfigurationApplied { metadata, router_id, configuration, deployment_method } =>
                    metadata.aggregate_id@ == uuid_text(self.router_id().value) && metadata.version == 3
                    && router_id == self.router_id()
                    && (match configuration {
                        AppliedConfiguration::Rendered(c) => provisioned_config_ok(c, self.router_id())
                            && c.generated_at == final(context).config_snapshot.unwrap().generated_at,
                        _ => false,
                    })
                    && (match deployment_method {
                        DeploymentMethod::Nix { flake_ref } => flake_ref@ == "nixos#network"@,
                        _ => false,
                    }),
                _ => false,
            },
    {
        let id_text = self.router_id.to_string();
        let mut content = owned("! Configuration for router ");
        push_str(&mut content, id_text.as_str());
        push_str(&mut content, "\nhostname router-");
        push_str(&mut content, id_text.as_str());
        let generated_at = now_millis();
        context.config_snapshot = Some(RenderedConfiguration {
            config_content: content.clone(),
            checksum: owned("abc123"),
            generated_at,
        });
        let event = InfrastructureEvent::RouterConfigurationApplied {
            metadata: fresh_metadata(self.router_id, 3),
            router_id: self.router_id,
            configuration: AppliedConfiguration::Rendered(RenderedConfiguration {
                config_content: content,
                checksum: owned("abc123"),
                generated_at,
            }),
            deployment_method: DeploymentMethod::Nix { flake_ref: owned("nixos#network") },
        };
        context.events.push(event);
        assert(context.events@.drop_last() =~= old(context).events@);
        Ok(())
    }

    /// Nothing to undo.
    pub fn compensate(&self, context: &mut RouterProvisioningContext) -> (r: Result<(), RouterProvisioningError>)
        ensures
            r.is_ok(),
            *final(context) == *old(context),
    {
        Ok(())
    }
}

/// Activates the router.
#[derive(Debug)]
pub struct ActivateRouterStep {
    router_id: RouterId,
}

impl ActivateRouterStep {
    /// An activation of the given router.
    pub fn new(router_id: RouterId) -> (s: Self)
        ensures
            s.router_id() == router_id,
    {
        ActivateRouterStep { router_id }
    }

    /// The router.
    pub closed spec fn router_id(&self) -> RouterId {
        self.router_id
    }

    /// The router is active; nothing is recorded.
    pub fn execute(&self, context: &mut RouterProvisioningContext) -> (r: Result<(), RouterProvisioningError>)
        ensures
            r.is_ok(),
            *final(context) == *old(context),
    {
        Ok(())
    }

    /// Nothing to undo.
    pub fn compensate(&self, context: &mut RouterProvisioningContext) -> (r: Result<(), RouterProvisioningError>)
        ensures
            r.is_ok(),
            *final(context) == *old(context),
    {
        Ok(())
    }
}

} // verus!

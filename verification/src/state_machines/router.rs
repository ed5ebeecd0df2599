//! Router state machine: planned, provisioning, configuring, active, failed
//! and in maintenance. Each transition keeps the router's identity and
//! records an event at the version of the step it completes.

use vstd::prelude::*;
use crate::ids::{RouterId, CorrelationId, CausationId, uuid_text};
use crate::infra_events::{
    RouterVendor, EventMetadata, InfrastructureEvent, MaintenanceWindow, DeploymentMethod, RouterConfigSnapshot,
    AppliedConfiguration,
};
use crate::text::owned;
use crate::clock::now_millis;

verus! {

/// The router is planned.
#[derive(Debug, Clone, Copy, PartialEq, Eq, Structural)]
pub struct Planned;

/// The router is being provisioned.
#[derive(Debug, Clone, Copy, PartialEq, Eq, Structural)]
pub struct Provisioning;

/// The router is being configured.
#[derive(Debug, Clone, Copy, PartialEq, Eq, Structural)]
pub struct Configuring;

/// The router is active.
#[derive(Debug, Clone, Copy, PartialEq, Eq, Structural)]
pub struct Active;

/// Configuration failed, for a reason.
#[derive(Debug)]
pub struct Failed {
    pub reason: String,
}

/// The router is in a maintenance window.
#[derive(Debug)]
pub struct Maintenance {
    pub window: MaintenanceWindow,
}

/// A router in state `S`.
#[derive(Debug)]
pub struct RouterStateMachine<S> {
    id: RouterId,
    name: String,
    vendor: RouterVendor,
    created_at: i64,
    state_data: S,
}

/// What a router machine holds apart from its creation time.
pub struct RouterMachineView<S> {
    pub id: RouterId,
    pub name: Seq<char>,
    pub vendor: RouterVendor,
    pub state: S,
}

impl<S> View for RouterStateMachine<S> {
    type V = RouterMachineView<S>;

    closed spec fn view(&self) -> RouterMachineView<S> {
        RouterMachineView { id: self.id, name: self.name@, vendor: self.vendor, state: self.state_data }
    }
}

/// Metadata of a router event: the router's identifier as text, the given
/// causes, and the version.
pub open spec fn router_meta_ok(m: EventMetadata, id: RouterId, corr: CorrelationId, cause: CausationId, version: u64) -> bool {
    &&& m.aggregate_id@ == uuid_text(id.value)
    &&& m.correlation_id == corr
    &&& m.causation_id == cause
    &&& m.version == version
}

/// The machine keeps its identity and moves to the given state.
pub open spec fn moved_to<S, T>(from: RouterMachineView<S>, to: RouterMachineView<T>, state: T) -> bool {
    to.id == from.id && to.name == from.name && to.vendor == from.vendor && to.state == state
}

fn metadata(id: RouterId, correlation_id: CorrelationId, causation_id: CausationId, version: u64) -> (m: EventMetadata)
    ensures
        router_meta_ok(m, id, correlation_id, causation_id, version),
{
    EventMetadata::new(id.to_string(), correlation_id, causation_id, version)
}

impl RouterStateMachine<Planned> {
    /// A new planned router.
    pub fn new(id: RouterId, name: String, vendor: RouterVendor) -> (m: Self)
        ensures
            m@ == (RouterMachineView { id, name: name@, vendor, state: Planned }),
    {
        RouterStateMachine { id, name, vendor, created_at: now_millis(), state_data: Planned }
    }

    /// Starts provisioning; the event is at version 1.
    pub fn start_provisioning(self, correlation_id: CorrelationId, causation_id: CausationId)
        -> (r: Result<(RouterStateMachine<Provisioning>, InfrastructureEvent), String>)
        ensures
            r.is_ok(),
            moved_to(self@, r.unwrap().0@, Provisioning),
            match r.unwrap().1 {
                InfrastructureEvent::RouterProvisioningStarted { metadata, router_id, vendor } =>
                    router_meta_ok(metadata, self@.id, correlation_id, causation_id, 1)
                    && router_id == self@.id && vendor == self@.vendor,
                _ => false,
            },
    {
        let event = InfrastructureEvent::RouterProvisioningStarted {
            metadata: metadata(self.id, correlation_id, causation_id, 1),
            router_id: self.id,
            vendor: self.vendor,
        };
        let next = RouterStateMachine {
            id: self.id,
            name: self.name,
            vendor: self.vendor,
            created_at: self.created_at,
            state_data: Provisioning,
        };
        Ok((next, event))
    }
}

impl RouterStateMachine<Provisioning> {
    /// A router already provisioning.
    pub fn from_parts(id: RouterId, name: String, vendor: RouterVendor) -> (m: Self)
        ensures
            m@ == (RouterMachineView { id, name: name@, vendor, state: Provisioning }),
    {
        RouterStateMachine { id, name, vendor, created_at: now_millis(), state_data: Provisioning }
    }

    /// Provisioning is done; configuration starts. The event is at
    /// version 2.
    pub fn provisioning_complete(self, correlation_id: CorrelationId, causation_id: CausationId)
        -> (r: Result<(RouterStateMachine<Configuring>, InfrastructureEvent), String>)
        ensures
            r.is_ok(),
            moved_to(self@, r.unwrap().0@, Configuring),
            match r.unwrap().1 {
                InfrastructureEvent::RouterProvisioningCompleted { metadata, router_id } =>
                    router_meta_ok(metadata, self@.id, correlation_id, causation_id, 2) && router_id == self@.id,
                _ => false,
            },
    {
        let event = InfrastructureEvent::RouterProvisioningCompleted {
            metadata: metadata(self.id, correlation_id, causation_id, 2),
            router_id: self.id,
        };
        let next = RouterStateMachine {
            id: self.id,
            name: self.name,
            vendor: self.vendor,
            created_at: self.created_at,
            state_data: Configuring,
        };
        Ok((next, event))
    }
}

impl RouterStateMachine<Configuring> {
    /// A router already being configured.
    pub fn from_parts(id: RouterId, name: String, vendor: RouterVendor) -> (m: Self)
        ensures
            m@ == (RouterMachineView { id, name: name@, vendor, state: Configuring }),
    {
        RouterStateMachine { id, name, vendor, created_at: now_millis(), state_data: Configuring }
    }

    /// The configuration was applied; the router is active. The event, at
    /// version 3, carries the configuration, deployed through the
    /// `nixos#network` flake.
    pub fn configuration_applied(
        self,
        config: RouterConfigSnapshot,
        correlation_id: CorrelationId,
        causation_id: CausationId,
    ) -> (r: Result<(RouterStateMachine<Active>, InfrastructureEvent), String>)
        ensures
            r.is_ok(),
            moved_to(self@, r.unwrap().0@, Active),
            match r.unwrap().1 {
                InfrastructureEvent::RouterConfigurationApplied { metadata, router_id, configuration, deployment_method } =>
                    router_meta_ok(metadata, self@.id, correlation_id, causation_id, 3) && router_id == self@.id
                    && configuration == AppliedConfiguration::Snapshot(config)
                    && (match deployment_method {
                        DeploymentMethod::Nix { flake_ref } => flake_ref@ == "nixos#network"@,
                        _ => false,
                    }),
                _ => false,
            },
    {
        let event = InfrastructureEvent::RouterConfigurationApplied {
            metadata: metadata(self.id, correlation_id, causation_id, 3),
            router_id: self.id,
            configuration: AppliedConfiguration::Snapshot(config),
            deployment_method: DeploymentMethod::Nix { flake_ref: owned("nixos#network") },
        };
        let next = RouterStateMachine {
            id: self.id,
            name: self.name,
            vendor: self.vendor,
            created_at: self.created_at,
            state_data: Active,
        };
        Ok((next, event))
    }

    /// The configuration failed; the router keeps the reason. The event is
    /// at version 3.
    pub fn configuration_failed(self, reason: String, correlation_id: CorrelationId, causation_id: CausationId)
        -> (r: Result<(RouterStateMachine<Failed>, InfrastructureEvent), String>)
        ensures
            r.is_ok(),
            r.unwrap().0@.id == self@.id && r.unwrap().0@.name == self@.name && r.unwrap().0@.vendor == self@.vendor,
            r.unwrap().0@.state.reason@ == reason@,
            match r.unwrap().1 {
                InfrastructureEvent::RouterConfigurationFailed { metadata, router_id, reason: why } =>
                    router_meta_ok(metadata, self@.id, correlation_id, causation_id, 3) && router_id == self@.id
                    && why@ == reason@,
                _ => false,
            },
    {
        let event = InfrastructureEvent::RouterConfigurationFailed {
            metadata: metadata(self.id, correlation_id, causation_id, 3),
            router_id: self.id,
            reason: reason.clone(),
        };
        let next = RouterStateMachine {
            id: self.id,
            name: self.name,
            vendor: self.vendor,
            created_at: self.created_at,
            state_data: Failed { reason },
        };
        Ok((next, event))
    }
}

impl RouterStateMachine<Active> {
    /// A router already active.
    pub fn from_parts(id: RouterId, name: String, vendor: RouterVendor) -> (m: Self)
        ensures
            m@ == (RouterMachineView { id, name: name@, vendor, state: Active }),
    {
        RouterStateMachine { id, name, vendor, created_at: now_millis(), state_data: Active }
    }

    /// Schedules maintenance; the router keeps the window. The event is at
    /// version 4.
    pub fn schedule_maintenance(self, window: MaintenanceWindow, correlation_id: CorrelationId, causation_id: CausationId)
        -> (r: Result<(RouterStateMachine<Maintenance>, InfrastructureEvent), String>)
        ensures
            r.is_ok(),
            r.unwrap().0@.id == self@.id && r.unwrap().0@.name == self@.name && r.unwrap().0@.vendor == self@.vendor,
            r.unwrap().0@.state.window == window,
            match r.unwrap().1 {
                InfrastructureEvent::RouterMaintenanceScheduled { metadata, router_id, window: w } =>
                    router_meta_ok(metadata, self@.id, correlation_id, causation_id, 4) && router_id == self@.id
                    && w == window,
                _ => false,
            },
    {
        let event = InfrastructureEvent::RouterMaintenanceScheduled {
            metadata: metadata(self.id, correlation_id, causation_id, 4),
            router_id: self.id,
            window: window.clone(),
        };
        let next = RouterStateMachine {
            id: self.id,
            name: self.name,
            vendor: self.vendor,
            created_at: self.created_at,
            state_data: Maintenance { window },
        };
        Ok((next, event))
    }
}

impl RouterStateMachine<Failed> {
    /// A router whose configuration failed for the given reason.
    pub fn from_parts_with_failure(id: RouterId, name: String, vendor: RouterVendor, failure_reason: String) -> (m: Self)
        ensures
            m@.id == id && m@.name == name@ && m@.vendor == vendor,
            m@.state.reason@ == failure_reason@,
    {
        RouterStateMachine { id, name, vendor, created_at: now_millis(), state_data: Failed { reason: failure_reason } }
    }

    /// Retries the configuration; the event, at version 4, carries the
    /// previous failure.
    pub fn retry_configuration(self, correlation_id: CorrelationId, causation_id: CausationId)
        -> (r: Result<(RouterStateMachine<Configuring>, InfrastructureEvent), String>)
        ensures
            r.is_ok(),
            r.unwrap().0@.id == self@.id && r.unwrap().0@.name == self@.name && r.unwrap().0@.vendor == self@.vendor,
            match r.unwrap().1 {
                InfrastructureEvent::RouterConfigurationRetryStarted { metadata, router_id, previous_failure } =>
                    router_meta_ok(metadata, self@.id, correlation_id, causation_id, 4) && router_id == self@.id
                    && previous_failure@ == self@.state.reason@,
                _ => false,
            },
    {
        let event = InfrastructureEvent::RouterConfigurationRetryStarted {
            metadata: metadata(self.id, correlation_id, causation_id, 4),
            router_id: self.id,
            previous_failure: self.state_data.reason.clone(),
        };
        let next = RouterStateMachine {
            id: self.id,
            name: self.name,
            vendor: self.vendor,
            created_at: self.created_at,
            state_data: Configuring,
        };
        Ok((next, event))
    }

    /// Why the configuration failed.
    pub fn failure_reason(&self) -> (r: &String)
        ensures
            r@ == self@.state.reason@,
    {
        &self.state_data.reason
    }
}

impl RouterStateMachine<Maintenance> {
    /// The maintenance window.
    pub fn maintenance_window(&self) -> (r: &MaintenanceWindow)
        ensures
            *r == self@.state.window,
    {
        &self.state_data.window
    }
}

impl<S> RouterStateMachine<S> {
    /// The router's name.
    pub fn name(&self) -> (r: &String)
        ensures
            r@ == self@.name,
    {
        &self.name
    }

    /// The router's identifier.
    pub fn id(&self) -> (r: RouterId)
        ensures
            r == self@.id,
    {
        self.id
    }

    /// The router's vendor.
    pub fn vendor(&self) -> (r: RouterVendor)
        ensures
            r == self@.vendor,
    {
        self.vendor
    }
}

} // verus!

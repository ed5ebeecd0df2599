//! Workflows: multi-step procedures over a context, each step with its
//! compensation.

pub mod network_deployment;
pub mod configuration_generation;
pub mod router_provisioning;
pub mod switch_configuration;
pub mod nix_deployment;

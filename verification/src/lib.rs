//! Network infrastructure domain: value objects, device aggregate state
//! machine, domain events and commands, and the pure logic of topology and
//! configuration management, with contracts proved by Verus.

pub mod text;
pub mod errors;
pub mod ids;
pub mod ip;
pub mod value_objects;
pub mod events;
pub mod aggregates;
pub mod commands;
pub mod parse;
pub mod params;
pub mod clock;
pub mod infra_events;
pub mod router_configuration;
pub mod network_topology;
pub mod cisco_ios;
pub mod state_machines;
pub mod workflows;
pub mod agents;
pub mod sdn;
pub mod nix_types;
pub mod api;
pub mod switch_configuration;
pub mod infrastructure_bridge;
pub mod service;
pub mod nats;
pub mod functor;
pub mod ports;
pub mod adapters;
pub mod topology_builder;
pub mod subagent;
pub mod workflow_router_configuration;
pub mod cli;
pub mod nix_generator;
pub mod topology_text;

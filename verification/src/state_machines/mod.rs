//! Typed state machines of routers, switches and networks: each state is a
//! type, and each transition consumes a machine in one state and returns it
//! in the next, with the event that records the transition.

pub mod router;
pub mod switch;
pub mod network;

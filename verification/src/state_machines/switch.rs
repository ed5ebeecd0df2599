//! Switch state machine.

use vstd::prelude::*;
use crate::ids::SwitchId;
use crate::clock::now_millis;

verus! {

/// The switch is planned.
#[derive(Debug, Clone, Copy, PartialEq, Eq, Structural)]
pub struct Planned;

/// The switch is being configured.
#[derive(Debug, Clone, Copy, PartialEq, Eq, Structural)]
pub struct Configuring;

/// The switch is active.
#[derive(Debug, Clone, Copy, PartialEq, Eq, Structural)]
pub struct Active;

/// The switch failed.
#[derive(Debug, Clone, Copy, PartialEq, Eq, Structural)]
pub struct Failed;

/// A switch in state `S`.
#[derive(Debug)]
pub struct SwitchStateMachine<S> {
    id: SwitchId,
    name: String,
    port_count: u32,
    created_at: i64,
    state: S,
}

impl SwitchStateMachine<Planned> {
    /// A new planned switch.
    pub fn new(id: SwitchId, name: String, port_count: u32) -> (m: Self)
        ensures
            m.id_spec() == id,
            m.name_spec()@ == name@,
            m.port_count_spec() == port_count,
    {
        SwitchStateMachine { id, name, port_count, created_at: now_millis(), state: Planned }
    }
}

impl<S> SwitchStateMachine<S> {
    /// The switch's name.
    pub fn name(&self) -> (r: &String)
        ensures
            r == self.name_spec(),
    {
        &self.name
    }

    /// The switch's name.
    pub closed spec fn name_spec(&self) -> &String {
        &self.name
    }

    /// The number of ports.
    pub fn port_count(&self) -> (r: u32)
        ensures
            r == self.port_count_spec(),
    {
        self.port_count
    }

    /// The number of ports.
    pub closed spec fn port_count_spec(&self) -> u32 {
        self.port_count
    }

    /// The switch's identifier.
    pub fn id(&self) -> (r: SwitchId)
        ensures
            r == self.id_spec(),
    {
        self.id
    }

    /// The switch's identifier.
    pub closed spec fn id_spec(&self) -> SwitchId {
        self.id
    }
}

} // verus!

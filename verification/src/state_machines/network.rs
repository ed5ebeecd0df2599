//! Network state machine.

use vstd::prelude::*;
use crate::ids::NetworkId;
use crate::ip::IpNetwork;
use crate::clock::now_millis;

verus! {

/// The network is being planned.
#[derive(Debug, Clone, Copy, PartialEq, Eq, Structural)]
pub struct Planning;

/// The network is being provisioned.
#[derive(Debug, Clone, Copy, PartialEq, Eq, Structural)]
pub struct Provisioning;

/// The network is active.
#[derive(Debug, Clone, Copy, PartialEq, Eq, Structural)]
pub struct Active;

/// The network failed.
#[derive(Debug, Clone, Copy, PartialEq, Eq, Structural)]
pub struct Failed;

/// A network in state `S`.
#[derive(Debug)]
pub struct NetworkStateMachine<S> {
    id: NetworkId,
    name: String,
    cidr: IpNetwork,
    created_at: i64,
    state: S,
}

impl NetworkStateMachine<Planning> {
    /// A new network in planning.
    pub fn new(id: NetworkId, name: String, cidr: IpNetwork) -> (m: Self)
        ensures
            m.id_spec() == id,
            m.name_spec()@ == name@,
            m.cidr_spec() == cidr,
    {
        NetworkStateMachine { id, name, cidr, created_at: now_millis(), state: Planning }
    }
}

impl<S> NetworkStateMachine<S> {
    /// The network's name.
    pub fn name(&self) -> (r: &String)
        ensures
            r == self.name_spec(),
    {
        &self.name
    }

    /// The network's name.
    pub closed spec fn name_spec(&self) -> &String {
        &self.name
    }

    /// The network's address range.
    pub fn cidr(&self) -> (r: IpNetwork)
        ensures
            r == self.cidr_spec(),
    {
        self.cidr
    }

    /// The network's address range.
    pub closed spec fn cidr_spec(&self) -> IpNetwork {
        self.cidr
    }

    /// The network's identifier.
    pub fn id(&self) -> (r: NetworkId)
        ensures
            r == self.id_spec(),
    {
        self.id
    }

    /// The network's identifier.
    pub closed spec fn id_spec(&self) -> NetworkId {
        self.id
    }
}

} // verus!

//! Identifiers. Each identifier holds the 128-bit value of a UUID; fresh
//! values and their textual form come from the `uuid` crate.

use vstd::prelude::*;
use crate::text::hex_char;

verus! {

/// `n` lower-case hexadecimal digits of `v`, most significant first.
pub open spec fn hex_digits(v: nat, n: nat) -> Seq<char>
    decreases n,
{
    if n == 0 {
        Seq::empty()
    } else {
        hex_digits(v / 16, (n - 1) as nat).push(hex_char(v % 16))
    }
}

/// The hyphenated text of a UUID with the given 128-bit value: its 32
/// lower-case hexadecimal digits, most significant first, in groups of 8,
/// 4, 4, 4 and 12 joined by `-`.
#[verifier::opaque]
pub open spec fn uuid_text(value: u128) -> Seq<char> {
    let d = hex_digits(value as nat, 32);
    d.subrange(0, 8) + "-"@ + d.subrange(8, 12) + "-"@ + d.subrange(12, 16) + "-"@ + d.subrange(16, 20) + "-"@
        + d.subrange(20, 32)
}

/// A fresh time-ordered UUID value: `uuid::Uuid::now_v7`, read back with
/// `as_u128`. Nothing is stated of the value: it depends on the clock and
/// on a random source.
#[verifier::external_body]
pub fn fresh_uuid_v7() -> (value: u128) {
    uuid::Uuid::now_v7().as_u128()
}

/// A fresh random UUID value: `uuid::Uuid::new_v4`, read back with
/// `as_u128`. Nothing is stated of the value: it is random.
#[verifier::external_body]
pub fn fresh_uuid_v4() -> (value: u128) {
    uuid::Uuid::new_v4().as_u128()
}

/// The text of a UUID (`Display` of `uuid::Uuid`, built with `from_u128`,
/// which takes the value's bytes most significant first): its hexadecimal
/// digits in lower case, hyphenated in groups of 8, 4, 4, 4 and 12.
#[verifier::external_body]
pub fn uuid_to_string(value: u128) -> (s: String)
    ensures
        s@ == uuid_text(value),
        s@.len() == 36,
{
    uuid::Uuid::from_u128(value).to_string()
}

/// Network device identifier (time-ordered UUID).
#[derive(Debug, Clone, Copy, PartialEq, Eq, Structural, Hash)]
pub struct DeviceId {
    pub value: u128,
}

/// Network topology identifier.
#[derive(Debug, Clone, Copy, PartialEq, Eq, Structural, Hash)]
pub struct TopologyId {
    pub value: u128,
}

/// Connection identifier.
#[derive(Debug, Clone, Copy, PartialEq, Eq, Structural, Hash)]
pub struct ConnectionId {
    pub value: u128,
}

impl DeviceId {
    /// A new identifier from a fresh time-ordered UUID.
    pub fn new() -> (id: Self) {
        DeviceId { value: fresh_uuid_v7() }
    }

    /// An identifier holding the given UUID value.
    pub fn from_uuid(value: u128) -> (id: Self)
        ensures
            id.value == value,
    {
        DeviceId { value }
    }

    /// The UUID value.
    pub fn inner(&self) -> (v: u128)
        ensures
            v == self.value,
    {
        self.value
    }

    /// The hyphenated text of the identifier.
    pub fn to_string(&self) -> (s: String)
        ensures
            s@ == uuid_text(self.value),
            s@.len() == 36,
    {
        uuid_to_string(self.value)
    }
}

impl TopologyId {
    /// A new identifier from a fresh time-ordered UUID.
    pub fn new() -> (id: Self) {
        TopologyId { value: fresh_uuid_v7() }
    }

    /// The UUID value.
    pub fn inner(&self) -> (v: u128)
        ensures
            v == self.value,
    {
        self.value
    }

    /// The hyphenated text of the identifier.
    pub fn to_string(&self) -> (s: String)
        ensures
            s@ == uuid_text(self.value),
            s@.len() == 36,
    {
        uuid_to_string(self.value)
    }
}

impl ConnectionId {
    /// A new identifier from a fresh time-ordered UUID.
    pub fn new() -> (id: Self) {
        ConnectionId { value: fresh_uuid_v7() }
    }

    /// The UUID value.
    pub fn inner(&self) -> (v: u128)
        ensures
            v == self.value,
    {
        self.value
    }

    /// The hyphenated text of the identifier.
    pub fn to_string(&self) -> (s: String)
        ensures
            s@ == uuid_text(self.value),
            s@.len() == 36,
    {
        uuid_to_string(self.value)
    }
}


/// Router identifier.
#[derive(Debug, Clone, Copy, PartialEq, Eq, Structural, Hash)]
pub struct RouterId {
    pub value: u128,
}

impl RouterId {
    /// A new identifier from a fresh UUID.
    pub fn new() -> (id: Self) {
        RouterId { value: fresh_uuid_v7() }
    }

    /// The hyphenated text of the identifier.
    pub fn to_string(&self) -> (s: String)
        ensures
            s@ == uuid_text(self.value),
            s@.len() == 36,
    {
        uuid_to_string(self.value)
    }
}

/// Switch identifier.
#[derive(Debug, Clone, Copy, PartialEq, Eq, Structural, Hash)]
pub struct SwitchId {
    pub value: u128,
}

impl SwitchId {
    /// A new identifier from a fresh UUID.
    pub fn new() -> (id: Self) {
        SwitchId { value: fresh_uuid_v7() }
    }

    /// The hyphenated text of the identifier.
    pub fn to_string(&self) -> (s: String)
        ensures
            s@ == uuid_text(self.value),
            s@.len() == 36,
    {
        uuid_to_string(self.value)
    }
}

/// Network identifier.
#[derive(Debug, Clone, Copy, PartialEq, Eq, Structural, Hash)]
pub struct NetworkId {
    pub value: u128,
}

impl NetworkId {
    /// A new identifier from a fresh UUID.
    pub fn new() -> (id: Self) {
        NetworkId { value: fresh_uuid_v7() }
    }

    /// The hyphenated text of the identifier.
    pub fn to_string(&self) -> (s: String)
        ensures
            s@ == uuid_text(self.value),
            s@.len() == 36,
    {
        uuid_to_string(self.value)
    }
}

/// Correlation identifier of a chain of messages.
#[derive(Debug, Clone, Copy, PartialEq, Eq, Structural, Hash)]
pub struct CorrelationId {
    pub value: u128,
}

impl CorrelationId {
    /// A new identifier from a fresh UUID.
    pub fn new() -> (id: Self) {
        CorrelationId { value: fresh_uuid_v7() }
    }

    /// The hyphenated text of the identifier.
    pub fn to_string(&self) -> (s: String)
        ensures
            s@ == uuid_text(self.value),
            s@.len() == 36,
    {
        uuid_to_string(self.value)
    }
}

/// Identifier of the message that caused another.
#[derive(Debug, Clone, Copy, PartialEq, Eq, Structural, Hash)]
pub struct CausationId {
    pub value: u128,
}

impl CausationId {
    /// A new identifier from a fresh UUID.
    pub fn new() -> (id: Self) {
        CausationId { value: fresh_uuid_v7() }
    }

    /// The hyphenated text of the identifier.
    pub fn to_string(&self) -> (s: String)
        ensures
            s@ == uuid_text(self.value),
            s@.len() == 36,
    {
        uuid_to_string(self.value)
    }
}

/// Event identifier.
#[derive(Debug, Clone, Copy, PartialEq, Eq, Structural, Hash)]
pub struct EventId {
    pub value: u128,
}

impl EventId {
    /// A new identifier from a fresh UUID.
    pub fn new() -> (id: Self) {
        EventId { value: fresh_uuid_v7() }
    }

    /// The hyphenated text of the identifier.
    pub fn to_string(&self) -> (s: String)
        ensures
            s@ == uuid_text(self.value),
            s@.len() == 36,
    {
        uuid_to_string(self.value)
    }
}

/// Interface identifier.
#[derive(Debug, Clone, Copy, PartialEq, Eq, Structural, Hash)]
pub struct InterfaceId {
    pub value: u128,
}

impl InterfaceId {
    /// A new identifier from a fresh UUID.
    pub fn new() -> (id: Self) {
        InterfaceId { value: fresh_uuid_v4() }
    }

    /// The hyphenated text of the identifier.
    pub fn to_string(&self) -> (s: String)
        ensures
            s@ == uuid_text(self.value),
            s@.len() == 36,
    {
        uuid_to_string(self.value)
    }
}

/// Identifier of a generated network topology.
#[derive(Debug, Clone, Copy, PartialEq, Eq, Structural, Hash)]
pub struct NetworkTopologyId {
    pub value: u128,
}

impl NetworkTopologyId {
    /// A new identifier from a fresh UUID.
    pub fn new() -> (id: Self) {
        NetworkTopologyId { value: fresh_uuid_v4() }
    }

    /// The hyphenated text of the identifier.
    pub fn to_string(&self) -> (s: String)
        ensures
            s@ == uuid_text(self.value),
            s@.len() == 36,
    {
        uuid_to_string(self.value)
    }
}

} // verus!

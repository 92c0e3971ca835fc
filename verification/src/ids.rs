//! Identifiers of players, items, skills, monsters and sessions.
//!
//! Identifiers are produced outside the engine and are only carried around
//! and compared here.

use uuid::Uuid;
use vstd::prelude::*;

verus! {

/// `uuid::Uuid`, known to the verifier as an opaque value.
#[verifier::external_type_specification]
#[verifier::external_body]
pub struct ExUuid(uuid::Uuid);

/// Calls `==` of `uuid::Uuid`. A `Uuid` holds sixteen bytes and nothing else,
/// and its equality compares exactly those bytes; the contract claims that
/// the call answers whether the two values are the same value. Not proved.
#[verifier::external_body]
fn same_uuid(a: &Uuid, b: &Uuid) -> (r: bool)
    ensures
        r == (*a == *b),
{
    a == b
}

/// Identifier of a player.
#[derive(Debug, Clone, Copy, PartialEq, Eq, Hash)]
pub struct PlayerId(pub Uuid);

impl PlayerId {
    pub fn new(value: Uuid) -> (r: Self)
        ensures
            r.0 == value,
    {
        Self(value)
    }

    pub fn value(&self) -> (r: Uuid)
        ensures
            r == self.0,
    {
        self.0
    }

    /// Whether the two identifiers are the same.
    pub fn same_as(&self, other: &PlayerId) -> (r: bool)
        ensures
            r == (*self == *other),
    {
        same_uuid(&self.0, &other.0)
    }
}

/// Identifier of an item, or of the base item it was made from.
#[derive(Debug, Clone, Copy, PartialEq, Eq, Hash)]
pub struct ItemId(pub Uuid);

impl ItemId {
    pub fn new(value: Uuid) -> (r: Self)
        ensures
            r.0 == value,
    {
        Self(value)
    }

    pub fn value(&self) -> (r: Uuid)
        ensures
            r == self.0,
    {
        self.0
    }

    /// Whether the two identifiers are the same.
    pub fn same_as(&self, other: &ItemId) -> (r: bool)
        ensures
            r == (*self == *other),
    {
        same_uuid(&self.0, &other.0)
    }
}

/// Identifier of a skill.
#[derive(Debug, Clone, Copy, PartialEq, Eq, Hash)]
pub struct SkillId(pub Uuid);

impl SkillId {
    pub fn new(value: Uuid) -> (r: Self)
        ensures
            r.0 == value,
    {
        Self(value)
    }

    pub fn value(&self) -> (r: Uuid)
        ensures
            r == self.0,
    {
        self.0
    }

    /// Whether the two identifiers are the same.
    pub fn same_as(&self, other: &SkillId) -> (r: bool)
        ensures
            r == (*self == *other),
    {
        same_uuid(&self.0, &other.0)
    }
}

/// Identifier of a monster.
#[derive(Debug, Clone, Copy, PartialEq, Eq, Hash)]
pub struct MonsterId(pub Uuid);

impl MonsterId {
    pub fn new(value: Uuid) -> (r: Self)
        ensures
            r.0 == value,
    {
        Self(value)
    }

    pub fn value(&self) -> (r: Uuid)
        ensures
            r == self.0,
    {
        self.0
    }

    /// Whether the two identifiers are the same.
    pub fn same_as(&self, other: &MonsterId) -> (r: bool)
        ensures
            r == (*self == *other),
    {
        same_uuid(&self.0, &other.0)
    }
}

/// Identifier of a session.
#[derive(Debug, Clone, Copy, PartialEq, Eq, Hash)]
pub struct SessionId(pub Uuid);

impl SessionId {
    pub fn new(value: Uuid) -> (r: Self)
        ensures
            r.0 == value,
    {
        Self(value)
    }

    pub fn value(&self) -> (r: Uuid)
        ensures
            r == self.0,
    {
        self.0
    }

    /// Whether the two identifiers are the same.
    pub fn same_as(&self, other: &SessionId) -> (r: bool)
        ensures
            r == (*self == *other),
    {
        same_uuid(&self.0, &other.0)
    }
}

} // verus!

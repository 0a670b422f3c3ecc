//! Device-local identifiers of accounts and personae.

use vstd::prelude::*;

verus! {

/// A device-local identifier for an account.
#[derive(Clone, Copy, Debug, PartialEq, Eq, Structural, PartialOrd, Ord, Hash)]
pub struct LocalAccountId {
    pub id: u64,
}

impl LocalAccountId {
    /// Wraps a raw identifier value.
    pub fn new(id: u64) -> (r: LocalAccountId)
        ensures
            r.id == id,
    {
        LocalAccountId { id }
    }
}

/// A device-local identifier for a persona.
#[derive(Clone, Copy, Debug, PartialEq, Eq, Structural, PartialOrd, Ord, Hash)]
pub struct LocalPersonaId {
    pub id: u64,
}

impl LocalPersonaId {
    /// Wraps a raw identifier value.
    pub fn new(id: u64) -> (r: LocalPersonaId)
        ensures
            r.id == id,
    {
        LocalPersonaId { id }
    }
}

/// The wire form of a persona identifier, as carried in requests and responses.
#[derive(Clone, Copy, Debug, PartialEq, Eq, Structural)]
pub struct FidlLocalPersonaId {
    pub id: u64,
}

impl From<LocalPersonaId> for FidlLocalPersonaId {
    fn from(p: LocalPersonaId) -> (r: FidlLocalPersonaId)
        ensures
            r.id == p.id,
    {
        FidlLocalPersonaId { id: p.id }
    }
}

impl vstd::std_specs::convert::FromSpecImpl<LocalPersonaId> for FidlLocalPersonaId {
    open spec fn obeys_from_spec() -> bool {
        true
    }

    open spec fn from_spec(p: LocalPersonaId) -> FidlLocalPersonaId {
        FidlLocalPersonaId { id: p.id }
    }
}

impl From<FidlLocalPersonaId> for LocalPersonaId {
    fn from(p: FidlLocalPersonaId) -> (r: LocalPersonaId)
        ensures
            r.id == p.id,
    {
        LocalPersonaId { id: p.id }
    }
}

impl vstd::std_specs::convert::FromSpecImpl<FidlLocalPersonaId> for LocalPersonaId {
    open spec fn obeys_from_spec() -> bool {
        true
    }

    open spec fn from_spec(p: FidlLocalPersonaId) -> LocalPersonaId {
        LocalPersonaId { id: p.id }
    }
}

} // verus!

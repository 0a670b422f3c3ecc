//! Serving of a single local account and of the personae that belong to it.
//!
//! The library decides how every account-level and persona-level request is
//! answered. The transport that carries requests, and the tasks that serve
//! spawned persona sessions, are supplied by the caller.

use vstd::prelude::*;

pub mod account;
pub mod errors;
pub mod ids;
pub mod laws;
pub mod persona;
pub mod types;

verus! {

} // verus!

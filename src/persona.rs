//! A persona of an account, and the answers to requests scoped to it.

use std::sync::Arc;
use vstd::prelude::*;

use crate::ids::{LocalAccountId, LocalPersonaId};
use crate::types::{default_auth_state, placeholder_auth_state, AuthState, Status};

verus! {

/// The context in which requests on a persona channel are served: the capability
/// for creating authentication UI channels, shared with the account-level context
/// that spawned the session.
pub struct PersonaContext<C> {
    pub auth_ui_context_provider: Arc<C>,
}

/// A persona of an account, sharing the account's credential store `T` with every
/// session that serves it.
pub struct Persona<T> {
    id: LocalPersonaId,
    account_id: LocalAccountId,
    token_manager: Arc<T>,
}

/// A request on a persona channel.
#[derive(Clone, Copy, Debug, PartialEq, Eq, Structural)]
pub enum PersonaRequest {
    GetAuthState,
}

/// The answer to a request on a persona channel.
#[derive(Clone, Copy, Debug, PartialEq, Eq, Structural)]
pub enum PersonaResponse {
    GetAuthState(Status, Option<AuthState>),
}

/// The answer that every persona gives to an authentication state query.
pub open spec fn persona_auth_state_reply() -> (Status, Option<AuthState>) {
    (Status::Success, Some(placeholder_auth_state()))
}

/// The answer that a persona gives to `req`.
pub open spec fn persona_reply(req: PersonaRequest) -> PersonaResponse {
    match req {
        PersonaRequest::GetAuthState => {
            let (s, a) = persona_auth_state_reply();
            PersonaResponse::GetAuthState(s, a)
        },
    }
}

impl<T> Persona<T> {
    /// The persona's identifier.
    pub closed spec fn spec_id(&self) -> LocalPersonaId {
        self.id
    }

    /// The identifier of the account that owns the persona.
    pub closed spec fn spec_account_id(&self) -> LocalAccountId {
        self.account_id
    }

    /// The credential store that the persona uses.
    pub closed spec fn spec_token_manager(&self) -> Arc<T> {
        self.token_manager
    }

    /// Constructs a persona of the account `account_id` over the shared credential store.
    pub fn new(id: LocalPersonaId, account_id: LocalAccountId, token_manager: Arc<T>) -> (r: Persona<T>)
        ensures
            r.spec_id() == id,
            r.spec_account_id() == account_id,
            r.spec_token_manager() == token_manager,
    {
        Persona { id, account_id, token_manager }
    }

    /// The persona's identifier.
    pub fn id(&self) -> (r: &LocalPersonaId)
        ensures
            *r == self.spec_id(),
    {
        &self.id
    }

    /// The identifier of the account that owns the persona.
    pub fn account_id(&self) -> (r: &LocalAccountId)
        ensures
            *r == self.spec_account_id(),
    {
        &self.account_id
    }

    /// The credential store that the persona uses.
    pub fn token_manager(&self) -> (r: &Arc<T>)
        ensures
            *r == self.spec_token_manager(),
    {
        &self.token_manager
    }

    /// The persona's authentication state: a fixed placeholder until authenticators
    /// exist to compute a real one.
    pub fn get_auth_state(&self) -> (r: (Status, Option<AuthState>))
        ensures
            r == persona_auth_state_reply(),
    {
        (Status::Success, Some(default_auth_state()))
    }

    /// Answers one request on a persona channel.
    pub fn handle_request(&self, req: PersonaRequest) -> (r: PersonaResponse)
        ensures
            r == persona_reply(req),
    {
        match req {
            PersonaRequest::GetAuthState => {
                let (status, state) = self.get_auth_state();
                PersonaResponse::GetAuthState(status, state)
            },
        }
    }
}

} // verus!

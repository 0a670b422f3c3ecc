//! An account, its default persona, and the answers to requests scoped to it.

use std::sync::Arc;
use vstd::prelude::*;

use crate::ids::{FidlLocalPersonaId, LocalAccountId, LocalPersonaId};
use crate::persona::{Persona, PersonaContext};
use crate::types::{
    default_auth_state, placeholder_auth_state, AccountManagerError, AuthChangeGranularity,
    AuthState, ServiceProviderAccount, Status,
};

verus! {

/// Relies on rand::random: it returns a value drawn from the thread-local generator;
/// nothing is promised of which value that is.
pub assume_specification<T>[ rand::random::<T> ]() -> (r: T)
    where
        rand::distributions::Standard: rand::distributions::Distribution<T>,
;

/// The context in which requests on an account channel are served, supplied when
/// the channel was created.
pub struct AccountContext<C> {
    /// The capability for creating authentication UI channels.
    pub auth_ui_context_provider: Arc<C>,
}

/// A request on an account channel. `P` is the server end of a new persona
/// channel, `L` the client end of an authentication listener.
pub enum AccountRequest<P, L> {
    GetAuthState,
    RegisterAuthListener { listener: L, initial_state: bool, granularity: AuthChangeGranularity },
    GetPersonaIds,
    GetDefaultPersona { persona: P },
    GetPersona { id: FidlLocalPersonaId, persona: P },
    GetRecoveryAccount,
    SetRecoveryAccount { account: ServiceProviderAccount },
}

/// The answer to a request on an account channel.
#[derive(Clone, Debug, PartialEq, Eq)]
pub enum AccountResponse {
    GetAuthState(Status, Option<AuthState>),
    RegisterAuthListener(Status),
    GetPersonaIds(Vec<FidlLocalPersonaId>),
    GetDefaultPersona(Status, Option<FidlLocalPersonaId>),
    GetPersona(Status),
    GetRecoveryAccount(Status, Option<ServiceProviderAccount>),
    SetRecoveryAccount(Status),
}

/// Which request is waiting for a persona channel to be opened.
#[derive(Clone, Copy, Debug, PartialEq, Eq, Structural)]
pub enum PendingPersona {
    /// A `GetDefaultPersona` request.
    Default,
    /// A `GetPersona` request whose identifier named the default persona.
    ById,
}

/// What the caller does next with a request on an account channel.
pub enum AccountAction<P> {
    /// Send this response.
    Respond(AccountResponse),
    /// Turn `server_end` into a request stream, then hand the outcome to
    /// `Account::complete_persona_request` together with `pending`.
    OpenPersona { server_end: P, pending: PendingPersona },
}

/// A persona session to run as a task of its own: it serves `stream` against
/// `persona` until the stream ends or fails.
pub struct PersonaSession<T, C, S> {
    pub persona: Arc<Persona<T>>,
    pub context: PersonaContext<C>,
    pub stream: S,
}

/// A local account, with the single default persona that is created along with it.
pub struct Account<T> {
    id: LocalAccountId,
    default_persona: Arc<Persona<T>>,
}

/// The wire form of a persona identifier.
pub open spec fn fidl_persona_id(id: LocalPersonaId) -> FidlLocalPersonaId {
    FidlLocalPersonaId { id: id.id }
}

/// The answer that every account gives to an authentication state query.
pub open spec fn account_auth_state_reply() -> (Status, Option<AuthState>) {
    (Status::Success, Some(placeholder_auth_state()))
}

impl<T> Account<T> {
    /// The account's identifier.
    pub closed spec fn spec_id(&self) -> LocalAccountId {
        self.id
    }

    /// The account's default persona.
    pub closed spec fn spec_default_persona(&self) -> Arc<Persona<T>> {
        self.default_persona
    }

    /// The identifier of the account's default persona.
    pub open spec fn persona_id(&self) -> LocalPersonaId {
        self.spec_default_persona().spec_id()
    }

    /// The default persona belongs to this account.
    pub open spec fn wf(&self) -> bool {
        self.spec_default_persona().spec_account_id() == self.spec_id()
    }

    /// What `handle_request` does with `req`.
    pub open spec fn action_for<P, L>(&self, req: AccountRequest<P, L>, act: AccountAction<P>) -> bool {
        match req {
            AccountRequest::GetAuthState => act matches AccountAction::Respond(
                AccountResponse::GetAuthState(s, a),
            ) && (s, a) == account_auth_state_reply(),
            AccountRequest::RegisterAuthListener { .. } => act matches AccountAction::Respond(
                AccountResponse::RegisterAuthListener(s),
            ) && s == Status::InternalError,
            AccountRequest::GetPersonaIds => act matches AccountAction::Respond(
                AccountResponse::GetPersonaIds(v),
            ) && v@ == seq![fidl_persona_id(self.persona_id())],
            AccountRequest::GetDefaultPersona { persona } => act == (AccountAction::OpenPersona {
                server_end: persona,
                pending: PendingPersona::Default,
            }),
            AccountRequest::GetPersona { id, persona } => if id.id == self.persona_id().id {
                act == (AccountAction::OpenPersona { server_end: persona, pending: PendingPersona::ById })
            } else {
                act matches AccountAction::Respond(AccountResponse::GetPersona(s)) && s
                    == Status::NotFound
            },
            AccountRequest::GetRecoveryAccount => act matches AccountAction::Respond(
                AccountResponse::GetRecoveryAccount(s, a),
            ) && s == Status::InternalError && a is None,
            AccountRequest::SetRecoveryAccount { .. } => act matches AccountAction::Respond(
                AccountResponse::SetRecoveryAccount(s),
            ) && s == Status::InternalError,
        }
    }

    /// The session that serves `stream` against the default persona.
    pub open spec fn session_for<C, S>(&self, context: AccountContext<C>, stream: S) -> PersonaSession<T, C, S> {
        PersonaSession {
            persona: self.spec_default_persona(),
            context: PersonaContext { auth_ui_context_provider: context.auth_ui_context_provider },
            stream,
        }
    }

    /// What `get_default_persona` returns once opening the persona channel gave `opened`.
    pub open spec fn default_persona_outcome<C, S, E>(
        &self,
        context: AccountContext<C>,
        opened: Result<S, E>,
    ) -> (Status, Option<FidlLocalPersonaId>, Option<PersonaSession<T, C, S>>) {
        match opened {
            Ok(stream) => (
                Status::Success,
                Some(fidl_persona_id(self.persona_id())),
                Some(self.session_for(context, stream)),
            ),
            Err(_) => (Status::IoError, None, None),
        }
    }

    /// What `complete_persona_request` returns once opening the persona channel gave
    /// `opened`: the answer of the pending request, and the session to start.
    pub open spec fn completion<C, S, E>(
        &self,
        context: AccountContext<C>,
        pending: PendingPersona,
        opened: Result<S, E>,
    ) -> (AccountResponse, Option<PersonaSession<T, C, S>>) {
        let (status, id, session) = self.default_persona_outcome(context, opened);
        match pending {
            PendingPersona::Default => (AccountResponse::GetDefaultPersona(status, id), session),
            PendingPersona::ById => (AccountResponse::GetPersona(status), session),
        }
    }

    /// Builds an account whose default persona has the identifier `persona_id`, over
    /// the credential store that opening it gave; a store that failed to open fails
    /// the construction with `UnknownError`.
    pub fn with_persona_id<E>(
        account_id: LocalAccountId,
        persona_id: LocalPersonaId,
        token_manager: Result<T, E>,
    ) -> (r: Result<Account<T>, AccountManagerError>)
        ensures
            r is Ok <==> token_manager is Ok,
            r matches Err(e) ==> e.status == Status::UnknownError,
            r matches Ok(a) ==> {
                &&& a.wf()
                &&& a.spec_id() == account_id
                &&& a.persona_id() == persona_id
                &&& token_manager matches Ok(t) && *a.spec_default_persona().spec_token_manager() == t
            },
    {
        match token_manager {
            Ok(t) => {
                let store = Arc::new(t);
                let persona = Persona::new(persona_id, account_id, store);
                Ok(Account { id: account_id, default_persona: Arc::new(persona) })
            },
            Err(_) => Err(AccountManagerError::new(Status::UnknownError)),
        }
    }

    /// Constructs an account with a freshly drawn random identifier for its default
    /// persona, over the credential store that opening it gave.
    pub fn new<E>(account_id: LocalAccountId, token_manager: Result<T, E>) -> (r: Result<
        Account<T>,
        AccountManagerError,
    >)
        ensures
            r is Ok <==> token_manager is Ok,
            r matches Err(e) ==> e.status == Status::UnknownError,
            r matches Ok(a) ==> {
                &&& a.wf()
                &&& a.spec_id() == account_id
                &&& token_manager matches Ok(t) && *a.spec_default_persona().spec_token_manager() == t
            },
    {
        let persona_id = LocalPersonaId::new(rand::random::<u64>());
        Self::with_persona_id(account_id, persona_id, token_manager)
    }

    /// A device-local identifier for this account.
    pub fn id(&self) -> (r: &LocalAccountId)
        ensures
            *r == self.spec_id(),
    {
        &self.id
    }

    /// The account's default persona.
    pub fn default_persona(&self) -> (r: &Arc<Persona<T>>)
        ensures
            *r == self.spec_default_persona(),
    {
        &self.default_persona
    }

    /// Decides what to do with one request on an account channel.
    pub fn handle_request<P, L>(&self, req: AccountRequest<P, L>) -> (r: AccountAction<P>)
        ensures
            self.action_for(req, r),
    {
        match req {
            AccountRequest::GetAuthState => {
                let (status, state) = self.get_auth_state();
                AccountAction::Respond(AccountResponse::GetAuthState(status, state))
            },
            AccountRequest::RegisterAuthListener { listener, initial_state, granularity } => {
                let status = self.register_auth_listener(listener, initial_state, granularity);
                AccountAction::Respond(AccountResponse::RegisterAuthListener(status))
            },
            AccountRequest::GetPersonaIds => {
                AccountAction::Respond(AccountResponse::GetPersonaIds(self.get_persona_ids()))
            },
            AccountRequest::GetDefaultPersona { persona } => {
                AccountAction::OpenPersona { server_end: persona, pending: PendingPersona::Default }
            },
            AccountRequest::GetPersona { id, persona } => {
                match self.get_persona(LocalPersonaId::from(id), persona) {
                    Ok(server_end) => AccountAction::OpenPersona {
                        server_end,
                        pending: PendingPersona::ById,
                    },
                    Err(status) => AccountAction::Respond(AccountResponse::GetPersona(status)),
                }
            },
            AccountRequest::GetRecoveryAccount => {
                let (status, account) = self.get_recovery_account();
                AccountAction::Respond(AccountResponse::GetRecoveryAccount(status, account))
            },
            AccountRequest::SetRecoveryAccount { account } => {
                AccountAction::Respond(
                    AccountResponse::SetRecoveryAccount(self.set_recovery_account(account)),
                )
            },
        }
    }

    /// Answers a request that waited for a persona channel, once opening it gave
    /// `opened`; on success also returns the session to start.
    pub fn complete_persona_request<C, S, E>(
        &self,
        context: &AccountContext<C>,
        pending: PendingPersona,
        opened: Result<S, E>,
    ) -> (r: (AccountResponse, Option<PersonaSession<T, C, S>>))
        ensures
            r == self.completion(*context, pending, opened),
    {
        let (status, id, session) = self.get_default_persona(context, opened);
        let response = match pending {
            PendingPersona::Default => AccountResponse::GetDefaultPersona(status, id),
            PendingPersona::ById => AccountResponse::GetPersona(status),
        };
        (response, session)
    }

    /// The account's authentication state: a fixed placeholder until authenticators
    /// exist to compute a real one.
    pub fn get_auth_state(&self) -> (r: (Status, Option<AuthState>))
        ensures
            r == account_auth_state_reply(),
    {
        (Status::Success, Some(default_auth_state()))
    }

    /// Registering an authentication listener is not supported yet: it always fails
    /// with `InternalError`, and the listener is closed on return.
    pub fn register_auth_listener<L>(
        &self,
        _listener: L,
        _initial_state: bool,
        _granularity: AuthChangeGranularity,
    ) -> (r: Status)
        ensures
            r == Status::InternalError,
    {
        Status::InternalError
    }

    /// The identifiers of the account's personae: the default persona's alone.
    pub fn get_persona_ids(&self) -> (r: Vec<FidlLocalPersonaId>)
        ensures
            r@ == seq![fidl_persona_id(self.persona_id())],
    {
        vec![FidlLocalPersonaId::from(*self.default_persona.id())]
    }

    /// Answers a request for the default persona, once turning its server end into a
    /// request stream gave `opened`: on success the returned session is to run as a
    /// task of its own, sharing the default persona and the context's capability.
    pub fn get_default_persona<C, S, E>(&self, context: &AccountContext<C>, opened: Result<S, E>) -> (r: (
        Status,
        Option<FidlLocalPersonaId>,
        Option<PersonaSession<T, C, S>>,
    ))
        ensures
            r == self.default_persona_outcome(*context, opened),
    {
        match opened {
            Ok(stream) => {
                let persona = Arc::clone(&self.default_persona);
                let persona_context = PersonaContext {
                    auth_ui_context_provider: Arc::clone(&context.auth_ui_context_provider),
                };
                let id = FidlLocalPersonaId::from(*self.default_persona.id());
                (
                    Status::Success,
                    Some(id),
                    Some(PersonaSession { persona, context: persona_context, stream }),
                )
            },
            Err(_) => (Status::IoError, None, None),
        }
    }

    /// Looks up the persona `id`: when it is the default persona, hands back the
    /// server end to serve it on; otherwise fails with `NotFound` and drops the
    /// server end unused.
    pub fn get_persona<P>(&self, id: LocalPersonaId, persona_server_end: P) -> (r: Result<P, Status>)
        ensures
            id == self.persona_id() ==> r == Ok::<P, Status>(persona_server_end),
            id != self.persona_id() ==> r == Err::<P, Status>(Status::NotFound),
    {
        if id == *self.default_persona.id() {
            Ok(persona_server_end)
        } else {
            Err(Status::NotFound)
        }
    }

    /// Reading the recovery account is not supported yet: it always fails with
    /// `InternalError`.
    pub fn get_recovery_account(&self) -> (r: (Status, Option<ServiceProviderAccount>))
        ensures
            r.0 == Status::InternalError,
            r.1 is None,
    {
        (Status::InternalError, None)
    }

    /// Setting the recovery account is not supported yet: it always fails with
    /// `InternalError` and discards `account`.
    pub fn set_recovery_account(&self, _account: ServiceProviderAccount) -> (r: Status)
        ensures
            r == Status::InternalError,
    {
        Status::InternalError
    }
}

} // verus!

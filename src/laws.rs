//! Facts about how accounts and personae answer requests, over all inputs.

use vstd::prelude::*;

use crate::account::{
    account_auth_state_reply, fidl_persona_id, Account, AccountAction, AccountContext,
    AccountRequest, AccountResponse, PendingPersona,
};
use crate::ids::FidlLocalPersonaId;
use crate::persona::{persona_reply, PersonaRequest, PersonaResponse};
use crate::types::{placeholder_auth_state, AuthChangeGranularity, ServiceProviderAccount, Status};

verus! {

/// An authentication state query succeeds with the fixed placeholder state, on an
/// account channel and on a persona channel alike.
pub proof fn lemma_auth_state_is_placeholder<T, P, L>(account: Account<T>, act: AccountAction<P>)
    requires
        account.action_for(AccountRequest::<P, L>::GetAuthState, act),
    ensures
        act matches AccountAction::Respond(AccountResponse::GetAuthState(s, a)) && s
            == Status::Success && a == Some(placeholder_auth_state()),
        persona_reply(PersonaRequest::GetAuthState) == PersonaResponse::GetAuthState(
            Status::Success,
            Some(placeholder_auth_state()),
        ),
{
}

/// Registering an authentication listener fails with `InternalError`, whatever the
/// listener, the initial-state flag and the granularity.
pub proof fn lemma_register_auth_listener_fails<T, P, L>(
    account: Account<T>,
    listener: L,
    initial_state: bool,
    granularity: AuthChangeGranularity,
    act: AccountAction<P>,
)
    requires
        account.action_for(
            AccountRequest::<P, L>::RegisterAuthListener { listener, initial_state, granularity },
            act,
        ),
    ensures
        act matches AccountAction::Respond(AccountResponse::RegisterAuthListener(s)) && s
            == Status::InternalError,
{
}

/// The persona identifiers of an account are exactly the default persona's.
pub proof fn lemma_persona_ids_are_default<T, P, L>(account: Account<T>, act: AccountAction<P>)
    requires
        account.action_for(AccountRequest::<P, L>::GetPersonaIds, act),
    ensures
        act matches AccountAction::Respond(AccountResponse::GetPersonaIds(v)) && v@.len() == 1
            && v@[0].id == account.persona_id().id,
{
}

/// Asking for the default persona on a channel that opens yields `Success` with the
/// default persona's identifier, and a session on that channel which serves the
/// default persona and answers an authentication state query as the account does.
pub proof fn lemma_default_persona_is_served<T, P, L, C, S, E>(
    account: Account<T>,
    server_end: P,
    act: AccountAction<P>,
    context: AccountContext<C>,
    stream: S,
)
    requires
        account.action_for(AccountRequest::<P, L>::GetDefaultPersona { persona: server_end }, act),
    ensures
        act == (AccountAction::OpenPersona { server_end, pending: PendingPersona::Default }),
        ({
            let (response, session) = account.completion(
                context,
                PendingPersona::Default,
                Ok::<S, E>(stream),
            );
            &&& response matches AccountResponse::GetDefaultPersona(s, i) && s == Status::Success
                && i == Some(fidl_persona_id(account.persona_id()))
            &&& session matches Some(sn) && sn.persona == account.spec_default_persona()
                && sn.context.auth_ui_context_provider == context.auth_ui_context_provider
                && sn.stream == stream
        }),
        persona_reply(PersonaRequest::GetAuthState) matches PersonaResponse::GetAuthState(s, a)
            && (s, a) == account_auth_state_reply(),
{
}

/// Asking for a persona by the default persona's identifier behaves as asking for
/// the default persona: the same channel is opened, and whatever the opening gives,
/// the status and the session are the same.
pub proof fn lemma_persona_by_default_id<T, P, L, C, S, E>(
    account: Account<T>,
    server_end: P,
    by_id: AccountAction<P>,
    by_default: AccountAction<P>,
    context: AccountContext<C>,
    opened: Result<S, E>,
)
    requires
        account.action_for(
            AccountRequest::<P, L>::GetPersona {
                id: fidl_persona_id(account.persona_id()),
                persona: server_end,
            },
            by_id,
        ),
        account.action_for(AccountRequest::<P, L>::GetDefaultPersona { persona: server_end }, by_default),
    ensures
        by_id == (AccountAction::OpenPersona { server_end, pending: PendingPersona::ById }),
        by_default == (AccountAction::OpenPersona { server_end, pending: PendingPersona::Default }),
        ({
            let (r_id, s_id) = account.completion(context, PendingPersona::ById, opened);
            let (r_def, s_def) = account.completion(context, PendingPersona::Default, opened);
            &&& s_id == s_def
            &&& r_def matches AccountResponse::GetDefaultPersona(st, _) && r_id
                == AccountResponse::GetPersona(st)
        }),
{
}

/// Asking for a persona by any other identifier fails with `NotFound` and opens no
/// channel.
pub proof fn lemma_persona_by_other_id_not_found<T, P, L>(
    account: Account<T>,
    id: FidlLocalPersonaId,
    server_end: P,
    act: AccountAction<P>,
)
    requires
        id.id != account.persona_id().id,
        account.action_for(AccountRequest::<P, L>::GetPersona { id, persona: server_end }, act),
    ensures
        act matches AccountAction::Respond(AccountResponse::GetPersona(s)) && s == Status::NotFound,
{
}

/// Reading and setting the recovery account fail with `InternalError`, whatever the
/// account proposed.
pub proof fn lemma_recovery_account_unsupported<T, P, L>(
    account: Account<T>,
    proposed: ServiceProviderAccount,
    get_act: AccountAction<P>,
    set_act: AccountAction<P>,
)
    requires
        account.action_for(AccountRequest::<P, L>::GetRecoveryAccount, get_act),
        account.action_for(AccountRequest::<P, L>::SetRecoveryAccount { account: proposed }, set_act),
    ensures
        get_act matches AccountAction::Respond(AccountResponse::GetRecoveryAccount(s, a)) && s
            == Status::InternalError && a is None,
        set_act matches AccountAction::Respond(AccountResponse::SetRecoveryAccount(s)) && s
            == Status::InternalError,
{
}

/// Two requests for the default persona on one account, on two channels that open,
/// give two sessions: each serves its own channel, both share the one default
/// persona and the one context capability.
pub proof fn lemma_two_default_persona_sessions<T, C, S, E>(
    account: Account<T>,
    context: AccountContext<C>,
    first: S,
    second: S,
)
    ensures
        ({
            let (r1, s1) = account.completion(context, PendingPersona::Default, Ok::<S, E>(first));
            let (r2, s2) = account.completion(context, PendingPersona::Default, Ok::<S, E>(second));
            &&& r1 matches AccountResponse::GetDefaultPersona(st, _) && st == Status::Success
            &&& r2 matches AccountResponse::GetDefaultPersona(st, _) && st == Status::Success
            &&& s1 matches Some(a) && s2 matches Some(b) && a.stream == first && b.stream == second
                && a.persona == b.persona && a.persona == account.spec_default_persona()
                && a.context.auth_ui_context_provider == b.context.auth_ui_context_provider
        }),
{
}

} // verus!

use std::sync::Arc;

use account_handler::account::{
    Account, AccountAction, AccountContext, AccountRequest, AccountResponse, PendingPersona,
};
use account_handler::ids::{FidlLocalPersonaId, LocalAccountId, LocalPersonaId};
use account_handler::persona::{PersonaRequest, PersonaResponse};
use account_handler::types::{
    default_auth_state, AuthChangeGranularity, AuthState, AuthStateSummary,
    ServiceProviderAccount, Status,
};

/// The credential store that test accounts are built over: the path of its database.
type TestStore = String;

/// A persona channel's server end in these tests: a channel number.
type ServerEnd = u32;

/// An authentication listener's client end in these tests.
type Listener = u32;

type Request = AccountRequest<ServerEnd, Listener>;

fn test_account_id() -> LocalAccountId {
    LocalAccountId::new(111111)
}

fn create_account() -> Account<TestStore> {
    Account::new(test_account_id(), Ok::<TestStore, ()>("/data/account/tokens.json".to_string()))
        .unwrap()
}

fn create_context() -> AccountContext<u32> {
    AccountContext { auth_ui_context_provider: Arc::new(77) }
}

fn respond(account: &Account<TestStore>, req: Request) -> AccountResponse {
    match account.handle_request(req) {
        AccountAction::Respond(response) => response,
        AccountAction::OpenPersona { .. } => panic!("expected a response, not a channel to open"),
    }
}

fn placeholder() -> AuthState {
    AuthState { summary: AuthStateSummary::Unknown }
}

#[test]
fn test_random_persona_id() {
    // Two accounts with the same account id get two different persona ids.
    let account_1 = create_account();
    let account_2 = create_account();
    assert_ne!(account_1.default_persona().id(), account_2.default_persona().id());
}

#[test]
fn test_get_auth_state() {
    let account = create_account();
    assert_eq!(
        respond(&account, Request::GetAuthState),
        AccountResponse::GetAuthState(Status::Success, Some(default_auth_state()))
    );
    assert_eq!(default_auth_state(), placeholder());
}

#[test]
fn test_register_auth_listener() {
    let account = create_account();
    assert_eq!(
        respond(
            &account,
            Request::RegisterAuthListener {
                listener: 4,
                initial_state: true,
                granularity: AuthChangeGranularity { summary_changes: true },
            }
        ),
        AccountResponse::RegisterAuthListener(Status::InternalError)
    );
}

#[test]
fn test_get_persona_ids() {
    let account = create_account();
    let persona_id = *account.default_persona().id();
    match respond(&account, Request::GetPersonaIds) {
        AccountResponse::GetPersonaIds(ids) => {
            assert_eq!(ids.len(), 1);
            assert_eq!(LocalPersonaId::new(ids[0].id), persona_id);
        }
        other => panic!("unexpected response {:?}", other),
    }
}

#[test]
fn test_get_default_persona() {
    let account = create_account();
    let persona_id = *account.default_persona().id();
    let context = create_context();

    let (server_end, pending) = match account.handle_request(Request::GetDefaultPersona { persona: 9 }) {
        AccountAction::OpenPersona { server_end, pending } => (server_end, pending),
        AccountAction::Respond(r) => panic!("unexpected response {:?}", r),
    };
    assert_eq!(server_end, 9);
    assert_eq!(pending, PendingPersona::Default);

    let (response, session) =
        account.complete_persona_request(&context, pending, Ok::<u32, ()>(server_end));
    match response {
        AccountResponse::GetDefaultPersona(status, id) => {
            assert_eq!(status, Status::Success);
            assert_eq!(LocalPersonaId::from(id.unwrap()), persona_id);
        }
        other => panic!("unexpected response {:?}", other),
    }

    // The persona channel should now be usable.
    let session = session.unwrap();
    assert_eq!(session.stream, 9);
    assert_eq!(
        session.persona.handle_request(PersonaRequest::GetAuthState),
        PersonaResponse::GetAuthState(Status::Success, Some(placeholder()))
    );
}

#[test]
fn test_get_persona_by_correct_id() {
    let account = create_account();
    let persona_id = *account.default_persona().id();
    let context = create_context();

    let req = Request::GetPersona { id: FidlLocalPersonaId::from(persona_id), persona: 3 };
    let (server_end, pending) = match account.handle_request(req) {
        AccountAction::OpenPersona { server_end, pending } => (server_end, pending),
        AccountAction::Respond(r) => panic!("unexpected response {:?}", r),
    };
    assert_eq!(pending, PendingPersona::ById);
    let (response, session) =
        account.complete_persona_request(&context, pending, Ok::<u32, ()>(server_end));
    assert_eq!(response, AccountResponse::GetPersona(Status::Success));

    // The persona channel should now be usable.
    let session = session.unwrap();
    assert_eq!(
        session.persona.handle_request(PersonaRequest::GetAuthState),
        PersonaResponse::GetAuthState(Status::Success, Some(placeholder()))
    );
}

#[test]
fn test_get_persona_by_incorrect_id() {
    let account = create_account();
    // This fixed value has a 1 - 2^64 probability of not matching the randomly chosen one.
    let wrong_id = LocalPersonaId::new(13);
    assert_eq!(
        respond(&account, Request::GetPersona { id: wrong_id.into(), persona: 3 }),
        AccountResponse::GetPersona(Status::NotFound)
    );
}

#[test]
fn test_set_recovery_account() {
    let account = create_account();
    let service_provider_account = ServiceProviderAccount {
        identity_provider_domain: "google.com".to_string(),
        user_profile_id: "test_obfuscated_gaia_id".to_string(),
    };
    assert_eq!(
        respond(&account, Request::SetRecoveryAccount { account: service_provider_account }),
        AccountResponse::SetRecoveryAccount(Status::InternalError)
    );
}

#[test]
fn test_get_recovery_account() {
    let account = create_account();
    assert_eq!(
        respond(&account, Request::GetRecoveryAccount),
        AccountResponse::GetRecoveryAccount(Status::InternalError, None)
    );
}

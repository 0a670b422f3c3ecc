//! Values carried by account and persona requests and responses.

use vstd::prelude::*;

verus! {

/// The status codes returned by account and persona operations.
#[derive(Clone, Copy, Debug, PartialEq, Eq, Structural)]
pub enum Status {
    Success,
    NotFound,
    IoError,
    InternalError,
    UnknownError,
}

/// A summary of the authentication state of an account or persona.
#[derive(Clone, Copy, Debug, PartialEq, Eq, Structural)]
pub enum AuthStateSummary {
    Unknown,
    StorageLocked,
    InteractionRequired,
    RecentlyAuthenticated,
}

/// The authentication state of an account or persona.
#[derive(Clone, Copy, Debug, PartialEq, Eq, Structural)]
pub struct AuthState {
    pub summary: AuthStateSummary,
}

/// The state reported while no authenticator computes a real one.
pub open spec fn placeholder_auth_state() -> AuthState {
    AuthState { summary: AuthStateSummary::Unknown }
}

/// Returns the state reported while no authenticator computes a real one.
pub fn default_auth_state() -> (r: AuthState)
    ensures
        r == placeholder_auth_state(),
{
    AuthState { summary: AuthStateSummary::Unknown }
}

/// Which changes of authentication state a listener asks to hear of.
#[derive(Clone, Copy, Debug, PartialEq, Eq, Structural)]
pub struct AuthChangeGranularity {
    pub summary_changes: bool,
}

/// An account held at a service provider, such as a recovery account.
#[derive(Clone, Debug, PartialEq, Eq)]
pub struct ServiceProviderAccount {
    pub identity_provider_domain: String,
    pub user_profile_id: String,
}

/// An error raised while setting up an account, carrying the status to report.
#[derive(Clone, Copy, Debug, PartialEq, Eq, Structural)]
pub struct AccountManagerError {
    pub status: Status,
}

impl AccountManagerError {
    /// An error that reports the given status.
    pub fn new(status: Status) -> (r: AccountManagerError)
        ensures
            r.status == status,
    {
        AccountManagerError { status }
    }
}

} // verus!

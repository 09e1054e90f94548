use vstd::prelude::*;

use crate::error::AppError;

verus! {

/// Progress of a logout: the stored token is read, revoked at the provider,
/// and then removed from the credential store.
#[derive(Debug, Clone, PartialEq, Eq)]
pub enum LogoutState {
    Idle,
    Retrieving,
    Revoking,
    Deleting,
    Done,
    Failed,
}

#[derive(Debug, PartialEq, Eq)]
pub enum LogoutEvent {
    Start,
    /// Outcome of reading the stored token.
    Retrieved(Result<String, AppError>),
    /// Outcome of the revocation call.
    Revoked(Result<(), AppError>),
    /// Outcome of removing the stored token.
    Deleted(Result<(), AppError>),
}

#[derive(Debug, Clone, PartialEq, Eq)]
pub enum LogoutAction {
    /// Read the token stored under the configured service and account.
    RetrieveCredential,
    RevokeToken { token: String },
    /// Confirm the logout to the operator, then remove the stored token.
    DeleteCredential,
    Finish,
    Fail(AppError),
    Ignore,
}

/// The transition function of the logout. Any failure ends it with that
/// failure, so a missing credential is reported, never taken as logged out.
pub open spec fn logout_step(s: LogoutState, e: LogoutEvent) -> (LogoutState, LogoutAction) {
    match (s, e) {
        (LogoutState::Idle, LogoutEvent::Start) => (
            LogoutState::Retrieving,
            LogoutAction::RetrieveCredential,
        ),
        (LogoutState::Retrieving, LogoutEvent::Retrieved(Ok(token))) => (
            LogoutState::Revoking,
            LogoutAction::RevokeToken { token },
        ),
        (LogoutState::Revoking, LogoutEvent::Revoked(Ok(()))) => (
            LogoutState::Deleting,
            LogoutAction::DeleteCredential,
        ),
        (LogoutState::Deleting, LogoutEvent::Deleted(Ok(()))) => (
            LogoutState::Done,
            LogoutAction::Finish,
        ),
        (LogoutState::Retrieving, LogoutEvent::Retrieved(Err(err))) => (
            LogoutState::Failed,
            LogoutAction::Fail(err),
        ),
        (LogoutState::Revoking, LogoutEvent::Revoked(Err(err))) => (
            LogoutState::Failed,
            LogoutAction::Fail(err),
        ),
        (LogoutState::Deleting, LogoutEvent::Deleted(Err(err))) => (
            LogoutState::Failed,
            LogoutAction::Fail(err),
        ),
        (s, _) => (s, LogoutAction::Ignore),
    }
}

impl LogoutState {
    pub fn new() -> (r: LogoutState)
        ensures
            r == LogoutState::Idle,
    {
        LogoutState::Idle
    }

    pub fn is_terminal(&self) -> (r: bool)
        ensures
            r == (*self is Done || *self is Failed),
    {
        match self {
            LogoutState::Done | LogoutState::Failed => true,
            _ => false,
        }
    }

    /// Takes the outcome of the last action and says what to do next.
    pub fn step(self, e: LogoutEvent) -> (r: (LogoutState, LogoutAction))
        ensures
            r == logout_step(self, e),
    {
        match (self, e) {
            (LogoutState::Idle, LogoutEvent::Start) => (
                LogoutState::Retrieving,
                LogoutAction::RetrieveCredential,
            ),
            (LogoutState::Retrieving, LogoutEvent::Retrieved(Ok(token))) => (
                LogoutState::Revoking,
                LogoutAction::RevokeToken { token },
            ),
            (LogoutState::Revoking, LogoutEvent::Revoked(Ok(()))) => (
                LogoutState::Deleting,
                LogoutAction::DeleteCredential,
            ),
            (LogoutState::Deleting, LogoutEvent::Deleted(Ok(()))) => (
                LogoutState::Done,
                LogoutAction::Finish,
            ),
            (LogoutState::Retrieving, LogoutEvent::Retrieved(Err(err))) => (
                LogoutState::Failed,
                LogoutAction::Fail(err),
            ),
            (LogoutState::Revoking, LogoutEvent::Revoked(Err(err))) => (
                LogoutState::Failed,
                LogoutAction::Fail(err),
            ),
            (LogoutState::Deleting, LogoutEvent::Deleted(Err(err))) => (
                LogoutState::Failed,
                LogoutAction::Fail(err),
            ),
            (s, _) => (s, LogoutAction::Ignore),
        }
    }
}

/// A logout whose stored token cannot be found fails with
/// `CredentialsNotFound`: it revokes nothing and deletes nothing.
pub proof fn lemma_logout_without_credential(reason: String)
    ensures
        logout_step(
            logout_step(LogoutState::Idle, LogoutEvent::Start).0,
            LogoutEvent::Retrieved(Err(AppError::CredentialsNotFound(reason))),
        ) == (LogoutState::Failed, LogoutAction::Fail(AppError::CredentialsNotFound(reason))),
{
}

/// What a completed check reports.
#[derive(Debug, Clone, Copy, PartialEq, Eq, Structural)]
pub enum CheckOutcome {
    Authenticated,
    /// The provider says the token is no longer active.
    NotAuthenticated,
}

/// Progress of a check: the stored token is read, then introspected.
#[derive(Debug, Clone, PartialEq, Eq)]
pub enum CheckState {
    Idle,
    Retrieving,
    Introspecting,
    Done,
    Failed,
}

#[derive(Debug, PartialEq, Eq)]
pub enum CheckEvent {
    Start,
    /// Outcome of reading the stored token.
    Retrieved(Result<String, AppError>),
    /// Outcome of the introspection call: the provider's `active` flag.
    Introspected(Result<bool, AppError>),
}

#[derive(Debug, Clone, PartialEq, Eq)]
pub enum CheckAction {
    /// Read the token stored under the configured service and account.
    RetrieveCredential,
    Introspect { token: String },
    /// The check succeeded with this outcome.
    Report(CheckOutcome),
    Fail(AppError),
    Ignore,
}

/// The transition function of the check. An inactive token is a successful
/// outcome of the check, not a failure.
pub open spec fn check_step(s: CheckState, e: CheckEvent) -> (CheckState, CheckAction) {
    match (s, e) {
        (CheckState::Idle, CheckEvent::Start) => (
            CheckState::Retrieving,
            CheckAction::RetrieveCredential,
        ),
        (CheckState::Retrieving, CheckEvent::Retrieved(Ok(token))) => (
            CheckState::Introspecting,
            CheckAction::Introspect { token },
        ),
        (CheckState::Retrieving, CheckEvent::Retrieved(Err(err))) => (
            CheckState::Failed,
            CheckAction::Fail(err),
        ),
        (CheckState::Introspecting, CheckEvent::Introspected(Ok(active))) => (
            CheckState::Done,
            CheckAction::Report(
                if active {
                    CheckOutcome::Authenticated
                } else {
                    CheckOutcome::NotAuthenticated
                },
            ),
        ),
        (CheckState::Introspecting, CheckEvent::Introspected(Err(err))) => (
            CheckState::Failed,
            CheckAction::Fail(err),
        ),
        (s, _) => (s, CheckAction::Ignore),
    }
}

impl CheckOutcome {
    /// The text shown to the operator for this outcome.
    pub fn message(&self) -> (r: String)
        ensures
            r@ == match *self {
                CheckOutcome::Authenticated => "You are authenticated and ready to make requests!"@,
                CheckOutcome::NotAuthenticated =>
                    "You are not authenticated or your token is expired, please run 'vibing auth login' to login again."@,
            },
    {
        match self {
            CheckOutcome::Authenticated => String::from_str(
                "You are authenticated and ready to make requests!",
            ),
            CheckOutcome::NotAuthenticated => String::from_str(
                "You are not authenticated or your token is expired, please run 'vibing auth login' to login again.",
            ),
        }
    }
}

impl CheckState {
    pub fn new() -> (r: CheckState)
        ensures
            r == CheckState::Idle,
    {
        CheckState::Idle
    }

    pub fn is_terminal(&self) -> (r: bool)
        ensures
            r == (*self is Done || *self is Failed),
    {
        match self {
            CheckState::Done | CheckState::Failed => true,
            _ => false,
        }
    }

    /// Takes the outcome of the last action and says what to do next.
    pub fn step(self, e: CheckEvent) -> (r: (CheckState, CheckAction))
        ensures
            r == check_step(self, e),
    {
        match (self, e) {
            (CheckState::Idle, CheckEvent::Start) => (
                CheckState::Retrieving,
                CheckAction::RetrieveCredential,
            ),
            (CheckState::Retrieving, CheckEvent::Retrieved(Ok(token))) => (
                CheckState::Introspecting,
                CheckAction::Introspect { token },
            ),
            (CheckState::Retrieving, CheckEvent::Retrieved(Err(err))) => (
                CheckState::Failed,
                CheckAction::Fail(err),
            ),
            (CheckState::Introspecting, CheckEvent::Introspected(Ok(active))) => {
                let outcome = if active {
                    CheckOutcome::Authenticated
                } else {
                    CheckOutcome::NotAuthenticated
                };
                (CheckState::Done, CheckAction::Report(outcome))
            },
            (CheckState::Introspecting, CheckEvent::Introspected(Err(err))) => (
                CheckState::Failed,
                CheckAction::Fail(err),
            ),
            (s, _) => (s, CheckAction::Ignore),
        }
    }
}

/// A token that the provider reports inactive ends the check successfully,
/// with the not-authenticated outcome, whatever the token was.
pub proof fn lemma_inactive_token_is_not_a_failure(token: String)
    ensures
        ({
            let (s1, a1) = check_step(CheckState::Idle, CheckEvent::Start);
            let (s2, a2) = check_step(s1, CheckEvent::Retrieved(Ok(token)));
            let (s3, a3) = check_step(s2, CheckEvent::Introspected(Ok(false)));
            &&& a2 == CheckAction::Introspect { token }
            &&& s3 == CheckState::Done
            &&& a3 == CheckAction::Report(CheckOutcome::NotAuthenticated)
        }),
{
}

} // verus!

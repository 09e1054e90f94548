use vstd::prelude::*;

use crate::authentication::response::{DeviceCodeAuth, KeycloakSuccessfulAuthentication};
use crate::error::AppError;

verus! {

/// Seconds between two polls of the token endpoint. This is a fixed value:
/// the `interval` that the provider sends with the session is not used.
pub const POLL_INTERVAL_SECS: u64 = 5;

/// Service under which the access token is stored.
pub const CREDENTIAL_SERVICE: &'static str = "vibing";

/// Account under which the access token is stored.
pub const CREDENTIAL_ACCOUNT: &'static str = "Vibing X Vibes - by Feis._.";

/// Progress of a device-code login.
#[derive(Debug, Clone, PartialEq, Eq)]
pub enum LoginState {
    Idle,
    /// The device authorization request is out.
    CodeRequested,
    /// Waiting for the user to approve `device_code` on another device.
    Polling { device_code: String },
    /// A token was granted and is being stored.
    Storing,
    Authenticated,
    Failed,
}

/// What the caller reports back after performing an action.
#[derive(Debug, PartialEq, Eq)]
pub enum LoginEvent {
    Start,
    /// Outcome of the device authorization request.
    DeviceCode(Result<DeviceCodeAuth, AppError>),
    /// The verification link was shown to the operator.
    Announced,
    /// Outcome of one poll of the token endpoint.
    PollResult(Result<KeycloakSuccessfulAuthentication, AppError>),
    /// Outcome of storing the access token.
    Stored(Result<(), AppError>),
}

/// What the caller is to do next.
#[derive(Debug, Clone, PartialEq, Eq)]
pub enum LoginAction {
    RequestDeviceCode,
    /// Show the verification link and the whole minutes the session lasts.
    Announce { verification_uri_complete: String, minutes_remaining: i32 },
    /// Wait `delay_secs` seconds, then ask the token endpoint about `device_code`.
    Poll { device_code: String, delay_secs: u64 },
    /// Store `secret` under `CREDENTIAL_SERVICE` and `CREDENTIAL_ACCOUNT`.
    StoreCredential { secret: String },
    /// The login is complete.
    Finish,
    /// The login ends with this error.
    Fail(AppError),
    /// The event does not belong to the current state: nothing to do.
    Ignore,
}

/// Whole minutes in `secs` seconds, rounded toward zero.
pub open spec fn minutes_of(secs: i32) -> i32 {
    if secs >= 0 {
        (secs / 60) as i32
    } else {
        (-((-secs) / 60)) as i32
    }
}

/// The transition function of the login. Every failed poll, whatever the
/// provider's reason, is answered by another poll: there is no bound on the
/// number of attempts and no check of the session's expiry.
pub open spec fn login_step(s: LoginState, e: LoginEvent) -> (LoginState, LoginAction) {
    match (s, e) {
        (LoginState::Idle, LoginEvent::Start) => (
            LoginState::CodeRequested,
            LoginAction::RequestDeviceCode,
        ),
        (LoginState::CodeRequested, LoginEvent::DeviceCode(Ok(d))) => (
            LoginState::Polling { device_code: d.device_code },
            LoginAction::Announce {
                verification_uri_complete: d.verification_uri_complete,
                minutes_remaining: minutes_of(d.expires_in),
            },
        ),
        (LoginState::CodeRequested, LoginEvent::DeviceCode(Err(err))) => (
            LoginState::Failed,
            LoginAction::Fail(err),
        ),
        (LoginState::Polling { device_code }, LoginEvent::Announced) => (
            LoginState::Polling { device_code },
            LoginAction::Poll { device_code, delay_secs: POLL_INTERVAL_SECS },
        ),
        (LoginState::Polling { device_code }, LoginEvent::PollResult(Err(_))) => (
            LoginState::Polling { device_code },
            LoginAction::Poll { device_code, delay_secs: POLL_INTERVAL_SECS },
        ),
        (LoginState::Polling { .. }, LoginEvent::PollResult(Ok(grant))) => (
            LoginState::Storing,
            LoginAction::StoreCredential { secret: grant.access_token },
        ),
        (LoginState::Storing, LoginEvent::Stored(Ok(()))) => (
            LoginState::Authenticated,
            LoginAction::Finish,
        ),
        (LoginState::Storing, LoginEvent::Stored(Err(err))) => (
            LoginState::Failed,
            LoginAction::Fail(err),
        ),
        (s, _) => (s, LoginAction::Ignore),
    }
}

/// The state after feeding the poll outcomes `results`, in order, from `s`.
pub open spec fn run_polls(
    s: LoginState,
    results: Seq<Result<KeycloakSuccessfulAuthentication, AppError>>,
) -> LoginState
    decreases results.len(),
{
    if results.len() == 0 {
        s
    } else {
        run_polls(
            login_step(s, LoginEvent::PollResult(results[0])).0,
            results.subrange(1, results.len() as int),
        )
    }
}

fn minutes_remaining(secs: i32) -> (r: i32)
    ensures
        r == minutes_of(secs),
{
    if secs >= 0 {
        secs / 60
    } else {
        let positive: i64 = -(secs as i64);
        let minutes: i64 = positive / 60;
        (-minutes) as i32
    }
}

impl LoginState {
    /// A login that has not started.
    pub fn new() -> (r: LoginState)
        ensures
            r == LoginState::Idle,
    {
        LoginState::Idle
    }

    /// Whether the login has ended, well or badly.
    pub fn is_terminal(&self) -> (r: bool)
        ensures
            r == (*self is Authenticated || *self is Failed),
    {
        match self {
            LoginState::Authenticated | LoginState::Failed => true,
            _ => false,
        }
    }

    /// Takes the outcome of the last action and says what to do next.
    pub fn step(self, e: LoginEvent) -> (r: (LoginState, LoginAction))
        ensures
            r == login_step(self, e),
    {
        match (self, e) {
            (LoginState::Idle, LoginEvent::Start) => (
                LoginState::CodeRequested,
                LoginAction::RequestDeviceCode,
            ),
            (LoginState::CodeRequested, LoginEvent::DeviceCode(Ok(d))) => {
                let minutes = minutes_remaining(d.expires_in);
                (
                    LoginState::Polling { device_code: d.device_code },
                    LoginAction::Announce {
                        verification_uri_complete: d.verification_uri_complete,
                        minutes_remaining: minutes,
                    },
                )
            },
            (LoginState::CodeRequested, LoginEvent::DeviceCode(Err(err))) => (
                LoginState::Failed,
                LoginAction::Fail(err),
            ),
            (LoginState::Polling { device_code }, LoginEvent::Announced) => {
                let code = device_code.clone();
                (
                    LoginState::Polling { device_code },
                    LoginAction::Poll { device_code: code, delay_secs: POLL_INTERVAL_SECS },
                )
            },
            (LoginState::Polling { device_code }, LoginEvent::PollResult(Err(_))) => {
                let code = device_code.clone();
                (
                    LoginState::Polling { device_code },
                    LoginAction::Poll { device_code: code, delay_secs: POLL_INTERVAL_SECS },
                )
            },
            (LoginState::Polling { .. }, LoginEvent::PollResult(Ok(grant))) => (
                LoginState::Storing,
                LoginAction::StoreCredential { secret: grant.access_token },
            ),
            (LoginState::Storing, LoginEvent::Stored(Ok(()))) => (
                LoginState::Authenticated,
                LoginAction::Finish,
            ),
            (LoginState::Storing, LoginEvent::Stored(Err(err))) => (
                LoginState::Failed,
                LoginAction::Fail(err),
            ),
            (s, _) => (s, LoginAction::Ignore),
        }
    }
}

/// While the token endpoint answers with errors, polling goes on: after any
/// number of failed polls the login is still waiting on the same device code,
/// and the next failure is answered by one more poll after the fixed interval.
pub proof fn lemma_pending_polls_never_end(
    device_code: String,
    results: Seq<Result<KeycloakSuccessfulAuthentication, AppError>>,
    err: AppError,
)
    requires
        forall|i: int| 0 <= i < results.len() ==> #[trigger] results[i] is Err,
    ensures
        run_polls(LoginState::Polling { device_code }, results) == (LoginState::Polling {
            device_code,
        }),
        login_step(
            run_polls(LoginState::Polling { device_code }, results),
            LoginEvent::PollResult(Err(err)),
        ) == (LoginState::Polling { device_code }, LoginAction::Poll {
            device_code,
            delay_secs: POLL_INTERVAL_SECS,
        }),
    decreases results.len(),
{
    if results.len() > 0 {
        let rest = results.subrange(1, results.len() as int);
        assert(results[0] is Err);
        assert forall|i: int| 0 <= i < rest.len() implies #[trigger] rest[i] is Err by {
            assert(rest[i] == results[i + 1]);
        }
        lemma_pending_polls_never_end(device_code, rest, err);
    }
}

/// Polling that meets `n - 1` errors and then a token grant ends exactly at
/// the `n`-th poll: the login is still polling after every shorter prefix, it
/// stores the granted access token at the `n`-th, and it is authenticated once
/// the store succeeds.
pub proof fn lemma_grant_ends_polling(
    device_code: String,
    results: Seq<Result<KeycloakSuccessfulAuthentication, AppError>>,
    grant: KeycloakSuccessfulAuthentication,
)
    requires
        results.len() >= 1,
        forall|i: int| 0 <= i < results.len() - 1 ==> #[trigger] results[i] is Err,
        results.last() == Ok::<KeycloakSuccessfulAuthentication, AppError>(grant),
    ensures
        forall|k: int|
            0 <= k < results.len() ==> #[trigger] run_polls(
                LoginState::Polling { device_code },
                results.subrange(0, k),
            ) == (LoginState::Polling { device_code }),
        login_step(
            run_polls(LoginState::Polling { device_code }, results.drop_last()),
            LoginEvent::PollResult(results.last()),
        ) == (LoginState::Storing, LoginAction::StoreCredential { secret: grant.access_token }),
        run_polls(LoginState::Polling { device_code }, results) == LoginState::Storing,
        login_step(LoginState::Storing, LoginEvent::Stored(Ok(()))) == (
            LoginState::Authenticated,
            LoginAction::Finish,
        ),
    decreases results.len(),
{
    let start = LoginState::Polling { device_code };
    assert forall|k: int| 0 <= k < results.len() implies #[trigger] run_polls(
        start,
        results.subrange(0, k),
    ) == start by {
        let prefix = results.subrange(0, k);
        assert forall|i: int| 0 <= i < prefix.len() implies #[trigger] prefix[i] is Err by {
            assert(prefix[i] == results[i]);
        }
        lemma_pending_polls_never_end(device_code, prefix, AppError::FetchError(None));
    }
    let init = results.drop_last();
    assert(init =~= results.subrange(0, results.len() - 1));
    assert(run_polls(start, init) == start);
    assert(init.push(results.last()) =~= results);
    lemma_run_polls_snoc(start, init, results.last());
}

/// Feeding one more outcome after `results` is one more step.
proof fn lemma_run_polls_snoc(
    s: LoginState,
    results: Seq<Result<KeycloakSuccessfulAuthentication, AppError>>,
    last: Result<KeycloakSuccessfulAuthentication, AppError>,
)
    ensures
        run_polls(s, results.push(last)) == login_step(
            run_polls(s, results),
            LoginEvent::PollResult(last),
        ).0,
    decreases results.len(),
{
    let all = results.push(last);
    assert(all[0] == (if results.len() == 0 { last } else { results[0] }));
    if results.len() == 0 {
        let next = login_step(s, LoginEvent::PollResult(last)).0;
        assert(all.subrange(1, all.len() as int).len() == 0);
        assert(run_polls(next, all.subrange(1, all.len() as int)) == next);
        assert(run_polls(s, results) == s);
    } else {
        let next = login_step(s, LoginEvent::PollResult(results[0])).0;
        let rest = results.subrange(1, results.len() as int);
        lemma_run_polls_snoc(next, rest, last);
        assert(all.subrange(1, all.len() as int) =~= rest.push(last));
        assert(run_polls(s, results) == run_polls(next, rest));
        assert(run_polls(s, all) == run_polls(next, rest.push(last)));
    }
}

} // verus!

use vstd::prelude::*;

use crate::authentication::response::KeycloakError;

verus! {

/// Message used when a caller gives no message of its own.
pub const GENERIC_ERROR_MESSAGE: &'static str = "An error occured while processing your request...";

/// The error taxonomy of the client, one variant per class.
#[derive(Debug, Clone, PartialEq, Eq)]
pub enum AppError {
    /// The secure storage holds no credential for the key, or could not be used.
    CredentialsNotFound(String),
    /// HTTP 401, or a transport error that carries a 4xx status.
    AuthorizationError(Option<u16>),
    /// Another unsuccessful status, or a transport error that carries a 5xx status.
    NetworkError(Option<u16>),
    /// Transport-level failure: no connection, no answer, an unreadable body.
    FetchError(Option<u16>),
    /// Structured error body returned by the identity provider.
    KeycloakError(KeycloakError),
    /// Anything else, with a description.
    Other(String),
}

pub open spec fn is_success_status(status: int) -> bool {
    200 <= status < 300
}

pub open spec fn is_client_error_status(status: int) -> bool {
    400 <= status < 500
}

pub open spec fn is_server_error_status(status: int) -> bool {
    500 <= status < 600
}

/// Class of a transport error, given the HTTP status it carries, if any.
pub open spec fn transport_error_class(status: Option<u16>) -> AppError {
    match status {
        None => AppError::FetchError(None),
        Some(s) => if is_client_error_status(s as int) {
            AppError::AuthorizationError(Some(s))
        } else if is_server_error_status(s as int) {
            AppError::NetworkError(Some(s))
        } else {
            AppError::FetchError(Some(s))
        },
    }
}

/// The text shown to the operator for each class of error.
pub open spec fn error_message(e: AppError) -> Seq<char> {
    match e {
        AppError::AuthorizationError(_) => "You are not authorized to execute this operation"@,
        AppError::NetworkError(_) =>
            "The server is experiencing some issues at the moment.\nPlease, try again in a few minutes."@,
        AppError::FetchError(_) => "An unknown error occured while fetching data.\nPlease, try again."@,
        AppError::CredentialsNotFound(_) =>
            "Credentials not found in the device's secure storage...\nTry to authenticate again using\n`vibes auth login`"@,
        AppError::KeycloakError(_) =>
            "An error occured while checking your authentication token.\nPlease, try again or, if the problem persists, try logging in again using\n`vibing auth login`"@,
        AppError::Other(_) =>
            "An unknown error occured while satisfying your request...\nPlease, try again. If the problem persists, try to contact the technical support."@,
    }
}

/// Whether `status` is a 2xx success.
pub fn is_success(status: u16) -> (r: bool)
    ensures
        r == is_success_status(status as int),
{
    200 <= status && status < 300
}

/// Whether `status` is a 4xx client error.
pub fn is_client_error(status: u16) -> (r: bool)
    ensures
        r == is_client_error_status(status as int),
{
    400 <= status && status < 500
}

impl AppError {
    /// Classifies a transport error by the HTTP status it carries: none is a
    /// fetch error, 4xx an authorization error, 5xx a network error.
    pub fn from_transport(status: Option<u16>) -> (r: AppError)
        ensures
            r == transport_error_class(status),
    {
        match status {
            None => AppError::FetchError(None),
            Some(s) => {
                if is_client_error(s) {
                    AppError::AuthorizationError(Some(s))
                } else if 500 <= s && s < 600 {
                    AppError::NetworkError(Some(s))
                } else {
                    AppError::FetchError(Some(s))
                }
            },
        }
    }

    /// The human-readable message for this error's class.
    pub fn message(&self) -> (r: String)
        ensures
            r@ == error_message(*self),
    {
        match self {
            AppError::AuthorizationError(_) => String::from_str(
                "You are not authorized to execute this operation",
            ),
            AppError::NetworkError(_) => String::from_str(
                "The server is experiencing some issues at the moment.\nPlease, try again in a few minutes.",
            ),
            AppError::FetchError(_) => String::from_str(
                "An unknown error occured while fetching data.\nPlease, try again.",
            ),
            AppError::CredentialsNotFound(_) => String::from_str(
                "Credentials not found in the device's secure storage...\nTry to authenticate again using\n`vibes auth login`",
            ),
            AppError::KeycloakError(_) => String::from_str(
                "An error occured while checking your authentication token.\nPlease, try again or, if the problem persists, try logging in again using\n`vibing auth login`",
            ),
            AppError::Other(_) => String::from_str(
                "An unknown error occured while satisfying your request...\nPlease, try again. If the problem persists, try to contact the technical support.",
            ),
        }
    }
}

/// Describes a generic failure: the given message, or a default one.
pub fn build_generic_error(msg: Option<&str>) -> (r: String)
    ensures
        r@ == match msg {
            Some(m) => m@,
            None => GENERIC_ERROR_MESSAGE@,
        },
{
    match msg {
        Some(m) => m.to_owned(),
        None => String::from_str(GENERIC_ERROR_MESSAGE),
    }
}

} // verus!

use vibing::authentication::response::KeycloakError;
use vibing::error::{build_generic_error, is_client_error, is_success, AppError};

#[test]
fn generic_error_default_message() {
    assert_eq!(build_generic_error(None), "An error occured while processing your request...");
}

#[test]
fn generic_error_given_message() {
    assert_eq!(build_generic_error(Some("disk on fire")), "disk on fire");
    assert_eq!(build_generic_error(Some("")), "");
}

#[test]
fn one_message_per_class() {
    assert_eq!(
        AppError::AuthorizationError(None).message(),
        "You are not authorized to execute this operation"
    );
    assert_eq!(
        AppError::NetworkError(Some(500)).message(),
        "The server is experiencing some issues at the moment.\nPlease, try again in a few minutes."
    );
    assert_eq!(
        AppError::FetchError(None).message(),
        "An unknown error occured while fetching data.\nPlease, try again."
    );
    assert_eq!(
        AppError::CredentialsNotFound("no entry".to_string()).message(),
        "Credentials not found in the device's secure storage...\nTry to authenticate again using\n`vibes auth login`"
    );
    let provider = KeycloakError {
        error: "invalid_grant".to_string(),
        error_description: "bad".to_string(),
    };
    assert!(AppError::KeycloakError(provider)
        .message()
        .starts_with("An error occured while checking your authentication token."));
    assert!(AppError::Other("x".to_string())
        .message()
        .starts_with("An unknown error occured while satisfying your request..."));
}

#[test]
fn status_ranges() {
    assert!(is_success(200));
    assert!(!is_success(199));
    assert!(!is_success(300));
    assert!(is_client_error(400));
    assert!(is_client_error(499));
    assert!(!is_client_error(500));
    assert!(!is_client_error(399));
}

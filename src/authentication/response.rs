use vstd::prelude::*;

verus! {

/// Error body returned by the identity provider.
#[derive(Debug, Clone, PartialEq, Eq)]
pub struct KeycloakError {
    pub error: String,
    pub error_description: String,
}

/// Token grant returned by the token endpoint once the user approved the device.
#[derive(Debug, Clone, PartialEq, Eq)]
pub struct KeycloakSuccessfulAuthentication {
    pub access_token: String,
    pub expires_in: i32,
    pub token_type: String,
    pub session_state: String,
    pub scope: String,
}

/// Session returned by the device authorization endpoint.
#[derive(Debug, Clone, PartialEq, Eq)]
pub struct DeviceCodeAuth {
    pub device_code: String,
    pub user_code: String,
    pub verification_uri: String,
    pub verification_uri_complete: String,
    pub expires_in: i32,
    pub interval: i32,
}

#[derive(Debug, Clone, PartialEq, Eq)]
pub struct KeycloakAccountRoles {
    pub roles: Vec<String>,
}

#[derive(Debug, Clone, PartialEq, Eq)]
pub struct KeycloakJwtAccount {
    pub account: KeycloakAccountRoles,
}

/// Full introspection record of a token.
#[derive(Debug, Clone, PartialEq, Eq)]
pub struct KeycloakJwtIntrospect {
    pub exp: i32,
    pub iat: i32,
    pub auth_time: i32,
    pub jti: String,
    pub iss: String,
    pub sub: String,
    pub typ: String,
    pub resource_access: KeycloakJwtAccount,
    pub scope: String,
    pub email_verified: bool,
    pub name: String,
    pub given_name: String,
    pub family_name: String,
    pub email: String,
    pub client_id: String,
    pub username: String,
    pub token_type: String,
    pub active: bool,
}

/// The part of an introspection answer that the check flow reads.
#[derive(Debug, Clone, Copy, PartialEq, Eq)]
pub struct KeycloakJwtActiveStatus {
    pub active: bool,
}

} // verus!

use vstd::prelude::*;

verus! {

/// Form body of a device authorization request.
#[derive(Debug, Clone, PartialEq, Eq)]
pub struct KeycloakAuth {
    pub client_id: String,
    pub client_secret: String,
}

impl KeycloakAuth {
    pub fn new(client_id: &str, client_secret: &str) -> (r: KeycloakAuth)
        ensures
            r.client_id@ == client_id@,
            r.client_secret@ == client_secret@,
    {
        KeycloakAuth { client_id: client_id.to_owned(), client_secret: client_secret.to_owned() }
    }
}

/// Form body of a token request made while polling for the user's approval.
#[derive(Debug, Clone, PartialEq, Eq)]
pub struct KeycloakDeviceCodeAuthCheck {
    pub device_code: String,
    pub grant_type: String,
    pub client_id: String,
    pub client_secret: String,
}

impl KeycloakDeviceCodeAuthCheck {
    pub fn new(device_code: &str, grant_type: &str, client_id: &str, client_secret: &str) -> (r:
        KeycloakDeviceCodeAuthCheck)
        ensures
            r.device_code@ == device_code@,
            r.grant_type@ == grant_type@,
            r.client_id@ == client_id@,
            r.client_secret@ == client_secret@,
    {
        KeycloakDeviceCodeAuthCheck {
            device_code: device_code.to_owned(),
            grant_type: grant_type.to_owned(),
            client_id: client_id.to_owned(),
            client_secret: client_secret.to_owned(),
        }
    }
}

/// Form body of an introspection or revocation request.
#[derive(Debug, Clone, PartialEq, Eq)]
pub struct KeycloakJwtIntrospect {
    pub client_id: String,
    pub client_secret: String,
    pub token: String,
}

impl KeycloakJwtIntrospect {
    pub fn new(client_id: &str, client_secret: &str, token: &str) -> (r: KeycloakJwtIntrospect)
        ensures
            r.client_id@ == client_id@,
            r.client_secret@ == client_secret@,
            r.token@ == token@,
    {
        KeycloakJwtIntrospect {
            client_id: client_id.to_owned(),
            client_secret: client_secret.to_owned(),
            token: token.to_owned(),
        }
    }
}

} // verus!

use vstd::prelude::*;

use crate::authentication::request::{KeycloakAuth, KeycloakDeviceCodeAuthCheck, KeycloakJwtIntrospect};

verus! {

/// Grant type of a token request that redeems a device code.
pub const DEVICE_CODE_GRANT_TYPE: &'static str = "urn:ietf:params:oauth:grant-type:device_code";

/// Content type of the provider's form requests.
pub const FORM_URLENCODED: &'static str = "application/x-www-form-urlencoded";

pub const DEVICE_AUTH_PATH: &'static str = "/protocol/openid-connect/auth/device";

pub const TOKEN_PATH: &'static str = "/protocol/openid-connect/token";

pub const INTROSPECT_PATH: &'static str = "/protocol/openid-connect/token/introspect";

pub const REVOKE_PATH: &'static str = "/protocol/openid-connect/revoke";

/// Client of one realm of the identity provider.
pub struct KeycloakRequest {
    url: String,
}

/// A form-encoded POST to the identity provider.
pub struct FormRequest<T> {
    pub url: String,
    pub body: T,
}

impl View for KeycloakRequest {
    type V = Seq<char>;

    /// Base URL of the realm.
    closed spec fn view(&self) -> Seq<char> {
        self.url@
    }
}

impl KeycloakRequest {
    /// Client of realm `realm` on the provider at `host`.
    pub fn new(host: &str, realm: &str) -> (r: KeycloakRequest)
        ensures
            r@ == host@ + "/realms/"@ + realm@,
    {
        let mut url = host.to_owned();
        url.append("/realms/");
        url.append(realm);
        KeycloakRequest { url }
    }

    /// Base URL of the realm.
    pub fn url(&self) -> (r: &String)
        ensures
            r@ == self@,
    {
        &self.url
    }

    fn endpoint(&self, path: &str) -> (r: String)
        ensures
            r@ == self@ + path@,
    {
        let mut url = self.url.clone();
        url.append(path);
        url
    }

    /// Request that opens a device authorization session.
    pub fn device_code_request(&self, client_id: &str, client_secret: &str) -> (r: FormRequest<
        KeycloakAuth,
    >)
        ensures
            r.url@ == self@ + DEVICE_AUTH_PATH@,
            r.body.client_id@ == client_id@,
            r.body.client_secret@ == client_secret@,
    {
        FormRequest {
            url: self.endpoint(DEVICE_AUTH_PATH),
            body: KeycloakAuth::new(client_id, client_secret),
        }
    }

    /// Request that asks whether the user has approved the device yet.
    pub fn token_request(&self, device_code: &str, client_id: &str, client_secret: &str) -> (r:
        FormRequest<KeycloakDeviceCodeAuthCheck>)
        ensures
            r.url@ == self@ + TOKEN_PATH@,
            r.body.device_code@ == device_code@,
            r.body.grant_type@ == DEVICE_CODE_GRANT_TYPE@,
            r.body.client_id@ == client_id@,
            r.body.client_secret@ == client_secret@,
    {
        FormRequest {
            url: self.endpoint(TOKEN_PATH),
            body: KeycloakDeviceCodeAuthCheck::new(
                device_code,
                DEVICE_CODE_GRANT_TYPE,
                client_id,
                client_secret,
            ),
        }
    }

    /// Request that asks the provider whether `token` is still active.
    pub fn introspect_request(&self, client_id: &str, client_secret: &str, token: &str) -> (r:
        FormRequest<KeycloakJwtIntrospect>)
        ensures
            r.url@ == self@ + INTROSPECT_PATH@,
            r.body.client_id@ == client_id@,
            r.body.client_secret@ == client_secret@,
            r.body.token@ == token@,
    {
        FormRequest {
            url: self.endpoint(INTROSPECT_PATH),
            body: KeycloakJwtIntrospect::new(client_id, client_secret, token),
        }
    }

    /// Request that revokes `token` at the provider. It carries the same
    /// form fields as an introspection request.
    pub fn revoke_request(&self, client_id: &str, client_secret: &str, token: &str) -> (r:
        FormRequest<KeycloakJwtIntrospect>)
        ensures
            r.url@ == self@ + REVOKE_PATH@,
            r.body.client_id@ == client_id@,
            r.body.client_secret@ == client_secret@,
            r.body.token@ == token@,
    {
        FormRequest {
            url: self.endpoint(REVOKE_PATH),
            body: KeycloakJwtIntrospect::new(client_id, client_secret, token),
        }
    }
}

} // verus!

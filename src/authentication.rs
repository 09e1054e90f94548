pub mod keycloak_auth;
pub mod login;
pub mod request;
pub mod response;

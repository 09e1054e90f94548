//! Command-line client library for the OAuth 2.0 device authorization grant:
//! request building, response classification and the decision logic of the
//! login, logout and check flows. Network, keychain and clock access is left
//! to the caller, which executes the actions these state machines return.
pub mod authentication;
pub mod cli;
pub mod error;
pub mod features;
pub mod headers;
pub mod requests;

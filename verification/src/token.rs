//! The token that a successful exchange gives.

use std::collections::HashMap;
use vstd::prelude::*;

verus! {

/// A JSON value as `serde_json` holds it. This crate only carries such
/// values from the authorization server's reply to the application and never
/// looks inside one.
#[verifier::external_type_specification]
#[verifier::external_body]
pub struct ExJsonValue(serde_json::Value);

/// The server's response to a successful token exchange, defined in
/// RFC 6749 §5.1.
#[derive(Clone, PartialEq)]
pub struct TokenResponse {
    /// The access token issued by the authorization server.
    pub access_token: String,
    /// The type of token, described in RFC 6749 §7.1.
    pub token_type: String,
    /// The lifetime in seconds of the access token, if the authorization server
    /// provided one.
    pub expires_in: Option<i32>,
    /// The refresh token, if the server provided one.
    pub refresh_token: Option<String>,
    /// The (space-separated) list of scopes associated with the access token.
    /// The authorization server is required to provide this if it differs from
    /// the requested set of scopes.
    pub scope: Option<String>,
    /// Additional values returned by the authorization server, if any.
    pub extras: HashMap<String, serde_json::Value>,
}

} // verus!

//! The adapter: what an application plugs in to talk to the provider.

use rocket::http::uri::Absolute;
use std::fmt::Debug;
use vstd::prelude::*;

use crate::oauth_config::OAuthConfig;
use crate::token::TokenResponse;

verus! {

/// The scopes of a request, as text.
pub open spec fn scope_names(scopes: &[&str]) -> Seq<Seq<char>> {
    scopes@.map_values(|scope: &str| scope@)
}

/// An OAuth2 `Adapter` can be implemented by any type that facilitates the
/// Authorization Code Grant as described in RFC 6749 §4.1. The implementing
/// type must be able to generate an authorization URI and perform the token
/// exchange.
///
/// The two spec functions say what an implementation may return. Each
/// implementation states its own; where it states none, anything may come
/// back. `OAuth2` promises of its results what these relations say of the
/// adapter's.
pub trait Adapter: Send + Sync + 'static {
    /// The `Error` type returned by this `Adapter` when a URI generation or
    /// token exchange fails.
    type Error: Debug;

    /// Whether `authorization_uri` may return `r` for these arguments.
    open spec fn authorizes(
        &self,
        config: &OAuthConfig,
        scopes: Seq<Seq<char>>,
        r: Result<(Absolute<'static>, String), Self::Error>,
    ) -> bool {
        true
    }

    /// Whether `exchange_code` may return `r` for these arguments.
    open spec fn exchanges(
        &self,
        config: &OAuthConfig,
        code: Seq<char>,
        r: Result<TokenResponse, Self::Error>,
    ) -> bool {
        true
    }

    /// Generate an authorization URI and state value as described by RFC 6749 §4.1.1.
    ///
    /// The URI is the provider's authorization endpoint with `response_type=code`,
    /// the client id, the redirect URI, the scopes joined by spaces, and the
    /// state. The state is returned beside it. It is what protects the login
    /// against forgery: each call makes a new one that cannot be guessed, and
    /// never an empty one, for an empty state is not let through.
    fn authorization_uri(&self, config: &OAuthConfig, scopes: &[&str]) -> (r: Result<
        (Absolute<'static>, String),
        Self::Error,
    >)
        ensures
            self.authorizes(config, scope_names(scopes), r),
    ;

    /// Perform the token exchange in accordance with RFC 6749 §4.1.3 given the
    /// authorization code provided by the service. A failure of the network,
    /// a refusal by the provider and a reply that cannot be read are all
    /// errors, and `OAuth2` treats them alike.
    fn exchange_code(&self, config: &OAuthConfig, code: &str) -> (r: Result<
        TokenResponse,
        Self::Error,
    >)
        ensures
            self.exchanges(config, code@, r),
    ;
}

} // verus!

//! The authorization code grant, from the redirect to the provider until the
//! application's callback has the token.

use rocket::http::uri::Absolute;
use vstd::prelude::*;

use crate::adapter::{scope_names, Adapter};
use crate::callback::Callback;
use crate::config::{ConfigError, ConfigFault, ConfigTable};
use crate::cookies::{CookieText, Cookies};
use crate::oauth_config::{loaded_settings, ClientSettings, OAuthConfig};
use crate::query::CallbackQuery;
use crate::response::{Failure, Outcome, Redirect};
use crate::state::{
    begins_login, callback_verdict, cookies_after_callback, login_redirect, query_text,
    redeem_state, Verdict,
};
use crate::token::TokenResponse;

verus! {

/// The handler that a route leads to.
#[derive(Clone, Copy, Debug, PartialEq, Eq, Structural)]
pub enum Handler {
    /// The provider's redirect back: `redirect_handler`.
    Redirect,
    /// The start of a login with the default scopes: `login_handler`.
    Login,
}

/// A `GET` route to mount.
#[derive(Clone, Debug, PartialEq, Eq)]
pub struct Route {
    pub uri: String,
    pub handler: Handler,
}

/// What a `Route` says.
pub struct RouteText {
    pub uri: Seq<char>,
    pub handler: Handler,
}

impl View for Route {
    type V = RouteText;

    open spec fn view(&self) -> RouteText {
        RouteText { uri: self.uri@, handler: self.handler }
    }
}

/// What a list of routes says, route by route.
pub open spec fn routes_text(routes: Seq<Route>) -> Seq<RouteText> {
    routes.map_values(|route: Route| route@)
}

/// What a list of strings says, string by string.
pub open spec fn strings_text(strings: Seq<String>) -> Seq<Seq<char>> {
    strings.map_values(|string: String| string@)
}

/// The `OAuth2` structure implements OAuth in a Rocket application by setting
/// up OAuth-related route handlers.
///
/// ## Redirect handler
/// `OAuth2` handles the redirect URI. It verifies the `state` token to prevent
/// CSRF attacks, then instructs the Adapter to perform the token exchange. The
/// resulting token is passed to the `Callback`.
///
/// ## Login handler
/// `OAuth2` optionally handles a login route, which simply redirects to the
/// authorization URI generated by the `Adapter`. Whether or not `OAuth2` is
/// handling a login URI, `get_redirect` can be used to get a `Redirect` to the
/// OAuth login flow manually.
pub struct OAuth2<A, C> {
    adapter: A,
    callback: C,
    config: OAuthConfig,
    default_scopes: Vec<String>,
}

/// What attaching an `OAuth2` to the host comes to: the instance to place in
/// managed state, and the routes to mount at the root.
pub struct Fairing<A, C> {
    pub oauth2: OAuth2<A, C>,
    pub routes: Vec<Route>,
}

/// The routes of an `OAuth2`: the redirect handler at `callback_uri`, and
/// after it the login handler where a login route is asked for.
pub open spec fn mounted_routes(callback_uri: Seq<char>, login: Option<(&str, Vec<String>)>) -> Seq<
    RouteText,
> {
    match login {
        Some((login_uri, _)) => seq![
            RouteText { uri: callback_uri, handler: Handler::Redirect },
            RouteText { uri: login_uri@, handler: Handler::Login },
        ],
        None => seq![RouteText { uri: callback_uri, handler: Handler::Redirect }],
    }
}

/// The scopes that the login route asks for: those given with it, and none
/// where there is no login route.
pub open spec fn login_scopes(login: Option<(&str, Vec<String>)>) -> Seq<Seq<char>> {
    match login {
        Some((_, scopes)) => strings_text(scopes@),
        None => Seq::empty(),
    }
}

impl<A, C> OAuth2<A, C> {
    /// The adapter that this instance asks.
    pub closed spec fn adapter(&self) -> A {
        self.adapter
    }

    /// The callback that this instance hands tokens to.
    pub closed spec fn callback(&self) -> C {
        self.callback
    }

    /// The configuration of the OAuth client.
    pub closed spec fn config(&self) -> OAuthConfig {
        self.config
    }

    /// The scopes that the login route asks for.
    pub closed spec fn default_scopes(&self) -> Seq<Seq<char>> {
        strings_text(self.default_scopes@)
    }

    /// Whether this instance is made of these parts, with the routes that
    /// go with them.
    pub open spec fn made_of(
        fairing: Fairing<A, C>,
        adapter: A,
        callback: C,
        config: OAuthConfig,
        callback_uri: Seq<char>,
        login: Option<(&str, Vec<String>)>,
    ) -> bool {
        &&& fairing.oauth2.adapter() == adapter
        &&& fairing.oauth2.callback() == callback
        &&& fairing.oauth2.config() == config
        &&& fairing.oauth2.default_scopes() == login_scopes(login)
        &&& routes_text(fairing.routes@) == mounted_routes(callback_uri, login)
    }

    /// Returns an OAuth2 fairing with custom configuration. The fairing will
    /// place an instance of `OAuth2<A, C>` in managed state and mount a
    /// redirect handler. It will also mount a login handler if `login` is
    /// `Some`.
    pub fn custom(
        adapter: A,
        callback: C,
        config: OAuthConfig,
        callback_uri: &str,
        login: Option<(&str, Vec<String>)>,
    ) -> (fairing: Fairing<A, C>)
        ensures
            Self::made_of(fairing, adapter, callback, config, callback_uri@, login),
    {
        let mut routes = Vec::new();
        routes.push(Route { uri: callback_uri.to_owned(), handler: Handler::Redirect });
        let mut default_scopes = Vec::new();
        if let Some((login_uri, login_scopes)) = login {
            routes.push(Route { uri: login_uri.to_owned(), handler: Handler::Login });
            default_scopes = login_scopes;
        }
        proof {
            assert(routes_text(routes@) =~= mounted_routes(callback_uri@, login));
            assert(strings_text(default_scopes@) =~= login_scopes(login));
        }
        Fairing { oauth2: OAuth2 { adapter, callback, config, default_scopes }, routes }
    }

    /// Returns an OAuth2 fairing. The fairing will place an instance of
    /// `OAuth2<A, C>` in managed state and mount a redirect handler. It will
    /// also mount a login handler if `login` is `Some`. The client is the one
    /// that `config` holds under `config_name`; where it cannot be loaded
    /// there is nothing to attach, and the host must not start.
    pub fn fairing(
        adapter: A,
        callback: C,
        config: &ConfigTable,
        config_name: &str,
        callback_uri: &str,
        login: Option<(&str, Vec<String>)>,
    ) -> (r: Result<Fairing<A, C>, ConfigError>)
        ensures
            match r {
                Ok(fairing) => {
                    &&& loaded_settings(config@, config_name@) == Ok::<ClientSettings, ConfigFault>(
                        fairing.oauth2.config()@,
                    )
                    &&& Self::made_of(
                        fairing,
                        adapter,
                        callback,
                        fairing.oauth2.config(),
                        callback_uri@,
                        login,
                    )
                },
                Err(e) => loaded_settings(config@, config_name@) == Err::<
                    ClientSettings,
                    ConfigFault,
                >(e@),
            },
    {
        match OAuthConfig::from_config(config, config_name) {
            Ok(loaded) => Ok(Self::custom(adapter, callback, loaded, callback_uri, login)),
            Err(e) => Err(e),
        }
    }
}

impl<A: Adapter, C> OAuth2<A, C> {
    /// Whether the adapter may have returned `authorized` for these scopes,
    /// and the login then began as `begins_login` says.
    pub open spec fn login_begun(
        &self,
        scopes: Seq<Seq<char>>,
        authorized: Result<(Absolute<'static>, String), A::Error>,
        before: Map<Seq<char>, CookieText>,
        r: Result<Redirect, A::Error>,
        after: Map<Seq<char>, CookieText>,
    ) -> bool {
        &&& self.adapter().authorizes(&self.config(), scopes, authorized)
        &&& begins_login(authorized, before, r, after)
    }

    /// Prepare an authentication redirect. This sets a state cookie and returns
    /// a `Redirect` to the provider's authorization page. The adapter is asked
    /// once, with the configuration and these scopes; where it fails, its
    /// error is returned and no cookie is set.
    pub fn get_redirect(&self, cookies: &mut Cookies, scopes: &[&str]) -> (r: Result<
        Redirect,
        A::Error,
    >)
        ensures
            exists|authorized: Result<(Absolute<'static>, String), A::Error>| #[trigger]
                self.login_begun(
                    scope_names(scopes),
                    authorized,
                    old(cookies)@,
                    r,
                    final(cookies)@,
                ),
    {
        let authorized = self.adapter.authorization_uri(&self.config, scopes);
        let ghost returned = authorized;
        let r = login_redirect(cookies, authorized);
        assert(self.login_begun(scope_names(scopes), returned, old(cookies)@, r, cookies@));
        r
    }

    /// How the callback ends, given what the adapter returned for the
    /// exchange: with the response of the application's callback to the
    /// token, or refused with the adapter's error.
    pub open spec fn completes<Request>(
        &self,
        request: &Request,
        exchanged: Result<TokenResponse, A::Error>,
        outcome: Outcome<C::Responder, A::Error>,
    ) -> bool where C: Callback<Request> {
        match exchanged {
            Ok(token) => outcome matches Outcome::Success(response) && self.callback().responds(
                request,
                token,
                response,
            ),
            Err(e) => outcome == Outcome::<C::Responder, A::Error>::Failure(Failure::Exchange(e)),
        }
    }

    /// Ends the callback with what the adapter returned for the exchange:
    /// the application's callback is run on a token, and on nothing else.
    pub fn complete<Request>(
        &self,
        request: &Request,
        exchanged: Result<TokenResponse, A::Error>,
    ) -> (outcome: Outcome<C::Responder, A::Error>) where C: Callback<Request>
        ensures
            self.completes(request, exchanged, outcome),
    {
        match exchanged {
            Ok(token) => Outcome::Success(self.callback.callback(request, token)),
            Err(e) => Outcome::Failure(Failure::Exchange(e)),
        }
    }

    /// Whether the adapter may have returned `exchanged` for this code, and
    /// the callback then ended as `completes` says.
    pub open spec fn exchanged_and_completed<Request>(
        &self,
        request: &Request,
        code: Seq<char>,
        exchanged: Result<TokenResponse, A::Error>,
        outcome: Outcome<C::Responder, A::Error>,
    ) -> bool where C: Callback<Request> {
        &&& self.adapter().exchanges(&self.config(), code, exchanged)
        &&& self.completes(request, exchanged, outcome)
    }

    /// What `handle` does with a callback. The cookies end as
    /// `cookies_after_callback` says. A callback that the verdict refuses is
    /// answered with that failure, whatever the adapter and the application's
    /// callback would do. One that is let through ends as `completes` says,
    /// for something that the adapter may return for the code.
    pub open spec fn handled<Request>(
        &self,
        request: &Request,
        query: Option<Seq<char>>,
        before: Map<Seq<char>, CookieText>,
        outcome: Outcome<C::Responder, A::Error>,
        after: Map<Seq<char>, CookieText>,
    ) -> bool where C: Callback<Request> {
        &&& after == cookies_after_callback(query, before)
        &&& match callback_verdict(query, before) {
            Verdict::BadQuery => outcome == Outcome::<C::Responder, A::Error>::Failure(
                Failure::BadQuery,
            ),
            Verdict::BadState => outcome == Outcome::<C::Responder, A::Error>::Failure(
                Failure::BadState,
            ),
            Verdict::Exchange(code) => exists|exchanged: Result<TokenResponse, A::Error>|
                #[trigger] self.exchanged_and_completed(request, code, exchanged, outcome),
        }
    }

    /// Handle the redirect callback, delegating to the adapter and callback to
    /// perform the token exchange and application-specific actions.
    ///
    /// `query` is the raw query string of the request, if it has one, and
    /// `cookies` the private cookies of the session. A callback is refused
    /// before the adapter is asked where the query does not give `code` and
    /// `state`, or where `state` is not what the state cookie holds. A
    /// callback that is let through retires the state cookie at once; the
    /// adapter is then asked to exchange the code.
    pub fn handle<Request>(
        &self,
        request: &Request,
        query: Option<&str>,
        cookies: &mut Cookies,
    ) -> (outcome: Outcome<C::Responder, A::Error>) where C: Callback<Request>
        ensures
            self.handled(request, query_text(query), old(cookies)@, outcome, final(cookies)@),
    {
        let raw = match query {
            Some(raw) => raw,
            None => {
                return Outcome::Failure(Failure::BadQuery);
            },
        };
        let params = match CallbackQuery::parse(raw) {
            Some(params) => params,
            None => {
                return Outcome::Failure(Failure::BadQuery);
            },
        };
        if !redeem_state(cookies, params.state.as_str()) {
            return Outcome::Failure(Failure::BadState);
        }
        let exchanged = self.adapter.exchange_code(&self.config, params.code.as_str());
        let ghost returned = exchanged;
        let outcome = self.complete(request, exchanged);
        let ghost verdict = callback_verdict(query_text(query), old(cookies)@);
        assert(verdict == Verdict::Exchange(params.code@));
        assert(self.exchanged_and_completed(request, verdict->Exchange_0, returned, outcome));
        outcome
    }
}

impl<A: Adapter, C> OAuth2<A, C> {
    /// How the login route answers, given what the adapter returned: with the
    /// redirect, or refused with the adapter's error.
    pub open spec fn answers_login(
        r: Result<Redirect, A::Error>,
        outcome: Outcome<Redirect, A::Error>,
    ) -> bool {
        match r {
            Ok(redirect) => outcome == Outcome::<Redirect, A::Error>::Success(redirect),
            Err(e) => outcome == Outcome::<Redirect, A::Error>::Failure(Failure::Authorization(e)),
        }
    }

    /// What the login route does: `get_redirect` with the default scopes.
    pub open spec fn logged_in(
        &self,
        before: Map<Seq<char>, CookieText>,
        outcome: Outcome<Redirect, A::Error>,
        after: Map<Seq<char>, CookieText>,
    ) -> bool {
        exists|
            authorized: Result<(Absolute<'static>, String), A::Error>,
            r: Result<Redirect, A::Error>,
        |
            {
                &&& #[trigger] self.login_begun(self.default_scopes(), authorized, before, r, after)
                &&& #[trigger] Self::answers_login(r, outcome)
            }
    }

    /// Begins a login with the default scopes.
    pub fn login(&self, cookies: &mut Cookies) -> (outcome: Outcome<Redirect, A::Error>)
        ensures
            self.logged_in(old(cookies)@, outcome, final(cookies)@),
    {
        let mut scopes: Vec<&str> = Vec::new();
        let mut i: usize = 0;
        while i < self.default_scopes.len()
            invariant
                i <= self.default_scopes@.len(),
                scopes@.len() == i,
                forall|j: int| 0 <= j < i ==> (#[trigger] scopes@[j])@ == self.default_scopes@[j]@,
            decreases self.default_scopes@.len() - i,
        {
            scopes.push(self.default_scopes[i].as_str());
            i += 1;
        }
        let asked = scopes.as_slice();
        proof {
            assert(scope_names(asked) =~= self.default_scopes());
        }
        let r = self.get_redirect(cookies, asked);
        let outcome = match r {
            Ok(redirect) => Outcome::Success(redirect),
            Err(e) => Outcome::Failure(Failure::Authorization(e)),
        };
        proof {
            let authorized = choose|authorized: Result<(Absolute<'static>, String), A::Error>|
                #[trigger] self.login_begun(
                    scope_names(asked),
                    authorized,
                    old(cookies)@,
                    r,
                    cookies@,
                );
            assert(self.login_begun(self.default_scopes(), authorized, old(cookies)@, r, cookies@));
            assert(Self::answers_login(r, outcome));
        }
        outcome
    }
}

/// Handles the OAuth redirect route. `oauth` is the instance in managed
/// state; where the host has none, the request is refused as the host's
/// fault, and nothing else happens.
pub fn redirect_handler<A: Adapter, C: Callback<Request>, Request>(
    oauth: Option<&OAuth2<A, C>>,
    request: &Request,
    query: Option<&str>,
    cookies: &mut Cookies,
) -> (outcome: Outcome<C::Responder, A::Error>)
    ensures
        match oauth {
            Some(oauth) => oauth.handled(
                request,
                query_text(query),
                old(cookies)@,
                outcome,
                final(cookies)@,
            ),
            None => {
                &&& outcome == Outcome::<C::Responder, A::Error>::Failure(Failure::Unmanaged)
                &&& final(cookies)@ == old(cookies)@
            },
        },
{
    match oauth {
        Some(oauth) => oauth.handle(request, query, cookies),
        None => Outcome::Failure(Failure::Unmanaged),
    }
}

/// Handles a login route, performing a redirect. `oauth` is the instance in
/// managed state; where the host has none, the request is refused as the
/// host's fault, and nothing else happens.
pub fn login_handler<A: Adapter, C>(
    oauth: Option<&OAuth2<A, C>>,
    cookies: &mut Cookies,
) -> (outcome: Outcome<Redirect, A::Error>)
    ensures
        match oauth {
            Some(oauth) => oauth.logged_in(old(cookies)@, outcome, final(cookies)@),
            None => {
                &&& outcome == Outcome::<Redirect, A::Error>::Failure(Failure::Unmanaged)
                &&& final(cookies)@ == old(cookies)@
            },
        },
{
    match oauth {
        Some(oauth) => oauth.login(cookies),
        None => Outcome::Failure(Failure::Unmanaged),
    }
}

} // verus!

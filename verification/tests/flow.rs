use rocket_oauth2::oauth2::{login_handler, redirect_handler};
use rocket_oauth2::state::{login_redirect, redeem_state};
use rocket_oauth2::{
    Adapter, Callback, ConfigTable, ConfigValue, Cookie, Cookies, Failure, Fairing, FnCallback,
    Handler, OAuth2, OAuthConfig, Outcome, Provider, Redirect, Route, SameSite, Status,
    TokenResponse, STATE_COOKIE_NAME,
};
use rocket::http::uri::Absolute;
use std::collections::HashMap;
use std::sync::atomic::{AtomicUsize, Ordering};
use std::sync::{Arc, Mutex};

/// An adapter that issues a fixed state and a fixed reply, and counts.
struct Mock {
    state: String,
    fail_authorization: bool,
    fail_exchange: bool,
    authorizations: Arc<AtomicUsize>,
    exchanges: Arc<AtomicUsize>,
    codes: Arc<Mutex<Vec<String>>>,
    scopes: Arc<Mutex<Vec<String>>>,
}

impl Mock {
    fn new(state: &str) -> Mock {
        Mock {
            state: state.to_string(),
            fail_authorization: false,
            fail_exchange: false,
            authorizations: Arc::new(AtomicUsize::new(0)),
            exchanges: Arc::new(AtomicUsize::new(0)),
            codes: Arc::new(Mutex::new(Vec::new())),
            scopes: Arc::new(Mutex::new(Vec::new())),
        }
    }
}

impl Adapter for Mock {
    type Error = String;

    fn authorization_uri(
        &self,
        config: &OAuthConfig,
        scopes: &[&str],
    ) -> Result<(Absolute<'static>, String), String> {
        self.authorizations.fetch_add(1, Ordering::SeqCst);
        *self.scopes.lock().unwrap() = scopes.iter().map(|s| s.to_string()).collect();
        if self.fail_authorization {
            return Err("no entropy".to_string());
        }
        let uri = format!(
            "{}?response_type=code&client_id={}&redirect_uri={}&scope={}&state={}",
            config.provider().auth_uri(),
            config.client_id(),
            config.redirect_uri(),
            scopes.join("+"),
            self.state
        );
        Ok((uri_of(&uri), self.state.clone()))
    }

    fn exchange_code(&self, _config: &OAuthConfig, code: &str) -> Result<TokenResponse, String> {
        self.exchanges.fetch_add(1, Ordering::SeqCst);
        self.codes.lock().unwrap().push(code.to_string());
        if self.fail_exchange {
            return Err("network unreachable".to_string());
        }
        Ok(token("T", "bearer"))
    }
}

/// A callback that answers with what it was given, and counts.
struct Echo {
    calls: Arc<AtomicUsize>,
}

impl Callback<String> for Echo {
    type Responder = (String, TokenResponse);

    fn callback(&self, request: &String, token: TokenResponse) -> (String, TokenResponse) {
        self.calls.fetch_add(1, Ordering::SeqCst);
        (request.clone(), token)
    }
}

fn uri_of(text: &str) -> Absolute<'static> {
    Absolute::parse_owned(text.to_string()).unwrap()
}

fn token(access_token: &str, token_type: &str) -> TokenResponse {
    TokenResponse {
        access_token: access_token.to_string(),
        token_type: token_type.to_string(),
        expires_in: None,
        refresh_token: None,
        scope: None,
        extras: HashMap::new(),
    }
}

fn config() -> OAuthConfig {
    OAuthConfig::new(
        Provider::github(),
        "my-id".to_string(),
        "my-secret".to_string(),
        "https://example.com/auth/callback".to_string(),
    )
}

struct Probe {
    authorizations: Arc<AtomicUsize>,
    exchanges: Arc<AtomicUsize>,
    codes: Arc<Mutex<Vec<String>>>,
    scopes: Arc<Mutex<Vec<String>>>,
    calls: Arc<AtomicUsize>,
}

impl Probe {
    fn exchanges(&self) -> usize {
        self.exchanges.load(Ordering::SeqCst)
    }

    fn calls(&self) -> usize {
        self.calls.load(Ordering::SeqCst)
    }

    fn codes(&self) -> Vec<String> {
        self.codes.lock().unwrap().clone()
    }
}

fn oauth(mock: Mock, scopes: Vec<&str>) -> (OAuth2<Mock, Echo>, Probe) {
    let calls = Arc::new(AtomicUsize::new(0));
    let probe = Probe {
        authorizations: mock.authorizations.clone(),
        exchanges: mock.exchanges.clone(),
        codes: mock.codes.clone(),
        scopes: mock.scopes.clone(),
        calls: calls.clone(),
    };
    let fairing = OAuth2::custom(
        mock,
        Echo { calls },
        config(),
        "/auth/callback",
        Some(("/login", scopes.into_iter().map(|s| s.to_string()).collect())),
    );
    (fairing.oauth2, probe)
}

fn session(state: &str) -> Cookies {
    let mut cookies = Cookies::new();
    cookies.add_private(Cookie {
        name: STATE_COOKIE_NAME.to_string(),
        value: state.to_string(),
        same_site: Some(SameSite::Lax),
    });
    cookies
}

fn state_of(cookies: &Cookies) -> Option<String> {
    cookies.get_private(STATE_COOKIE_NAME).map(|c| c.value.clone())
}

#[test]
fn the_state_cookie_has_its_reserved_name() {
    assert_eq!(STATE_COOKIE_NAME, "rocket_oauth2_state");
}

#[test]
fn happy_path() {
    let (oauth, probe) = oauth(Mock::new("S1"), vec![]);
    let mut cookies = Cookies::new();

    let redirect = oauth.get_redirect(&mut cookies, &["read", "write"]).unwrap();
    assert_eq!(
        redirect.uri.to_string(),
        "https://github.com/login/oauth/authorize?response_type=code&client_id=my-id\
         &redirect_uri=https://example.com/auth/callback&scope=read+write&state=S1"
    );
    assert_eq!(redirect.uri.authority().map(|a| a.host()), Some("github.com"));
    assert_eq!(redirect.uri.path(), "/login/oauth/authorize");
    assert_eq!(probe.authorizations.load(Ordering::SeqCst), 1);
    assert_eq!(*probe.scopes.lock().unwrap(), vec!["read".to_string(), "write".to_string()]);
    assert_eq!(
        cookies.get_private(STATE_COOKIE_NAME),
        Some(&Cookie {
            name: "rocket_oauth2_state".to_string(),
            value: "S1".to_string(),
            same_site: Some(SameSite::Lax),
        })
    );

    let request = "the request".to_string();
    let outcome = oauth.handle(&request, Some("code=XYZ&state=S1"), &mut cookies);
    assert!(outcome == Outcome::Success(("the request".to_string(), token("T", "bearer"))));
    assert_eq!(probe.exchanges(), 1);
    assert_eq!(probe.codes(), vec!["XYZ".to_string()]);
    assert_eq!(probe.calls(), 1);
    assert_eq!(state_of(&cookies), None);
}

#[test]
fn csrf_state_is_single_use() {
    let (oauth, probe) = oauth(Mock::new("S1"), vec![]);
    let mut cookies = Cookies::new();
    oauth.get_redirect(&mut cookies, &["read"]).unwrap();
    let request = String::new();

    let first = oauth.handle(&request, Some("code=XYZ&state=S1"), &mut cookies);
    assert!(matches!(first, Outcome::Success(_)));
    let second = oauth.handle(&request, Some("code=XYZ&state=S1"), &mut cookies);
    assert!(second == Outcome::Failure(Failure::BadState));
    assert_eq!(probe.exchanges(), 1);
    assert_eq!(probe.calls(), 1);
}

#[test]
fn state_mismatch() {
    let (oauth, probe) = oauth(Mock::new("unused"), vec![]);
    let mut cookies = session("abc");
    let outcome = oauth.handle(&String::new(), Some("code=XYZ&state=abd"), &mut cookies);
    assert!(outcome == Outcome::Failure(Failure::BadState));
    assert_eq!(probe.exchanges(), 0);
    assert_eq!(probe.calls(), 0);
    assert_eq!(state_of(&cookies), Some("abc".to_string()));
}

#[test]
fn state_is_compared_exactly() {
    for state in ["ABC", "abc%20", " abc", "abc ", "ab", "abcd", ""] {
        let (oauth, probe) = oauth(Mock::new("unused"), vec![]);
        let mut cookies = session("abc");
        let query = format!("code=XYZ&state={}", state);
        let outcome = oauth.handle(&String::new(), Some(&query), &mut cookies);
        assert!(outcome == Outcome::Failure(Failure::BadState));
        assert_eq!(probe.exchanges(), 0);
        assert_eq!(state_of(&cookies), Some("abc".to_string()));
    }
}

#[test]
fn missing_cookie() {
    let (oauth, probe) = oauth(Mock::new("unused"), vec![]);
    let mut cookies = Cookies::new();
    let outcome = oauth.handle(&String::new(), Some("code=XYZ&state=abc"), &mut cookies);
    assert!(outcome == Outcome::Failure(Failure::BadState));
    assert_eq!(probe.exchanges(), 0);
    assert_eq!(probe.calls(), 0);
}

#[test]
fn another_cookie_does_not_stand_for_the_state_cookie() {
    let (oauth, probe) = oauth(Mock::new("unused"), vec![]);
    let mut cookies = Cookies::new();
    cookies.add_private(Cookie {
        name: "session".to_string(),
        value: "abc".to_string(),
        same_site: None,
    });
    let outcome = oauth.handle(&String::new(), Some("code=XYZ&state=abc"), &mut cookies);
    assert!(outcome == Outcome::Failure(Failure::BadState));
    assert_eq!(probe.exchanges(), 0);
    assert_eq!(cookies.get_private("session").map(|c| c.value.as_str()), Some("abc"));
}

#[test]
fn an_empty_state_is_never_accepted() {
    let (oauth, probe) = oauth(Mock::new("unused"), vec![]);
    let mut cookies = session("");
    let outcome = oauth.handle(&String::new(), Some("code=XYZ&state="), &mut cookies);
    assert!(outcome == Outcome::Failure(Failure::BadState));
    assert_eq!(probe.exchanges(), 0);
    assert_eq!(state_of(&cookies), Some(String::new()));
}

#[test]
fn missing_or_malformed_query() {
    for query in [
        None,
        Some(""),
        Some("code=XYZ"),
        Some("state=abc"),
        Some("error=access_denied&state=abc"),
        Some("code=%FF&state=abc"),
    ] {
        let (oauth, probe) = oauth(Mock::new("unused"), vec![]);
        let mut cookies = session("abc");
        let outcome = oauth.handle(&String::new(), query, &mut cookies);
        assert!(outcome == Outcome::Failure(Failure::BadQuery));
        assert_eq!(probe.exchanges(), 0);
        assert_eq!(probe.calls(), 0);
        assert_eq!(state_of(&cookies), Some("abc".to_string()));
    }
}

#[test]
fn exchange_failure() {
    let mut mock = Mock::new("S1");
    mock.fail_exchange = true;
    let (oauth, probe) = oauth(mock, vec![]);
    let mut cookies = session("S1");
    let outcome = oauth.handle(&String::new(), Some("code=XYZ&state=S1"), &mut cookies);
    assert!(outcome == Outcome::Failure(Failure::Exchange("network unreachable".to_string())));
    assert_eq!(probe.exchanges(), 1);
    assert_eq!(probe.codes(), vec!["XYZ".to_string()]);
    assert_eq!(probe.calls(), 0);
    assert_eq!(state_of(&cookies), None);

    let again = oauth.handle(&String::new(), Some("code=XYZ&state=S1"), &mut cookies);
    assert!(again == Outcome::Failure(Failure::BadState));
    assert_eq!(probe.exchanges(), 1);
}

#[test]
fn the_code_is_decoded_before_the_exchange() {
    let (oauth, probe) = oauth(Mock::new("unused"), vec![]);
    let mut cookies = session("a b");
    let outcome = oauth.handle(&String::new(), Some("state=a+b&code=4%2F0A"), &mut cookies);
    assert!(matches!(outcome, Outcome::Success(_)));
    assert_eq!(probe.codes(), vec!["4/0A".to_string()]);
}

#[test]
fn authorization_failure() {
    let mut mock = Mock::new("S1");
    mock.fail_authorization = true;
    let (oauth, _probe) = oauth(mock, vec!["read"]);
    let mut cookies = Cookies::new();
    assert_eq!(oauth.get_redirect(&mut cookies, &["read"]), Err("no entropy".to_string()));
    assert_eq!(state_of(&cookies), None);
    assert_eq!(
        oauth.login(&mut cookies),
        Outcome::Failure(Failure::Authorization("no entropy".to_string()))
    );
    assert_eq!(state_of(&cookies), None);
}

#[test]
fn a_new_login_replaces_the_state() {
    let (first, _) = oauth(Mock::new("S1"), vec![]);
    let (second, probe) = oauth(Mock::new("S2"), vec![]);
    let mut cookies = Cookies::new();
    first.get_redirect(&mut cookies, &[]).unwrap();
    second.get_redirect(&mut cookies, &[]).unwrap();
    assert_eq!(state_of(&cookies), Some("S2".to_string()));
    let stale = second.handle(&String::new(), Some("code=XYZ&state=S1"), &mut cookies);
    assert!(stale == Outcome::Failure(Failure::BadState));
    let fresh = second.handle(&String::new(), Some("code=XYZ&state=S2"), &mut cookies);
    assert!(matches!(fresh, Outcome::Success(_)));
    assert_eq!(probe.exchanges(), 1);
}

#[test]
fn login_route_uses_the_default_scopes() {
    let (oauth, probe) = oauth(Mock::new("S1"), vec!["user:read", "repo"]);
    let mut cookies = Cookies::new();
    let outcome = login_handler(Some(&oauth), &mut cookies);
    assert_eq!(
        outcome,
        Outcome::Success(Redirect {
            uri: uri_of(
                "https://github.com/login/oauth/authorize?response_type=code&client_id=my-id\
                 &redirect_uri=https://example.com/auth/callback&scope=user:read+repo&state=S1"
            )
        })
    );
    assert_eq!(*probe.scopes.lock().unwrap(), vec!["user:read".to_string(), "repo".to_string()]);
    assert_eq!(state_of(&cookies), Some("S1".to_string()));
}

#[test]
fn handlers_without_managed_state() {
    let mut cookies = session("abc");
    let outcome = redirect_handler::<Mock, Echo, String>(
        None,
        &String::new(),
        Some("code=XYZ&state=abc"),
        &mut cookies,
    );
    assert!(outcome == Outcome::Failure(Failure::Unmanaged));
    assert_eq!(state_of(&cookies), Some("abc".to_string()));
    let outcome = login_handler::<Mock, Echo>(None, &mut cookies);
    assert_eq!(outcome, Outcome::Failure(Failure::Unmanaged));
    assert_eq!(state_of(&cookies), Some("abc".to_string()));
}

#[test]
fn redirect_handler_handles() {
    let (oauth, probe) = oauth(Mock::new("unused"), vec![]);
    let mut cookies = session("abc");
    let request = "r".to_string();
    let outcome = redirect_handler(Some(&oauth), &request, Some("code=XYZ&state=abc"), &mut cookies);
    assert!(outcome == Outcome::Success(("r".to_string(), token("T", "bearer"))));
    assert_eq!(probe.calls(), 1);
}

#[test]
fn failures_have_their_status() {
    assert_eq!(Failure::<String>::Unmanaged.status(), Status::InternalServerError);
    assert_eq!(Failure::Authorization("e".to_string()).status(), Status::InternalServerError);
    assert_eq!(Failure::<String>::BadQuery.status(), Status::BadRequest);
    assert_eq!(Failure::<String>::BadState.status(), Status::BadRequest);
    assert_eq!(Failure::Exchange("e".to_string()).status(), Status::BadRequest);
}

#[test]
fn complete_runs_the_callback_on_a_token_only() {
    let (oauth, probe) = oauth(Mock::new("unused"), vec![]);
    let request = "r".to_string();
    assert!(
        oauth.complete(&request, Err("boom".to_string()))
            == Outcome::Failure(Failure::Exchange("boom".to_string()))
    );
    assert_eq!(probe.calls(), 0);
    let mut given = token("T2", "mac");
    given.expires_in = Some(3600);
    given.refresh_token = Some("R".to_string());
    given.scope = Some("read write".to_string());
    given.extras.insert("id_token".to_string(), serde_json::Value::String("J".to_string()));
    assert!(oauth.complete(&request, Ok(given.clone())) == Outcome::Success(("r".to_string(), given)));
    assert_eq!(probe.calls(), 1);
    assert_eq!(probe.exchanges(), 0);
}

#[test]
fn login_redirect_sets_the_state_cookie() {
    let mut cookies = session("old");
    let r: Result<Redirect, String> =
        login_redirect(&mut cookies, Ok((uri_of("https://p/authorize?x"), "new".to_string())));
    assert_eq!(r, Ok(Redirect { uri: uri_of("https://p/authorize?x") }));
    assert_eq!(
        cookies.get_private(STATE_COOKIE_NAME),
        Some(&Cookie {
            name: STATE_COOKIE_NAME.to_string(),
            value: "new".to_string(),
            same_site: Some(SameSite::Lax),
        })
    );
    let r = login_redirect(&mut cookies, Err("down".to_string()));
    assert_eq!(r, Err("down".to_string()));
    assert_eq!(state_of(&cookies), Some("new".to_string()));
}

#[test]
fn redeem_state_retires_the_cookie_on_a_match() {
    let mut cookies = session("abc");
    assert!(!redeem_state(&mut cookies, "abd"));
    assert_eq!(state_of(&cookies), Some("abc".to_string()));
    assert!(redeem_state(&mut cookies, "abc"));
    assert_eq!(state_of(&cookies), None);
    assert!(!redeem_state(&mut cookies, "abc"));
    let mut cookies = session("");
    assert!(!redeem_state(&mut cookies, ""));
    assert_eq!(state_of(&cookies), Some(String::new()));
}

#[test]
fn custom_mounts_the_redirect_route() {
    let calls = Arc::new(AtomicUsize::new(0));
    let Fairing { oauth2: _, routes } =
        OAuth2::custom(Mock::new("S"), Echo { calls }, config(), "/auth/github", None);
    assert_eq!(routes, vec![Route { uri: "/auth/github".to_string(), handler: Handler::Redirect }]);
}

#[test]
fn custom_mounts_the_login_route_after_it() {
    let calls = Arc::new(AtomicUsize::new(0));
    let Fairing { oauth2, routes } = OAuth2::custom(
        Mock::new("S"),
        Echo { calls },
        config(),
        "/auth/github",
        Some(("/login/github", vec!["user:read".to_string()])),
    );
    assert_eq!(
        routes,
        vec![
            Route { uri: "/auth/github".to_string(), handler: Handler::Redirect },
            Route { uri: "/login/github".to_string(), handler: Handler::Login },
        ]
    );
    let mut cookies = Cookies::new();
    let outcome = oauth2.login(&mut cookies);
    assert!(
        matches!(outcome, Outcome::Success(redirect) if redirect.uri.to_string().contains("scope=user:read&"))
    );
}

fn app_config() -> ConfigTable {
    let mut client = ConfigTable::new();
    client.insert("provider".to_string(), ConfigValue::String("Reddit".to_string()));
    client.insert("client_id".to_string(), ConfigValue::String("rid".to_string()));
    client.insert("client_secret".to_string(), ConfigValue::String("rsecret".to_string()));
    client.insert("redirect_uri".to_string(), ConfigValue::String("https://e/cb".to_string()));
    let mut oauth = ConfigTable::new();
    oauth.insert("reddit".to_string(), ConfigValue::Table(client));
    let mut app = ConfigTable::new();
    app.insert("oauth".to_string(), ConfigValue::Table(oauth));
    app
}

#[test]
fn fairing_loads_the_configuration() {
    let calls = Arc::new(AtomicUsize::new(0));
    let fairing = OAuth2::fairing(
        Mock::new("S1"),
        Echo { calls },
        &app_config(),
        "reddit",
        "/auth/reddit",
        Some(("/login/reddit", vec!["identity".to_string()])),
    )
    .unwrap();
    assert_eq!(
        fairing.routes,
        vec![
            Route { uri: "/auth/reddit".to_string(), handler: Handler::Redirect },
            Route { uri: "/login/reddit".to_string(), handler: Handler::Login },
        ]
    );
    let mut cookies = Cookies::new();
    assert_eq!(
        fairing.oauth2.login(&mut cookies),
        Outcome::Success(Redirect {
            uri: uri_of(
                "https://www.reddit.com/api/v1/authorize?response_type=code&client_id=rid\
                 &redirect_uri=https://e/cb&scope=identity&state=S1"
            )
        })
    );
}

#[test]
fn fairing_fails_on_a_bad_configuration() {
    let calls = Arc::new(AtomicUsize::new(0));
    let r = OAuth2::fairing(
        Mock::new("S1"),
        Echo { calls },
        &app_config(),
        "github",
        "/auth/github",
        None,
    );
    assert_eq!(r.err(), Some(rocket_oauth2::ConfigError::Missing("github".to_string())));
}

#[test]
fn a_plain_function_is_a_callback() {
    let callback = FnCallback::new(|request: &String, token: TokenResponse| {
        format!("{} {} {}", request, token.token_type, token.access_token)
    });
    let fairing = OAuth2::custom(Mock::new("S1"), callback, config(), "/auth/callback", None);
    let mut cookies = session("S1");
    let outcome = fairing.oauth2.handle(&"hello".to_string(), Some("code=XYZ&state=S1"), &mut cookies);
    assert_eq!(outcome, Outcome::Success("hello bearer T".to_string()));
}

#[test]
fn without_a_login_route_there_are_no_default_scopes() {
    let mock = Mock::new("S1");
    let scopes = mock.scopes.clone();
    *scopes.lock().unwrap() = vec!["stale".to_string()];
    let calls = Arc::new(AtomicUsize::new(0));
    let fairing = OAuth2::custom(mock, Echo { calls }, config(), "/auth/callback", None);
    let mut cookies = Cookies::new();
    assert!(matches!(fairing.oauth2.login(&mut cookies), Outcome::Success(_)));
    assert_eq!(*scopes.lock().unwrap(), Vec::<String>::new());
}

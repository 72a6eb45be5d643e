use rocket_oauth2::text::str_eq;
use rocket_oauth2::Provider;

fn endpoints(name: &str) -> Option<(String, String)> {
    Provider::from_known_name(name).map(|p| (p.auth_uri().to_string(), p.token_uri().to_string()))
}

fn pair(auth_uri: &str, token_uri: &str) -> Option<(String, String)> {
    Some((auth_uri.to_string(), token_uri.to_string()))
}

#[test]
fn discord_is_known() {
    assert_eq!(
        endpoints("Discord"),
        pair(
            "https://discordapp.com/api/oauth2/authorize",
            "https://discordapp.com/api/oauth2/token"
        )
    );
}

#[test]
fn facebook_is_known() {
    assert_eq!(
        endpoints("Facebook"),
        pair(
            "https://www.facebook.com/v3.1/dialog/oauth",
            "https://graph.facebook.com/v3.1/oauth/access_token"
        )
    );
}

#[test]
fn github_is_known() {
    assert_eq!(
        endpoints("GitHub"),
        pair(
            "https://github.com/login/oauth/authorize",
            "https://github.com/login/oauth/access_token"
        )
    );
}

#[test]
fn google_is_known() {
    assert_eq!(
        endpoints("Google"),
        pair(
            "https://accounts.google.com/o/oauth2/v2/auth",
            "https://www.googleapis.com/oauth2/v4/token"
        )
    );
}

#[test]
fn reddit_is_known() {
    assert_eq!(
        endpoints("Reddit"),
        pair(
            "https://www.reddit.com/api/v1/authorize",
            "https://www.reddit.com/api/v1/access_token"
        )
    );
}

#[test]
fn yahoo_is_known() {
    assert_eq!(
        endpoints("Yahoo"),
        pair(
            "https://api.login.yahoo.com/oauth2/request_auth",
            "https://api.login.yahoo.com/oauth2/get_token"
        )
    );
}

#[test]
fn constructors_agree_with_the_table() {
    assert_eq!(Some(Provider::discord()), Provider::from_known_name("Discord"));
    assert_eq!(Some(Provider::facebook()), Provider::from_known_name("Facebook"));
    assert_eq!(Some(Provider::github()), Provider::from_known_name("GitHub"));
    assert_eq!(Some(Provider::google()), Provider::from_known_name("Google"));
    assert_eq!(Some(Provider::reddit()), Provider::from_known_name("Reddit"));
    assert_eq!(Some(Provider::yahoo()), Provider::from_known_name("Yahoo"));
}

#[test]
fn names_are_case_sensitive_and_exact() {
    assert_eq!(endpoints("github"), None);
    assert_eq!(endpoints("GITHUB"), None);
    assert_eq!(endpoints("Github"), None);
    assert_eq!(endpoints("GitHub "), None);
    assert_eq!(endpoints(" GitHub"), None);
    assert_eq!(endpoints(""), None);
    assert_eq!(endpoints("Twitter"), None);
}

#[test]
fn custom_provider_reflects_its_uris() {
    let p = Provider::custom(
        "https://auth.example.com/authorize".to_string(),
        "https://auth.example.com/token".to_string(),
    );
    assert_eq!(p.auth_uri(), "https://auth.example.com/authorize");
    assert_eq!(p.token_uri(), "https://auth.example.com/token");
    assert_eq!(&*p.auth_uri, "https://auth.example.com/authorize");
    assert_eq!(&*p.token_uri, "https://auth.example.com/token");
}

#[test]
fn string_slices_compare_exactly() {
    assert!(str_eq("", ""));
    assert!(str_eq("abc", "abc"));
    assert!(!str_eq("abc", "abd"));
    assert!(!str_eq("abc", "ab"));
    assert!(!str_eq("ab", "abc"));
    assert!(!str_eq("abc", "ABC"));
    assert!(!str_eq("abc", " abc"));
    assert!(str_eq("caf\u{e9}", "caf\u{e9}"));
    assert!(!str_eq("caf\u{e9}", "cafe\u{301}"));
}

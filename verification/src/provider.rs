//! OAuth2 service providers: the pair of endpoints that identifies one, and
//! the table of well-known ones.

use std::borrow::Cow;
use vstd::prelude::*;

use crate::config::{config_string, get_config_string, ConfigError, ConfigFault, ConfigValue};
use crate::text::str_eq;

verus! {

/// A `Provider` contains the authorization and token exchange URIs specific to
/// an OAuth service provider.
#[derive(Debug, PartialEq, Eq)]
pub struct Provider {
    /// The authorization URI associated with the service provider.
    pub auth_uri: Cow<'static, str>,
    /// The token exchange URI associated with the service provider.
    pub token_uri: Cow<'static, str>,
}

/// What a `Provider` is: its two endpoints, as text.
pub struct Endpoints {
    pub auth_uri: Seq<char>,
    pub token_uri: Seq<char>,
}

impl View for Provider {
    type V = Endpoints;

    open spec fn view(&self) -> Endpoints {
        Endpoints { auth_uri: self.auth_uri@, token_uri: self.token_uri@ }
    }
}

/// The table of well-known providers. Names are case-sensitive and matched
/// exactly; any other name is unknown.
pub open spec fn known_endpoints(name: Seq<char>) -> Option<Endpoints> {
    if name == "Discord"@ {
        Some(
            Endpoints {
                auth_uri: "https://discordapp.com/api/oauth2/authorize"@,
                token_uri: "https://discordapp.com/api/oauth2/token"@,
            },
        )
    } else if name == "Facebook"@ {
        Some(
            Endpoints {
                auth_uri: "https://www.facebook.com/v3.1/dialog/oauth"@,
                token_uri: "https://graph.facebook.com/v3.1/oauth/access_token"@,
            },
        )
    } else if name == "GitHub"@ {
        Some(
            Endpoints {
                auth_uri: "https://github.com/login/oauth/authorize"@,
                token_uri: "https://github.com/login/oauth/access_token"@,
            },
        )
    } else if name == "Google"@ {
        Some(
            Endpoints {
                auth_uri: "https://accounts.google.com/o/oauth2/v2/auth"@,
                token_uri: "https://www.googleapis.com/oauth2/v4/token"@,
            },
        )
    } else if name == "Reddit"@ {
        Some(
            Endpoints {
                auth_uri: "https://www.reddit.com/api/v1/authorize"@,
                token_uri: "https://www.reddit.com/api/v1/access_token"@,
            },
        )
    } else if name == "Yahoo"@ {
        Some(
            Endpoints {
                auth_uri: "https://api.login.yahoo.com/oauth2/request_auth"@,
                token_uri: "https://api.login.yahoo.com/oauth2/get_token"@,
            },
        )
    } else {
        None
    }
}

/// The fault of a `provider` entry that is neither a well-known name nor a
/// table.
pub open spec fn provider_fault() -> ConfigFault {
    ConfigFault::BadType {
        key: "provider"@,
        expected: "known provider or table"@,
        actual: ""@,
    }
}

/// The provider that a configuration value selects: a well-known one by its
/// name, or a custom one by a table with `auth_uri` and `token_uri`.
pub open spec fn configured_endpoints(conf: ConfigValue) -> Result<Endpoints, ConfigFault> {
    match conf {
        ConfigValue::String(name) => match known_endpoints(name@) {
            Some(endpoints) => Ok(endpoints),
            None => Err(provider_fault()),
        },
        ConfigValue::Table(table) => match config_string(table@, "auth_uri"@) {
            Err(e) => Err(e),
            Ok(auth_uri) => match config_string(table@, "token_uri"@) {
                Err(e) => Err(e),
                Ok(token_uri) => Ok(Endpoints { auth_uri, token_uri }),
            },
        },
        _ => Err(provider_fault()),
    }
}

/// The six names of the table differ from one another, so each selects its
/// own entry.
proof fn lemma_known_names_differ()
    ensures
        "Discord"@ != "Facebook"@,
        "Discord"@ != "GitHub"@,
        "Discord"@ != "Google"@,
        "Discord"@ != "Reddit"@,
        "Discord"@ != "Yahoo"@,
        "Facebook"@ != "GitHub"@,
        "Facebook"@ != "Google"@,
        "Facebook"@ != "Reddit"@,
        "Facebook"@ != "Yahoo"@,
        "GitHub"@ != "Google"@,
        "GitHub"@ != "Reddit"@,
        "GitHub"@ != "Yahoo"@,
        "Google"@ != "Reddit"@,
        "Google"@ != "Yahoo"@,
        "Reddit"@ != "Yahoo"@,
{
    reveal_strlit("Discord");
    reveal_strlit("Facebook");
    reveal_strlit("GitHub");
    reveal_strlit("Google");
    reveal_strlit("Reddit");
    reveal_strlit("Yahoo");
    assert("Discord"@.len() == 7);
    assert("Facebook"@.len() == 8);
    assert("GitHub"@.len() == 6);
    assert("Yahoo"@.len() == 5);
    assert("GitHub"@[1] != "Google"@[1]);
    assert("GitHub"@[0] != "Reddit"@[0]);
    assert("Google"@[0] != "Reddit"@[0]);
}

/// Every entry of the table has both of its endpoints.
pub proof fn lemma_known_endpoints_are_not_empty(name: Seq<char>)
    ensures
        known_endpoints(name) matches Some(endpoints) ==> endpoints.auth_uri.len() > 0
            && endpoints.token_uri.len() > 0,
{
    reveal_strlit("https://discordapp.com/api/oauth2/authorize");
    reveal_strlit("https://discordapp.com/api/oauth2/token");
    reveal_strlit("https://www.facebook.com/v3.1/dialog/oauth");
    reveal_strlit("https://graph.facebook.com/v3.1/oauth/access_token");
    reveal_strlit("https://github.com/login/oauth/authorize");
    reveal_strlit("https://github.com/login/oauth/access_token");
    reveal_strlit("https://accounts.google.com/o/oauth2/v2/auth");
    reveal_strlit("https://www.googleapis.com/oauth2/v4/token");
    reveal_strlit("https://www.reddit.com/api/v1/authorize");
    reveal_strlit("https://www.reddit.com/api/v1/access_token");
    reveal_strlit("https://api.login.yahoo.com/oauth2/request_auth");
    reveal_strlit("https://api.login.yahoo.com/oauth2/get_token");
}

/// A provider that a configuration selects has both of its endpoints.
pub proof fn lemma_configured_endpoints_are_not_empty(conf: ConfigValue)
    ensures
        configured_endpoints(conf) matches Ok(endpoints) ==> endpoints.auth_uri.len() > 0
            && endpoints.token_uri.len() > 0,
{
    if let ConfigValue::String(name) = conf {
        lemma_known_endpoints_are_not_empty(name@);
    }
}

impl Provider {
    /// A provider outside the table, given by its two endpoints.
    pub fn custom(auth_uri: String, token_uri: String) -> (p: Provider)
        ensures
            p@ == (Endpoints { auth_uri: auth_uri@, token_uri: token_uri@ }),
    {
        Provider { auth_uri: Cow::Owned(auth_uri), token_uri: Cow::Owned(token_uri) }
    }

    /// A `Provider` suitable for authorizing users with Discord.
    pub fn discord() -> (p: Provider)
        ensures
            known_endpoints("Discord"@) == Some(p@),
    {
        Provider {
            auth_uri: Cow::Borrowed("https://discordapp.com/api/oauth2/authorize"),
            token_uri: Cow::Borrowed("https://discordapp.com/api/oauth2/token"),
        }
    }

    /// A `Provider` suitable for authorizing users with Facebook.
    pub fn facebook() -> (p: Provider)
        ensures
            known_endpoints("Facebook"@) == Some(p@),
    {
        proof {
            lemma_known_names_differ();
        }
        Provider {
            auth_uri: Cow::Borrowed("https://www.facebook.com/v3.1/dialog/oauth"),
            token_uri: Cow::Borrowed("https://graph.facebook.com/v3.1/oauth/access_token"),
        }
    }

    /// A `Provider` suitable for authorizing users with GitHub.
    pub fn github() -> (p: Provider)
        ensures
            known_endpoints("GitHub"@) == Some(p@),
    {
        proof {
            lemma_known_names_differ();
        }
        Provider {
            auth_uri: Cow::Borrowed("https://github.com/login/oauth/authorize"),
            token_uri: Cow::Borrowed("https://github.com/login/oauth/access_token"),
        }
    }

    /// A `Provider` suitable for authorizing users with Google.
    pub fn google() -> (p: Provider)
        ensures
            known_endpoints("Google"@) == Some(p@),
    {
        proof {
            lemma_known_names_differ();
        }
        Provider {
            auth_uri: Cow::Borrowed("https://accounts.google.com/o/oauth2/v2/auth"),
            token_uri: Cow::Borrowed("https://www.googleapis.com/oauth2/v4/token"),
        }
    }

    /// A `Provider` suitable for authorizing users with Reddit.
    pub fn reddit() -> (p: Provider)
        ensures
            known_endpoints("Reddit"@) == Some(p@),
    {
        proof {
            lemma_known_names_differ();
        }
        Provider {
            auth_uri: Cow::Borrowed("https://www.reddit.com/api/v1/authorize"),
            token_uri: Cow::Borrowed("https://www.reddit.com/api/v1/access_token"),
        }
    }

    /// A `Provider` suitable for authorizing users with Yahoo.
    pub fn yahoo() -> (p: Provider)
        ensures
            known_endpoints("Yahoo"@) == Some(p@),
    {
        proof {
            lemma_known_names_differ();
        }
        Provider {
            auth_uri: Cow::Borrowed("https://api.login.yahoo.com/oauth2/request_auth"),
            token_uri: Cow::Borrowed("https://api.login.yahoo.com/oauth2/get_token"),
        }
    }

    /// Looks a well-known provider up by its name: the entry of the table
    /// under exactly that name, and nothing for any other name.
    pub fn from_known_name(name: &str) -> (p: Option<Provider>)
        ensures
            match p {
                Some(provider) => known_endpoints(name@) == Some(provider@),
                None => known_endpoints(name@) is None,
            },
    {
        if str_eq(name, "Discord") {
            Some(Provider::discord())
        } else if str_eq(name, "Facebook") {
            Some(Provider::facebook())
        } else if str_eq(name, "GitHub") {
            Some(Provider::github())
        } else if str_eq(name, "Google") {
            Some(Provider::google())
        } else if str_eq(name, "Reddit") {
            Some(Provider::reddit())
        } else if str_eq(name, "Yahoo") {
            Some(Provider::yahoo())
        } else {
            None
        }
    }

    /// Resolves the `provider` entry of a configuration.
    pub fn from_config_value(conf: &ConfigValue) -> (r: Result<Provider, ConfigError>)
        ensures
            match r {
                Ok(provider) => configured_endpoints(*conf) == Ok::<Endpoints, ConfigFault>(
                    provider@,
                ),
                Err(e) => configured_endpoints(*conf) == Err::<Endpoints, ConfigFault>(e@),
            },
    {
        match conf {
            ConfigValue::String(name) => match Provider::from_known_name(name.as_str()) {
                Some(provider) => Ok(provider),
                None => Err(Provider::type_error()),
            },
            ConfigValue::Table(table) => {
                let auth_uri = match get_config_string(table, "auth_uri") {
                    Ok(uri) => uri,
                    Err(e) => {
                        return Err(e);
                    },
                };
                let token_uri = match get_config_string(table, "token_uri") {
                    Ok(uri) => uri,
                    Err(e) => {
                        return Err(e);
                    },
                };
                Ok(Provider::custom(auth_uri, token_uri))
            },
            _ => Err(Provider::type_error()),
        }
    }

    fn type_error() -> (e: ConfigError)
        ensures
            e@ == provider_fault(),
    {
        ConfigError::BadType {
            key: "provider".to_owned(),
            expected: "known provider or table",
            actual: "",
        }
    }

    /// The authorization URI, as a string slice.
    pub fn auth_uri(&self) -> (uri: &str)
        ensures
            uri@ == self@.auth_uri,
    {
        match &self.auth_uri {
            Cow::Borrowed(s) => s,
            Cow::Owned(s) => s.as_str(),
        }
    }

    /// The token exchange URI, as a string slice.
    pub fn token_uri(&self) -> (uri: &str)
        ensures
            uri@ == self@.token_uri,
    {
        match &self.token_uri {
            Cow::Borrowed(s) => s,
            Cow::Owned(s) => s.as_str(),
        }
    }
}

} // verus!

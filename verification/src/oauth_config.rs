//! The configuration of one OAuth application.

use vstd::prelude::*;

use crate::config::{
    config_string, get_config_string, ConfigError, ConfigFault, ConfigTable, ConfigValue,
};
use crate::provider::{
    configured_endpoints, lemma_configured_endpoints_are_not_empty, Endpoints, Provider,
};

verus! {

/// Holds configuration for an OAuth application. This consists of the
/// [Provider] details, a `client_id` and `client_secret`, and a
/// `redirect_uri`. None of them is ever empty.
pub struct OAuthConfig {
    provider: Provider,
    client_id: String,
    client_secret: String,
    redirect_uri: String,
}

/// What an `OAuthConfig` holds.
pub struct ClientSettings {
    pub provider: Endpoints,
    pub client_id: Seq<char>,
    pub client_secret: Seq<char>,
    pub redirect_uri: Seq<char>,
}

impl ClientSettings {
    /// Nothing is left empty: neither endpoint of the provider, nor the
    /// client's id, its secret or its redirect URI.
    pub open spec fn is_complete(self) -> bool {
        &&& self.provider.auth_uri.len() > 0
        &&& self.provider.token_uri.len() > 0
        &&& self.client_id.len() > 0
        &&& self.client_secret.len() > 0
        &&& self.redirect_uri.len() > 0
    }
}

impl View for OAuthConfig {
    type V = ClientSettings;

    closed spec fn view(&self) -> ClientSettings {
        ClientSettings {
            provider: self.provider@,
            client_id: self.client_id@,
            client_secret: self.client_secret@,
            redirect_uri: self.redirect_uri@,
        }
    }
}

/// What loading the client `name` from a configuration gives: the table
/// `oauth` holds one table for each client, and that table holds `provider`,
/// `client_id`, `client_secret` and `redirect_uri`. The first entry that is
/// missing or of the wrong kind, in that order, is the fault.
pub open spec fn loaded_settings(config: Map<Seq<char>, ConfigValue>, name: Seq<char>) -> Result<
    ClientSettings,
    ConfigFault,
> {
    match config.get("oauth"@) {
        None => Err(ConfigFault::Missing("oauth"@)),
        Some(ConfigValue::Table(oauth)) => match oauth@.get(name) {
            None => Err(ConfigFault::Missing(name)),
            Some(ConfigValue::Table(conf)) => client_settings(conf@),
            Some(other) => Err(
                ConfigFault::BadType { key: name, expected: "table"@, actual: other.kind() },
            ),
        },
        Some(other) => Err(
            ConfigFault::BadType { key: "oauth"@, expected: "a table"@, actual: other.kind() },
        ),
    }
}

/// What the table of one client gives.
pub open spec fn client_settings(conf: Map<Seq<char>, ConfigValue>) -> Result<
    ClientSettings,
    ConfigFault,
> {
    match conf.get("provider"@) {
        None => Err(ConfigFault::Missing("provider"@)),
        Some(selector) => match configured_endpoints(selector) {
            Err(e) => Err(e),
            Ok(provider) => match config_string(conf, "client_id"@) {
                Err(e) => Err(e),
                Ok(client_id) => match config_string(conf, "client_secret"@) {
                    Err(e) => Err(e),
                    Ok(client_secret) => match config_string(conf, "redirect_uri"@) {
                        Err(e) => Err(e),
                        Ok(redirect_uri) => Ok(
                            ClientSettings { provider, client_id, client_secret, redirect_uri },
                        ),
                    },
                },
            },
        },
    }
}

/// Whether `r` is what loading the client `name` from `config` gives.
pub open spec fn loads(
    config: Map<Seq<char>, ConfigValue>,
    name: Seq<char>,
    r: Result<OAuthConfig, ConfigError>,
) -> bool {
    match r {
        Ok(loaded) => loaded_settings(config, name) == Ok::<ClientSettings, ConfigFault>(loaded@),
        Err(e) => loaded_settings(config, name) == Err::<ClientSettings, ConfigFault>(e@),
    }
}

impl OAuthConfig {
    #[verifier::type_invariant]
    spec fn complete(&self) -> bool {
        self@.is_complete()
    }

    /// Create a new OAuthConfig.
    pub fn new(
        provider: Provider,
        client_id: String,
        client_secret: String,
        redirect_uri: String,
    ) -> (config: OAuthConfig)
        requires
            provider@.auth_uri.len() > 0,
            provider@.token_uri.len() > 0,
            client_id@.len() > 0,
            client_secret@.len() > 0,
            redirect_uri@.len() > 0,
        ensures
            config@ == (ClientSettings {
                provider: provider@,
                client_id: client_id@,
                client_secret: client_secret@,
                redirect_uri: redirect_uri@,
            }),
    {
        OAuthConfig { provider, client_id, client_secret, redirect_uri }
    }

    /// Create a new OAuthConfig, unless one of its parts is empty.
    pub fn try_new(
        provider: Provider,
        client_id: String,
        client_secret: String,
        redirect_uri: String,
    ) -> (config: Option<OAuthConfig>)
        ensures
            match config {
                Some(made) => made@.is_complete() && made@ == (ClientSettings {
                    provider: provider@,
                    client_id: client_id@,
                    client_secret: client_secret@,
                    redirect_uri: redirect_uri@,
                }),
                None => !(ClientSettings {
                    provider: provider@,
                    client_id: client_id@,
                    client_secret: client_secret@,
                    redirect_uri: redirect_uri@,
                }).is_complete(),
            },
    {
        if provider.auth_uri().is_empty() || provider.token_uri().is_empty()
            || client_id.as_str().is_empty() || client_secret.as_str().is_empty()
            || redirect_uri.as_str().is_empty() {
            None
        } else {
            Some(OAuthConfig::new(provider, client_id, client_secret, redirect_uri))
        }
    }

    /// Constructs a OAuthConfig from the configuration of the application:
    /// the client registered there under `name`.
    pub fn from_config(config: &ConfigTable, name: &str) -> (r: Result<OAuthConfig, ConfigError>)
        ensures
            loads(config@, name@, r),
    {
        let oauth = match config.get("oauth") {
            Some(oauth) => oauth,
            None => {
                return Err(ConfigError::Missing("oauth".to_owned()));
            },
        };
        let oauth = match oauth.as_table() {
            Some(table) => table,
            None => {
                return Err(
                    ConfigError::BadType {
                        key: "oauth".to_owned(),
                        expected: "a table",
                        actual: oauth.type_str(),
                    },
                );
            },
        };
        let conf = match oauth.get(name) {
            Some(conf) => conf,
            None => {
                return Err(ConfigError::Missing(name.to_owned()));
            },
        };
        let table = match conf.as_table() {
            Some(table) => table,
            None => {
                return Err(
                    ConfigError::BadType {
                        key: name.to_owned(),
                        expected: "table",
                        actual: conf.type_str(),
                    },
                );
            },
        };
        let provider = match table.get("provider") {
            Some(selector) => {
                proof {
                    lemma_configured_endpoints_are_not_empty(*selector);
                }
                match Provider::from_config_value(selector) {
                    Ok(provider) => provider,
                    Err(e) => {
                        return Err(e);
                    },
                }
            },
            None => {
                return Err(ConfigError::Missing("provider".to_owned()));
            },
        };
        let client_id = match get_config_string(table, "client_id") {
            Ok(text) => text,
            Err(e) => {
                return Err(e);
            },
        };
        let client_secret = match get_config_string(table, "client_secret") {
            Ok(text) => text,
            Err(e) => {
                return Err(e);
            },
        };
        let redirect_uri = match get_config_string(table, "redirect_uri") {
            Ok(text) => text,
            Err(e) => {
                return Err(e);
            },
        };
        Ok(OAuthConfig::new(provider, client_id, client_secret, redirect_uri))
    }

    /// Gets the [Provider] for this configuration.
    pub fn provider(&self) -> (provider: &Provider)
        ensures
            provider@ == self@.provider,
            self@.is_complete(),
    {
        proof {
            use_type_invariant(self);
        }
        &self.provider
    }

    /// Gets the client id for this configuration.
    pub fn client_id(&self) -> (client_id: &str)
        ensures
            client_id@ == self@.client_id,
            self@.is_complete(),
    {
        proof {
            use_type_invariant(self);
        }
        self.client_id.as_str()
    }

    /// Gets the client secret for this configuration.
    pub fn client_secret(&self) -> (client_secret: &str)
        ensures
            client_secret@ == self@.client_secret,
            self@.is_complete(),
    {
        proof {
            use_type_invariant(self);
        }
        self.client_secret.as_str()
    }

    /// Gets the redirect URI for this configuration.
    pub fn redirect_uri(&self) -> (redirect_uri: &str)
        ensures
            redirect_uri@ == self@.redirect_uri,
            self@.is_complete(),
    {
        proof {
            use_type_invariant(self);
        }
        self.redirect_uri.as_str()
    }
}

} // verus!

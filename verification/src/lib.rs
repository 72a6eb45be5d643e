//! OAuth2 for Rocket applications: the authorization code grant of RFC 6749
//! §4.1, with the state of each login attempt kept in a private cookie.
//!
//! An application plugs in an [`Adapter`], which talks to the provider, and a
//! [`Callback`], which receives the token. [`OAuth2`] ties them to the two
//! requests of a login: the one that sends the browser to the provider, and
//! the one on which the provider sends it back. The module `laws` states
//! what holds of the two together.

pub mod adapter;
pub mod callback;
pub mod config;
pub mod cookies;
pub mod laws;
pub mod oauth2;
pub mod oauth_config;
pub mod provider;
pub mod query;
pub mod response;
pub mod state;
pub mod text;
pub mod token;

pub use adapter::Adapter;
pub use callback::{Callback, FnCallback};
pub use config::{ConfigError, ConfigTable, ConfigValue};
pub use cookies::{Change, Cookie, Cookies, SameSite};
pub use oauth2::{Fairing, Handler, OAuth2, Route};
pub use oauth_config::OAuthConfig;
pub use provider::Provider;
pub use query::{CallbackQuery, QueryField};
pub use response::{Failure, Outcome, Redirect, Status};
pub use state::STATE_COOKIE_NAME;
pub use token::TokenResponse;


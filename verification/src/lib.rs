//! Google APIs for Nexo agents: OAuth 2.0 consent for installed applications,
//! and authenticated calls to `*.googleapis.com`.
//!
//! Agents get four tools:
//!
//! * `google_auth_start` begins a consent and returns the address to open,
//! * `google_auth_status` reports on the tokens,
//! * `google_call` makes an authenticated call,
//! * `google_auth_revoke` revokes the tokens and forgets them.
//!
//! One process serves any number of accounts. Each belongs to an agent, an
//! agent may own several, and the first is its default.
//!
//! The library takes the decisions and does no input or output of its own: it
//! returns the request that is to be made, or takes the reply and moves its
//! state on.

pub mod auto_discovery;
pub mod callback;
pub mod cli;
pub mod client;
pub mod clock;
pub mod config;
pub mod dispatch;
pub mod encoding;
pub mod env_config;
pub mod error;
pub mod http;
pub mod json;
pub mod json_text;
pub mod paths;
pub mod pkce;
pub mod plugin;
pub mod registry;
pub mod store;
pub mod text;
pub mod tokens;
pub mod tools;

pub use cli::{Cli, Command, OauthOnceArgs};
pub use client::{
    canonicalize_scopes, DeviceChallenge, GoogleAuthClient, GoogleAuthConfig, GoogleTokens,
    SecretSources,
};
pub use plugin::{GoogleAccount, GoogleAuthFile, GooglePlugin};

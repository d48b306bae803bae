//! What can go wrong, and how it is reported.

use crate::text;
use crate::text::{concat, concat3, concat4, concat5, decimal};
use vstd::prelude::*;

verus! {

/// A failure of the plugin. Statuses and bodies of HTTP replies are held as
/// the text that the report shows.
#[derive(Debug)]
pub enum GoogleError {
    /// A request could not be sent or its reply could not be read.
    Transport(String),
    /// The circuit breaker of the given name rejects calls.
    CircuitOpen(String),
    /// The token endpoint refused an authorisation code.
    TokenExchange { status: String, detail: String },
    /// The device endpoint refused to issue a code.
    DeviceCode { status: String, detail: String },
    /// The token endpoint refused a refresh token.
    Refresh { status: String, detail: String },
    /// The token endpoint ended a device poll.
    Poll { status: String, error: String, description: String },
    /// A token response without an access token.
    MissingAccessToken,
    /// A device response without a device code.
    MissingDeviceCode,
    /// A device response without a user code.
    MissingUserCode,
    /// The device code ran out while the plugin waited.
    ApprovalTimeout,
    /// The user declined.
    ConsentDenied,
    /// The endpoint reports that the device code ran out.
    DeviceCodeExpired,
    /// There is nothing to renew the access token with.
    NoRefreshToken,
    /// A method that `google_call` does not offer.
    UnsupportedMethod(String),
    /// An API call was answered with an error status.
    CallFailed { method: String, url: String, status: String, body: String },
    /// A callback of another consent.
    StateMismatch,
    /// A callback without an authorisation code.
    MissingCode,
    /// The callback port is taken.
    BindFailed(u16),
    /// The token file holds something else.
    TokensMalformed,
    /// The token file cannot be read.
    TokensUnreadable(String),
    /// The token file cannot be written.
    SaveFailed(String),
    /// The client id of an account cannot be read.
    ClientIdUnreadable { account: String, path: String },
    /// The client secret of an account cannot be read.
    ClientSecretUnreadable { account: String, path: String },
    /// No account of that name.
    AccountNotConfigured(String),
    /// No account belongs to that agent.
    AgentNotConfigured(String),
    /// The agent is known but owns no account.
    AgentWithoutAccounts(String),
    /// No tool of that name.
    UnknownTool(String),
    /// `google_call` without a method.
    MissingMethod,
    /// `google_call` without a URL.
    MissingUrl,
    /// `google_call` to a host outside the Google APIs.
    UrlRejected(String),
    /// The file of a client id cannot be read.
    ClientIdFile(String),
    /// The file of a client secret cannot be read.
    ClientSecretFile(String),
    /// The file of a client id holds nothing.
    ClientIdEmpty(String),
    /// The file of a client secret holds nothing.
    ClientSecretEmpty(String),
    /// No scope was asked for.
    NoScopes,
    /// The configuration file cannot be parsed.
    ConfigMalformed { path: String, reason: String },
}

impl GoogleError {
    /// The report of the failure.
    pub open spec fn text(self) -> Seq<char> {
        match self {
            GoogleError::Transport(context) => context@,
            GoogleError::CircuitOpen(name) => "google circuit breaker open ("@ + name@ + ")"@,
            GoogleError::TokenExchange { status, detail } => "token exchange HTTP "@ + status@
                + ": "@ + detail@,
            GoogleError::DeviceCode { status, detail } => "device/code HTTP "@ + status@ + ": "@
                + detail@,
            GoogleError::Refresh { status, detail } => "refresh HTTP "@ + status@ + ": "@ + detail@
                + " — re-auth required"@,
            GoogleError::Poll { status, error, description } => ("token poll HTTP "@ + status@
                + ": "@ + error@ + " — "@) + description@,
            GoogleError::MissingAccessToken => "token response missing access_token"@,
            GoogleError::MissingDeviceCode => "missing device_code"@,
            GoogleError::MissingUserCode => "missing user_code"@,
            GoogleError::ApprovalTimeout => "device code expired before user approved"@,
            GoogleError::ConsentDenied => "user denied the consent request"@,
            GoogleError::DeviceCodeExpired => "device code expired"@,
            GoogleError::NoRefreshToken =>
                "no refresh_token on file — run `google_auth_start` to authorise the agent for the first time"@,
            GoogleError::UnsupportedMethod(method) => "unsupported HTTP method `"@ + method@ + "`"@,
            GoogleError::CallFailed { method, url, status, body } => (method@ + " "@ + url@
                + " → HTTP "@ + status@) + ": "@ + body@,
            GoogleError::StateMismatch => "oauth state mismatch — possibly a replayed tab"@,
            GoogleError::MissingCode => "oauth callback missing ?code parameter"@,
            GoogleError::BindFailed(port) => "cannot bind 127.0.0.1:"@ + text::decimal_text(
                port as nat,
            ) + " for OAuth callback — another process using it?"@,
            GoogleError::TokensMalformed => "google_tokens.json malformed"@,
            GoogleError::TokensUnreadable(reason) => reason@,
            GoogleError::SaveFailed(path) => "writing "@ + path@,
            GoogleError::ClientIdUnreadable { account, path } => "account `"@ + account@
                + "`: reading client_id from "@ + path@,
            GoogleError::ClientSecretUnreadable { account, path } => "account `"@ + account@
                + "`: reading client_secret from "@ + path@,
            GoogleError::AccountNotConfigured(account) => "account `"@ + account@
                + "` is not configured"@,
            GoogleError::AgentNotConfigured(agent) => "agent `"@ + agent@
                + "` is not configured for google_auth (no entry in `google-auth.yaml::accounts[].agent_id`)"@,
            GoogleError::AgentWithoutAccounts(agent) => "agent `"@ + agent@
                + "` is configured but has zero accounts"@,
            GoogleError::UnknownTool(tool) => "unknown tool `"@ + tool@ + "`"@,
            GoogleError::MissingMethod => "google_call requires `method`"@,
            GoogleError::MissingUrl => "google_call requires `url`"@,
            GoogleError::UrlRejected(url) =>
                "google_call only accepts https://*.googleapis.com URLs — got `"@ + url@ + "`"@,
            GoogleError::ClientIdFile(path) => "reading client_id file at "@ + path@,
            GoogleError::ClientSecretFile(path) => "reading client_secret file at "@ + path@,
            GoogleError::ClientIdEmpty(path) => "client_id file empty: "@ + path@,
            GoogleError::ClientSecretEmpty(path) => "client_secret file empty: "@ + path@,
            GoogleError::NoScopes => "--scopes must list at least one OAuth scope"@,
            GoogleError::ConfigMalformed { path, reason } => "parsing google-auth.yaml at "@ + path@
                + ": "@ + reason@,
        }
    }

    /// The report of the failure.
    pub fn message(&self) -> (r: String)
        ensures
            r@ == self.text(),
    {
        match self {
            GoogleError::Transport(context) => context.as_str().to_owned(),
            GoogleError::CircuitOpen(name) => concat3(
                "google circuit breaker open (",
                name.as_str(),
                ")",
            ),
            GoogleError::TokenExchange { status, detail } => concat4(
                "token exchange HTTP ",
                status.as_str(),
                ": ",
                detail.as_str(),
            ),
            GoogleError::DeviceCode { status, detail } => concat4(
                "device/code HTTP ",
                status.as_str(),
                ": ",
                detail.as_str(),
            ),
            GoogleError::Refresh { status, detail } => concat5(
                "refresh HTTP ",
                status.as_str(),
                ": ",
                detail.as_str(),
                " — re-auth required",
            ),
            GoogleError::Poll { status, error, description } => concat(
                concat5(
                    "token poll HTTP ",
                    status.as_str(),
                    ": ",
                    error.as_str(),
                    " — ",
                ).as_str(),
                description.as_str(),
            ),
            GoogleError::MissingAccessToken => "token response missing access_token".to_owned(),
            GoogleError::MissingDeviceCode => "missing device_code".to_owned(),
            GoogleError::MissingUserCode => "missing user_code".to_owned(),
            GoogleError::ApprovalTimeout => "device code expired before user approved".to_owned(),
            GoogleError::ConsentDenied => "user denied the consent request".to_owned(),
            GoogleError::DeviceCodeExpired => "device code expired".to_owned(),
            GoogleError::NoRefreshToken =>
                "no refresh_token on file — run `google_auth_start` to authorise the agent for the first time".to_owned(),
            GoogleError::UnsupportedMethod(method) => concat3(
                "unsupported HTTP method `",
                method.as_str(),
                "`",
            ),
            GoogleError::CallFailed { method, url, status, body } => concat3(
                concat5(
                    method.as_str(),
                    " ",
                    url.as_str(),
                    " → HTTP ",
                    status.as_str(),
                ).as_str(),
                ": ",
                body.as_str(),
            ),
            GoogleError::StateMismatch =>
                "oauth state mismatch — possibly a replayed tab".to_owned(),
            GoogleError::MissingCode => "oauth callback missing ?code parameter".to_owned(),
            GoogleError::BindFailed(port) => concat3(
                "cannot bind 127.0.0.1:",
                decimal(*port as u64).as_str(),
                " for OAuth callback — another process using it?",
            ),
            GoogleError::TokensMalformed => "google_tokens.json malformed".to_owned(),
            GoogleError::TokensUnreadable(reason) => reason.as_str().to_owned(),
            GoogleError::SaveFailed(path) => concat("writing ", path.as_str()),
            GoogleError::ClientIdUnreadable { account, path } => concat4(
                "account `",
                account.as_str(),
                "`: reading client_id from ",
                path.as_str(),
            ),
            GoogleError::ClientSecretUnreadable { account, path } => concat4(
                "account `",
                account.as_str(),
                "`: reading client_secret from ",
                path.as_str(),
            ),
            GoogleError::AccountNotConfigured(account) => concat3(
                "account `",
                account.as_str(),
                "` is not configured",
            ),
            GoogleError::AgentNotConfigured(agent) => concat3(
                "agent `",
                agent.as_str(),
                "` is not configured for google_auth (no entry in `google-auth.yaml::accounts[].agent_id`)",
            ),
            GoogleError::AgentWithoutAccounts(agent) => concat3(
                "agent `",
                agent.as_str(),
                "` is configured but has zero accounts",
            ),
            GoogleError::UnknownTool(tool) => concat3("unknown tool `", tool.as_str(), "`"),
            GoogleError::MissingMethod => "google_call requires `method`".to_owned(),
            GoogleError::MissingUrl => "google_call requires `url`".to_owned(),
            GoogleError::UrlRejected(url) => concat3(
                "google_call only accepts https://*.googleapis.com URLs — got `",
                url.as_str(),
                "`",
            ),
            GoogleError::ClientIdFile(path) => concat(
                "reading client_id file at ",
                path.as_str(),
            ),
            GoogleError::ClientSecretFile(path) => concat(
                "reading client_secret file at ",
                path.as_str(),
            ),
            GoogleError::ClientIdEmpty(path) => concat("client_id file empty: ", path.as_str()),
            GoogleError::ClientSecretEmpty(path) => concat(
                "client_secret file empty: ",
                path.as_str(),
            ),
            GoogleError::NoScopes => "--scopes must list at least one OAuth scope".to_owned(),
            GoogleError::ConfigMalformed { path, reason } => concat4(
                "parsing google-auth.yaml at ",
                path.as_str(),
                ": ",
                reason.as_str(),
            ),
        }
    }
}

// ---------------------------------------------------------------------------
// Laws

proof fn lemma_shown(part: Seq<char>, before: Seq<char>, after: Seq<char>, report: Seq<char>)
    requires
        report =~= before + part + after,
    ensures
        text::occurs(part, report),
{
    let at = text::occurrences_are_parts(part, before, after, report);
}

/// The report of a failure shows what the failure is about, in full: statuses
/// and explanations, names, addresses and paths.
pub proof fn reports_show_what_failed(error: GoogleError)
    ensures
        ({
            let report = error.text();
            match error {
                GoogleError::Transport(context) => report == context@,
                GoogleError::TokensUnreadable(reason) => report == reason@,
                GoogleError::CircuitOpen(name) => text::occurs(name@, report),
                GoogleError::TokenExchange { status, detail } => {
                    &&& text::occurs(status@, report)
                    &&& text::occurs(detail@, report)
                },
                GoogleError::DeviceCode { status, detail } => {
                    &&& text::occurs(status@, report)
                    &&& text::occurs(detail@, report)
                },
                GoogleError::Refresh { status, detail } => {
                    &&& text::occurs(status@, report)
                    &&& text::occurs(detail@, report)
                },
                GoogleError::Poll { status, error, description } => {
                    &&& text::occurs(status@, report)
                    &&& text::occurs(error@, report)
                    &&& text::occurs(description@, report)
                },
                GoogleError::UnsupportedMethod(method) => text::occurs(method@, report),
                GoogleError::CallFailed { method, url, status, body } => {
                    &&& text::occurs(method@, report)
                    &&& text::occurs(url@, report)
                    &&& text::occurs(status@, report)
                    &&& text::occurs(body@, report)
                },
                GoogleError::BindFailed(port) => {
                    &&& text::occurs(text::decimal_text(port as nat), report)
                },
                GoogleError::SaveFailed(path) => text::occurs(path@, report),
                GoogleError::ClientIdUnreadable { account, path } => {
                    &&& text::occurs(account@, report)
                    &&& text::occurs(path@, report)
                },
                GoogleError::ClientSecretUnreadable { account, path } => {
                    &&& text::occurs(account@, report)
                    &&& text::occurs(path@, report)
                },
                GoogleError::AccountNotConfigured(account) => text::occurs(account@, report),
                GoogleError::AgentNotConfigured(agent) => text::occurs(agent@, report),
                GoogleError::AgentWithoutAccounts(agent) => text::occurs(agent@, report),
                GoogleError::UnknownTool(tool) => text::occurs(tool@, report),
                GoogleError::UrlRejected(url) => text::occurs(url@, report),
                GoogleError::ClientIdFile(path) => text::occurs(path@, report),
                GoogleError::ClientSecretFile(path) => text::occurs(path@, report),
                GoogleError::ClientIdEmpty(path) => text::occurs(path@, report),
                GoogleError::ClientSecretEmpty(path) => text::occurs(path@, report),
                GoogleError::ConfigMalformed { path, reason } => {
                    &&& text::occurs(path@, report)
                    &&& text::occurs(reason@, report)
                },
                _ => report.len() > 0,
            }
        }),
{
    let report = error.text();
    reveal_strlit("token response missing access_token");
    reveal_strlit("missing device_code");
    reveal_strlit("missing user_code");
    reveal_strlit("device code expired before user approved");
    reveal_strlit("user denied the consent request");
    reveal_strlit("device code expired");
    reveal_strlit("no refresh_token on file — run `google_auth_start` to authorise the agent for the first time");
    reveal_strlit("oauth state mismatch — possibly a replayed tab");
    reveal_strlit("oauth callback missing ?code parameter");
    reveal_strlit("google_tokens.json malformed");
    reveal_strlit("google_call requires `method`");
    reveal_strlit("google_call requires `url`");
    reveal_strlit("--scopes must list at least one OAuth scope");
    match error {
        GoogleError::CircuitOpen(name) => {
            lemma_shown(name@, "google circuit breaker open ("@, ")"@, report);
        },
        GoogleError::TokenExchange { status, detail } => {
            lemma_shown(status@, "token exchange HTTP "@, ": "@ + detail@, report);
            lemma_shown(detail@, "token exchange HTTP "@ + status@ + ": "@, Seq::<char>::empty(), report);
        },
        GoogleError::DeviceCode { status, detail } => {
            lemma_shown(status@, "device/code HTTP "@, ": "@ + detail@, report);
            lemma_shown(detail@, "device/code HTTP "@ + status@ + ": "@, Seq::<char>::empty(), report);
        },
        GoogleError::Refresh { status, detail } => {
            lemma_shown(status@, "refresh HTTP "@, ": "@ + detail@ + " — re-auth required"@, report);
            lemma_shown(detail@, "refresh HTTP "@ + status@ + ": "@, " — re-auth required"@, report);
        },
        GoogleError::Poll { status, error, description } => {
            lemma_shown(status@, "token poll HTTP "@, ": "@ + error@ + " — "@ + description@, report);
            lemma_shown(error@, "token poll HTTP "@ + status@ + ": "@, " — "@ + description@, report);
            lemma_shown(description@, "token poll HTTP "@ + status@ + ": "@ + error@ + " — "@, Seq::<char>::empty(), report);
        },
        GoogleError::UnsupportedMethod(method) => {
            lemma_shown(method@, "unsupported HTTP method `"@, "`"@, report);
        },
        GoogleError::CallFailed { method, url, status, body } => {
            lemma_shown(method@, Seq::<char>::empty(), " "@ + url@ + " → HTTP "@ + status@ + ": "@ + body@, report);
            lemma_shown(url@, method@ + " "@, " → HTTP "@ + status@ + ": "@ + body@, report);
            lemma_shown(status@, method@ + " "@ + url@ + " → HTTP "@, ": "@ + body@, report);
            lemma_shown(body@, method@ + " "@ + url@ + " → HTTP "@ + status@ + ": "@, Seq::<char>::empty(), report);
        },
        GoogleError::BindFailed(port) => {
            lemma_shown(text::decimal_text(port as nat), "cannot bind 127.0.0.1:"@, " for OAuth callback — another process using it?"@, report);
        },
        GoogleError::SaveFailed(path) => {
            lemma_shown(path@, "writing "@, Seq::<char>::empty(), report);
        },
        GoogleError::ClientIdUnreadable { account, path } => {
            lemma_shown(account@, "account `"@, "`: reading client_id from "@ + path@, report);
            lemma_shown(path@, "account `"@ + account@ + "`: reading client_id from "@, Seq::<char>::empty(), report);
        },
        GoogleError::ClientSecretUnreadable { account, path } => {
            lemma_shown(account@, "account `"@, "`: reading client_secret from "@ + path@, report);
            lemma_shown(path@, "account `"@ + account@ + "`: reading client_secret from "@, Seq::<char>::empty(), report);
        },
        GoogleError::AccountNotConfigured(account) => {
            lemma_shown(account@, "account `"@, "` is not configured"@, report);
        },
        GoogleError::AgentNotConfigured(agent) => {
            lemma_shown(agent@, "agent `"@, "` is not configured for google_auth (no entry in `google-auth.yaml::accounts[].agent_id`)"@, report);
        },
        GoogleError::AgentWithoutAccounts(agent) => {
            lemma_shown(agent@, "agent `"@, "` is configured but has zero accounts"@, report);
        },
        GoogleError::UnknownTool(tool) => {
            lemma_shown(tool@, "unknown tool `"@, "`"@, report);
        },
        GoogleError::UrlRejected(url) => {
            lemma_shown(url@, "google_call only accepts https://*.googleapis.com URLs — got `"@, "`"@, report);
        },
        GoogleError::ClientIdFile(path) => {
            lemma_shown(path@, "reading client_id file at "@, Seq::<char>::empty(), report);
        },
        GoogleError::ClientSecretFile(path) => {
            lemma_shown(path@, "reading client_secret file at "@, Seq::<char>::empty(), report);
        },
        GoogleError::ClientIdEmpty(path) => {
            lemma_shown(path@, "client_id file empty: "@, Seq::<char>::empty(), report);
        },
        GoogleError::ClientSecretEmpty(path) => {
            lemma_shown(path@, "client_secret file empty: "@, Seq::<char>::empty(), report);
        },
        GoogleError::ConfigMalformed { path, reason } => {
            lemma_shown(path@, "parsing google-auth.yaml at "@, ": "@ + reason@, report);
            lemma_shown(reason@, "parsing google-auth.yaml at "@ + path@ + ": "@, Seq::<char>::empty(), report);
        },
        _ => {},
    }
}

/// The reports of failures that are about nothing in particular say what is
/// wrong: what is missing, expired or refused.
pub proof fn fixed_reports_say_what_is_wrong()
    ensures
        text::occurs("google_auth_start"@, GoogleError::NoRefreshToken.text()),
        text::occurs("access_token"@, GoogleError::MissingAccessToken.text()),
        text::occurs("device_code"@, GoogleError::MissingDeviceCode.text()),
        text::occurs("user_code"@, GoogleError::MissingUserCode.text()),
        text::occurs("expired before"@, GoogleError::ApprovalTimeout.text()),
        text::occurs("denied"@, GoogleError::ConsentDenied.text()),
        text::occurs("device code expired"@, GoogleError::DeviceCodeExpired.text()),
        text::occurs("state mismatch"@, GoogleError::StateMismatch.text()),
        text::occurs("missing ?code"@, GoogleError::MissingCode.text()),
        text::occurs("malformed"@, GoogleError::TokensMalformed.text()),
        text::occurs("requires `method`"@, GoogleError::MissingMethod.text()),
        text::occurs("requires `url`"@, GoogleError::MissingUrl.text()),
        text::occurs("--scopes"@, GoogleError::NoScopes.text()),
{
    reveal_strlit("no refresh_token on file — run `google_auth_start` to authorise the agent for the first time");
    reveal_strlit("google_auth_start");
    reveal_strlit("token response missing access_token");
    reveal_strlit("access_token");
    reveal_strlit("missing device_code");
    reveal_strlit("device_code");
    reveal_strlit("missing user_code");
    reveal_strlit("user_code");
    reveal_strlit("device code expired before user approved");
    reveal_strlit("expired before");
    reveal_strlit("user denied the consent request");
    reveal_strlit("denied");
    reveal_strlit("device code expired");
    reveal_strlit("oauth state mismatch — possibly a replayed tab");
    reveal_strlit("state mismatch");
    reveal_strlit("oauth callback missing ?code parameter");
    reveal_strlit("missing ?code");
    reveal_strlit("google_tokens.json malformed");
    reveal_strlit("malformed");
    reveal_strlit("google_call requires `method`");
    reveal_strlit("requires `method`");
    reveal_strlit("google_call requires `url`");
    reveal_strlit("requires `url`");
    reveal_strlit("--scopes must list at least one OAuth scope");
    reveal_strlit("--scopes");
    assert(GoogleError::NoRefreshToken.text().subrange(32, 49) =~= "google_auth_start"@);
    assert(text::occurs_at("google_auth_start"@, GoogleError::NoRefreshToken.text(), 32));
    assert(GoogleError::MissingAccessToken.text().subrange(23, 35) =~= "access_token"@);
    assert(text::occurs_at("access_token"@, GoogleError::MissingAccessToken.text(), 23));
    assert(GoogleError::MissingDeviceCode.text().subrange(8, 19) =~= "device_code"@);
    assert(text::occurs_at("device_code"@, GoogleError::MissingDeviceCode.text(), 8));
    assert(GoogleError::MissingUserCode.text().subrange(8, 17) =~= "user_code"@);
    assert(text::occurs_at("user_code"@, GoogleError::MissingUserCode.text(), 8));
    assert(GoogleError::ApprovalTimeout.text().subrange(12, 26) =~= "expired before"@);
    assert(text::occurs_at("expired before"@, GoogleError::ApprovalTimeout.text(), 12));
    assert(GoogleError::ConsentDenied.text().subrange(5, 11) =~= "denied"@);
    assert(text::occurs_at("denied"@, GoogleError::ConsentDenied.text(), 5));
    assert(GoogleError::DeviceCodeExpired.text().subrange(0, 19) =~= "device code expired"@);
    assert(text::occurs_at("device code expired"@, GoogleError::DeviceCodeExpired.text(), 0));
    assert(GoogleError::StateMismatch.text().subrange(6, 20) =~= "state mismatch"@);
    assert(text::occurs_at("state mismatch"@, GoogleError::StateMismatch.text(), 6));
    assert(GoogleError::MissingCode.text().subrange(15, 28) =~= "missing ?code"@);
    assert(text::occurs_at("missing ?code"@, GoogleError::MissingCode.text(), 15));
    assert(GoogleError::TokensMalformed.text().subrange(19, 28) =~= "malformed"@);
    assert(text::occurs_at("malformed"@, GoogleError::TokensMalformed.text(), 19));
    assert(GoogleError::MissingMethod.text().subrange(12, 29) =~= "requires `method`"@);
    assert(text::occurs_at("requires `method`"@, GoogleError::MissingMethod.text(), 12));
    assert(GoogleError::MissingUrl.text().subrange(12, 26) =~= "requires `url`"@);
    assert(text::occurs_at("requires `url`"@, GoogleError::MissingUrl.text(), 12));
    assert(GoogleError::NoScopes.text().subrange(0, 8) =~= "--scopes"@);
    assert(text::occurs_at("--scopes"@, GoogleError::NoScopes.text(), 0));
}

} // verus!

//! The OAuth client of one Google account.
//!
//! [`GoogleAuthClient`] holds what the plugin knows of an account and takes
//! every decision of the consent, refresh and revocation flows. It does no
//! input or output: a method either returns the request to be made, or takes
//! the reply and moves the state on.

use crate::callback;
use crate::callback::{failure_page, read_callback, CallbackStep};
use crate::clock;
use crate::clock::now_timestamp;
use crate::config;
pub use crate::config::{canonicalize_scopes, GoogleAuthConfig, SecretSources};
use crate::config::ConfigModel;
use crate::encoding;
use crate::error::GoogleError;
use crate::http;
use crate::http::{
    error_detail, is_success, request_method, status_line, Form, FormPost, FormPostModel,
    HttpMethod,
};
use crate::json;
use crate::json::{text_array, Json, JsonModel, Members};
use crate::json_text;
use crate::paths;
use crate::pkce;
pub use crate::pkce::generate_pkce_pair;
use crate::text;
use crate::text::{concat, concat3, copy_opt, decimal, hex, join, str_eq, trim};
use crate::tokens;
pub use crate::tokens::GoogleTokens;
use crate::tokens::{tokens_from_response_at, TokensModel};
use vstd::prelude::*;
use vstd::utf8::*;

verus! {

// ---------------------------------------------------------------------------
// State

/// Files to be read again when they change, and the time of the last change
/// that was seen, in nanoseconds since the Unix epoch.
struct WatchedSecrets {
    sources: SecretSources,
    last_mtime: i128,
}

/// The model of the watched files.
#[verifier::ext_equal]
pub struct SecretsModel {
    pub client_id_path: Seq<char>,
    pub client_secret_path: Seq<char>,
    pub last_mtime: int,
}

/// The OAuth client of an account.
pub struct GoogleAuthClient {
    config: GoogleAuthConfig,
    token_path: String,
    tokens: Option<GoogleTokens>,
    pending_state: Option<String>,
    pending_verifier: Option<String>,
    secrets: Option<WatchedSecrets>,
}

/// The model of a client.
#[verifier::ext_equal]
pub struct ClientModel {
    pub config: ConfigModel,
    /// Where the tokens are kept.
    pub token_path: Seq<char>,
    /// The tokens on file.
    pub tokens: Option<TokensModel>,
    /// The state of the consent under way.
    pub pending_state: Option<Seq<char>>,
    /// The proof key of the consent under way.
    pub pending_verifier: Option<Seq<char>>,
    /// The files that hold the client id and secret.
    pub secrets: Option<SecretsModel>,
}

impl View for GoogleAuthClient {
    type V = ClientModel;

    closed spec fn view(&self) -> ClientModel {
        ClientModel {
            config: self.config@,
            token_path: self.token_path@,
            tokens: tokens::opt_tokens(self.tokens),
            pending_state: text::opt_text(self.pending_state),
            pending_verifier: text::opt_text(self.pending_verifier),
            secrets: match self.secrets {
                Some(w) => Some(
                    SecretsModel {
                        client_id_path: w.sources.client_id_path@,
                        client_secret_path: w.sources.client_secret_path@,
                        last_mtime: w.last_mtime as int,
                    },
                ),
                None => None,
            },
        }
    }
}

/// The later of two times.
pub open spec fn later(a: int, b: int) -> int {
    if a >= b {
        a
    } else {
        b
    }
}

fn max_time(a: i128, b: i128) -> (r: i128)
    ensures
        r == later(a as int, b as int),
{
    if a >= b {
        a
    } else {
        b
    }
}

/// A client without tokens, whose secrets were last changed at the given
/// times; where one of these is not known, the files count as never read.
pub open spec fn initial_client(
    config: ConfigModel,
    workspace_dir: Seq<char>,
    sources: Option<(Seq<char>, Seq<char>)>,
    id_mtime: Option<i128>,
    secret_mtime: Option<i128>,
) -> ClientModel {
    ClientModel {
        config,
        token_path: paths::resolved(workspace_dir, config.token_file),
        tokens: None,
        pending_state: None,
        pending_verifier: None,
        secrets: match sources {
            Some((id_path, secret_path)) => Some(
                SecretsModel {
                    client_id_path: id_path,
                    client_secret_path: secret_path,
                    last_mtime: match (id_mtime, secret_mtime) {
                        (Some(a), Some(b)) => later(a as int, b as int),
                        _ => 0,
                    },
                },
            ),
            None => None,
        },
    }
}

/// The paths of optional sources.
pub open spec fn source_paths(sources: Option<SecretSources>) -> Option<(Seq<char>, Seq<char>)> {
    match sources {
        Some(s) => Some((s.client_id_path@, s.client_secret_path@)),
        None => None,
    }
}

/// What the token file of an account was found to hold.
pub enum TokenFile {
    /// There is no such file.
    Missing,
    Tokens(GoogleTokens),
    /// The file is no set of tokens.
    Malformed,
    /// The file cannot be read, for the given reason.
    Unreadable(String),
}

/// The callback address of a port.
pub open spec fn redirect_uri_text(port: u16) -> Seq<char> {
    "http://127.0.0.1:"@ + text::decimal_text(port as nat) + "/callback"@
}

/// The callback address of a port.
pub fn redirect_uri_for(port: u16) -> (r: String)
    ensures
        r@ == redirect_uri_text(port),
{
    concat3("http://127.0.0.1:", decimal(port as u64).as_str(), "/callback")
}

/// The parameters of a consent request, in order.
pub open spec fn auth_params(
    config: ConfigModel,
    state: Seq<char>,
    challenge: Option<Seq<char>>,
) -> Seq<(Seq<char>, Seq<char>)> {
    let base = seq![
        ("client_id"@, config.client_id),
        ("redirect_uri"@, redirect_uri_text(config.redirect_port)),
        ("response_type"@, "code"@),
        ("scope"@, config::scope_text(config.scopes)),
        ("access_type"@, "offline"@),
        ("prompt"@, "consent"@),
        ("state"@, state),
    ];
    match challenge {
        Some(c) => base.push(("code_challenge"@, c)).push(("code_challenge_method"@, "S256"@)),
        None => base,
    }
}

/// The address at which the user consents.
pub open spec fn auth_url(
    config: ConfigModel,
    state: Seq<char>,
    challenge: Option<Seq<char>>,
) -> Seq<char> {
    "https://accounts.google.com/o/oauth2/v2/auth?"@ + encoding::form_encoded(
        auth_params(config, state, challenge),
    )
}

/// A consent that has been started: the address to open, and the state that
/// its callback has to carry.
pub struct AuthFlow {
    pub url: String,
    pub state: String,
}

/// The state of a consent with the given nonce.
pub open spec fn state_text(nonce: u64) -> Seq<char> {
    text::hex_text(nonce as nat, 16)
}

/// A nonce made of the time, in nanoseconds, and the number of the process.
pub fn rand_u64(nanos: u128, pid: u32) -> (r: u64)
    ensures
        r == ((nanos % 0x1_0000_0000_0000_0000) as u64) ^ ((pid * 2654435761) as u64),
{
    let low: u64 = (nanos % 0x1_0000_0000_0000_0000u128) as u64;
    let mixed: u64 = pid as u64 * 2654435761u64;
    low ^ mixed
}

// ---------------------------------------------------------------------------
// Posts to the token endpoints

/// The post that exchanges an authorisation code.
pub open spec fn exchange_post(
    config: ConfigModel,
    code: Seq<char>,
    verifier: Option<Seq<char>>,
) -> FormPostModel {
    let base = seq![
        ("code"@, code),
        ("client_id"@, config.client_id),
        ("client_secret"@, config.client_secret),
        ("redirect_uri"@, redirect_uri_text(config.redirect_port)),
        ("grant_type"@, "authorization_code"@),
    ];
    FormPostModel {
        url: "https://oauth2.googleapis.com/token"@,
        form: match verifier {
            Some(v) => base.push(("code_verifier"@, v)),
            None => base,
        },
        send_context: "POST oauth2.googleapis.com/token failed"@,
        body_context: "malformed token response"@,
    }
}

/// The post that asks for a device code.
pub open spec fn device_code_post(config: ConfigModel) -> FormPostModel {
    FormPostModel {
        url: "https://oauth2.googleapis.com/device/code"@,
        form: seq![
            ("client_id"@, config.client_id),
            ("scope"@, config::scope_text(config.scopes)),
        ],
        send_context: "POST oauth2.googleapis.com/device/code failed"@,
        body_context: "malformed device/code response"@,
    }
}

/// The post that asks whether a device code has been approved.
pub open spec fn device_token_post(config: ConfigModel, device_code: Seq<char>) -> FormPostModel {
    FormPostModel {
        url: "https://oauth2.googleapis.com/token"@,
        form: seq![
            ("client_id"@, config.client_id),
            ("client_secret"@, config.client_secret),
            ("device_code"@, device_code),
            ("grant_type"@, "urn:ietf:params:oauth:grant-type:device_code"@),
        ],
        send_context: "POST oauth2.googleapis.com/token (device) failed"@,
        body_context: "malformed token response"@,
    }
}

/// The post that renews an access token.
pub open spec fn refresh_post(config: ConfigModel, refresh_token: Seq<char>) -> FormPostModel {
    FormPostModel {
        url: "https://oauth2.googleapis.com/token"@,
        form: seq![
            ("client_id"@, config.client_id),
            ("client_secret"@, config.client_secret),
            ("refresh_token"@, refresh_token),
            ("grant_type"@, "refresh_token"@),
        ],
        send_context: "POST oauth2.googleapis.com/token (refresh) failed"@,
        body_context: "malformed refresh response"@,
    }
}

/// The post that revokes a refresh token. Its reply is not read.
pub open spec fn revoke_post(refresh_token: Seq<char>) -> FormPostModel {
    FormPostModel {
        url: "https://oauth2.googleapis.com/revoke"@,
        form: seq![("token"@, refresh_token)],
        send_context: "POST oauth2.googleapis.com/revoke failed"@,
        body_context: ""@,
    }
}

// ---------------------------------------------------------------------------
// Device codes

/// What the user needs to approve a device.
#[derive(Debug, Clone)]
pub struct DeviceChallenge {
    pub device_code: String,
    pub user_code: String,
    pub verification_url: String,
    /// Seconds for which the code is valid.
    pub expires_in: u64,
    /// Seconds to wait between two polls.
    pub interval: u64,
}

/// The model of a device challenge.
#[verifier::ext_equal]
pub struct ChallengeModel {
    pub device_code: Seq<char>,
    pub user_code: Seq<char>,
    pub verification_url: Seq<char>,
    pub expires_in: u64,
    pub interval: u64,
}

impl View for DeviceChallenge {
    type V = ChallengeModel;

    open spec fn view(&self) -> ChallengeModel {
        ChallengeModel {
            device_code: self.device_code@,
            user_code: self.user_code@,
            verification_url: self.verification_url@,
            expires_in: self.expires_in,
            interval: self.interval,
        }
    }
}

/// The challenge that a device response carries.
pub open spec fn response_challenge(body: JsonModel) -> Option<ChallengeModel> {
    match (body.field_text("device_code"@), body.field_text("user_code"@)) {
        (Some(device_code), Some(user_code)) => Some(
            ChallengeModel {
                device_code,
                user_code,
                verification_url: match body.field_text("verification_url"@) {
                    Some(u) => u,
                    None => match body.field_text("verification_uri"@) {
                        Some(u) => u,
                        None => "https://www.google.com/device"@,
                    },
                },
                expires_in: match body.field_unsigned("expires_in"@) {
                    Some(n) => n,
                    None => 1800,
                },
                interval: match body.field_unsigned("interval"@) {
                    Some(n) => n,
                    None => 5,
                },
            },
        ),
        _ => None,
    }
}

/// The challenge that a device response carries.
pub fn device_challenge(body: &Json) -> (r: Result<DeviceChallenge, GoogleError>)
    ensures
        match r {
            Ok(c) => response_challenge(body@) == Some(c@),
            Err(e) => {
                ||| e is MissingDeviceCode && body@.field_text("device_code"@) is None
                ||| e is MissingUserCode && body@.field_text("device_code"@) is Some
                    && body@.field_text("user_code"@) is None
            },
        },
{
    let device_code: String = match body.field_str("device_code") {
        Some(s) => s,
        None => {
            return Err(GoogleError::MissingDeviceCode);
        },
    };
    let user_code: String = match body.field_str("user_code") {
        Some(s) => s,
        None => {
            return Err(GoogleError::MissingUserCode);
        },
    };
    let verification_url: String = match body.field_str("verification_url") {
        Some(s) => s,
        None => match body.field_str("verification_uri") {
            Some(s) => s,
            None => "https://www.google.com/device".to_owned(),
        },
    };
    let expires_in: u64 = match body.field_u64("expires_in") {
        Some(n) => n,
        None => 1800,
    };
    let interval: u64 = match body.field_u64("interval") {
        Some(n) => n,
        None => 5,
    };
    Ok(DeviceChallenge { device_code, user_code, verification_url, expires_in, interval })
}

/// A poll for the approval of a device, and how long it waits between two
/// questions.
pub struct DevicePoll {
    pub expires_in: u64,
    pub interval_secs: u64,
    pub interval_nanos: u32,
}

/// How long a poll waits before it asks again.
#[derive(Debug, Clone, Copy, PartialEq, Eq, Structural)]
pub struct PollWait {
    pub secs: u64,
    pub nanos: u32,
}

/// The outcome of one question of a poll.
pub enum PollReply {
    /// Not yet approved: go on.
    Pending,
    /// Approved.
    Granted(GoogleTokens),
    /// The poll is over.
    Failed(GoogleError),
}

/// What the reply to a question of a poll means.
pub enum PollVerdict {
    Approved,
    Pending,
    SlowDown,
    Denied,
    Expired,
    Rejected,
}

/// The error code of a reply.
pub open spec fn poll_error(body: JsonModel) -> Seq<char> {
    match body.field_text("error"@) {
        Some(e) => e,
        None => ""@,
    }
}

/// What the reply to a question of a poll means.
pub open spec fn poll_verdict(status: u16, body: JsonModel) -> PollVerdict {
    if http::success(status) {
        PollVerdict::Approved
    } else if poll_error(body) == "authorization_pending"@ {
        PollVerdict::Pending
    } else if poll_error(body) == "slow_down"@ {
        PollVerdict::SlowDown
    } else if poll_error(body) == "access_denied"@ {
        PollVerdict::Denied
    } else if poll_error(body) == "expired_token"@ {
        PollVerdict::Expired
    } else {
        PollVerdict::Rejected
    }
}

impl DevicePoll {
    /// The poll for a challenge.
    pub fn new(challenge: &DeviceChallenge) -> (r: DevicePoll)
        ensures
            r.expires_in == challenge@.expires_in,
            r.interval_secs == challenge@.interval,
            r.interval_nanos == 0,
    {
        DevicePoll {
            expires_in: challenge.expires_in,
            interval_secs: challenge.interval,
            interval_nanos: 0,
        }
    }

    /// How long to wait before the next question, where the poll has gone on
    /// for the given number of seconds. Once the code has run out, the poll is
    /// over.
    pub fn tick(&self, elapsed_secs: u64) -> (r: Result<PollWait, GoogleError>)
        ensures
            match r {
                Ok(wait) => {
                    &&& elapsed_secs < self.expires_in
                    &&& wait.secs == self.interval_secs
                    &&& wait.nanos == self.interval_nanos
                },
                Err(e) => elapsed_secs >= self.expires_in && e is ApprovalTimeout,
            },
    {
        if elapsed_secs >= self.expires_in {
            Err(GoogleError::ApprovalTimeout)
        } else {
            Ok(PollWait { secs: self.interval_secs, nanos: self.interval_nanos })
        }
    }

    /// The poll that waits five seconds longer, up to the longest time that
    /// can be waited for.
    pub open spec fn slowed(self) -> DevicePoll {
        if self.interval_secs + 5 <= u64::MAX {
            DevicePoll { interval_secs: (self.interval_secs + 5) as u64, ..self }
        } else {
            DevicePoll { interval_secs: u64::MAX, interval_nanos: 999_999_999, ..self }
        }
    }

    fn slow_down(&mut self)
        ensures
            *final(self) == old(self).slowed(),
    {
        if self.interval_secs <= u64::MAX - 5 {
            self.interval_secs = self.interval_secs + 5;
        } else {
            self.interval_secs = u64::MAX;
            self.interval_nanos = 999_999_999;
        }
    }
}

// ---------------------------------------------------------------------------
// Replies of the token endpoints

/// Whether the reply to a code exchange can be read on.
pub fn check_exchange_reply(status: u16, body: &Json) -> (r: Result<(), GoogleError>)
    requires
        http::valid_status(status),
    ensures
        match r {
            Ok(_) => http::success(status),
            Err(e) => {
                &&& !http::success(status)
                &&& e matches GoogleError::TokenExchange { status: s, detail: d }
                &&& s@ == http::status_text(status)
                &&& d@ == http::error_detail_text(body@)
            },
        },
{
    if is_success(status) {
        Ok(())
    } else {
        Err(GoogleError::TokenExchange { status: status_line(status), detail: error_detail(body) })
    }
}

/// Whether the reply to the request of a device code can be read on.
pub fn check_device_code_reply(status: u16, body: &Json) -> (r: Result<(), GoogleError>)
    requires
        http::valid_status(status),
    ensures
        match r {
            Ok(_) => http::success(status),
            Err(e) => {
                &&& !http::success(status)
                &&& e matches GoogleError::DeviceCode { status: s, detail: d }
                &&& s@ == http::status_text(status)
                &&& d@ == http::error_detail_text(body@)
            },
        },
{
    if is_success(status) {
        Ok(())
    } else {
        Err(GoogleError::DeviceCode { status: status_line(status), detail: error_detail(body) })
    }
}

/// Whether the reply to a refresh can be read on.
pub fn check_refresh_reply(status: u16, body: &Json) -> (r: Result<(), GoogleError>)
    requires
        http::valid_status(status),
    ensures
        match r {
            Ok(_) => http::success(status),
            Err(e) => {
                &&& !http::success(status)
                &&& e matches GoogleError::Refresh { status: s, detail: d }
                &&& s@ == http::status_text(status)
                &&& d@ == http::error_detail_text(body@)
            },
        },
{
    if is_success(status) {
        Ok(())
    } else {
        Err(GoogleError::Refresh { status: status_line(status), detail: error_detail(body) })
    }
}

// ---------------------------------------------------------------------------
// The client

/// What is to be done for a usable access token.
pub enum RefreshPlan {
    /// Nothing: these are good.
    Fresh(GoogleTokens),
    /// Renew them with this refresh token.
    Renew(String),
}

/// An API call that is to be made.
pub struct ApiCall {
    pub method: HttpMethod,
    pub url: String,
    pub bearer: String,
    pub body: Option<Json>,
}

/// What an API call needs next.
pub enum CallPlan {
    /// Make this call.
    Send(ApiCall),
    /// Renew the tokens with this refresh token first.
    Renew(String),
}

/// The call to `url` with the given tokens, in whatever letter case the method
/// is named.
pub open spec fn request_outcome(
    tokens: TokensModel,
    method: Seq<char>,
    url: Seq<char>,
    body: Option<JsonModel>,
    r: Result<ApiCall, GoogleError>,
) -> bool {
    match r {
        Ok(call) => {
            &&& call.method.name() == text::uppercase(method)
            &&& call.url@ == url
            &&& call.bearer@ == tokens.access_token
            &&& opt_json(call.body) == body
        },
        Err(e) => {
            &&& !http::offered_method(text::uppercase(method))
            &&& e matches GoogleError::UnsupportedMethod(name)
            &&& name@ == text::uppercase(method)
        },
    }
}

/// What a call to `url` needs at `now`: fresh tokens are used, others are
/// renewed first.
pub open spec fn call_outcome(
    client: ClientModel,
    method: Seq<char>,
    url: Seq<char>,
    body: Option<JsonModel>,
    now: int,
    r: Result<CallPlan, GoogleError>,
) -> bool {
    if client.tokens is Some && client.tokens->0.fresh(now) {
        match r {
            Ok(CallPlan::Send(call)) => request_outcome(
                client.tokens->0,
                method,
                url,
                body,
                Ok::<ApiCall, GoogleError>(call),
            ),
            Ok(CallPlan::Renew(_)) => false,
            Err(e) => request_outcome(
                client.tokens->0,
                method,
                url,
                body,
                Err::<ApiCall, GoogleError>(e),
            ),
        }
    } else if client.refresh_on_file() is Some {
        &&& r matches Ok(CallPlan::Renew(refresh))
        &&& refresh@ == client.refresh_on_file()->0
    } else {
        &&& r matches Err(e)
        &&& e is NoRefreshToken
    }
}

/// The model of an optional value.
pub open spec fn opt_json(v: Option<Json>) -> Option<JsonModel> {
    match v {
        Some(j) => Some(j@),
        None => None,
    }
}

/// What a client reports of its tokens at `now`.
pub open spec fn snapshot_model(tokens: Option<TokensModel>, now: int) -> JsonModel {
    match tokens {
        None => JsonModel::Object(
            seq![
                ("authenticated"@, JsonModel::Bool(false)),
                ("reason"@, JsonModel::Str("no tokens on file"@)),
            ],
        ),
        Some(t) => JsonModel::Object(
            seq![
                ("authenticated"@, JsonModel::Bool(true)),
                ("fresh"@, JsonModel::Bool(t.fresh(now))),
                (
                    "expires_in_secs"@,
                    JsonModel::PosInt(
                        (if t.expires_at > now {
                            t.expires_at - now
                        } else {
                            0
                        }) as u64,
                    ),
                ),
                ("has_refresh"@, JsonModel::Bool(t.refresh_token is Some)),
                ("scopes"@, JsonModel::Array(json::text_items(t.scopes))),
            ],
        ),
    }
}

impl ClientModel {
    /// The secrets have changed since they were last read, where the files
    /// were changed at the given times.
    pub open spec fn secrets_stale(self, id_mtime: int, secret_mtime: int) -> bool {
        match self.secrets {
            Some(s) => later(id_mtime, secret_mtime) > s.last_mtime,
            None => false,
        }
    }

    /// The client after its secrets were read again.
    pub open spec fn with_secrets(
        self,
        id_mtime: int,
        secret_mtime: int,
        id_text: Seq<char>,
        secret_text: Seq<char>,
    ) -> ClientModel {
        ClientModel {
            config: ConfigModel {
                client_id: text::trimmed(id_text),
                client_secret: text::trimmed(secret_text),
                ..self.config
            },
            secrets: match self.secrets {
                Some(s) => Some(
                    SecretsModel { last_mtime: later(id_mtime, secret_mtime), ..s },
                ),
                None => None,
            },
            ..self
        }
    }

    /// The client after a consent with the given nonce and proof key was
    /// started.
    pub open spec fn started(self, nonce: u64, verifier: Seq<char>) -> ClientModel {
        ClientModel {
            pending_state: Some(state_text(nonce)),
            pending_verifier: Some(verifier),
            ..self
        }
    }

    /// The client after an authorisation code was redeemed.
    pub open spec fn redeemed(self) -> ClientModel {
        ClientModel { pending_state: None, pending_verifier: None, ..self }
    }

    /// The code that the consent under way takes from a callback to `path`.
    pub open spec fn accepted_code(self, path: Seq<char>) -> Option<Seq<char>> {
        match self.pending_state {
            Some(state) => callback::accepted_code(path, state),
            None => None,
        }
    }

    /// What is done with a callback to `path`. Without a consent under way
    /// every state is a foreign one.
    pub open spec fn callback_outcome(self, path: Seq<char>, r: CallbackStep) -> bool {
        match self.pending_state {
            Some(state) => callback::callback_outcome(path, state, r),
            None => {
                &&& r matches CallbackStep::Reject { page, error }
                &&& error is StateMismatch
                &&& page@ == callback::failure_page_text("state mismatch"@)
            },
        }
    }

    /// The client with these tokens.
    pub open spec fn with_tokens(self, tokens: Option<TokensModel>) -> ClientModel {
        ClientModel { tokens, ..self }
    }

    /// The refresh token on file.
    pub open spec fn refresh_on_file(self) -> Option<Seq<char>> {
        match self.tokens {
            Some(t) => t.refresh_token,
            None => None,
        }
    }

    /// The tokens that a response to a consent or a poll carries: where it
    /// names no refresh token, the one on file stays.
    pub open spec fn granted(self, body: JsonModel, now: int) -> Option<TokensModel> {
        kept_refresh(
            tokens::response_tokens(body, config::canonical_scopes(self.config.scopes), now),
            self.refresh_on_file(),
        )
    }

    /// The tokens that a response to a refresh carries: where it names no new
    /// refresh token, the one that was used stays.
    pub open spec fn renewed(self, refresh: Seq<char>, body: JsonModel, now: int) -> Option<
        TokensModel,
    > {
        kept_refresh(
            tokens::response_tokens(body, config::canonical_scopes(self.config.scopes), now),
            Some(refresh),
        )
    }
}

/// The tokens with the given refresh token, where they have none of their own.
pub open spec fn kept_refresh(tokens: Option<TokensModel>, refresh: Option<Seq<char>>) -> Option<
    TokensModel,
> {
    match tokens {
        Some(t) => Some(
            TokensModel {
                refresh_token: match t.refresh_token {
                    Some(r) => Some(r),
                    None => refresh,
                },
                ..t
            },
        ),
        None => None,
    }
}

/// A poll of `client` that got the given reply at `now` answers `r`, and goes
/// on as `next_poll` with the client `next`.
pub open spec fn poll_step(
    client: ClientModel,
    poll: DevicePoll,
    status: u16,
    body: JsonModel,
    now: int,
    r: PollReply,
    next: ClientModel,
    next_poll: DevicePoll,
) -> bool {
    match poll_verdict(status, body) {
        PollVerdict::Approved => {
            &&& next_poll == poll
            &&& match client.granted(body, now) {
                Some(t) => {
                    &&& r matches PollReply::Granted(g)
                    &&& g@ == t
                    &&& next == client.with_tokens(Some(t))
                },
                None => {
                    &&& r matches PollReply::Failed(e)
                    &&& e is MissingAccessToken
                    &&& next == client
                },
            }
        },
        PollVerdict::Pending => {
            &&& r is Pending
            &&& next_poll == poll
            &&& next == client
        },
        PollVerdict::SlowDown => {
            &&& r is Pending
            &&& next_poll == poll.slowed()
            &&& next == client
        },
        PollVerdict::Denied => {
            &&& r matches PollReply::Failed(e)
            &&& e is ConsentDenied
            &&& next_poll == poll
            &&& next == client
        },
        PollVerdict::Expired => {
            &&& r matches PollReply::Failed(e)
            &&& e is DeviceCodeExpired
            &&& next_poll == poll
            &&& next == client
        },
        PollVerdict::Rejected => {
            &&& r matches PollReply::Failed(e)
            &&& e matches GoogleError::Poll { status: s, error: c, description: d }
            &&& s@ == http::status_text(status)
            &&& c@ == poll_error(body)
            &&& d@ == (match body.field_text("error_description"@) {
                Some(t) => t,
                None => ""@,
            })
            &&& next_poll == poll
            &&& next == client
        },
    }
}

impl GoogleAuthClient {
    /// A client whose client id and secret are fixed.
    pub fn new(config: GoogleAuthConfig, workspace_dir: &str) -> (r: GoogleAuthClient)
        ensures
            r@ == initial_client(config@, workspace_dir@, None, None, None),
    {
        Self::new_with_sources(config, workspace_dir, None, None, None)
    }

    /// A client whose client id and secret are read again from `sources` when
    /// these change. The times are those of the last change of the two files,
    /// in nanoseconds since the Unix epoch, where they can be told.
    pub fn new_with_sources(
        config: GoogleAuthConfig,
        workspace_dir: &str,
        sources: Option<SecretSources>,
        id_mtime: Option<i128>,
        secret_mtime: Option<i128>,
    ) -> (r: GoogleAuthClient)
        ensures
            r@ == initial_client(
                config@,
                workspace_dir@,
                source_paths(sources),
                id_mtime,
                secret_mtime,
            ),
    {
        let token_path: String = paths::resolve(workspace_dir, config.token_file.as_str());
        let last_mtime: i128 = match (id_mtime, secret_mtime) {
            (Some(a), Some(b)) => max_time(a, b),
            _ => 0,
        };
        let secrets: Option<WatchedSecrets> = match sources {
            Some(s) => Some(WatchedSecrets { sources: s, last_mtime }),
            None => None,
        };
        GoogleAuthClient {
            config,
            token_path,
            tokens: None,
            pending_state: None,
            pending_verifier: None,
            secrets,
        }
    }

    /// The configuration in force.
    pub fn config(&self) -> (r: &GoogleAuthConfig)
        ensures
            r@ == self@.config,
    {
        &self.config
    }

    /// Where the tokens are kept.
    pub fn token_path(&self) -> (r: &str)
        ensures
            r@ == self@.token_path,
    {
        self.token_path.as_str()
    }

    /// The files that hold the client id and secret, where there are any.
    pub fn secret_sources(&self) -> (r: Option<&SecretSources>)
        ensures
            match r {
                Some(s) => {
                    &&& self@.secrets is Some
                    &&& s.client_id_path@ == self@.secrets->0.client_id_path
                    &&& s.client_secret_path@ == self@.secrets->0.client_secret_path
                },
                None => self@.secrets is None,
            },
    {
        match &self.secrets {
            Some(w) => Some(&w.sources),
            None => None,
        }
    }

    /// Whether the secrets have to be read again, where the two files were
    /// last changed at the given times.
    pub fn secrets_changed(&self, id_mtime: i128, secret_mtime: i128) -> (r: bool)
        ensures
            r == self@.secrets_stale(id_mtime as int, secret_mtime as int),
    {
        match &self.secrets {
            Some(w) => max_time(id_mtime, secret_mtime) > w.last_mtime,
            None => false,
        }
    }

    /// Takes over the contents of the two files, where these have changed.
    /// Returns whether they have.
    pub fn refresh_secrets_if_changed(
        &mut self,
        id_mtime: i128,
        secret_mtime: i128,
        id_text: &str,
        secret_text: &str,
    ) -> (r: bool)
        ensures
            r == old(self)@.secrets_stale(id_mtime as int, secret_mtime as int),
            r ==> final(self)@ == old(self)@.with_secrets(
                id_mtime as int,
                secret_mtime as int,
                id_text@,
                secret_text@,
            ),
            !r ==> *final(self) == *old(self),
    {
        if !self.secrets_changed(id_mtime, secret_mtime) {
            return false;
        }
        self.config.client_id = trim(id_text);
        self.config.client_secret = trim(secret_text);
        match &mut self.secrets {
            Some(w) => {
                w.last_mtime = max_time(id_mtime, secret_mtime);
            },
            None => {},
        }
        true
    }

    /// Takes over what the token file holds. A missing file is no failure: the
    /// client then has no tokens.
    pub fn load_from_disk(&mut self, file: TokenFile) -> (r: Result<(), GoogleError>)
        ensures
            match file {
                TokenFile::Tokens(t) => r is Ok && final(self)@ == old(self)@.with_tokens(
                    Some(t@),
                ),
                TokenFile::Missing => r is Ok && final(self)@ == old(self)@.with_tokens(None),
                TokenFile::Malformed => {
                    &&& r matches Err(e)
                    &&& e is TokensMalformed
                    &&& *final(self) == *old(self)
                },
                TokenFile::Unreadable(why) => {
                    &&& r matches Err(e)
                    &&& e matches GoogleError::TokensUnreadable(m)
                    &&& m@ == why@
                    &&& *final(self) == *old(self)
                },
            },
    {
        match file {
            TokenFile::Tokens(t) => {
                self.tokens = Some(t);
                Ok(())
            },
            TokenFile::Missing => {
                self.tokens = None;
                Ok(())
            },
            TokenFile::Malformed => Err(GoogleError::TokensMalformed),
            TokenFile::Unreadable(why) => Err(GoogleError::TokensUnreadable(why)),
        }
    }

    /// The address at which the user consents, without a proof key.
    pub fn build_auth_url(&self, state: &str) -> (r: String)
        ensures
            r@ == auth_url(self@.config, state@, None),
    {
        self.build_auth_url_with_pkce(state, None)
    }

    /// The address at which the user consents, bound to the given challenge.
    pub fn build_auth_url_with_pkce(&self, state: &str, code_challenge: Option<&str>) -> (r: String)
        ensures
            r@ == auth_url(
                self@.config,
                state@,
                match code_challenge {
                    Some(c) => Some(c@),
                    None => None,
                },
            ),
    {
        let redirect_uri: String = self.redirect_uri();
        let scopes: String = self.joined_scopes();
        let mut form: Form = Form::new().with("client_id", self.config.client_id.as_str()).with(
            "redirect_uri",
            redirect_uri.as_str(),
        ).with("response_type", "code").with("scope", scopes.as_str()).with(
            "access_type",
            "offline",
        ).with("prompt", "consent").with("state", state);
        if let Some(challenge) = code_challenge {
            form = form.with("code_challenge", challenge).with("code_challenge_method", "S256");
        }
        assert(form@ =~= auth_params(
            self@.config,
            state@,
            match code_challenge {
                Some(c) => Some(c@),
                None => None,
            },
        ));
        concat("https://accounts.google.com/o/oauth2/v2/auth?", form.encode().as_str())
    }

    fn joined_scopes(&self) -> (r: String)
        ensures
            r@ == config::scope_text(self@.config.scopes),
    {
        let scopes: Vec<String> = canonicalize_scopes(&self.config.scopes);
        join(&scopes, " ")
    }

    /// The callback address.
    pub fn redirect_uri(&self) -> (r: String)
        ensures
            r@ == redirect_uri_text(self@.config.redirect_port),
    {
        redirect_uri_for(self.config.redirect_port)
    }

    /// Starts a consent with the given nonce and proof key. A consent that was
    /// under way is cancelled.
    pub fn start_auth_flow_with(
        &mut self,
        nonce: u64,
        verifier: String,
        challenge: &str,
    ) -> (r: AuthFlow)
        ensures
            r.state@ == state_text(nonce),
            r.url@ == auth_url(old(self)@.config, state_text(nonce), Some(challenge@)),
            final(self)@ == old(self)@.started(nonce, verifier@),
    {
        let state: String = hex(nonce, 16);
        let url: String = self.build_auth_url_with_pkce(state.as_str(), Some(challenge));
        self.pending_state = Some(state.as_str().to_owned());
        self.pending_verifier = Some(verifier);
        AuthFlow { url, state }
    }

    /// Starts a consent with the given nonce and a fresh proof key.
    pub fn start_auth_flow(&mut self, nonce: u64) -> (r: AuthFlow)
        ensures
            r.state@ == state_text(nonce),
            final(self)@.pending_verifier matches Some(v) && {
                &&& exists|bytes: [u8; 64]| v == #[trigger] encoding::base64_url_text(bytes@)
                &&& r.url@ == auth_url(
                    old(self)@.config,
                    state_text(nonce),
                    Some(pkce::challenge_of(v)),
                )
                &&& final(self)@ == old(self)@.started(nonce, v)
                &&& v.len() == 86
                &&& pkce::url_safe(v)
                &&& pkce::challenge_of(v).len() == 43
                &&& pkce::url_safe(pkce::challenge_of(v))
            },
    {
        let (verifier, challenge) = generate_pkce_pair();
        self.start_auth_flow_with(nonce, verifier, challenge.as_str())
    }

    /// What is done with the request that a browser sent to the callback
    /// address. Only the consent that was started last is still under way.
    pub fn accept_callback(&self, request: &[u8]) -> (r: CallbackStep)
        ensures
            self@.callback_outcome(callback::request_path(request@), r),
    {
        match &self.pending_state {
            Some(state) => read_callback(request, state.as_str()),
            None => CallbackStep::Reject {
                page: failure_page("state mismatch"),
                error: GoogleError::StateMismatch,
            },
        }
    }

    /// The post that redeems an authorisation code. The consent is over with
    /// it: its proof key goes along and is not used again.
    pub fn exchange_code(&mut self, code: &str) -> (r: FormPost)
        ensures
            r@ == exchange_post(old(self)@.config, code@, old(self)@.pending_verifier),
            final(self)@ == old(self)@.redeemed(),
    {
        let redirect_uri: String = self.redirect_uri();
        self.pending_state = None;
        let verifier: Option<String> = self.pending_verifier.take();
        let mut form: Form = Form::new().with("code", code).with(
            "client_id",
            self.config.client_id.as_str(),
        ).with("client_secret", self.config.client_secret.as_str()).with(
            "redirect_uri",
            redirect_uri.as_str(),
        ).with("grant_type", "authorization_code");
        if let Some(v) = verifier {
            form = form.with("code_verifier", v.as_str());
        }
        FormPost::new(
            "https://oauth2.googleapis.com/token",
            form,
            "POST oauth2.googleapis.com/token failed",
            "malformed token response",
        )
    }

    /// Takes over the tokens of a response, with `refresh` where it names no
    /// refresh token.
    fn take_over(&mut self, body: &Json, refresh: Option<String>, now: i64) -> (r: Result<
        GoogleTokens,
        GoogleError,
    >)
        requires
            tokens::expiry_in_range_at(body@, now as int),
        ensures
            match r {
                Ok(t) => {
                    &&& kept_refresh(
                        tokens::response_tokens(
                            body@,
                            config::canonical_scopes(old(self)@.config.scopes),
                            now as int,
                        ),
                        text::opt_text(refresh),
                    ) == Some(t@)
                    &&& final(self)@ == old(self)@.with_tokens(Some(t@))
                },
                Err(e) => {
                    &&& e is MissingAccessToken
                    &&& body@.field_text("access_token"@) is None
                    &&& *final(self) == *old(self)
                },
            },
    {
        let scopes: Vec<String> = canonicalize_scopes(&self.config.scopes);
        match tokens_from_response_at(body, &scopes, now) {
            Ok(t) => {
                let mut taken: GoogleTokens = t;
                if taken.refresh_token.is_none() {
                    taken.refresh_token = refresh;
                }
                self.tokens = Some(taken.copy());
                Ok(taken)
            },
            Err(e) => Err(e),
        }
    }

    /// Takes over the tokens of a successful exchange that is read at `now`.
    pub fn accept_exchange_at(&mut self, body: &Json, now: i64) -> (r: Result<
        GoogleTokens,
        GoogleError,
    >)
        requires
            tokens::expiry_in_range_at(body@, now as int),
        ensures
            match r {
                Ok(t) => {
                    &&& old(self)@.granted(body@, now as int) == Some(t@)
                    &&& final(self)@ == old(self)@.with_tokens(Some(t@))
                },
                Err(e) => {
                    &&& e is MissingAccessToken
                    &&& old(self)@.granted(body@, now as int) is None
                    &&& *final(self) == *old(self)
                },
            },
    {
        let on_file: Option<String> = match &self.tokens {
            Some(t) => copy_opt(&t.refresh_token),
            None => None,
        };
        self.take_over(body, on_file, now)
    }

    /// Takes over the tokens of a successful exchange that is read now.
    pub fn accept_exchange(&mut self, body: &Json) -> (r: Result<GoogleTokens, GoogleError>)
        requires
            tokens::expiry_in_range(body@),
        ensures
            match r {
                Ok(t) => {
                    &&& exists|now: i64| #[trigger]
                        clock::clock_reading(now) && old(self)@.granted(body@, now as int) == Some(
                            t@,
                        )
                    &&& final(self)@ == old(self)@.with_tokens(Some(t@))
                },
                Err(e) => {
                    &&& e is MissingAccessToken
                    &&& body@.field_text("access_token"@) is None
                    &&& *final(self) == *old(self)
                },
            },
    {
        let now: i64 = now_timestamp();
        self.accept_exchange_at(body, now)
    }

    /// The post that asks for a device code.
    pub fn request_device_code(&self) -> (r: FormPost)
        ensures
            r@ == device_code_post(self@.config),
    {
        let scopes: String = self.joined_scopes();
        let form: Form = Form::new().with("client_id", self.config.client_id.as_str()).with(
            "scope",
            scopes.as_str(),
        );
        FormPost::new(
            "https://oauth2.googleapis.com/device/code",
            form,
            "POST oauth2.googleapis.com/device/code failed",
            "malformed device/code response",
        )
    }

    /// The post that asks whether the challenge has been approved.
    pub fn poll_device_token(&self, challenge: &DeviceChallenge) -> (r: FormPost)
        ensures
            r@ == device_token_post(self@.config, challenge@.device_code),
    {
        let form: Form = Form::new().with("client_id", self.config.client_id.as_str()).with(
            "client_secret",
            self.config.client_secret.as_str(),
        ).with("device_code", challenge.device_code.as_str()).with(
            "grant_type",
            "urn:ietf:params:oauth:grant-type:device_code",
        );
        FormPost::new(
            "https://oauth2.googleapis.com/token",
            form,
            "POST oauth2.googleapis.com/token (device) failed",
            "malformed token response",
        )
    }

    /// Takes the reply to a question of a poll, where it is read at `now`.
    pub fn accept_poll_at(
        &mut self,
        poll: &mut DevicePoll,
        status: u16,
        body: &Json,
        now: i64,
    ) -> (r: PollReply)
        requires
            http::valid_status(status),
            http::success(status) ==> tokens::expiry_in_range_at(body@, now as int),
        ensures
            poll_step(
                old(self)@,
                *old(poll),
                status,
                body@,
                now as int,
                r,
                final(self)@,
                *final(poll),
            ),
    {
        if is_success(status) {
            return match self.accept_exchange_at(body, now) {
                Ok(t) => PollReply::Granted(t),
                Err(e) => PollReply::Failed(e),
            };
        }
        let error: String = match body.field_str("error") {
            Some(e) => e,
            None => "".to_owned(),
        };
        if str_eq(error.as_str(), "authorization_pending") {
            PollReply::Pending
        } else if str_eq(error.as_str(), "slow_down") {
            poll.slow_down();
            PollReply::Pending
        } else if str_eq(error.as_str(), "access_denied") {
            PollReply::Failed(GoogleError::ConsentDenied)
        } else if str_eq(error.as_str(), "expired_token") {
            PollReply::Failed(GoogleError::DeviceCodeExpired)
        } else {
            let description: String = match body.field_str("error_description") {
                Some(d) => d,
                None => "".to_owned(),
            };
            PollReply::Failed(
                GoogleError::Poll { status: status_line(status), error, description },
            )
        }
    }

    /// Takes the reply to a question of a poll, where it is read now.
    pub fn accept_poll(&mut self, poll: &mut DevicePoll, status: u16, body: &Json) -> (r: PollReply)
        requires
            http::valid_status(status),
            http::success(status) ==> tokens::expiry_in_range(body@),
        ensures
            exists|now: i64| #[trigger]
                clock::clock_reading(now) && poll_step(
                    old(self)@,
                    *old(poll),
                    status,
                    body@,
                    now as int,
                    r,
                    final(self)@,
                    *final(poll),
                ),
    {
        let now: i64 = now_timestamp();
        self.accept_poll_at(poll, status, body, now)
    }

    /// What is to be done at `now` for a usable access token.
    pub fn refresh_if_needed_at(&self, now: i64) -> (r: Result<RefreshPlan, GoogleError>)
        requires
            clock::clock_reading(now),
        ensures
            match self@.tokens {
                Some(t) => if t.fresh(now as int) {
                    &&& r matches Ok(RefreshPlan::Fresh(g))
                    &&& g@ == t
                } else if t.refresh_token is Some {
                    &&& r matches Ok(RefreshPlan::Renew(refresh))
                    &&& refresh@ == t.refresh_token->0
                } else {
                    &&& r matches Err(e)
                    &&& e is NoRefreshToken
                },
                None => {
                    &&& r matches Err(e)
                    &&& e is NoRefreshToken
                },
            },
    {
        match &self.tokens {
            Some(t) => {
                if t.is_fresh_at(now) {
                    return Ok(RefreshPlan::Fresh(t.copy()));
                }
                match &t.refresh_token {
                    Some(refresh) => Ok(RefreshPlan::Renew(refresh.as_str().to_owned())),
                    None => Err(GoogleError::NoRefreshToken),
                }
            },
            None => Err(GoogleError::NoRefreshToken),
        }
    }

    /// What is to be done now for a usable access token.
    pub fn refresh_if_needed(&self) -> (r: Result<RefreshPlan, GoogleError>)
        ensures
            match r {
                Ok(RefreshPlan::Fresh(g)) => {
                    &&& self@.tokens == Some(g@)
                    &&& exists|now: i64| #[trigger] clock::clock_reading(now) && g@.fresh(now as int)
                },
                Ok(RefreshPlan::Renew(refresh)) => {
                    &&& self@.tokens matches Some(t)
                    &&& t.refresh_token == Some(refresh@)
                    &&& exists|now: i64| #[trigger] clock::clock_reading(now) && !t.fresh(now as int)
                },
                Err(e) => {
                    &&& e is NoRefreshToken
                    &&& self@.tokens matches Some(t) ==> {
                        &&& t.refresh_token is None
                        &&& exists|now: i64| #[trigger]
                            clock::clock_reading(now) && !t.fresh(now as int)
                    }
                },
            },
    {
        let now: i64 = now_timestamp();
        self.refresh_if_needed_at(now)
    }

    /// The post that renews the access token with `refresh`.
    pub fn refresh_request(&self, refresh: &str) -> (r: FormPost)
        ensures
            r@ == refresh_post(self@.config, refresh@),
    {
        let form: Form = Form::new().with("client_id", self.config.client_id.as_str()).with(
            "client_secret",
            self.config.client_secret.as_str(),
        ).with("refresh_token", refresh).with("grant_type", "refresh_token");
        FormPost::new(
            "https://oauth2.googleapis.com/token",
            form,
            "POST oauth2.googleapis.com/token (refresh) failed",
            "malformed refresh response",
        )
    }

    /// Takes over the tokens of a successful refresh that is read at `now`.
    pub fn accept_refresh_at(&mut self, refresh: String, body: &Json, now: i64) -> (r: Result<
        GoogleTokens,
        GoogleError,
    >)
        requires
            tokens::expiry_in_range_at(body@, now as int),
        ensures
            match r {
                Ok(t) => {
                    &&& old(self)@.renewed(refresh@, body@, now as int) == Some(t@)
                    &&& final(self)@ == old(self)@.with_tokens(Some(t@))
                },
                Err(e) => {
                    &&& e is MissingAccessToken
                    &&& old(self)@.renewed(refresh@, body@, now as int) is None
                    &&& *final(self) == *old(self)
                },
            },
    {
        self.take_over(body, Some(refresh), now)
    }

    /// Takes over the tokens of a successful refresh that is read now.
    pub fn accept_refresh(&mut self, refresh: String, body: &Json) -> (r: Result<
        GoogleTokens,
        GoogleError,
    >)
        requires
            tokens::expiry_in_range(body@),
        ensures
            match r {
                Ok(t) => {
                    &&& exists|now: i64| #[trigger]
                        clock::clock_reading(now) && old(self)@.renewed(
                            refresh@,
                            body@,
                            now as int,
                        ) == Some(t@)
                    &&& final(self)@ == old(self)@.with_tokens(Some(t@))
                },
                Err(e) => {
                    &&& e is MissingAccessToken
                    &&& body@.field_text("access_token"@) is None
                    &&& *final(self) == *old(self)
                },
            },
    {
        let now: i64 = now_timestamp();
        self.accept_refresh_at(refresh, body, now)
    }

    /// What a call to `url` needs at `now`.
    pub fn authorized_call_at(
        &self,
        method: &str,
        url: &str,
        body: Option<Json>,
        now: i64,
    ) -> (r: Result<CallPlan, GoogleError>)
        requires
            clock::clock_reading(now),
        ensures
            call_outcome(self@, method@, url@, opt_json(body), now as int, r),
    {
        match self.refresh_if_needed_at(now) {
            Ok(RefreshPlan::Fresh(tokens)) => match authorized_request(&tokens, method, url, body) {
                Ok(call) => Ok(CallPlan::Send(call)),
                Err(e) => Err(e),
            },
            Ok(RefreshPlan::Renew(refresh)) => Ok(CallPlan::Renew(refresh)),
            Err(e) => Err(e),
        }
    }

    /// What a call to `url` needs now.
    pub fn authorized_call(&self, method: &str, url: &str, body: Option<Json>) -> (r: Result<
        CallPlan,
        GoogleError,
    >)
        ensures
            exists|now: i64| #[trigger]
                clock::clock_reading(now) && call_outcome(
                    self@,
                    method@,
                    url@,
                    opt_json(body),
                    now as int,
                    r,
                ),
    {
        let now: i64 = now_timestamp();
        self.authorized_call_at(method, url, body, now)
    }

    /// What the client reports of its tokens at `now`.
    pub fn snapshot_at(&self, now: i64) -> (r: Json)
        requires
            clock::clock_reading(now),
        ensures
            r@ == snapshot_model(self@.tokens, now as int),
    {
        let r: Json = match &self.tokens {
            None => Members::new().with("authenticated", Json::Bool(false)).with(
                "reason",
                Json::text("no tokens on file"),
            ).into_json(),
            Some(t) => {
                let left: u64 = if t.expires_at > now {
                    (t.expires_at - now) as u64
                } else {
                    0
                };
                Members::new().with("authenticated", Json::Bool(true)).with(
                    "fresh",
                    Json::Bool(t.is_fresh_at(now)),
                ).with("expires_in_secs", Json::PosInt(left)).with(
                    "has_refresh",
                    Json::Bool(t.refresh_token.is_some()),
                ).with("scopes", text_array(&t.scopes)).into_json()
            },
        };
        assert(r@->Object_0 =~= snapshot_model(self@.tokens, now as int)->Object_0);
        r
    }

    /// What the client reports of its tokens now.
    pub fn snapshot(&self) -> (r: Json)
        ensures
            exists|now: i64| #[trigger]
                clock::clock_reading(now) && r@ == snapshot_model(self@.tokens, now as int),
    {
        let now: i64 = now_timestamp();
        self.snapshot_at(now)
    }

    /// The post that revokes the refresh token, where there is one.
    pub fn revocation(&self) -> (r: Option<FormPost>)
        ensures
            match r {
                Some(p) => {
                    &&& self@.tokens matches Some(t)
                    &&& t.refresh_token matches Some(refresh)
                    &&& p@ == revoke_post(refresh)
                },
                None => self@.tokens matches Some(t) ==> t.refresh_token is None,
            },
    {
        match &self.tokens {
            Some(t) => match &t.refresh_token {
                Some(refresh) => Some(
                    FormPost::new(
                        "https://oauth2.googleapis.com/revoke",
                        Form::new().with("token", refresh.as_str()),
                        "POST oauth2.googleapis.com/revoke failed",
                        "",
                    ),
                ),
                None => None,
            },
            None => None,
        }
    }

    /// Forgets the tokens.
    pub fn revoke(&mut self)
        ensures
            final(self)@ == old(self)@.with_tokens(None),
    {
        self.tokens = None;
    }
}

/// The call to `url` with the given tokens.
pub fn authorized_request(
    tokens: &GoogleTokens,
    method: &str,
    url: &str,
    body: Option<Json>,
) -> (r: Result<ApiCall, GoogleError>)
    ensures
        request_outcome(tokens@, method@, url@, opt_json(body), r),
        is_ascii_chars(method@) ==> text::uppercase(method@) == text::ascii_upper(method@),
{
    match request_method(method) {
        Ok(m) => Ok(
            ApiCall {
                method: m,
                url: url.to_owned(),
                bearer: tokens.access_token.as_str().to_owned(),
                body,
            },
        ),
        Err(e) => Err(e),
    }
}

/// The answer to an API call: the body of its reply, or a failure that shows
/// the body as JSON text.
pub fn authorized_reply(method: HttpMethod, url: &str, status: u16, body: Json) -> (r: Result<
    Json,
    GoogleError,
>)
    requires
        http::valid_status(status),
    ensures
        match r {
            Ok(v) => http::success(status) && v == body,
            Err(e) => {
                &&& !http::success(status)
                &&& e matches GoogleError::CallFailed { method: m, url: u, status: s, body: b }
                &&& m@ == method.name()
                &&& u@ == url@
                &&& s@ == http::status_text(status)
                &&& b@ == json_text::text_of(body@)
            },
        },
{
    if is_success(status) {
        return Ok(body);
    }
    let body_text: String = json_text::json_text(&body);
    authorized_reply_shown(method, url, status, body, body_text.as_str())
}

/// The answer to an API call: the body of its reply, or a failure that shows
/// the body as `body_text`.
pub fn authorized_reply_shown(
    method: HttpMethod,
    url: &str,
    status: u16,
    body: Json,
    body_text: &str,
) -> (r: Result<Json, GoogleError>)
    requires
        http::valid_status(status),
    ensures
        match r {
            Ok(v) => http::success(status) && v == body,
            Err(e) => {
                &&& !http::success(status)
                &&& e matches GoogleError::CallFailed { method: m, url: u, status: s, body: b }
                &&& m@ == method.name()
                &&& u@ == url@
                &&& s@ == http::status_text(status)
                &&& b@ == body_text@
            },
        },
{
    if is_success(status) {
        Ok(body)
    } else {
        Err(
            GoogleError::CallFailed {
                method: method.as_str().to_owned(),
                url: url.to_owned(),
                status: status_line(status),
                body: body_text.to_owned(),
            },
        )
    }
}

// ---------------------------------------------------------------------------
// Laws

/// The consent address with a challenge is the one without, with the two
/// parameters of the challenge behind it.
pub proof fn challenge_extends_the_address(
    config: ConfigModel,
    state: Seq<char>,
    challenge: Seq<char>,
)
    ensures
        auth_url(config, state, Some(challenge)) == auth_url(config, state, None) + seq!['&']
            + encoding::form_pair(("code_challenge"@, challenge)) + seq!['&']
            + encoding::form_pair(("code_challenge_method"@, "S256"@)),
{
    let base = auth_params(config, state, None);
    let one = base.push(("code_challenge"@, challenge));
    encoding::form_encoded_push(base, ("code_challenge"@, challenge));
    encoding::form_encoded_push(one, ("code_challenge_method"@, "S256"@));
    assert(auth_url(config, state, Some(challenge)) =~= auth_url(config, state, None) + seq!['&']
        + encoding::form_pair(("code_challenge"@, challenge)) + seq!['&'] + encoding::form_pair(
        ("code_challenge_method"@, "S256"@),
    ));
}

/// The form names the parameter.
pub open spec fn names(form: Seq<(Seq<char>, Seq<char>)>, name: Seq<char>) -> bool {
    exists|i: int| 0 <= i < form.len() && (#[trigger] form[i]).0 == name
}

/// A consent and its redemption belong together: a client that has started a
/// consent with a proof key sends that very key with the first code that it
/// redeems, and none with the next.
pub proof fn proof_keys_are_used_once(
    client: ClientModel,
    nonce: u64,
    verifier: Seq<char>,
    first_code: Seq<char>,
    next_code: Seq<char>,
)
    ensures
        ({
            let started = client.started(nonce, verifier);
            let redeemed = started.redeemed();
            let first = exchange_post(started.config, first_code, started.pending_verifier);
            let next = exchange_post(redeemed.config, next_code, redeemed.pending_verifier);
            &&& first.form.contains(("code_verifier"@, verifier))
            &&& !names(next.form, "code_verifier"@)
        }),
{
    let form = exchange_post(client.config, first_code, Some(verifier)).form;
    assert(form[5] == ("code_verifier"@, verifier));
    reveal_strlit("code_verifier");
    reveal_strlit("code");
    reveal_strlit("client_id");
    reveal_strlit("client_secret");
    reveal_strlit("redirect_uri");
    reveal_strlit("grant_type");
    let next = exchange_post(client.config, next_code, None).form;
    let key = "code_verifier"@;
    assert("client_secret"@[1] != key[1]);
    assert("code"@.len() != key.len());
    assert("client_id"@.len() != key.len());
    assert("redirect_uri"@.len() != key.len());
    assert("grant_type"@.len() != key.len());
    assert forall|i: int| 0 <= i < next.len() implies (#[trigger] next[i]).0 != key by {
        assert(i == 0 || i == 1 || i == 2 || i == 3 || i == 4);
    }
}

/// A refresh never loses the refresh token, and neither does a new consent.
pub proof fn refresh_tokens_are_kept(
    client: ClientModel,
    refresh: Seq<char>,
    body: JsonModel,
    now: int,
)
    ensures
        client.renewed(refresh, body, now) matches Some(t) ==> t.refresh_token is Some,
        client.refresh_on_file() is Some ==> (client.granted(body, now) matches Some(t)
            ==> t.refresh_token is Some),
        body.field_text("refresh_token"@) is None ==> (client.renewed(refresh, body, now) matches Some(
            t,
        ) ==> t.refresh_token == Some(refresh)) && (client.granted(body, now) matches Some(t)
            ==> t.refresh_token == client.refresh_on_file()),
{
}

/// A client whose tokens have been revoked reports that it is not
/// authenticated, and keeps everything but the tokens.
pub proof fn revocation_forgets_the_tokens(client: ClientModel, now: int)
    ensures
        client.with_tokens(None).refresh_on_file() is None,
        snapshot_model(client.with_tokens(None).tokens, now).field("authenticated"@) == Some(
            JsonModel::Bool(false),
        ),
        client.with_tokens(None).config == client.config,
        client.with_tokens(None).token_path == client.token_path,
{
    reveal_with_fuel(json::lookup, 3);
    reveal_strlit("authenticated");
    reveal_strlit("reason");
    assert("authenticated"@.len() != "reason"@.len());
}

/// A client reports that it is authenticated exactly where tokens are on file.
pub proof fn authenticated_means_tokens_on_file(tokens: Option<TokensModel>, now: int)
    ensures
        snapshot_model(tokens, now).field("authenticated"@) == Some(
            JsonModel::Bool(tokens is Some),
        ),
{
    reveal_with_fuel(json::lookup, 6);
    reveal_strlit("authenticated");
    reveal_strlit("reason");
    assert("authenticated"@.len() != "reason"@.len());
}

/// Secrets that have just been read are not read again until one of the files
/// changes once more.
pub proof fn secrets_are_read_once(
    client: ClientModel,
    id_mtime: int,
    secret_mtime: int,
    id_text: Seq<char>,
    secret_text: Seq<char>,
    next_id: int,
    next_secret: int,
)
    requires
        client.secrets is Some,
    ensures
        client.with_secrets(id_mtime, secret_mtime, id_text, secret_text).secrets_stale(
            next_id,
            next_secret,
        ) <==> (next_id > later(id_mtime, secret_mtime) || next_secret > later(
            id_mtime,
            secret_mtime,
        )),
{
}

/// A client without files never reads them.
pub proof fn fixed_secrets_are_never_stale(
    config: ConfigModel,
    workspace_dir: Seq<char>,
    id_mtime: int,
    secret_mtime: int,
)
    ensures
        !initial_client(config, workspace_dir, None, None, None).secrets_stale(
            id_mtime,
            secret_mtime,
        ),
{
}

/// Only an approval changes the client, and a poll never becomes faster.
pub proof fn polls_only_slow_down(
    client: ClientModel,
    poll: DevicePoll,
    status: u16,
    body: JsonModel,
    now: int,
    r: PollReply,
    next: ClientModel,
    next_poll: DevicePoll,
)
    requires
        poll_step(client, poll, status, body, now, r, next, next_poll),
    ensures
        !(r is Granted) ==> next == client,
        r is Granted ==> http::success(status),
        next_poll.interval_secs >= poll.interval_secs,
        next_poll.expires_in == poll.expires_in,
{
}

/// A refresh yields tokens that can be used at once, where they live for more
/// than a minute and a half.
pub proof fn renewed_tokens_are_fresh(
    client: ClientModel,
    refresh: Seq<char>,
    body: JsonModel,
    now: i64,
)
    requires
        tokens::expiry_in_range_at(body, now as int),
        tokens::expires_in(body) > 90,
        body.field_text("access_token"@) is Some,
    ensures
        client.renewed(refresh, body, now as int) matches Some(t) && t.fresh(now as int)
            && t.access_token == body.field_text("access_token"@)->0,
{
}

/// The state of a consent has sixteen characters.
pub proof fn states_have_sixteen_digits(nonce: u64)
    ensures
        state_text(nonce).len() == 16,
{
    reveal_with_fuel(text::hex_text, 17);
}

/// Two consents with different nonces have different states.
pub proof fn states_tell_consents_apart(a: u64, b: u64)
    requires
        a != b,
    ensures
        state_text(a) != state_text(b),
{
    if state_text(a) == state_text(b) {
        reveal_with_fuel(text::fits_hex, 17);
        assert(text::fits_hex(a as nat, 16));
        assert(text::fits_hex(b as nat, 16));
        text::hex_text_is_injective(a as nat, b as nat, 16);
    }
}

/// A call that is made at once carries the access token on file, and that token
/// is fresh.
pub proof fn calls_use_fresh_tokens(
    client: ClientModel,
    method: Seq<char>,
    url: Seq<char>,
    body: Option<JsonModel>,
    now: int,
    r: Result<CallPlan, GoogleError>,
)
    requires
        call_outcome(client, method, url, body, now, r),
    ensures
        r matches Ok(CallPlan::Send(call)) ==> client.tokens is Some && client.tokens->0.fresh(now)
            && call.bearer@ == client.tokens->0.access_token && call.url@ == url,
{
}

/// A second start of a consent cancels the first, whose nonce is another: a
/// callback with the state of the first is refused for its state, one with the
/// state of the second hands over its code, and what is then sent is the second
/// proof key. Nothing of the first consent is left.
pub proof fn a_second_start_cancels_the_first(
    client: ClientModel,
    first_nonce: u64,
    first_verifier: Seq<char>,
    nonce: u64,
    verifier: Seq<char>,
    path: Seq<char>,
    r: CallbackStep,
    code: Seq<char>,
)
    requires
        first_nonce != nonce,
        client.started(first_nonce, first_verifier).started(nonce, verifier).callback_outcome(
            path,
            r,
        ),
    ensures
        ({
            let first = client.started(first_nonce, first_verifier);
            let second = first.started(nonce, verifier);
            let post = exchange_post(second.config, code, second.pending_verifier);
            &&& second == client.started(nonce, verifier)
            &&& callback::query_value(path, "state"@) == Some(state_text(first_nonce))
                ==> {
                &&& first.accepted_code(path) == callback::query_value(path, "code"@)
                &&& second.accepted_code(path) is None
                &&& r matches CallbackStep::Reject { page, error }
                &&& error is StateMismatch
            }
            &&& callback::query_value(path, "state"@) == Some(state_text(nonce))
                ==> {
                &&& second.accepted_code(path) == callback::query_value(path, "code"@)
                &&& r is Exchange <==> callback::query_value(path, "code"@) is Some
            }
            &&& post.form.last() == ("code_verifier"@, verifier)
        }),
{
    states_tell_consents_apart(first_nonce, nonce);
}

/// A consent is over once its code has been redeemed: no callback hands over a
/// code after that, until another consent is started.
pub proof fn redeemed_consents_are_over(client: ClientModel, path: Seq<char>, r: CallbackStep)
    requires
        client.redeemed().callback_outcome(path, r),
    ensures
        client.redeemed().accepted_code(path) is None,
        r is Reject,
{
}

// ---------------------------------------------------------------------------
// What the requests say

/// The callback address is that of the port on this machine.
pub proof fn callbacks_come_to_this_machine(port: u16)
    ensures
        ({
            let digits = text::decimal_text(port as nat);
            &&& redirect_uri_text(port) == "http://127.0.0.1:"@ + digits + "/callback"@
            &&& text::decimal_number(digits) == port
            &&& digits[0] == '0' ==> port == 0
        }),
{
    text::decimal_notation_denotes_the_number(port as nat);
}

/// The state of a consent is its nonce in sixteen lower-case hexadecimal digits.
pub proof fn states_denote_the_nonce(nonce: u64)
    ensures
        state_text(nonce).len() == 16,
        text::hexadecimal_number(state_text(nonce)) == nonce,
        forall|i: int|
            0 <= i < 16 ==> ('0' <= #[trigger] state_text(nonce)[i] <= '9' || 'a' <= state_text(
                nonce,
            )[i] <= 'f'),
{
    text::hexadecimal_notation_denotes_the_number(nonce as nat, 16);
    reveal_with_fuel(text::fits_hex, 17);
    assert(text::fits_hex(nonce as nat, 16));
}

proof fn lemma_auth_names()
    ensures
        "client_id"@.len() == 9,
        "redirect_uri"@.len() == 12,
        "response_type"@.len() == 13,
        "scope"@.len() == 5,
        "access_type"@.len() == 11,
        "prompt"@.len() == 6,
        "state"@.len() == 5,
        "code_challenge"@.len() == 14,
        "code_challenge_method"@.len() == 21,
        "scope"@ != "state"@,
{
    reveal_strlit("client_id");
    reveal_strlit("redirect_uri");
    reveal_strlit("response_type");
    reveal_strlit("scope");
    reveal_strlit("access_type");
    reveal_strlit("prompt");
    reveal_strlit("state");
    reveal_strlit("code_challenge");
    reveal_strlit("code_challenge_method");
    assert("scope"@[1] != "state"@[1]);
}

/// A consent request says who asks, where the answer goes, which scopes are
/// asked for, and what the answer has to carry. It asks for a code, for access
/// while the user is away, and for an explicit consent. A challenge is named
/// with its method; nothing else is said.
pub proof fn consents_say_what_is_asked(
    config: ConfigModel,
    state: Seq<char>,
    challenge: Option<Seq<char>>,
)
    ensures
        ({
            let p = auth_params(config, state, challenge);
            &&& p.len() == (if challenge is Some {
                9int
            } else {
                7int
            })
            &&& callback::last_of(p, "client_id"@) == Some(config.client_id)
            &&& callback::last_of(p, "redirect_uri"@) == Some(
                redirect_uri_text(config.redirect_port),
            )
            &&& callback::last_of(p, "response_type"@) == Some("code"@)
            &&& callback::last_of(p, "scope"@) == Some(
                text::joined(config::canonical_scopes(config.scopes), seq![' ']),
            )
            &&& callback::last_of(p, "access_type"@) == Some("offline"@)
            &&& callback::last_of(p, "prompt"@) == Some("consent"@)
            &&& callback::last_of(p, "state"@) == Some(state)
            &&& callback::last_of(p, "code_challenge"@) == challenge
            &&& challenge is Some ==> callback::last_of(p, "code_challenge_method"@) == Some(
                "S256"@,
            )
        }),
{
    lemma_auth_names();
    reveal_strlit(" ");
    assert(" "@ =~= seq![' ']);
    let p = auth_params(config, state, challenge);
    callback::lemma_last_of_at(p, 0);
    callback::lemma_last_of_at(p, 1);
    callback::lemma_last_of_at(p, 2);
    callback::lemma_last_of_at(p, 3);
    callback::lemma_last_of_at(p, 4);
    callback::lemma_last_of_at(p, 5);
    callback::lemma_last_of_at(p, 6);
    if challenge is Some {
        callback::lemma_last_of_at(p, 7);
        callback::lemma_last_of_at(p, 8);
    } else {
        callback::lemma_last_of_none(p, "code_challenge"@);
    }
}

/// The consent address gives back every parameter of the request: where it is
/// read like the query of a callback, an ASCII value is what was asked for.
pub proof fn consent_addresses_give_back_the_request(
    config: ConfigModel,
    state: Seq<char>,
    challenge: Option<Seq<char>>,
    name: Seq<char>,
)
    requires
        forall|i: int| 0 <= i < name.len() ==> ('a' <= #[trigger] name[i] <= 'z' || name[i] == '_'),
        callback::last_of(auth_params(config, state, challenge), name) matches Some(v)
            ==> is_ascii_chars(v),
    ensures
        "https://accounts.google.com/o/oauth2/v2/auth?"@.is_prefix_of(
            auth_url(config, state, challenge),
        ),
        callback::query_value(auth_url(config, state, challenge), name) == callback::last_of(
            auth_params(config, state, challenge),
            name,
        ),
{
    let base = "https://accounts.google.com/o/oauth2/v2/auth"@;
    let front = "https://accounts.google.com/o/oauth2/v2/auth?"@;
    reveal_strlit("https://accounts.google.com/o/oauth2/v2/auth");
    reveal_strlit("https://accounts.google.com/o/oauth2/v2/auth?");
    assert(front =~= base + seq!['?']);
    assert(!base.contains('?'));
    let url = auth_url(config, state, challenge);
    assert(front =~= url.subrange(0, front.len() as int));
    callback::queries_give_back_what_was_encoded(
        base,
        auth_params(config, state, challenge),
        name,
    );
}

/// The redemption of a code goes to the token endpoint with the code, the
/// client and its secret, the callback address that the consent named, and the
/// proof key of the consent, where it has one.
pub proof fn redemptions_repeat_the_consent(
    config: ConfigModel,
    code: Seq<char>,
    verifier: Option<Seq<char>>,
    state: Seq<char>,
    challenge: Option<Seq<char>>,
)
    ensures
        ({
            let post = exchange_post(config, code, verifier);
            let p = auth_params(config, state, challenge);
            &&& post.url == "https://oauth2.googleapis.com/token"@
            &&& post.form.len() == (if verifier is Some {
                6int
            } else {
                5int
            })
            &&& callback::last_of(post.form, "code"@) == Some(code)
            &&& callback::last_of(post.form, "client_id"@) == Some(config.client_id)
            &&& callback::last_of(post.form, "client_id"@) == callback::last_of(p, "client_id"@)
            &&& callback::last_of(post.form, "client_secret"@) == Some(config.client_secret)
            &&& callback::last_of(post.form, "redirect_uri"@) == callback::last_of(
                p,
                "redirect_uri"@,
            )
            &&& callback::last_of(post.form, "grant_type"@) == Some("authorization_code"@)
            &&& callback::last_of(post.form, "code_verifier"@) == verifier
        }),
{
    consents_say_what_is_asked(config, state, challenge);
    lemma_form_names();
    let form = exchange_post(config, code, verifier).form;
    callback::lemma_last_of_at(form, 0);
    callback::lemma_last_of_at(form, 1);
    callback::lemma_last_of_at(form, 2);
    callback::lemma_last_of_at(form, 3);
    callback::lemma_last_of_at(form, 4);
    if verifier is Some {
        callback::lemma_last_of_at(form, 5);
    } else {
        callback::lemma_last_of_none(form, "code_verifier"@);
    }
}

proof fn lemma_form_names()
    ensures
        "code"@.len() == 4,
        "client_id"@.len() == 9,
        "client_secret"@.len() == 13,
        "redirect_uri"@.len() == 12,
        "grant_type"@.len() == 10,
        "code_verifier"@.len() == 13,
        "device_code"@.len() == 11,
        "refresh_token"@.len() == 13,
        "scope"@.len() == 5,
        "client_secret"@ != "code_verifier"@,
        "client_secret"@ != "refresh_token"@,
{
    reveal_strlit("code");
    reveal_strlit("client_id");
    reveal_strlit("client_secret");
    reveal_strlit("redirect_uri");
    reveal_strlit("grant_type");
    reveal_strlit("code_verifier");
    reveal_strlit("device_code");
    reveal_strlit("refresh_token");
    reveal_strlit("scope");
    assert("client_secret"@[1] != "code_verifier"@[1]);
    assert("client_secret"@[0] != "refresh_token"@[0]);
}

/// A device code is asked for with the client and the scopes, in the words in
/// which a consent in the browser asks for them, and redeemed with the client
/// and its secret.
pub proof fn device_posts_say_what_is_asked(
    config: ConfigModel,
    device_code: Seq<char>,
    state: Seq<char>,
)
    ensures
        ({
            let ask = device_code_post(config);
            let poll = device_token_post(config, device_code);
            let p = auth_params(config, state, None);
            &&& ask.url == "https://oauth2.googleapis.com/device/code"@
            &&& ask.form.len() == 2
            &&& callback::last_of(ask.form, "client_id"@) == callback::last_of(p, "client_id"@)
            &&& callback::last_of(ask.form, "scope"@) == callback::last_of(p, "scope"@)
            &&& poll.url == "https://oauth2.googleapis.com/token"@
            &&& poll.form.len() == 4
            &&& callback::last_of(poll.form, "client_id"@) == Some(config.client_id)
            &&& callback::last_of(poll.form, "client_secret"@) == Some(config.client_secret)
            &&& callback::last_of(poll.form, "device_code"@) == Some(device_code)
            &&& callback::last_of(poll.form, "grant_type"@) == Some(
                "urn:ietf:params:oauth:grant-type:device_code"@,
            )
        }),
{
    consents_say_what_is_asked(config, state, None);
    lemma_form_names();
    reveal_strlit(" ");
    assert(" "@ =~= seq![' ']);
    let ask = device_code_post(config).form;
    callback::lemma_last_of_at(ask, 0);
    callback::lemma_last_of_at(ask, 1);
    let poll = device_token_post(config, device_code).form;
    callback::lemma_last_of_at(poll, 0);
    callback::lemma_last_of_at(poll, 1);
    callback::lemma_last_of_at(poll, 2);
    callback::lemma_last_of_at(poll, 3);
}

/// A refresh goes to the token endpoint with the refresh token, the client and
/// its secret; a revocation names the refresh token to the endpoint that
/// revokes it.
pub proof fn refresh_tokens_go_where_they_belong(config: ConfigModel, refresh: Seq<char>)
    ensures
        ({
            let renew = refresh_post(config, refresh);
            let revoke = revoke_post(refresh);
            &&& renew.url == "https://oauth2.googleapis.com/token"@
            &&& renew.form.len() == 4
            &&& callback::last_of(renew.form, "client_id"@) == Some(config.client_id)
            &&& callback::last_of(renew.form, "client_secret"@) == Some(config.client_secret)
            &&& callback::last_of(renew.form, "refresh_token"@) == Some(refresh)
            &&& callback::last_of(renew.form, "grant_type"@) == Some("refresh_token"@)
            &&& revoke.url == "https://oauth2.googleapis.com/revoke"@
            &&& revoke.form.len() == 1
            &&& callback::last_of(revoke.form, "token"@) == Some(refresh)
        }),
{
    lemma_form_names();
    let renew = refresh_post(config, refresh).form;
    callback::lemma_last_of_at(renew, 0);
    callback::lemma_last_of_at(renew, 1);
    callback::lemma_last_of_at(renew, 2);
    callback::lemma_last_of_at(renew, 3);
    callback::lemma_last_of_at(revoke_post(refresh).form, 0);
}

// ---------------------------------------------------------------------------
// What the replies mean

/// A device response is a challenge exactly where it names both codes. The
/// address is the one that it names, under either name; the code lives for half
/// an hour and is asked about every five seconds, where it says nothing else.
pub proof fn challenges_are_taken_at_their_word(body: JsonModel)
    ensures
        match (body.field("device_code"@), body.field("user_code"@)) {
            (Some(JsonModel::Str(device_code)), Some(JsonModel::Str(user_code))) => {
                &&& response_challenge(body) matches Some(c)
                &&& c.device_code == device_code
                &&& c.user_code == user_code
                &&& match (body.field("verification_url"@), body.field("verification_uri"@)) {
                    (Some(JsonModel::Str(u)), _) => c.verification_url == u,
                    (_, Some(JsonModel::Str(u))) => c.verification_url == u,
                    _ => c.verification_url == "https://www.google.com/device"@,
                }
                &&& match body.field("expires_in"@) {
                    Some(JsonModel::PosInt(n)) => c.expires_in == n,
                    _ => c.expires_in == 1800,
                }
                &&& match body.field("interval"@) {
                    Some(JsonModel::PosInt(n)) => c.interval == n,
                    _ => c.interval == 5,
                }
            },
            _ => response_challenge(body) is None,
        },
{
}

/// The reply says that the poll asks too often.
pub open spec fn asks_to_slow_down(status: u16, body: JsonModel) -> bool {
    status / 100 != 2 && body.field("error"@) == Some(JsonModel::Str("slow_down"@))
}

proof fn lemma_poll_codes()
    ensures
        "authorization_pending"@.len() == 21,
        "slow_down"@.len() == 9,
        "access_denied"@.len() == 13,
        "expired_token"@.len() == 13,
        ""@.len() == 0,
        "access_denied"@ != "expired_token"@,
{
    reveal_strlit("authorization_pending");
    reveal_strlit("slow_down");
    reveal_strlit("access_denied");
    reveal_strlit("expired_token");
    reveal_strlit("");
    assert("access_denied"@[0] != "expired_token"@[0]);
}

/// A poll that is told to slow down goes on, and waits five seconds longer than
/// before, wherever that is a time that can be waited for.
pub proof fn slowing_down_adds_five_seconds(
    client: ClientModel,
    poll: DevicePoll,
    status: u16,
    body: JsonModel,
    now: int,
    r: PollReply,
    next: ClientModel,
    next_poll: DevicePoll,
)
    requires
        poll_step(client, poll, status, body, now, r, next, next_poll),
        asks_to_slow_down(status, body),
    ensures
        r is Pending,
        next == client,
        next_poll.expires_in == poll.expires_in,
        poll.interval_secs + 5 <= u64::MAX ==> next_poll.interval_secs == poll.interval_secs + 5
            && next_poll.interval_nanos == poll.interval_nanos,
        poll.interval_secs + 5 > u64::MAX ==> next_poll.interval_secs == u64::MAX
            && next_poll.interval_nanos == 999_999_999,
{
    lemma_poll_codes();
}

/// The polls follow one another, each told to slow down.
pub open spec fn slowed_down(polls: Seq<DevicePoll>) -> bool {
    forall|i: int| #![trigger polls[i]]
        0 < i < polls.len() ==> told_to_slow_down(polls[i - 1], polls[i])
}

/// A reply that asks `poll` to slow down makes it `next_poll`.
pub open spec fn told_to_slow_down(poll: DevicePoll, next_poll: DevicePoll) -> bool {
    exists|client: ClientModel, status: u16, body: JsonModel, now: int, r: PollReply|
        #![trigger poll_step(client, poll, status, body, now, r, client, next_poll)]
        asks_to_slow_down(status, body) && poll_step(
            client,
            poll,
            status,
            body,
            now,
            r,
            client,
            next_poll,
        )
}

/// After `n` replies that ask to slow down, a poll waits `5 * n` seconds longer
/// than at first.
pub proof fn slowing_down_adds_up(polls: Seq<DevicePoll>)
    requires
        polls.len() > 0,
        slowed_down(polls),
        polls[0].interval_secs + 5 * (polls.len() - 1) <= u64::MAX,
    ensures
        polls.last().interval_secs == polls[0].interval_secs + 5 * (polls.len() - 1),
    decreases polls.len(),
{
    if polls.len() > 1 {
        let front = polls.drop_last();
        let n = polls.len() - 1;
        assert(slowed_down(front)) by {
            assert forall|i: int| #![trigger front[i]] 0 < i < front.len() implies told_to_slow_down(
                front[i - 1],
                front[i],
            ) by {
                assert(front[i] == polls[i]);
                assert(front[i - 1] == polls[i - 1]);
            }
        }
        slowing_down_adds_up(front);
        assert(front.last() == polls[n - 1]);
        assert(told_to_slow_down(polls[n - 1], polls[n]));
        let (client, status, body, now, r) = choose|
            client: ClientModel,
            status: u16,
            body: JsonModel,
            now: int,
            r: PollReply,
        |
            #![trigger poll_step(client, polls[n - 1], status, body, now, r, client, polls[n])]
            asks_to_slow_down(status, body) && poll_step(
                client,
                polls[n - 1],
                status,
                body,
                now,
                r,
                client,
                polls[n],
            );
        slowing_down_adds_five_seconds(
            client,
            polls[n - 1],
            status,
            body,
            now,
            r,
            client,
            polls[n],
        );
    }
}

/// `description` is the one that the reply gives, or empty.
pub open spec fn described(body: JsonModel, description: Seq<char>) -> bool {
    match body.field("error_description"@) {
        Some(JsonModel::Str(t)) => description == t,
        _ => description.len() == 0,
    }
}

/// Every reply but one that asks to slow down leaves the poll as it is. A
/// success ends it with tokens, or with a failure where there are none; a
/// refusal and the end of the code end it each in its own way, and so does an
/// error that is not known, with what the reply says of it.
pub proof fn replies_end_a_poll_or_let_it_go_on(
    client: ClientModel,
    poll: DevicePoll,
    status: u16,
    body: JsonModel,
    now: int,
    r: PollReply,
    next: ClientModel,
    next_poll: DevicePoll,
)
    requires
        poll_step(client, poll, status, body, now, r, next, next_poll),
    ensures
        !asks_to_slow_down(status, body) ==> next_poll == poll,
        status / 100 == 2 ==> match body.field("access_token"@) {
            Some(JsonModel::Str(a)) => {
                &&& r matches PollReply::Granted(g)
                &&& g@.access_token == a
                &&& next.tokens == Some(g@)
            },
            _ => {
                &&& r matches PollReply::Failed(e)
                &&& e is MissingAccessToken
                &&& next == client
            },
        },
        status / 100 != 2 ==> next == client && match body.field("error"@) {
            Some(JsonModel::Str(code)) => {
                if code == "authorization_pending"@ || code == "slow_down"@ {
                    r is Pending
                } else if code == "access_denied"@ {
                    r matches PollReply::Failed(e) && e is ConsentDenied
                } else if code == "expired_token"@ {
                    r matches PollReply::Failed(e) && e is DeviceCodeExpired
                } else {
                    &&& r matches PollReply::Failed(e)
                    &&& e matches GoogleError::Poll { status: s, error: c, description: d }
                    &&& s@ == http::status_text(status)
                    &&& c@ == code
                    &&& described(body, d@)
                }
            },
            _ => {
                &&& r matches PollReply::Failed(e)
                &&& e matches GoogleError::Poll { status: s, error: c, description: d }
                &&& s@ == http::status_text(status)
                &&& c@.len() == 0
                &&& described(body, d@)
            },
        },
{
    lemma_poll_codes();
}

/// The tokens that a client takes over are those of the response. Where the
/// response names a refresh token it is that one; else the one on file stays, or
/// the one that was used for the refresh. Where it names no scopes, the tokens
/// have those that were asked for, in full.
pub proof fn tokens_are_those_of_the_response(
    client: ClientModel,
    refresh: Seq<char>,
    body: JsonModel,
    now: i64,
    access_token: Seq<char>,
)
    requires
        tokens::expiry_in_range_at(body, now as int),
        body.field("access_token"@) == Some(JsonModel::Str(access_token)),
    ensures
        ({
            &&& client.granted(body, now as int) matches Some(g)
            &&& client.renewed(refresh, body, now as int) matches Some(n)
            &&& g.access_token == access_token
            &&& n.access_token == access_token
            &&& match body.field("refresh_token"@) {
                Some(JsonModel::Str(new)) => g.refresh_token == Some(new) && n.refresh_token
                    == Some(new),
                _ => g.refresh_token == client.refresh_on_file() && n.refresh_token == Some(
                    refresh,
                ),
            }
            &&& n.expires_at == g.expires_at
            &&& match body.field("expires_in"@) {
                Some(JsonModel::PosInt(secs)) => g.expires_at == (if secs <= 0x7fff_ffff_ffff_ffff {
                    now + secs - 30
                } else {
                    now + 3570
                }),
                Some(JsonModel::NegInt(secs)) => g.expires_at == now + secs - 30,
                _ => g.expires_at == now + 3570,
            }
            &&& match body.field("scope"@) {
                Some(JsonModel::Str(s)) => text::joined(g.scopes, seq![' ']) == s && text::joined(
                    n.scopes,
                    seq![' '],
                ) == s,
                _ => g.scopes == config::canonical_scopes(client.config.scopes) && n.scopes
                    == config::canonical_scopes(client.config.scopes),
            }
        }),
{
    let requested = config::canonical_scopes(client.config.scopes);
    tokens::responses_are_taken_at_their_word(body, requested, now);
    let t = tokens::response_tokens(body, requested, now as int)->0;
    tokens::granted_scopes_are_those_named(body, requested, now as int, t);
}

/// The refresh token on file is that of the tokens on file.
pub proof fn the_refresh_token_on_file(client: ClientModel)
    ensures
        match client.tokens {
            Some(t) => client.refresh_on_file() == t.refresh_token,
            None => client.refresh_on_file() is None,
        },
{
}

/// A call is made with the tokens on file while these have more than a minute
/// to live. After that they are renewed with their refresh token; where there
/// is none, the call fails.
pub proof fn calls_are_made_with_live_tokens(
    client: ClientModel,
    method: Seq<char>,
    url: Seq<char>,
    body: Option<JsonModel>,
    now: int,
    r: Result<CallPlan, GoogleError>,
)
    requires
        call_outcome(client, method, url, body, now, r),
    ensures
        match client.tokens {
            Some(t) => if now + 60 < t.expires_at {
                match r {
                    Ok(CallPlan::Send(call)) => {
                        &&& call.bearer@ == t.access_token
                        &&& call.url@ == url
                        &&& opt_json(call.body) == body
                        &&& call.method.name() == text::uppercase(method)
                    },
                    Ok(CallPlan::Renew(_)) => false,
                    Err(e) => e is UnsupportedMethod,
                }
            } else {
                match t.refresh_token {
                    Some(refresh) => r matches Ok(CallPlan::Renew(used)) && used@ == refresh,
                    None => r matches Err(e) && e is NoRefreshToken,
                }
            },
            None => r matches Err(e) && e is NoRefreshToken,
        },
{
}

/// The model of an optional value is that of the value.
pub proof fn optional_values_are_shown(v: Option<Json>)
    ensures
        match v {
            Some(j) => opt_json(v) == Some(j@),
            None => opt_json(v) is None,
        },
{
}

/// A call is made with the method that is named, in whatever letter case, and
/// carries the given body; it fails only where the name, in upper case, is none
/// of the five methods.
pub proof fn calls_are_made_as_asked(
    tokens: TokensModel,
    method: Seq<char>,
    url: Seq<char>,
    body: Option<JsonModel>,
    r: Result<ApiCall, GoogleError>,
)
    requires
        request_outcome(tokens, method, url, body, r),
    ensures
        ({
            let upper = text::uppercase(method);
            let offered = upper == "GET"@ || upper == "POST"@ || upper == "PUT"@ || upper
                == "PATCH"@ || upper == "DELETE"@;
            match r {
                Ok(call) => {
                    &&& offered
                    &&& match call.method {
                        HttpMethod::Get => upper == "GET"@,
                        HttpMethod::Post => upper == "POST"@,
                        HttpMethod::Put => upper == "PUT"@,
                        HttpMethod::Patch => upper == "PATCH"@,
                        HttpMethod::Delete => upper == "DELETE"@,
                    }
                    &&& call.url@ == url
                    &&& call.bearer@ == tokens.access_token
                    &&& opt_json(call.body) == body
                },
                Err(e) => {
                    &&& !offered
                    &&& e matches GoogleError::UnsupportedMethod(name)
                    &&& name@ == upper
                },
            }
        }),
{
    http::five_methods_are_offered(text::uppercase(method));
}

// ---------------------------------------------------------------------------
// What is reported

proof fn lemma_snapshot_names()
    ensures
        "authenticated"@.len() == 13,
        "reason"@.len() == 6,
        "fresh"@.len() == 5,
        "expires_in_secs"@.len() == 15,
        "has_refresh"@.len() == 11,
        "scopes"@.len() == 6,
        "account"@.len() == 7,
{
    reveal_strlit("authenticated");
    reveal_strlit("reason");
    reveal_strlit("fresh");
    reveal_strlit("expires_in_secs");
    reveal_strlit("has_refresh");
    reveal_strlit("scopes");
    reveal_strlit("account");
}

/// A client reports of the tokens on file whether they have more than a minute
/// to live, the seconds that are left, whether they can be renewed, and their
/// scopes; without tokens it reports none of this. The tokens themselves are
/// not shown.
pub proof fn reports_show_the_tokens_on_file(tokens: Option<TokensModel>, now: i64)
    requires
        clock::clock_reading(now),
    ensures
        ({
            let v = snapshot_model(tokens, now as int);
            &&& v matches JsonModel::Object(members)
            &&& v.field("authenticated"@) == Some(JsonModel::Bool(tokens is Some))
            &&& v.field("account"@) is None
            &&& match tokens {
                Some(t) => {
                    &&& members.len() == 5
                    &&& v.field("fresh"@) == Some(JsonModel::Bool(now + 60 < t.expires_at))
                    &&& v.field_unsigned("expires_in_secs"@) matches Some(left)
                    &&& t.expires_at >= now ==> left == t.expires_at - now
                    &&& t.expires_at < now ==> left == 0
                    &&& v.field("has_refresh"@) == Some(JsonModel::Bool(t.refresh_token is Some))
                    &&& v.field("scopes"@) matches Some(JsonModel::Array(items))
                    &&& items.len() == t.scopes.len()
                    &&& forall|i: int|
                        0 <= i < items.len() ==> #[trigger] items[i] == JsonModel::Str(t.scopes[i])
                },
                None => {
                    &&& members.len() == 2
                    &&& v.field("reason"@) == Some(JsonModel::Str("no tokens on file"@))
                },
            }
        }),
{
    lemma_snapshot_names();
    let members = snapshot_model(tokens, now as int)->Object_0;
    json::missing_members_are_not_found(members, "account"@);
    json::first_members_are_read(members, 0);
    json::first_members_are_read(members, 1);
    if tokens is Some {
        json::first_members_are_read(members, 2);
        json::first_members_are_read(members, 3);
        json::first_members_are_read(members, 4);
    }
}

// ---------------------------------------------------------------------------
// What a client keeps

/// A new client has no tokens and no consent under way. Its tokens are kept at
/// the configured path, as it is seen from the workspace.
pub proof fn new_clients_hold_nothing(
    config: ConfigModel,
    workspace_dir: Seq<char>,
    sources: Option<(Seq<char>, Seq<char>)>,
    id_mtime: Option<i128>,
    secret_mtime: Option<i128>,
)
    ensures
        ({
            let c = initial_client(config, workspace_dir, sources, id_mtime, secret_mtime);
            &&& c.config == config
            &&& c.tokens is None
            &&& c.pending_state is None
            &&& c.pending_verifier is None
            &&& seq!['/'].is_prefix_of(config.token_file) ==> c.token_path == config.token_file
            &&& !seq!['/'].is_prefix_of(config.token_file) && workspace_dir.len() > 0
                && workspace_dir.last() != '/' ==> c.token_path == workspace_dir + seq!['/']
                + config.token_file
            &&& match sources {
                Some((id_path, secret_path)) => {
                    &&& c.secrets matches Some(s)
                    &&& s.client_id_path == id_path
                    &&& s.client_secret_path == secret_path
                },
                None => c.secrets is None,
            }
        }),
{
    let path = config.token_file;
    paths::paths_are_seen_from_their_directory(workspace_dir, path);
    if seq!['/'].is_prefix_of(path) {
        assert(path =~= seq!['/'] + path.skip(1)) by {
            assert(seq!['/'][0] == path.subrange(0, 1)[0]);
        }
        paths::paths_are_seen_from_their_directory(workspace_dir, path.skip(1));
    }
}

/// The secrets of a new client are read again once one of the files changes
/// after the times that were seen; where a time was not seen, once a file has
/// changed at all.
pub proof fn new_clients_watch_their_secrets(
    config: ConfigModel,
    workspace_dir: Seq<char>,
    sources: (Seq<char>, Seq<char>),
    id_seen: i128,
    secret_seen: i128,
    id_mtime: int,
    secret_mtime: int,
)
    ensures
        ({
            let seen = initial_client(
                config,
                workspace_dir,
                Some(sources),
                Some(id_seen),
                Some(secret_seen),
            );
            let unseen = initial_client(config, workspace_dir, Some(sources), None, None);
            &&& seen.secrets_stale(id_mtime, secret_mtime) <==> {
                ||| id_mtime > id_seen && id_mtime > secret_seen
                ||| secret_mtime > id_seen && secret_mtime > secret_seen
            }
            &&& unseen.secrets_stale(id_mtime, secret_mtime) <==> id_mtime > 0 || secret_mtime > 0
        }),
{
}

/// Secrets that are read again are taken without the white space around them,
/// which a file may end with. The rest of the client stays as it is, and the
/// files count as read up to the later of the two times.
pub proof fn secrets_are_taken_trimmed(
    client: ClientModel,
    id_mtime: int,
    secret_mtime: int,
    before: Seq<char>,
    id: Seq<char>,
    secret: Seq<char>,
    after: Seq<char>,
)
    requires
        forall|i: int| 0 <= i < before.len() ==> text::is_space(#[trigger] before[i]),
        forall|i: int| 0 <= i < after.len() ==> text::is_space(#[trigger] after[i]),
        id.len() > 0 ==> !text::is_space(id[0]) && !text::is_space(id.last()),
        secret.len() > 0 ==> !text::is_space(secret[0]) && !text::is_space(secret.last()),
    ensures
        ({
            let c = client.with_secrets(
                id_mtime,
                secret_mtime,
                before + id + after,
                before + secret + after,
            );
            &&& c.config.client_id == id
            &&& c.config.client_secret == secret
            &&& c.config.scopes == client.config.scopes
            &&& c.config.token_file == client.config.token_file
            &&& c.config.redirect_port == client.config.redirect_port
            &&& c.token_path == client.token_path
            &&& c.tokens == client.tokens
            &&& c.pending_state == client.pending_state
            &&& c.pending_verifier == client.pending_verifier
            &&& c.secrets is Some == client.secrets is Some
            &&& client.secrets matches Some(s) ==> {
                &&& c.secrets->0.client_id_path == s.client_id_path
                &&& c.secrets->0.client_secret_path == s.client_secret_path
                &&& c.secrets->0.last_mtime >= id_mtime
                &&& c.secrets->0.last_mtime >= secret_mtime
                &&& c.secrets->0.last_mtime == id_mtime || c.secrets->0.last_mtime == secret_mtime
            }
        }),
{
    text::trimming_takes_white_space_only(before, id, after);
    text::trimming_takes_white_space_only(before, secret, after);
}

/// Secrets are stale exactly where one of the files was changed after the time
/// up to which they have been read.
pub proof fn secrets_are_stale_after_a_change(client: ClientModel, id_mtime: int, secret_mtime: int)
    ensures
        match client.secrets {
            Some(s) => client.secrets_stale(id_mtime, secret_mtime) <==> id_mtime > s.last_mtime
                || secret_mtime > s.last_mtime,
            None => !client.secrets_stale(id_mtime, secret_mtime),
        },
{
}

/// A start of a consent, its redemption and new tokens change what they are
/// about, and nothing else.
pub proof fn clients_change_in_their_parts(
    client: ClientModel,
    nonce: u64,
    verifier: Seq<char>,
    tokens: Option<TokensModel>,
)
    ensures
        ({
            let s = client.started(nonce, verifier);
            let d = client.redeemed();
            let t = client.with_tokens(tokens);
            &&& s.pending_state == Some(state_text(nonce)) && s.pending_verifier == Some(verifier)
            &&& s.config == client.config && s.token_path == client.token_path && s.tokens
                == client.tokens && s.secrets == client.secrets
            &&& d.pending_state is None && d.pending_verifier is None
            &&& d.config == client.config && d.token_path == client.token_path && d.tokens
                == client.tokens && d.secrets == client.secrets
            &&& t.tokens == tokens
            &&& t.config == client.config && t.token_path == client.token_path && t.secrets
                == client.secrets && t.pending_state == client.pending_state && t.pending_verifier
                == client.pending_verifier
        }),
{
}

/// The consent under way takes the redirects that carry its state; without one
/// every redirect is refused.
pub proof fn consents_under_way_decide(client: ClientModel, path: Seq<char>, r: CallbackStep)
    requires
        client.callback_outcome(path, r),
    ensures
        match (client.pending_state, callback::query_value(path, "state"@)) {
            (Some(pending), Some(state)) => pending == state ==> match callback::query_value(
                path,
                "code"@,
            ) {
                Some(c) => {
                    &&& r matches CallbackStep::Exchange(code)
                    &&& code@ == c
                    &&& client.accepted_code(path) == Some(c)
                },
                None => {
                    &&& r matches CallbackStep::Reject { page, error }
                    &&& error is MissingCode
                    &&& client.accepted_code(path) is None
                },
            },
            _ => true,
        },
        client.pending_state is None || callback::query_value(path, "state"@) is None
            || client.pending_state != callback::query_value(path, "state"@) ==> {
            &&& r matches CallbackStep::Reject { page, error }
            &&& error is StateMismatch
            &&& client.accepted_code(path) is None
        },
{
    match client.pending_state {
        Some(s) => {
            callback::redirects_are_judged_by_their_state(path, s, r);
        },
        None => {},
    }
}

/// A response without an access token carries no tokens.
pub proof fn tokens_need_an_access_token(
    client: ClientModel,
    refresh: Seq<char>,
    body: JsonModel,
    now: int,
)
    ensures
        client.granted(body, now) is Some <==> (body.field("access_token"@) matches Some(
            JsonModel::Str(_),
        )),
        client.renewed(refresh, body, now) is Some <==> (body.field("access_token"@) matches Some(
            JsonModel::Str(_),
        )),
{
}

/// The model of a challenge shows every part of it.
pub proof fn challenges_are_modelled_part_for_part(c: DeviceChallenge)
    ensures
        c@.device_code == c.device_code@,
        c@.user_code == c.user_code@,
        c@.verification_url == c.verification_url@,
        c@.expires_in == c.expires_in,
        c@.interval == c.interval,
{
}

/// A post that fails is reported with the endpoint that it was for.
pub proof fn failed_posts_are_told_apart(
    config: ConfigModel,
    code: Seq<char>,
    verifier: Option<Seq<char>>,
)
    ensures
        "POST oauth2.googleapis.com/token"@.is_prefix_of(
            exchange_post(config, code, verifier).send_context,
        ),
        "POST oauth2.googleapis.com/device/code"@.is_prefix_of(
            device_code_post(config).send_context,
        ),
        text::occurs("(device)"@, device_token_post(config, code).send_context),
        text::occurs("(refresh)"@, refresh_post(config, code).send_context),
        "POST oauth2.googleapis.com/revoke"@.is_prefix_of(revoke_post(code).send_context),
        "malformed"@.is_prefix_of(exchange_post(config, code, verifier).body_context),
        "malformed"@.is_prefix_of(device_code_post(config).body_context),
        "malformed"@.is_prefix_of(device_token_post(config, code).body_context),
        "malformed"@.is_prefix_of(refresh_post(config, code).body_context),
{
    reveal_strlit("POST oauth2.googleapis.com/token");
    reveal_strlit("POST oauth2.googleapis.com/token failed");
    reveal_strlit("POST oauth2.googleapis.com/device/code");
    reveal_strlit("POST oauth2.googleapis.com/device/code failed");
    reveal_strlit("POST oauth2.googleapis.com/token (device) failed");
    reveal_strlit("POST oauth2.googleapis.com/token (refresh) failed");
    reveal_strlit("POST oauth2.googleapis.com/revoke");
    reveal_strlit("POST oauth2.googleapis.com/revoke failed");
    reveal_strlit("(device)");
    reveal_strlit("(refresh)");
    reveal_strlit("malformed");
    reveal_strlit("malformed token response");
    reveal_strlit("malformed device/code response");
    reveal_strlit("malformed refresh response");
    let a = exchange_post(config, code, verifier);
    let b = device_code_post(config);
    let c = device_token_post(config, code);
    let d = refresh_post(config, code);
    let e = revoke_post(code);
    assert("POST oauth2.googleapis.com/token"@ =~= a.send_context.subrange(0, 32));
    assert("POST oauth2.googleapis.com/device/code"@ =~= b.send_context.subrange(0, 38));
    assert(c.send_context.subrange(33, 41) =~= "(device)"@);
    assert(text::occurs_at("(device)"@, c.send_context, 33));
    assert(d.send_context.subrange(33, 42) =~= "(refresh)"@);
    assert(text::occurs_at("(refresh)"@, d.send_context, 33));
    assert("POST oauth2.googleapis.com/revoke"@ =~= e.send_context.subrange(0, 33));
    assert("malformed"@ =~= a.body_context.subrange(0, 9));
    assert("malformed"@ =~= b.body_context.subrange(0, 9));
    assert("malformed"@ =~= c.body_context.subrange(0, 9));
    assert("malformed"@ =~= d.body_context.subrange(0, 9));
}

} // verus!

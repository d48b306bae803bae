//! Access and refresh tokens, and the responses that carry them.

use crate::callback;
use crate::clock;
use crate::clock::now_timestamp;
use crate::error::GoogleError;
use crate::json::{Json, JsonModel};
use crate::text;
use crate::text::{copy_opt, copy_texts, split};
use vstd::prelude::*;

verus! {

/// The tokens of an account. Google hands out a refresh token only with the
/// first exchange of a consent.
#[derive(Debug, Clone)]
pub struct GoogleTokens {
    pub access_token: String,
    pub refresh_token: Option<String>,
    /// The second, since the Unix epoch, at which `access_token` expires.
    pub expires_at: i64,
    pub scopes: Vec<String>,
}

/// The model of a set of tokens.
#[verifier::ext_equal]
pub struct TokensModel {
    pub access_token: Seq<char>,
    pub refresh_token: Option<Seq<char>>,
    pub expires_at: i64,
    pub scopes: Seq<Seq<char>>,
}

impl View for GoogleTokens {
    type V = TokensModel;

    open spec fn view(&self) -> TokensModel {
        TokensModel {
            access_token: self.access_token@,
            refresh_token: text::opt_text(self.refresh_token),
            expires_at: self.expires_at,
            scopes: text::texts(self.scopes@),
        }
    }
}

impl TokensModel {
    /// More than a minute is left at `now`.
    pub open spec fn fresh(self, now: int) -> bool {
        now + 60 < self.expires_at
    }
}

/// The model of optional tokens.
pub open spec fn opt_tokens(t: Option<GoogleTokens>) -> Option<TokensModel> {
    match t {
        Some(t) => Some(t@),
        None => None,
    }
}

impl GoogleTokens {
    /// Whether the access token is good for more than another minute.
    pub fn is_fresh(&self) -> (r: bool)
        ensures
            exists|now: i64| #[trigger] clock::clock_reading(now) && r == self@.fresh(now as int),
    {
        let now: i64 = now_timestamp();
        self.is_fresh_at(now)
    }

    /// Whether the access token is good for more than a minute after `now`.
    pub fn is_fresh_at(&self, now: i64) -> (r: bool)
        requires
            clock::clock_reading(now),
        ensures
            r == self@.fresh(now as int),
    {
        now + 60 < self.expires_at
    }

    /// Equal tokens that share nothing with these.
    pub fn copy(&self) -> (r: GoogleTokens)
        ensures
            r@ == self@,
    {
        GoogleTokens {
            access_token: self.access_token.as_str().to_owned(),
            refresh_token: copy_opt(&self.refresh_token),
            expires_at: self.expires_at,
            scopes: copy_texts(&self.scopes),
        }
    }
}

/// The life time that a token response states, in seconds.
pub open spec fn expires_in(body: JsonModel) -> int {
    match body.field_signed("expires_in"@) {
        Some(n) => n as int,
        None => 3600,
    }
}

/// The response carries no token, or one with a life time that can be added to
/// `now` and then cut by half a minute.
pub open spec fn expiry_in_range_at(body: JsonModel, now: int) -> bool {
    body.field_text("access_token"@) is Some ==> {
        &&& now + expires_in(body) <= i64::MAX
        &&& now + expires_in(body) - 30 >= i64::MIN
    }
}

/// Whether the life time of a token in the response can be added to `now` and
/// then cut by half a minute.
pub fn expiry_fits_at(body: &Json, now: i64) -> (r: bool)
    ensures
        r == expiry_in_range_at(body@, now as int),
{
    if body.field_str("access_token").is_none() {
        return true;
    }
    let lifetime: i64 = match body.field_i64("expires_in") {
        Some(n) => n,
        None => 3600,
    };
    match now.checked_add(lifetime) {
        Some(end) => end >= i64::MIN + 30,
        None => false,
    }
}

/// The response carries no token, or one with a life time that can be added to
/// every reading of the clock.
pub open spec fn expiry_in_range(body: JsonModel) -> bool {
    body.field_text("access_token"@) is Some ==> i64::MIN + 30 <= expires_in(body) <= i64::MAX
        - clock::CLOCK_MAX
}

/// Whether the life time of a token in the response can be added to the
/// current time.
pub fn expiry_fits(body: &Json) -> (r: bool)
    ensures
        r == expiry_in_range(body@),
{
    if body.field_str("access_token").is_none() {
        return true;
    }
    match body.field_i64("expires_in") {
        Some(n) => i64::MIN + 30 <= n && n <= i64::MAX - clock::CLOCK_MAX,
        None => true,
    }
}

/// The tokens that a response read at `now` carries, where `requested` are
/// the scopes that were asked for. They count as expired half a minute early.
pub open spec fn response_tokens(
    body: JsonModel,
    requested: Seq<Seq<char>>,
    now: int,
) -> Option<TokensModel> {
    match body.field_text("access_token"@) {
        Some(access_token) => Some(
            TokensModel {
                access_token,
                refresh_token: body.field_text("refresh_token"@),
                expires_at: (now + expires_in(body) - 30) as i64,
                scopes: match body.field_text("scope"@) {
                    Some(s) => text::split_on(s, ' '),
                    None => requested,
                },
            },
        ),
        None => None,
    }
}

/// What a token response says, where it is read at `now`.
pub fn tokens_from_response_at(
    body: &Json,
    requested_scopes: &[String],
    now: i64,
) -> (r: Result<GoogleTokens, GoogleError>)
    requires
        expiry_in_range_at(body@, now as int),
    ensures
        match r {
            Ok(t) => response_tokens(body@, text::texts(requested_scopes@), now as int) == Some(t@),
            Err(e) => e is MissingAccessToken && body@.field_text("access_token"@) is None,
        },
{
    let access_token: String = match body.field_str("access_token") {
        Some(s) => s,
        None => {
            return Err(GoogleError::MissingAccessToken);
        },
    };
    let refresh_token: Option<String> = body.field_str("refresh_token");
    let lifetime: i64 = match body.field_i64("expires_in") {
        Some(n) => n,
        None => 3600,
    };
    let scopes: Vec<String> = match body.field_str("scope") {
        Some(s) => split(s.as_str(), ' '),
        None => copy_texts(requested_scopes),
    };
    Ok(GoogleTokens { access_token, refresh_token, expires_at: now + lifetime - 30, scopes })
}

/// What a token response says, where it is read now.
pub fn tokens_from_response(body: &Json, requested_scopes: &[String]) -> (r: Result<
    GoogleTokens,
    GoogleError,
>)
    requires
        expiry_in_range(body@),
    ensures
        match r {
            Ok(t) => exists|now: i64| #[trigger]
                clock::clock_reading(now) && response_tokens(
                    body@,
                    text::texts(requested_scopes@),
                    now as int,
                ) == Some(t@),
            Err(e) => e is MissingAccessToken && body@.field_text("access_token"@) is None,
        },
{
    let now: i64 = now_timestamp();
    tokens_from_response_at(body, requested_scopes, now)
}

/// Tokens do not become fresh again.
pub proof fn staleness_lasts(tokens: TokensModel, now: int, later: int)
    requires
        now <= later,
        !tokens.fresh(now),
    ensures
        !tokens.fresh(later),
{
}

/// The tokens of a response that is read at `now` and states a life time of
/// `n` seconds are used for less than `n - 90` seconds: no call is made with a
/// token that is about to expire.
pub proof fn freshness_ends_before_expiry(
    body: JsonModel,
    requested: Seq<Seq<char>>,
    now: i64,
    later: int,
)
    requires
        expiry_in_range_at(body, now as int),
        response_tokens(body, requested, now as int) is Some,
    ensures
        response_tokens(body, requested, now as int)->0.fresh(later) <==> later < now + expires_in(
            body,
        ) - 90,
{
}

/// Where a response names its scopes in a text, no scope of the tokens holds a
/// blank, and joined with single blanks they are that text again; else the
/// tokens have the scopes that were asked for.
pub proof fn granted_scopes_are_those_named(
    body: JsonModel,
    requested: Seq<Seq<char>>,
    now: int,
    t: TokensModel,
)
    requires
        response_tokens(body, requested, now) == Some(t),
    ensures
        match body.field("scope"@) {
            Some(JsonModel::Str(s)) => {
                &&& t.scopes.len() > 0
                &&& forall|i: int| 0 <= i < t.scopes.len() ==> !(#[trigger] t.scopes[i]).contains(' ')
                &&& text::joined(t.scopes, seq![' ']) == s
            },
            _ => t.scopes == requested,
        },
{
    match body.field("scope"@) {
        Some(JsonModel::Str(s)) => {
            callback::splitting_loses_nothing(s, ' ');
        },
        _ => {},
    }
}

/// A response carries tokens exactly where it names an access token. They are
/// those that it names, and count as expired half a minute before the life time
/// that it states has passed; where it states none, that is an hour.
pub proof fn responses_are_taken_at_their_word(
    body: JsonModel,
    requested: Seq<Seq<char>>,
    now: i64,
)
    requires
        expiry_in_range_at(body, now as int),
    ensures
        match body.field("access_token"@) {
            Some(JsonModel::Str(access_token)) => {
                &&& response_tokens(body, requested, now as int) matches Some(t)
                &&& t.access_token == access_token
                &&& match body.field("refresh_token"@) {
                    Some(JsonModel::Str(refresh)) => t.refresh_token == Some(refresh),
                    _ => t.refresh_token is None,
                }
                &&& match body.field("expires_in"@) {
                    Some(JsonModel::PosInt(n)) => t.expires_at == (if n <= 0x7fff_ffff_ffff_ffff {
                        now + n - 30
                    } else {
                        now + 3570
                    }),
                    Some(JsonModel::NegInt(n)) => t.expires_at == now + n - 30,
                    _ => t.expires_at == now + 3570,
                }
            },
            _ => response_tokens(body, requested, now as int) is None,
        },
{
}

/// A response can be taken over wherever the end of the life time that it
/// states is a time that can be told.
pub proof fn lifetimes_that_can_be_told_fit(body: JsonModel, now: int)
    ensures
        !(body.field("access_token"@) matches Some(JsonModel::Str(_))) ==> expiry_in_range_at(
            body,
            now,
        ) && expiry_in_range(body),
        body.field("expires_in"@) matches Some(JsonModel::PosInt(n)) ==> n <= i64::MAX
            && i64::MIN + 30 <= now + n <= i64::MAX ==> expiry_in_range_at(body, now),
        body.field("expires_in"@) matches Some(JsonModel::PosInt(n)) ==> n <= 0x3fff_ffff_ffff_ffff
            ==> expiry_in_range(body),
        body.field("expires_in"@) is None ==> expiry_in_range(body),
        body.field("expires_in"@) is None && i64::MIN <= now <= i64::MAX - 3600
            ==> now + 3570 >= i64::MIN ==> expiry_in_range_at(body, now),
{
}

/// Tokens are used until a minute before they expire, and not from then on.
pub proof fn freshness_ends_a_minute_early(t: TokensModel, now: int)
    ensures
        t.fresh(t.expires_at - 61),
        !t.fresh(t.expires_at - 60),
        now <= t.expires_at - 61 ==> t.fresh(now),
        now >= t.expires_at - 60 ==> !t.fresh(now),
{
}

/// The model of tokens shows every part of them.
pub proof fn tokens_are_modelled_part_for_part(t: GoogleTokens)
    ensures
        t@.access_token == t.access_token@,
        t.refresh_token matches Some(r) ==> t@.refresh_token == Some(r@),
        t.refresh_token is None ==> t@.refresh_token is None,
        t@.expires_at == t.expires_at,
        t@.scopes.len() == t.scopes@.len(),
        forall|i: int| 0 <= i < t.scopes@.len() ==> #[trigger] t@.scopes[i] == t.scopes@[i]@,
        opt_tokens(Some(t)) == Some(t@),
        opt_tokens(None) is None,
{
}

} // verus!

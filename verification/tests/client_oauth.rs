//! The OAuth client: scopes, consent addresses, tokens and their renewal.

use nexo_plugin_google::callback::{parse_callback_query, urldecode, CallbackStep};
use nexo_plugin_google::client::{
    authorized_reply, authorized_reply_shown, authorized_request, check_device_code_reply, check_exchange_reply,
    check_refresh_reply, device_challenge, generate_pkce_pair, rand_u64, CallPlan, DevicePoll,
    PollReply, PollWait, RefreshPlan, TokenFile,
};
use nexo_plugin_google::error::GoogleError;
use nexo_plugin_google::http::{FormPost, HttpMethod};
use nexo_plugin_google::json::{Json, Members};
use nexo_plugin_google::pkce::pkce_pair_from;
use nexo_plugin_google::store::{read_document, token_document, token_file};
use nexo_plugin_google::tokens::{
    expiry_fits, expiry_fits_at, tokens_from_response, tokens_from_response_at,
};
use nexo_plugin_google::{
    canonicalize_scopes, DeviceChallenge, GoogleAuthClient, GoogleAuthConfig, GoogleTokens,
};

const NOW: i64 = 1_720_000_000;

fn unix_now() -> i64 {
    std::time::SystemTime::now()
        .duration_since(std::time::UNIX_EPOCH)
        .unwrap()
        .as_secs() as i64
}

fn config() -> GoogleAuthConfig {
    GoogleAuthConfig {
        client_id: "cid".to_string(),
        client_secret: "cs".to_string(),
        scopes: vec!["gmail.readonly".to_string()],
        token_file: "/tmp/ws/tok.json".to_string(),
        redirect_port: 8765,
    }
}

fn client() -> GoogleAuthClient {
    GoogleAuthClient::new(config(), "/tmp/ws")
}

fn tokens(refresh: Option<&str>, expires_at: i64) -> GoogleTokens {
    GoogleTokens {
        access_token: "access".to_string(),
        refresh_token: refresh.map(|r| r.to_string()),
        expires_at,
        scopes: vec!["openid".to_string()],
    }
}

fn client_with(refresh: Option<&str>, expires_at: i64) -> GoogleAuthClient {
    let mut c = client();
    c.load_from_disk(TokenFile::Tokens(tokens(refresh, expires_at))).unwrap();
    c
}

fn object(members: &[(&str, &str)]) -> Json {
    let mut m = Members::new();
    for (k, v) in members {
        m = m.with(k, Json::text(v));
    }
    m.into_json()
}

fn pairs(post: FormPost) -> Vec<(String, String)> {
    post.form
}

fn pair(k: &str, v: &str) -> (String, String) {
    (k.to_string(), v.to_string())
}

#[test]
fn expand_short_scopes() {
    let out = canonicalize_scopes(&[
        "gmail.readonly".into(),
        "https://www.googleapis.com/auth/drive".into(),
        "openid".into(),
    ]);
    assert_eq!(
        out,
        vec![
            "https://www.googleapis.com/auth/gmail.readonly",
            "https://www.googleapis.com/auth/drive",
            "openid"
        ]
    );
}

#[test]
fn expanded_scopes_stay_as_they_are() {
    let once = canonicalize_scopes(&["calendar".into(), "openid email".into(), "".into()]);
    assert_eq!(
        once,
        vec![
            "https://www.googleapis.com/auth/calendar",
            "openid email",
            "https://www.googleapis.com/auth/"
        ]
    );
    assert_eq!(canonicalize_scopes(&once), once);
}

#[test]
fn parse_callback_roundtrip() {
    let (code, state) =
        parse_callback_query("/callback?code=4%2F0AbcdEF&state=abc123&scope=email+profile");
    assert_eq!(code.as_deref(), Some("4/0AbcdEF"));
    assert_eq!(state.as_deref(), Some("abc123"));
}

#[test]
fn tokens_fresh_semantics() {
    let t = GoogleTokens {
        access_token: "x".into(),
        refresh_token: Some("r".into()),
        expires_at: unix_now() + 600,
        scopes: vec![],
    };
    assert!(t.is_fresh());

    let stale = GoogleTokens {
        access_token: "x".into(),
        refresh_token: None,
        expires_at: unix_now() + 10,
        scopes: vec![],
    };
    assert!(!stale.is_fresh());
}

#[test]
fn freshness_ends_a_minute_before_expiry() {
    let t = tokens(None, NOW + 61);
    assert!(t.is_fresh_at(NOW));
    assert!(!t.is_fresh_at(NOW + 1));
    assert!(!t.is_fresh_at(NOW + 100));
}

#[test]
fn urldecode_handles_percent_and_plus() {
    assert_eq!(urldecode("hello+world"), "hello world");
    assert_eq!(urldecode("hello%20world"), "hello world");
    assert_eq!(urldecode("4%2F0AbcdEF"), "4/0AbcdEF");
}

#[test]
fn urldecode_keeps_what_is_no_escape() {
    assert_eq!(urldecode(""), "");
    assert_eq!(urldecode("%"), "%");
    assert_eq!(urldecode("%4"), "%4");
    assert_eq!(urldecode("%zz!"), "%zz!");
    assert_eq!(urldecode("%%41"), "%%41");
    assert_eq!(urldecode("%+f."), "\u{f}.");
    assert_eq!(urldecode("%é"), "%é");
    assert_eq!(urldecode("%C3%A9"), "\u{c3}\u{a9}");
}

#[test]
fn pkce_pair_is_rfc7636_compliant() {
    let (verifier, challenge) = generate_pkce_pair();
    assert!(verifier.len() >= 43 && verifier.len() <= 128);
    for c in verifier.chars() {
        assert!(
            c.is_ascii_alphanumeric() || c == '-' || c == '_',
            "verifier contains non-url-safe char: {c:?}"
        );
    }
    let (verifier2, _) = generate_pkce_pair();
    assert_ne!(verifier, verifier2, "verifier must be random");
    assert_eq!(challenge.len(), 43);
}

#[test]
fn pkce_pair_of_known_bytes() {
    let mut bytes = [0u8; 64];
    let mut i: u8 = 0;
    while i < 64 {
        bytes[i as usize] = i;
        i += 1;
    }
    let (verifier, challenge) = pkce_pair_from(&bytes);
    assert_eq!(
        verifier,
        "AAECAwQFBgcICQoLDA0ODxAREhMUFRYXGBkaGxwdHh8gISIjJCUmJygpKissLS4vMDEyMzQ1Njc4OTo7PD0-Pw"
    );
    assert_eq!(challenge, "wsNdZaf3VpLTsEDmR5gPk2C6xYVWxKb0xcaG3O6kX10");
    let mut near = bytes;
    near[63] = 62;
    assert_ne!(pkce_pair_from(&near).0, verifier);
    let (verifier, challenge) = pkce_pair_from(&[0xffu8; 64]);
    assert_eq!(
        verifier,
        "_____________________________________________________________________________________w"
    );
    assert_eq!(challenge, "wJTohQv806uJMEHuqmDFTZTkC0rn-JRxcpIFpgAY45g");
}

#[test]
fn build_auth_url_with_pkce_includes_challenge_and_method() {
    let url = client().build_auth_url_with_pkce("state-xyz", Some("challenge-abc"));
    assert!(url.contains("code_challenge=challenge-abc"));
    assert!(url.contains("code_challenge_method=S256"));
    assert!(url.contains("state=state-xyz"));
}

#[test]
fn build_auth_url_without_pkce_omits_challenge_params() {
    let url = client().build_auth_url("state-xyz");
    assert!(!url.contains("code_challenge"));
    assert!(!url.contains("code_challenge_method"));
}

#[test]
fn the_address_is_exact() {
    let mut c = config();
    c.client_id = "a b&c/é".to_string();
    c.scopes.push("openid".to_string());
    let c = GoogleAuthClient::new(c, "/tmp/ws");
    let plain = c.build_auth_url("s~1");
    assert_eq!(
        plain,
        "https://accounts.google.com/o/oauth2/v2/auth?client_id=a+b%26c%2F%C3%A9\
         &redirect_uri=http%3A%2F%2F127.0.0.1%3A8765%2Fcallback&response_type=code\
         &scope=https%3A%2F%2Fwww.googleapis.com%2Fauth%2Fgmail.readonly+openid\
         &access_type=offline&prompt=consent&state=s%7E1"
    );
    assert_eq!(
        c.build_auth_url_with_pkce("s~1", Some("ch-_")),
        format!("{plain}&code_challenge=ch-_&code_challenge_method=S256")
    );
}

#[test]
fn a_consent_carries_its_own_state_and_key() {
    let mut c = client();
    let flow = c.start_auth_flow_with(0xabc, "verifier".to_string(), "challenge");
    assert_eq!(flow.state, "0000000000000abc");
    assert!(flow.url.contains("state=0000000000000abc"));
    assert!(flow.url.contains("code_challenge=challenge&"));
    assert!(pairs(c.exchange_code("code-1")).contains(&pair("code_verifier", "verifier")));
    let next = pairs(c.exchange_code("code-2"));
    assert!(next.iter().all(|(k, _)| k != "code_verifier"));
    assert!(next.contains(&pair("code", "code-2")));
}

fn redirect(state: &str) -> Vec<u8> {
    format!("GET /callback?code=the-code&state={state} HTTP/1.1\r\n\r\n").into_bytes()
}

fn refused(c: &GoogleAuthClient, state: &str) -> bool {
    match c.accept_callback(&redirect(state)) {
        CallbackStep::Reject { page, error } => {
            matches!(error, GoogleError::StateMismatch) && page.contains("state mismatch")
        }
        CallbackStep::Exchange(_) => false,
    }
}

fn handed_over(c: &GoogleAuthClient, state: &str) -> bool {
    match c.accept_callback(&redirect(state)) {
        CallbackStep::Exchange(code) => code == "the-code",
        CallbackStep::Reject { .. } => false,
    }
}

#[test]
fn a_second_consent_cancels_the_first() {
    let mut c = client();
    let first = c.start_auth_flow_with(0xabc, "first-key".to_string(), "x");
    assert!(handed_over(&c, &first.state));
    let second = c.start_auth_flow_with(0xabd, "second-key".to_string(), "y");
    assert!(refused(&c, &first.state));
    assert!(handed_over(&c, &second.state));
    assert!(second.url.contains(&second.state));
    let form = pairs(c.exchange_code("the-code"));
    assert_eq!(form.last(), Some(&pair("code_verifier", "second-key")));
}

#[test]
fn redirects_without_a_consent_are_refused() {
    let mut c = client();
    assert!(refused(&c, "0000000000000abc"));
    let flow = c.start_auth_flow_with(0xabc, "key".to_string(), "x");
    match c.accept_callback(format!("GET /callback?state={} HTTP/1.1\r\n\r\n", flow.state).as_bytes()) {
        CallbackStep::Reject { page, error } => {
            assert!(matches!(error, GoogleError::MissingCode));
            assert!(page.contains("no code in callback"));
        }
        CallbackStep::Exchange(_) => panic!("no code was sent"),
    }
    c.exchange_code("the-code");
    assert!(refused(&c, &flow.state));
}

#[test]
fn a_random_consent_redeems_the_key_of_its_address() {
    let mut c = client();
    let flow = c.start_auth_flow(u64::MAX);
    assert_eq!(flow.state, "ffffffffffffffff");
    assert_ne!(c.start_auth_flow(u64::MAX - 1).state, flow.state);
    let flow = c.start_auth_flow(u64::MAX);
    let form = pairs(c.exchange_code("x"));
    let verifier = &form.iter().find(|(k, _)| k == "code_verifier").unwrap().1;
    assert_eq!(verifier.len(), 86);
    let challenge = flow.url.split("code_challenge=").nth(1).unwrap().split('&').next().unwrap();
    assert_eq!(challenge.len(), 43);
    assert!(challenge.chars().all(|c| c.is_ascii_alphanumeric() || c == '-' || c == '_'));
    assert!(!flow.url.contains(verifier.as_str()));
}

#[test]
fn nonces_mix_time_and_process() {
    assert_eq!(rand_u64(1_720_000_000_123_456_789, 4242), 1719988985968311271);
    assert_eq!(rand_u64((1u128 << 64) + 5, 1), 2654435764);
}

#[test]
fn the_exchange_post_is_exact() {
    let mut c = client();
    let post = c.exchange_code("4/abc");
    assert_eq!(post.url, "https://oauth2.googleapis.com/token");
    assert_eq!(post.send_context, "POST oauth2.googleapis.com/token failed");
    assert_eq!(post.body_context, "malformed token response");
    assert_eq!(
        pairs(post),
        vec![
            pair("code", "4/abc"),
            pair("client_id", "cid"),
            pair("client_secret", "cs"),
            pair("redirect_uri", "http://127.0.0.1:8765/callback"),
            pair("grant_type", "authorization_code"),
        ]
    );
}

#[test]
fn responses_become_tokens() {
    let body = Members::new()
        .with("access_token", Json::text("ya29"))
        .with("refresh_token", Json::text("1//r"))
        .with("expires_in", Json::PosInt(3599))
        .with("scope", Json::text("openid email"))
        .into_json();
    let t = tokens_from_response_at(&body, &[], NOW).unwrap();
    assert_eq!(t.access_token, "ya29");
    assert_eq!(t.refresh_token.as_deref(), Some("1//r"));
    assert_eq!(t.expires_at, NOW + 3569);
    assert_eq!(t.scopes, vec!["openid", "email"]);

    let body = object(&[("access_token", "a"), ("expires_in", "soon")]);
    let t = tokens_from_response_at(&body, &["s".to_string()], NOW).unwrap();
    assert_eq!(t.refresh_token, None);
    assert_eq!(t.expires_at, NOW + 3570);
    assert_eq!(t.scopes, vec!["s"]);

    let e = tokens_from_response_at(&object(&[("scope", "x")]), &[], NOW).unwrap_err();
    assert_eq!(e.message(), "token response missing access_token");
}

#[test]
fn absurd_life_times_do_not_fit() {
    let living = |n: Json| {
        Members::new().with("access_token", Json::text("a")).with("expires_in", n).into_json()
    };
    assert!(expiry_fits(&object(&[("access_token", "a")])));
    assert!(expiry_fits(&living(Json::NegInt(-1))));
    assert!(!expiry_fits(&living(Json::PosInt(i64::MAX as u64))));
    assert!(!expiry_fits(&living(Json::NegInt(i64::MIN))));
    assert!(expiry_fits(&living(Json::PosInt(u64::MAX))));
    let long = living(Json::PosInt((i64::MAX - NOW) as u64));
    assert!(!expiry_fits(&long));
    assert!(expiry_fits_at(&long, NOW));
    assert!(!expiry_fits_at(&long, NOW + 1));
    assert_eq!(tokens_from_response_at(&long, &[], NOW).unwrap().expires_at, i64::MAX - 30);
    let past = living(Json::NegInt(i64::MIN));
    assert!(expiry_fits_at(&past, 30));
    assert!(!expiry_fits_at(&past, 29));
    assert_eq!(client().accept_exchange_at(&past, 30).unwrap().expires_at, i64::MIN);
    let bare = Members::new().with("expires_in", Json::NegInt(i64::MIN)).into_json();
    assert!(expiry_fits(&bare));
    assert!(tokens_from_response_at(&bare, &[], NOW).is_err());
}

#[test]
fn an_exchange_takes_the_tokens_over() {
    let mut c = client();
    let t = c.accept_exchange_at(&object(&[("access_token", "a")]), NOW).unwrap();
    assert_eq!(t.scopes, vec!["https://www.googleapis.com/auth/gmail.readonly"]);
    assert_eq!(c.snapshot_at(NOW).get("authenticated"), Some(&Json::Bool(true)));

    let e = c.accept_exchange_at(&object(&[]), NOW).unwrap_err();
    assert!(matches!(e, GoogleError::MissingAccessToken));
    assert_eq!(c.snapshot_at(NOW).get("authenticated"), Some(&Json::Bool(true)));
}

#[test]
fn an_exchange_read_now_expires_later() {
    let mut c = client();
    let before = unix_now();
    let t = c.accept_exchange(&object(&[("access_token", "a")])).unwrap();
    assert!(t.expires_at >= before + 3570);
    assert!(t.expires_at <= unix_now() + 3570);
    let t = tokens_from_response(&object(&[("access_token", "b")]), &[]).unwrap();
    assert!(t.expires_at >= before + 3570 && t.is_fresh());
}

#[test]
fn a_new_consent_keeps_the_refresh_token_on_file() {
    let mut c = client_with(Some("on-file"), NOW);
    let t = c.accept_exchange_at(&object(&[("access_token", "a")]), NOW).unwrap();
    assert_eq!(t.refresh_token.as_deref(), Some("on-file"));
    let body = object(&[("access_token", "a"), ("refresh_token", "new")]);
    let t = c.accept_exchange_at(&body, NOW).unwrap();
    assert_eq!(t.refresh_token.as_deref(), Some("new"));
}

#[test]
fn fresh_tokens_are_used_and_stale_ones_renewed() {
    let c = client_with(Some("r"), NOW + 600);
    assert!(matches!(c.refresh_if_needed_at(NOW), Ok(RefreshPlan::Fresh(t)) if t.access_token == "access"));
    assert!(matches!(c.refresh_if_needed_at(NOW + 600), Ok(RefreshPlan::Renew(r)) if r == "r"));
    let e = client_with(None, NOW).refresh_if_needed_at(NOW).err().unwrap();
    assert_eq!(
        e.message(),
        "no refresh_token on file — run `google_auth_start` to authorise the agent for the first time"
    );
    assert!(matches!(client().refresh_if_needed(), Err(GoogleError::NoRefreshToken)));
    let later = client_with(None, unix_now() + 600);
    assert!(matches!(later.refresh_if_needed(), Ok(RefreshPlan::Fresh(_))));
}

#[test]
fn a_refresh_keeps_its_refresh_token() {
    let mut c = client_with(Some("r"), NOW);
    let post = c.refresh_request("r");
    assert_eq!(post.url, "https://oauth2.googleapis.com/token");
    assert_eq!(
        pairs(post),
        vec![
            pair("client_id", "cid"),
            pair("client_secret", "cs"),
            pair("refresh_token", "r"),
            pair("grant_type", "refresh_token"),
        ]
    );
    let body = Members::new()
        .with("access_token", Json::text("next"))
        .with("expires_in", Json::PosInt(91))
        .into_json();
    let t = c.accept_refresh_at("r".to_string(), &body, NOW).unwrap();
    assert_eq!(t.refresh_token.as_deref(), Some("r"));
    assert_eq!(t.access_token, "next");
    assert!(t.is_fresh_at(NOW));
    let body = object(&[("access_token", "n"), ("refresh_token", "r2")]);
    let t = c.accept_refresh("r".to_string(), &body).unwrap();
    assert_eq!(t.refresh_token.as_deref(), Some("r2"));
    assert!(c.accept_refresh("r".to_string(), &object(&[])).is_err());
}

#[test]
fn refused_posts_are_reported() {
    let body = object(&[("error", "invalid_grant"), ("error_description", "Bad code")]);
    assert_eq!(
        check_exchange_reply(400, &body).unwrap_err().message(),
        "token exchange HTTP 400 Bad Request: Bad code"
    );
    assert_eq!(
        check_device_code_reply(401, &object(&[("error", "nope")])).unwrap_err().message(),
        "device/code HTTP 401 Unauthorized: nope"
    );
    assert_eq!(
        check_refresh_reply(999, &Json::Null).unwrap_err().message(),
        "refresh HTTP 999 <unknown status code>: (no error body) — re-auth required"
    );
    assert!(check_exchange_reply(200, &body).is_ok());
    assert!(check_device_code_reply(204, &body).is_ok());
    assert!(check_refresh_reply(299, &body).is_ok());
    assert!(check_refresh_reply(300, &body).is_err());
}

#[test]
fn device_codes_are_read() {
    let c = client();
    let post = c.request_device_code();
    assert_eq!(post.url, "https://oauth2.googleapis.com/device/code");
    assert_eq!(
        pairs(post),
        vec![
            pair("client_id", "cid"),
            pair("scope", "https://www.googleapis.com/auth/gmail.readonly"),
        ]
    );
    let full = Members::new()
        .with("device_code", Json::text("dc"))
        .with("user_code", Json::text("UC"))
        .with("verification_uri", Json::text("https://g.co/x"))
        .with("expires_in", Json::PosInt(60))
        .with("interval", Json::PosInt(7))
        .into_json();
    let d = device_challenge(&full).unwrap();
    assert_eq!((d.device_code.as_str(), d.user_code.as_str()), ("dc", "UC"));
    assert_eq!((d.verification_url.as_str(), d.expires_in, d.interval), ("https://g.co/x", 60, 7));
    let d = device_challenge(&object(&[("device_code", "d"), ("user_code", "u")])).unwrap();
    assert_eq!(d.verification_url, "https://www.google.com/device");
    assert_eq!((d.expires_in, d.interval), (1800, 5));
    let e = device_challenge(&object(&[("user_code", "u")])).unwrap_err();
    assert_eq!(e.message(), "missing device_code");
    let e = device_challenge(&object(&[("device_code", "d")])).unwrap_err();
    assert_eq!(e.message(), "missing user_code");
}

fn challenge(expires_in: u64, interval: u64) -> DeviceChallenge {
    DeviceChallenge {
        device_code: "dc".to_string(),
        user_code: "UC".to_string(),
        verification_url: "https://g.co/x".to_string(),
        expires_in,
        interval,
    }
}

#[test]
fn polls_wait_and_slow_down() {
    let mut c = client();
    let mut poll = DevicePoll::new(&challenge(10, 3));
    assert_eq!(poll.tick(9).ok(), Some(PollWait { secs: 3, nanos: 0 }));
    assert!(matches!(poll.tick(10), Err(GoogleError::ApprovalTimeout)));
    assert!(matches!(poll.tick(u64::MAX), Err(GoogleError::ApprovalTimeout)));
    let form = pairs(c.poll_device_token(&challenge(10, 3)));
    assert_eq!(
        form,
        vec![
            pair("client_id", "cid"),
            pair("client_secret", "cs"),
            pair("device_code", "dc"),
            pair("grant_type", "urn:ietf:params:oauth:grant-type:device_code"),
        ]
    );
    let pending = object(&[("error", "authorization_pending")]);
    assert!(matches!(c.accept_poll_at(&mut poll, 428, &pending, NOW), PollReply::Pending));
    assert_eq!(poll.tick(0).ok(), Some(PollWait { secs: 3, nanos: 0 }));
    let slow = object(&[("error", "slow_down")]);
    assert!(matches!(c.accept_poll(&mut poll, 403, &slow), PollReply::Pending));
    assert_eq!(poll.tick(0).ok(), Some(PollWait { secs: 8, nanos: 0 }));
    let mut poll = DevicePoll::new(&challenge(10, u64::MAX - 4));
    assert!(matches!(c.accept_poll_at(&mut poll, 403, &slow, NOW), PollReply::Pending));
    assert_eq!(poll.tick(0).ok(), Some(PollWait { secs: u64::MAX, nanos: 999_999_999 }));
}

fn poll_failure(status: u16, members: &[(&str, &str)]) -> String {
    let mut poll = DevicePoll::new(&challenge(10, 3));
    match client().accept_poll_at(&mut poll, status, &object(members), NOW) {
        PollReply::Failed(e) => e.message(),
        _ => panic!("the poll goes on"),
    }
}

#[test]
fn polls_end() {
    assert_eq!(poll_failure(403, &[("error", "access_denied")]), "user denied the consent request");
    assert_eq!(poll_failure(400, &[("error", "expired_token")]), "device code expired");
    assert_eq!(
        poll_failure(400, &[("error", "invalid_client"), ("error_description", "why")]),
        "token poll HTTP 400 Bad Request: invalid_client — why"
    );
    assert_eq!(poll_failure(500, &[]), "token poll HTTP 500 Internal Server Error:  — ");
    assert_eq!(poll_failure(200, &[]), "token response missing access_token");
    let mut c = client();
    let mut poll = DevicePoll::new(&challenge(10, 3));
    let granted = c.accept_poll_at(&mut poll, 200, &object(&[("access_token", "a")]), NOW);
    assert!(matches!(granted, PollReply::Granted(t) if t.access_token == "a"));
    assert!(matches!(c.refresh_if_needed_at(NOW), Ok(RefreshPlan::Fresh(_))));
}

#[test]
fn calls_carry_the_access_token() {
    let c = client_with(Some("r"), NOW + 600);
    match c.authorized_call_at("patch", "https://x.googleapis.com/", Some(Json::Bool(true)), NOW) {
        Ok(CallPlan::Send(call)) => {
            assert!(matches!(call.method, HttpMethod::Patch));
            assert_eq!(call.url, "https://x.googleapis.com/");
            assert_eq!(call.bearer, "access");
            assert_eq!(call.body, Some(Json::Bool(true)));
        }
        _ => panic!("the tokens are fresh"),
    }
    let plan = c.authorized_call_at("GET", "u", None, NOW + 600);
    assert!(matches!(plan, Ok(CallPlan::Renew(r)) if r == "r"));
    assert!(matches!(client().authorized_call("GET", "u", None), Err(GoogleError::NoRefreshToken)));
    let e = c.authorized_call_at("options", "u", None, NOW).err().unwrap();
    assert_eq!(e.message(), "unsupported HTTP method `OPTIONS`");
    let e = authorized_request(&tokens(None, 0), "Straße", "u", None).err().unwrap();
    assert_eq!(e.message(), "unsupported HTTP method `STRASSE`");
}

#[test]
fn replies_are_handed_on_or_reported() {
    let ok = authorized_reply(HttpMethod::Get, "u", 201, Json::PosInt(3));
    assert_eq!(ok.unwrap(), Json::PosInt(3));
    let e = authorized_reply(HttpMethod::Delete, "https://u", 403, Json::Null).unwrap_err();
    assert_eq!(e.message(), "DELETE https://u → HTTP 403 Forbidden: null");
    let body = object(&[("error", "no \"scope\"")]);
    let e = authorized_reply(HttpMethod::Get, "https://u", 404, body).unwrap_err();
    assert_eq!(
        e.message(),
        "GET https://u → HTTP 404 Not Found: {\"error\":\"no \\\"scope\\\"\"}"
    );
    let e = authorized_reply_shown(HttpMethod::Put, "u", 500, Json::Null, "shown").unwrap_err();
    assert_eq!(e.message(), "PUT u → HTTP 500 Internal Server Error: shown");
    assert!(authorized_reply_shown(HttpMethod::Put, "u", 200, Json::Null, "shown").is_ok());
}

#[test]
fn snapshots_are_exact() {
    assert_eq!(
        client().snapshot_at(NOW),
        Members::new()
            .with("authenticated", Json::Bool(false))
            .with("reason", Json::text("no tokens on file"))
            .into_json()
    );
    let c = client_with(Some("r"), NOW + 61);
    let expected = |fresh: bool, left: u64| {
        Members::new()
            .with("authenticated", Json::Bool(true))
            .with("fresh", Json::Bool(fresh))
            .with("expires_in_secs", Json::PosInt(left))
            .with("has_refresh", Json::Bool(true))
            .with("scopes", Json::array(vec![Json::text("openid")]))
            .into_json()
    };
    assert_eq!(c.snapshot_at(NOW), expected(true, 61));
    assert_eq!(c.snapshot_at(NOW + 1), expected(false, 60));
    assert_eq!(c.snapshot_at(NOW + 62), expected(false, 0));
    assert_eq!(client_with(Some("r"), unix_now() - 5).snapshot(), expected(false, 0));
    assert_eq!(client_with(Some("r"), i64::MIN).snapshot_at(NOW), expected(false, 0));
}

#[test]
fn revocation_forgets_the_tokens() {
    let mut c = client_with(Some("r"), NOW + 600);
    let post = c.revocation().unwrap();
    assert_eq!(post.url, "https://oauth2.googleapis.com/revoke");
    assert_eq!(pairs(post), vec![pair("token", "r")]);
    c.revoke();
    assert!(c.revocation().is_none());
    assert_eq!(c.snapshot_at(NOW).get("authenticated"), Some(&Json::Bool(false)));
    assert!(matches!(c.refresh_if_needed_at(NOW), Err(GoogleError::NoRefreshToken)));
    assert!(client_with(None, NOW).revocation().is_none());
}

#[test]
fn token_files_are_taken_over() {
    let mut c = client();
    assert!(c.load_from_disk(TokenFile::Missing).is_ok());
    assert_eq!(c.snapshot_at(NOW).get("authenticated"), Some(&Json::Bool(false)));
    let e = c.load_from_disk(TokenFile::Malformed).unwrap_err();
    assert_eq!(e.message(), "google_tokens.json malformed");
    let e = c.load_from_disk(TokenFile::Unreadable("denied".to_string())).unwrap_err();
    assert_eq!(e.message(), "denied");
    assert!(c.load_from_disk(TokenFile::Tokens(tokens(None, 1))).is_ok());
    assert_eq!(c.snapshot_at(NOW).get("has_refresh"), Some(&Json::Bool(false)));
    assert!(c.load_from_disk(TokenFile::Malformed).is_err());
    assert_eq!(c.snapshot_at(NOW).get("authenticated"), Some(&Json::Bool(true)));
}

#[test]
fn a_missing_token_file_leaves_no_tokens() {
    let mut c = client_with(Some("r"), NOW + 600);
    assert!(c.load_from_disk(TokenFile::Missing).is_ok());
    assert_eq!(c.snapshot_at(NOW), client().snapshot_at(NOW));
    assert_eq!(c.snapshot_at(NOW).get("reason"), Some(&Json::text("no tokens on file")));
    assert!(matches!(c.refresh_if_needed_at(NOW), Err(GoogleError::NoRefreshToken)));
    assert_eq!(c.config().client_id, "cid");
}

#[test]
fn token_paths_are_resolved() {
    let mut relative = config();
    relative.token_file = "google_tokens.json".to_string();
    assert_eq!(GoogleAuthClient::new(relative, "/srv/ws").token_path(), "/srv/ws/google_tokens.json");
    assert_eq!(client().token_path(), "/tmp/ws/tok.json");
}

#[test]
fn saved_tokens_are_read_back() {
    for t in [tokens(Some("r"), NOW), tokens(None, -5), tokens(Some(""), i64::MAX)] {
        let read = read_document(&token_document(&t)).unwrap();
        assert_eq!(read.access_token, t.access_token);
        assert_eq!(read.refresh_token, t.refresh_token);
        assert_eq!(read.expires_at, t.expires_at);
        assert_eq!(read.scopes, t.scopes);
    }
    assert_eq!(
        token_document(&tokens(None, 7)),
        Members::new()
            .with("access_token", Json::text("access"))
            .with("expires_at", Json::PosInt(7))
            .with("scopes", Json::array(vec![Json::text("openid")]))
            .into_json()
    );
    assert!(matches!(token_file(Some(&token_document(&tokens(None, 7)))), TokenFile::Tokens(_)));
    assert!(matches!(token_file(Some(&Json::Null)), TokenFile::Malformed));
    assert!(matches!(token_file(None), TokenFile::Malformed));
}

#[test]
fn token_documents_are_checked() {
    let base = || {
        Members::new()
            .with("access_token", Json::text("a"))
            .with("expires_at", Json::NegInt(-1))
            .with("scopes", Json::array(vec![]))
    };
    assert!(read_document(&base().into_json()).is_some());
    assert!(read_document(&base().with("extra", Json::Null).with("extra", Json::Null).into_json()).is_some());
    let null = read_document(&base().with("refresh_token", Json::Null).into_json()).unwrap();
    assert_eq!(null.refresh_token, None);
    assert!(read_document(&base().with("refresh_token", Json::PosInt(1)).into_json()).is_none());
    assert!(read_document(&base().with("access_token", Json::text("b")).into_json()).is_none());
    assert!(read_document(&object(&[("access_token", "a")])).is_none());
    let bad = Members::new()
        .with("access_token", Json::text("a"))
        .with("expires_at", Json::PosInt(u64::MAX))
        .with("scopes", Json::array(vec![]))
        .into_json();
    assert!(read_document(&bad).is_none());
    let bad = Members::new()
        .with("access_token", Json::text("a"))
        .with("expires_at", Json::PosInt(1))
        .with("scopes", Json::array(vec![Json::Null]))
        .into_json();
    assert!(read_document(&bad).is_none());
    let list = |n: usize| {
        let mut parts = vec![Json::text("a"), Json::text("r"), Json::PosInt(1), Json::array(vec![])];
        parts.truncate(n);
        Json::array(parts)
    };
    assert_eq!(read_document(&list(4)).unwrap().refresh_token.as_deref(), Some("r"));
    assert!(read_document(&list(3)).is_none());
}

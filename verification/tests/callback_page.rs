//! The redirect that ends a consent.

use nexo_plugin_google::callback::{
    exchange_page, parse_callback_query, read_callback, CallbackStep,
};
use nexo_plugin_google::error::GoogleError;
use nexo_plugin_google::http::Form;

fn rejected(request: &[u8]) -> (String, String) {
    match read_callback(request, "st") {
        CallbackStep::Reject { page, error } => (page, error.message()),
        CallbackStep::Exchange(_) => panic!("a rejection is due"),
    }
}

fn accepted(request: &[u8]) -> String {
    match read_callback(request, "st") {
        CallbackStep::Exchange(code) => code,
        CallbackStep::Reject { error, .. } => panic!("{}", error.message()),
    }
}

#[test]
fn the_code_is_taken_from_the_request_line() {
    let r = b"GET /callback?code=4%2Fx&state=st HTTP/1.1\r\nHost: 127.0.0.1\r\n\r\n";
    assert_eq!(accepted(r), "4/x");
    assert_eq!(accepted(b"GET /callback?state=st&code=a&code=b HTTP/1.1"), "b");
    assert_eq!(accepted("GET\u{3000}\t/?state=st&code=\u{e9}\n".as_bytes()), "é");
    assert_eq!(accepted(b"GET /?a?state=st&state=st&code= x"), "");
}

#[test]
fn foreign_states_are_rejected() {
    let (page, error) = rejected(b"GET /callback?code=c&state=other HTTP/1.1\r\n");
    assert_eq!(error, "oauth state mismatch — possibly a replayed tab");
    assert_eq!(
        page,
        "HTTP/1.1 400 Bad Request\r\nContent-Type: text/html\r\n\r\n<html><body \
         style='font-family:sans-serif;padding:40px;text-align:center'><h2>Authorisation \
         failed</h2><p>state mismatch</p></body></html>"
    );
    assert_eq!(rejected(b"GET /callback?code=c HTTP/1.1\r\n").1, error);
    assert_eq!(rejected(b"").1, error);
    assert_eq!(rejected(b"GET /?state=st&code=c\xff").1, error);
    assert_eq!(rejected(b"\nGET /?state=st&code=c").1, error);
    assert_eq!(rejected(b"GET /?state=st&state=x&code=c").1, error);
}

#[test]
fn a_missing_code_is_rejected() {
    let (page, error) = rejected(b"GET /callback?error=access_denied&state=st HTTP/1.1\r\n");
    assert_eq!(error, "oauth callback missing ?code parameter");
    assert!(page.contains("<p>no code in callback</p>"));
    assert_eq!(rejected(b"GET /callback?code&state=st HTTP/1.1\r\n").1, error);
}

#[test]
fn what_is_encoded_is_read_back() {
    let query = Form::new()
        .with("scope", "a b")
        .with("code", "4/0A~ +&=%?#")
        .with("state", "x&code=y")
        .encode();
    assert_eq!(query, "scope=a+b&code=4%2F0A%7E+%2B%26%3D%25%3F%23&state=x%26code%3Dy");
    let (code, state) = parse_callback_query(&format!("/callback?{query}"));
    assert_eq!(code.as_deref(), Some("4/0A~ +&=%?#"));
    assert_eq!(state.as_deref(), Some("x&code=y"));
    let query = Form::new().with("señal", "ñ").with("code", "c").with("x", "日本").encode();
    let (code, state) = parse_callback_query(&format!("/callback?{query}"));
    assert_eq!((code.as_deref(), state), (Some("c"), None));
    assert_eq!(parse_callback_query("/callback"), (None, None));
    assert_eq!(parse_callback_query(""), (None, None));
}

#[test]
fn pages_end_the_consent() {
    assert_eq!(
        exchange_page(None),
        "HTTP/1.1 200 OK\r\nContent-Type: text/html\r\n\r\n<html><body \
         style='font-family:sans-serif;padding:40px;text-align:center'><h2>Authorisation \
         received ✓</h2><p>You can close this tab. Return to the agent.</p></body></html>"
    );
    let page = exchange_page(Some(&GoogleError::MissingAccessToken));
    assert!(page.contains("<p>token exchange failed: token response missing access_token</p>"));
    assert!(page.starts_with("HTTP/1.1 400 Bad Request\r\n"));
}

//! Texts, paths, JSON values and reports.

use nexo_plugin_google::config::{default_redirect_port, default_token_file};
use nexo_plugin_google::error::GoogleError;
use nexo_plugin_google::http::{is_google_api_url, is_success, method_named, request_method, HttpMethod};
use nexo_plugin_google::json::{text_array, Json, Members};
use nexo_plugin_google::json_text::json_text;
use nexo_plugin_google::paths::resolve;
use nexo_plugin_google::text::{
    contains, decimal, ends_with, first_line, hex, is_whitespace, join, second_word, split,
    split_once, starts_with, trim,
};

#[test]
fn white_space_is_that_of_unicode() {
    let mut n: u32 = 0;
    while n <= 0x10ffff {
        if let Some(c) = char::from_u32(n) {
            assert_eq!(is_whitespace(c), c.is_whitespace(), "{n:x}");
        }
        n += 1;
    }
}

#[test]
fn texts_are_cut_as_std_cuts_them() {
    let samples = ["", " ", "a", " a b ", "a,,b,", ",", "=x=y", "GET /p HTTP\r\nx", "é\u{a0}\n", "\r\n", "a\rb\nc", "\r"];
    for s in samples {
        assert_eq!(trim(s), s.trim());
        assert_eq!(split(s, ','), s.split(',').collect::<Vec<_>>());
        assert_eq!(
            split_once(s, '='),
            s.split_once('=').map(|(a, b)| (a.to_string(), b.to_string()))
        );
        assert_eq!(first_line(s), s.lines().next().unwrap_or(""));
        assert_eq!(second_word(s), s.split_whitespace().nth(1).unwrap_or(""));
        for t in samples {
            assert_eq!(contains(s, t), s.contains(t));
            assert_eq!(starts_with(s, t), s.starts_with(t));
            assert_eq!(ends_with(s, t), s.ends_with(t));
        }
    }
    assert_eq!(join(&["a".to_string(), "".to_string(), "b".to_string()], ", "), "a, , b");
    assert_eq!(join(&[], ","), "");
}

#[test]
fn numbers_are_written() {
    for n in [0, 9, 10, 8765, u64::MAX] {
        assert_eq!(decimal(n), n.to_string());
        assert_eq!(hex(n, 16), format!("{n:016x}"));
    }
    assert_eq!(default_redirect_port(), 8765);
    assert_eq!(default_token_file(), "google_tokens.json");
}

#[test]
fn paths_are_joined_as_std_joins_them() {
    for base in ["", "/", "/a", "/a/", "a", "./a"] {
        for path in ["b", "b/c", "/b", "./b", ""] {
            let joined = std::path::Path::new(base).join(path);
            assert_eq!(resolve(base, path), joined.to_string_lossy());
        }
    }
}

#[test]
fn methods_are_named_in_any_case() {
    assert!(matches!(request_method("get"), Ok(HttpMethod::Get)));
    assert!(matches!(request_method("Post"), Ok(HttpMethod::Post)));
    assert!(matches!(request_method("PUT"), Ok(HttpMethod::Put)));
    assert!(matches!(request_method("delete"), Ok(HttpMethod::Delete)));
    assert!(matches!(request_method("trace"), Err(GoogleError::UnsupportedMethod(m)) if m == "TRACE"));
    assert!(method_named("get").is_none());
    assert!(matches!(method_named("PATCH"), Some(m) if m.as_str() == "PATCH"));
}

#[test]
fn successes_lie_between_200_and_299() {
    assert!(!is_success(199) && is_success(200) && is_success(299) && !is_success(300));
}

#[test]
fn addresses_below_the_domain_only() {
    assert!(is_google_api_url("https://a.b.googleapis.com/x?y#z"));
    assert!(is_google_api_url("https://user:pw@a.googleapis.com:8443"));
    assert!(is_google_api_url("https://WWW.GoogleApis.Com/x"));
    assert!(is_google_api_url("https://w.GOOGLEAPIS.com/?googleapis.com"));
    assert!(!is_google_api_url("https://GoogleApis.Com/"));
    assert!(!is_google_api_url("https://googleapis.com/"));
    assert!(!is_google_api_url("HTTPS://a.googleapis.com/"));
    assert!(!is_google_api_url("https://a.googleapis.com.example/"));
    assert!(!is_google_api_url("https:///a.googleapis.com"));
}

#[test]
fn json_values_are_read() {
    let v = Members::new()
        .with("s", Json::text("t"))
        .with("n", Json::PosInt(7))
        .with("m", Json::NegInt(-7))
        .with("big", Json::PosInt(u64::MAX))
        .with("f", Json::Float("1.5".to_string()))
        .with("z", Json::Null)
        .into_json();
    assert_eq!(v.field_str("s").as_deref(), Some("t"));
    assert_eq!(v.field_str("n"), None);
    assert_eq!((v.field_u64("n"), v.field_i64("n")), (Some(7), Some(7)));
    assert_eq!((v.field_u64("m"), v.field_i64("m")), (None, Some(-7)));
    assert_eq!((v.field_u64("big"), v.field_i64("big")), (Some(u64::MAX), None));
    assert_eq!((v.field_u64("f"), v.field_i64("f")), (None, None));
    assert!(v.get("z").unwrap().is_null());
    assert!(v.get("y").is_none());
    assert!(Json::Null.get("s").is_none());
    assert_eq!(v.copy(), v);
    assert_eq!(text_array(&["a".to_string()]), Json::array(vec![Json::text("a")]));
}

#[test]
fn json_values_are_written() {
    let v = Members::new()
        .with("b", Json::array(vec![Json::Null, Json::Bool(true), Json::text("q\"\n\u{1}é")]))
        .with("a", Members::new().into_json())
        .with("n", Json::PosInt(u64::MAX))
        .with("m", Json::NegInt(i64::MIN))
        .with("f", Json::Float("1.50".to_string()))
        .into_json();
    assert_eq!(
        json_text(&v),
        "{\"a\":{},\"b\":[null,true,\"q\\\"\\n\\u0001é\"],\"f\":1.5,\
         \"m\":-9223372036854775808,\"n\":18446744073709551615}"
    );
    assert_eq!(json_text(&Json::Null), "null");
    assert_eq!(json_text(&Json::Float("no number".to_string())), "null");
    assert_eq!(json_text(&Json::Float("0.1".to_string())), "0.1");
}

#[test]
fn reports_are_exact() {
    let shown = |e: GoogleError| e.message();
    assert_eq!(shown(GoogleError::ApprovalTimeout), "device code expired before user approved");
    assert_eq!(
        shown(GoogleError::BindFailed(8765)),
        "cannot bind 127.0.0.1:8765 for OAuth callback — another process using it?"
    );
    assert_eq!(shown(GoogleError::SaveFailed("/t".into())), "writing /t");
    assert_eq!(
        shown(GoogleError::AgentWithoutAccounts("a".into())),
        "agent `a` is configured but has zero accounts"
    );
    assert_eq!(
        shown(GoogleError::UrlRejected("x".into())),
        "google_call only accepts https://*.googleapis.com URLs — got `x`"
    );
}

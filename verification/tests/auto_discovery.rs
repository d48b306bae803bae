//! Administrative and HTTP requests.

use nexo_plugin_google::auto_discovery::{
    admin_handle, admin_handle_at, admin_revoked, http_request, http_request_at,
    render_status_snapshot_at, respond, AdminStep,
};
use nexo_plugin_google::client::TokenFile;
use nexo_plugin_google::error::GoogleError;
use nexo_plugin_google::json::{Json, Members};
use nexo_plugin_google::json_text::json_text;
use nexo_plugin_google::plugin::{AccountFiles, GoogleAccount, GooglePlugin};

const NOW: i64 = 1_720_000_000;

fn boot_with_one_agent() -> GooglePlugin {
    let mut p = GooglePlugin::new();
    p.on_configure(&[AccountFiles {
        account: GoogleAccount {
            id: "agent_x@gmail.com".into(),
            agent_id: "agent_x".into(),
            client_id_path: "/s/cid.txt".into(),
            client_secret_path: "/s/cs.txt".into(),
            token_path: "/s/tok.json".into(),
            scopes: vec!["gmail.readonly".into()],
            redirect_port: 0,
        },
        client_id: Some("test-cid".into()),
        client_secret: Some("test-cs".into()),
        id_mtime: None,
        secret_mtime: None,
        tokens: TokenFile::Missing,
    }])
    .unwrap();
    p
}

fn object(members: &[(&str, &str)]) -> Json {
    let mut m = Members::new();
    for (k, v) in members {
        m = m.with(k, Json::text(v));
    }
    m.into_json()
}

fn request(method: &str, params: Json) -> Json {
    Members::new().with("method", Json::text(method)).with("params", params).into_json()
}

fn admin(method: &str, params: Json) -> Json {
    let p = boot_with_one_agent();
    match admin_handle(Some(&p), &request(method, params)) {
        AdminStep::Answer(v) => v,
        AdminStep::Revoke { .. } => panic!("an answer is due"),
    }
}

#[test]
fn admin_bot_info_returns_metadata() {
    let r = admin("nexo/admin/google/bot_info", object(&[]));
    assert_eq!(r.get("ok"), Some(&Json::Bool(true)));
    assert_eq!(r.get("result").unwrap().get("plugin"), Some(&Json::text("google")));
    assert_eq!(r.get("result").unwrap().get("configured_agents"), Some(&Json::PosInt(1)));
    assert_eq!(r.get("result").unwrap().get("configured_accounts"), Some(&Json::PosInt(1)));
    assert_eq!(r.get("result").unwrap().get("version"), Some(&Json::text("0.3.0")));
}

#[test]
fn admin_oauth_status_routes_to_plugin() {
    let r = admin("nexo/admin/google/oauth_status", object(&[("agent_id", "agent_x")]));
    assert_eq!(r.get("ok"), Some(&Json::Bool(true)));
    assert_eq!(r.get("result").unwrap().get("authenticated"), Some(&Json::Bool(false)));
}

#[test]
fn admin_oauth_status_missing_agent_id_errors() {
    let r = admin("nexo/admin/google/oauth_status", object(&[]));
    assert_eq!(r.get("ok"), Some(&Json::Bool(false)));
    assert_eq!(r.get("error"), Some(&Json::text("missing required param `agent_id`")));
}

#[test]
fn admin_list_tokens_returns_per_agent_list() {
    let r = admin("nexo/admin/google/list_tokens", object(&[]));
    assert_eq!(r.get("ok"), Some(&Json::Bool(true)));
    match r.get("result").unwrap().get("agents") {
        Some(Json::Array(agents)) => assert_eq!(agents.len(), 1),
        _ => panic!("an array is due"),
    }
}

#[test]
fn admin_unknown_method_returns_err() {
    let r = admin("nexo/admin/google/does_not_exist", object(&[]));
    assert_eq!(r.get("ok"), Some(&Json::Bool(false)));
    assert_eq!(
        r.get("error"),
        Some(&Json::text("unknown admin method: nexo/admin/google/does_not_exist"))
    );
}

#[test]
fn admin_failures_carry_the_report() {
    let r = admin(
        "nexo/admin/google/oauth_status",
        object(&[("agent_id", "agent_x"), ("account", "nobody")]),
    );
    assert_eq!(r.get("error"), Some(&Json::text("account `nobody` is not configured")));
    let r = admin("nexo/admin/google/oauth_revoke", object(&[]));
    assert_eq!(r.get("error"), Some(&Json::text("missing required param `agent_id`")));
}

#[test]
fn admin_requests_without_method_or_params_fail() {
    let p = boot_with_one_agent();
    match admin_handle_at(Some(&p), &Json::Null, NOW) {
        AdminStep::Answer(r) => {
            assert_eq!(r.get("error"), Some(&Json::text("unknown admin method: ")))
        }
        _ => panic!("an answer is due"),
    }
    let bare = object(&[("method", "nexo/admin/google/oauth_status")]);
    match admin_handle_at(Some(&p), &bare, NOW) {
        AdminStep::Answer(r) => assert_eq!(r.get("ok"), Some(&Json::Bool(false))),
        _ => panic!("an answer is due"),
    }
}

#[test]
fn admin_revocation_is_asked_for_and_reported() {
    let p = boot_with_one_agent();
    let r = request("nexo/admin/google/oauth_revoke", object(&[("agent_id", "agent_x")]));
    match admin_handle_at(Some(&p), &r, NOW) {
        AdminStep::Revoke { agent_id, account } => {
            assert_eq!(agent_id, "agent_x");
            assert_eq!(account, "agent_x@gmail.com");
        }
        _ => panic!("a revocation is due"),
    }
    let done = admin_revoked("agent_x", "a", &Ok(()));
    assert_eq!(done.get("ok"), Some(&Json::Bool(true)));
    assert_eq!(done.get("result").unwrap().get("account"), Some(&Json::text("a")));
    let failed = admin_revoked("agent_x", "a", &Err(GoogleError::Transport("down".into())));
    assert_eq!(failed.get("ok"), Some(&Json::Bool(false)));
    assert_eq!(failed.get("error"), Some(&Json::text("down")));
}

#[test]
fn nothing_is_answered_before_the_boot() {
    match admin_handle(None, &request("nexo/admin/google/bot_info", Json::Null)) {
        AdminStep::Answer(r) => {
            assert_eq!(r.get("ok"), Some(&Json::Bool(false)));
            assert_eq!(r.get("error"), Some(&Json::text("google plugin not yet booted")));
        }
        _ => panic!("an answer is due"),
    }
    let r = render_status_snapshot_at(None, NOW);
    assert_eq!(r.get("status"), Some(&Json::text("booting")));
    assert_eq!(r.get("plugin"), Some(&Json::text("google")));
    assert_eq!(r.get("version"), Some(&Json::text("0.3.0")));
    assert_eq!(
        http_request(None, &object(&[("path", "/google/status")])),
        respond(
            200,
            "application/json; charset=utf-8",
            b"{\"plugin\":\"google\",\"status\":\"booting\",\"version\":\"0.3.0\"}"
        )
    );
}

#[test]
fn health_and_unknown_paths() {
    let p = boot_with_one_agent();
    let body = |v: Json| {
        (
            v.get("status").unwrap().as_u64().unwrap(),
            v.get("body_base64").unwrap().as_str().unwrap().to_string(),
        )
    };
    let health = object(&[("path", "/google/health"), ("method", "GET")]);
    assert_eq!(body(http_request(Some(&p), &health)), (200, "eyJzdGF0dXMiOiJvayJ9".to_string()));
    assert_eq!(body(http_request(None, &health)), (200, "eyJzdGF0dXMiOiJvayJ9".to_string()));
    let lost = (404, "eyJlcnJvciI6Im5vdCBmb3VuZCJ9".to_string());
    assert_eq!(body(http_request_at(Some(&p), &object(&[]), NOW)), lost);
    let post = object(&[("path", "/google/status"), ("method", "POST")]);
    assert_eq!(body(http_request_at(Some(&p), &post, NOW)), lost);
    let other = object(&[("path", "/google/status/")]);
    assert_eq!(body(http_request_at(Some(&p), &other, NOW)), lost);
}

#[test]
fn the_status_report_counts() {
    let p = boot_with_one_agent();
    let r = render_status_snapshot_at(Some(&p), NOW);
    assert_eq!(r.get("status"), Some(&Json::text("ok")));
    assert_eq!(r.get("agents"), Some(&Json::PosInt(1)));
    assert_eq!(r.get("accounts"), Some(&Json::PosInt(1)));
    assert_eq!(r.get("listing"), Some(&p.admin_list_tokens_at(NOW)));
    assert_eq!(
        http_request_at(Some(&p), &object(&[("path", "/google/status")]), NOW),
        respond(200, "application/json; charset=utf-8", json_text(&r).as_bytes())
    );
}

#[test]
fn responses_are_framed() {
    let expected = |status: u64, kind: &str, body: &str| {
        Members::new()
            .with("status", Json::PosInt(status))
            .with(
                "headers",
                Json::array(vec![Json::array(vec![Json::text("Content-Type"), Json::text(kind)])]),
            )
            .with("body_base64", Json::text(body))
            .into_json()
    };
    assert_eq!(respond(418, "text/plain", b"hi"), expected(418, "text/plain", "aGk="));
    assert_eq!(respond(200, "x", &[0xfb, 0xff, 0xfe]), expected(200, "x", "+//+"));
    assert_eq!(respond(200, "x", b""), expected(200, "x", ""));
    assert_eq!(respond(200, "x", b"a"), expected(200, "x", "YQ=="));
}

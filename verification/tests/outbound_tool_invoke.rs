//! Validation of tool arguments, and routing by agent.

use nexo_plugin_google::client::TokenFile;
use nexo_plugin_google::dispatch::{dispatch_tool, dispatch_tool_at, invocation_error, InvocationError};
use nexo_plugin_google::error::GoogleError;
use nexo_plugin_google::json::{Json, Members};
use nexo_plugin_google::plugin::{
    revoke_reply, AccountFiles, GoogleAccount, GooglePlugin, ToolAction,
};

fn boot(agent_id: &str) -> GooglePlugin {
    let mut p = GooglePlugin::new();
    p.on_configure(&[AccountFiles {
        account: GoogleAccount {
            id: "agent_x@gmail.com".into(),
            agent_id: agent_id.into(),
            client_id_path: "/s/cid".into(),
            client_secret_path: "/s/cs".into(),
            token_path: "google_tokens.json".into(),
            scopes: vec!["gmail.readonly".into()],
            redirect_port: 0,
        },
        client_id: Some("cid".into()),
        client_secret: Some("cs".into()),
        id_mtime: None,
        secret_mtime: None,
        tokens: TokenFile::Missing,
    }])
    .unwrap();
    p
}

fn args(members: &[(&str, &str)]) -> Json {
    let mut m = Members::new();
    for (k, v) in members {
        m = m.with(k, Json::text(v));
    }
    m.into_json()
}

fn failure(p: &GooglePlugin, tool: &str, args: Json, agent: &str) -> GoogleError {
    match p.invoke_outbound_tool(tool, &args, agent) {
        Err(e) => e,
        Ok(_) => panic!("a failure is due"),
    }
}

#[test]
fn google_auth_status_unauthenticated_when_no_tokens_on_disk() {
    let p = boot("agent_x");
    match p.invoke_outbound_tool("google_auth_status", &args(&[]), "agent_x").unwrap().action {
        ToolAction::Answer(out) => {
            assert_eq!(out.get("authenticated"), Some(&Json::Bool(false)));
            assert!(out.get("reason").unwrap().as_str().unwrap().contains("no tokens"));
        }
        _ => panic!("an answer is due"),
    }
}

#[test]
fn unknown_tool_name_errors() {
    let p = boot("agent_x");
    let err = failure(&p, "google_bogus", args(&[]), "agent_x");
    assert!(err.message().contains("unknown tool"));
    assert_eq!(err.message(), "unknown tool `google_bogus`");
}

#[test]
fn unknown_agent_id_errors() {
    let p = boot("agent_x");
    let err = failure(&p, "google_auth_status", args(&[]), "ghost");
    assert!(err.message().contains("ghost"));
    assert!(err.message().contains("not configured"));
}

#[test]
fn google_call_requires_method_arg() {
    let p = boot("agent_x");
    let a = args(&[("url", "https://gmail.googleapis.com/foo")]);
    let err = failure(&p, "google_call", a, "agent_x");
    assert!(err.message().contains("`method`"));
}

#[test]
fn google_call_requires_url_arg() {
    let p = boot("agent_x");
    let err = failure(&p, "google_call", args(&[("method", "GET")]), "agent_x");
    assert!(err.message().contains("`url`"));
}

#[test]
fn google_call_rejects_non_https_urls() {
    let p = boot("agent_x");
    let a = args(&[("method", "GET"), ("url", "http://gmail.googleapis.com/foo")]);
    let err = failure(&p, "google_call", a, "agent_x");
    assert!(err.message().contains("https://"));
}

#[test]
fn google_call_rejects_non_googleapis_hosts() {
    let p = boot("agent_x");
    let a = args(&[("method", "GET"), ("url", "https://example.com/")]);
    let err = failure(&p, "google_call", a, "agent_x");
    assert!(err.message().contains("googleapis.com"));
}

#[test]
fn google_auth_revoke_succeeds_with_no_tokens() {
    let mut p = boot("agent_x");
    let step = p.invoke_outbound_tool("google_auth_revoke", &args(&[]), "agent_x").unwrap();
    assert!(matches!(step.action, ToolAction::Revoke));
    let client = p.client_by_account_mut(&step.account).unwrap();
    assert!(client.revocation().is_none());
    client.revoke();
    let out = revoke_reply(&step.account);
    assert_eq!(out.get("ok"), Some(&Json::Bool(true)));
}

#[test]
fn google_call_accepts_hosts_below_googleapis_only() {
    let p = boot("agent_x");
    let accepted = |url: &str| {
        let a = args(&[("method", "GET"), ("url", url)]);
        p.invoke_outbound_tool("google_call", &a, "agent_x").is_ok()
    };
    assert!(accepted("https://gmail.googleapis.com/gmail/v1/users/me/messages?maxResults=10"));
    assert!(accepted("https://www.googleapis.com"));
    assert!(accepted("https://www.googleapis.com:443/x"));
    assert!(accepted("https://www.googleapis.com?x"));
    assert!(accepted("https://WWW.GoogleAPIs.com/x"));
    assert!(!accepted("https://googleapis.com.evil.example/"));
    assert!(!accepted("https://evil.example/googleapis.com"));
    assert!(!accepted("https://evil.example/?u=x.googleapis.com"));
    assert!(!accepted("https://x.googleapis.com@evil.example/"));
    assert!(!accepted("https://evilgoogleapis.com/"));
    assert!(!accepted("https://evil.example#.googleapis.com"));
    assert!(!accepted("https://evil.example\\.googleapis.com"));
    assert!(!accepted(""));
}

fn kind(e: GoogleError) -> &'static str {
    match invocation_error(&e) {
        InvocationError::NotFound(_) => "not found",
        InvocationError::ArgumentInvalid(_) => "invalid",
        InvocationError::Unavailable(_) => "unavailable",
        InvocationError::ExecutionFailed(_) => "failed",
    }
}

#[test]
fn failures_are_told_apart() {
    assert_eq!(kind(GoogleError::UnknownTool("x".into())), "not found");
    assert_eq!(kind(GoogleError::UnknownTool("not configured".into())), "not found");
    assert_eq!(kind(GoogleError::AgentNotConfigured("x".into())), "unavailable");
    assert_eq!(kind(GoogleError::AccountNotConfigured("x".into())), "unavailable");
    assert_eq!(kind(GoogleError::AccountNotConfigured("unknown tool".into())), "not found");
    assert_eq!(kind(GoogleError::CircuitOpen("plugins.google".into())), "unavailable");
    assert_eq!(kind(GoogleError::MissingMethod), "invalid");
    assert_eq!(kind(GoogleError::MissingUrl), "invalid");
    assert_eq!(kind(GoogleError::UrlRejected("http://x".into())), "invalid");
    assert_eq!(kind(GoogleError::UrlRejected("not configured".into())), "unavailable");
    assert_eq!(kind(GoogleError::NoRefreshToken), "failed");
    match invocation_error(&GoogleError::CircuitOpen("plugins.google".into())) {
        InvocationError::Unavailable(m) => {
            assert_eq!(m, "google circuit breaker open (plugins.google)")
        }
        _ => panic!("the tool is unavailable"),
    }
}

#[test]
fn invocations_need_an_agent() {
    let p = boot("agent_x");
    match dispatch_tool(&p, "google_auth_status", &args(&[]), None) {
        Err(InvocationError::ArgumentInvalid(m)) => {
            assert_eq!(m, "tool.invoke is missing `agent_id` (daemon must include it)")
        }
        _ => panic!("the arguments are invalid"),
    }
    let step = dispatch_tool(&p, "google_auth_start", &args(&[]), Some("agent_x")).unwrap();
    assert!(matches!(step.action, ToolAction::StartConsent));
    let e = dispatch_tool_at(&p, "google_bogus", &args(&[]), Some("agent_x"), 0).err().unwrap();
    assert!(matches!(e, InvocationError::NotFound(_)));
    let e = dispatch_tool_at(&p, "google_call", &args(&[]), Some("ghost"), 0).err().unwrap();
    assert!(matches!(e, InvocationError::Unavailable(_)));
}

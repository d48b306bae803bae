//! Tools on the accounts of an agent.

use nexo_plugin_google::client::TokenFile;
use nexo_plugin_google::error::GoogleError;
use nexo_plugin_google::json::{Json, Members};
use nexo_plugin_google::plugin::{
    admin_revoke_reply, auth_start_reply, call_reply, revoke_reply, AccountFiles, GoogleAccount,
    GooglePlugin, ToolAction,
};

const NOW: i64 = 1_720_000_000;

fn account(id: &str, agent: &str) -> AccountFiles {
    AccountFiles {
        account: GoogleAccount {
            id: id.into(),
            agent_id: agent.into(),
            client_id_path: "/s/cid.txt".into(),
            client_secret_path: "/s/cs.txt".into(),
            token_path: "/s/token.json".into(),
            scopes: vec!["gmail.readonly".into()],
            redirect_port: 0,
        },
        client_id: Some("test-cid".into()),
        client_secret: Some("test-cs".into()),
        id_mtime: None,
        secret_mtime: None,
        tokens: TokenFile::Missing,
    }
}

fn plugin(files: &[AccountFiles]) -> GooglePlugin {
    let mut p = GooglePlugin::new();
    p.on_configure(files).unwrap();
    p
}

fn args(members: &[(&str, &str)]) -> Json {
    let mut m = Members::new();
    for (k, v) in members {
        m = m.with(k, Json::text(v));
    }
    m.into_json()
}

fn answer(p: &GooglePlugin, tool: &str, args: Json, agent: &str) -> Json {
    match p.invoke_outbound_tool(tool, &args, agent).unwrap().action {
        ToolAction::Answer(v) => v,
        _ => panic!("an answer is due"),
    }
}

fn failure(p: &GooglePlugin, tool: &str, args: Json, agent: &str) -> String {
    match p.invoke_outbound_tool_at(tool, &args, agent, NOW) {
        Err(e) => e.message(),
        Ok(_) => panic!("a failure is due"),
    }
}

#[test]
fn on_configure_loads_two_accounts_one_agent() {
    let p = plugin(&[account("ana@gmail.com", "ana"), account("ana@work.com", "ana")]);
    assert_eq!(p.account_count(), 2);
    assert_eq!(p.agent_count(), 1);
    let accounts_for_ana = p.accounts_for_agent("ana");
    assert_eq!(accounts_for_ana.len(), 2);
    assert!(accounts_for_ana.contains(&"ana@gmail.com".to_string()));
    assert!(accounts_for_ana.contains(&"ana@work.com".to_string()));
}

#[test]
fn full_replace_on_second_configure() {
    let mut p = plugin(&[account("a@gmail.com", "ana"), account("b@gmail.com", "bob")]);
    assert_eq!(p.account_count(), 2);
    p.on_configure(&[account("a@gmail.com", "ana")]).unwrap();
    assert_eq!(p.account_count(), 1);
    assert!(p.accounts_for_agent("bob").is_empty());
}

#[test]
fn invoke_resolves_default_account_for_agent() {
    let p = plugin(&[account("ana@gmail.com", "ana")]);
    let out = answer(&p, "google_auth_status", args(&[]), "ana");
    assert_eq!(out.get("account"), Some(&Json::text("ana@gmail.com")));
    assert_eq!(out.get("authenticated"), Some(&Json::Bool(false)));
}

#[test]
fn invoke_picks_explicit_account_arg() {
    let p = plugin(&[account("ana@gmail.com", "ana"), account("ana@work.com", "ana")]);
    let out = answer(&p, "google_auth_status", args(&[("account", "ana@work.com")]), "ana");
    assert_eq!(out.get("account"), Some(&Json::text("ana@work.com")));
}

#[test]
fn invoke_unknown_agent_errors() {
    let p = GooglePlugin::new();
    let err = failure(&p, "google_auth_status", args(&[]), "ghost");
    assert!(err.contains("ghost"));
    assert!(err.contains("not configured"));
}

#[test]
fn invoke_unknown_account_errors() {
    let p = plugin(&[account("ana@gmail.com", "ana")]);
    let err = failure(&p, "google_auth_status", args(&[("account", "nobody@gmail.com")]), "ana");
    assert!(err.contains("nobody@gmail.com"));
}

#[test]
fn google_call_rejects_non_googleapis_host() {
    let p = plugin(&[account("a@gmail.com", "ana")]);
    let a = args(&[("method", "GET"), ("url", "https://evil.example.com/")]);
    assert!(failure(&p, "google_call", a, "ana").contains("googleapis.com"));
}

#[test]
fn admin_list_tokens_returns_per_account_and_per_agent() {
    let p = plugin(&[account("a@gmail.com", "ana"), account("b@gmail.com", "ana")]);
    let listing = p.admin_list_tokens();
    let accounts = match listing.get("accounts") {
        Some(Json::Array(v)) => v,
        _ => panic!("an array is due"),
    };
    assert_eq!(accounts.len(), 2);
    let mut ids: Vec<&str> = accounts.iter().map(|a| a.get("account").unwrap().as_str().unwrap()).collect();
    ids.sort();
    assert_eq!(ids, vec!["a@gmail.com", "b@gmail.com"]);
    for a in accounts {
        assert_eq!(a.get("status").unwrap().get("authenticated"), Some(&Json::Bool(false)));
    }
    let agents = match listing.get("agents") {
        Some(Json::Array(v)) => v,
        _ => panic!("an array is due"),
    };
    assert_eq!(agents.len(), 1);
    assert_eq!(agents[0].get("agent_id"), Some(&Json::text("ana")));
    assert_eq!(
        agents[0].get("accounts"),
        Some(&Json::array(vec![Json::text("a@gmail.com"), Json::text("b@gmail.com")]))
    );
}

#[test]
fn each_tool_does_its_own() {
    let p = plugin(&[account("a", "ana")]);
    let start = p.invoke_outbound_tool_at("google_auth_start", &args(&[]), "ana", NOW).unwrap();
    assert_eq!(start.account, "a");
    assert!(matches!(start.action, ToolAction::StartConsent));
    let status = p.invoke_outbound_tool_at("google_auth_status", &args(&[]), "ana", NOW).unwrap();
    assert!(matches!(status.action, ToolAction::Answer(_)));
    let revoke = p.invoke_outbound_tool_at("google_auth_revoke", &args(&[]), "ana", NOW).unwrap();
    assert!(matches!(revoke.action, ToolAction::Revoke));
    let a = Members::new()
        .with("method", Json::text("POST"))
        .with("url", Json::text("https://gmail.googleapis.com/x"))
        .with("body", Json::array(vec![Json::Null, Json::NegInt(-1)]))
        .into_json();
    match p.invoke_outbound_tool_at("google_call", &a, "ana", NOW).unwrap().action {
        ToolAction::Call { method, url, body } => {
            assert_eq!(method, "POST");
            assert_eq!(url, "https://gmail.googleapis.com/x");
            assert_eq!(body, Some(Json::array(vec![Json::Null, Json::NegInt(-1)])));
        }
        _ => panic!("a call is due"),
    }
}

#[test]
fn a_null_body_is_no_body() {
    let p = plugin(&[account("a", "ana")]);
    let a = Members::new()
        .with("method", Json::text("GET"))
        .with("url", Json::text("https://www.googleapis.com/drive/v3/files"))
        .with("body", Json::Null)
        .into_json();
    match p.invoke_outbound_tool("google_call", &a, "ana").unwrap().action {
        ToolAction::Call { body, .. } => assert_eq!(body, None),
        _ => panic!("a call is due"),
    }
}

#[test]
fn agents_reach_their_own_accounts_only() {
    let p = plugin(&[account("a", "ana"), account("a2", "ana"), account("b", "bob")]);
    let named = |id: &str| args(&[("account", id)]);
    assert_eq!(p.resolve_account(&named("a2"), "ana").unwrap(), "a2");
    assert_eq!(p.resolve_account(&args(&[]), "ana").unwrap(), "a");
    assert_eq!(p.resolve_account(&args(&[]), "bob").unwrap(), "b");
    for agent in ["ana", "ghost"] {
        for tool in
            ["google_auth_start", "google_auth_status", "google_call", "google_auth_revoke", "x"]
        {
            let e = p.invoke_outbound_tool_at(tool, &named("b"), agent, NOW).err().unwrap();
            assert!(matches!(e, GoogleError::AccountNotConfigured(id) if id == "b"));
        }
    }
    let step = p.invoke_outbound_tool_at("google_auth_revoke", &named("b"), "bob", NOW).unwrap();
    assert_eq!(step.account, "b");
    assert!(matches!(
        p.resolve_account(&args(&[]), "ghost"),
        Err(GoogleError::AgentNotConfigured(a)) if a == "ghost"
    ));
    let number = Members::new().with("account", Json::PosInt(1)).into_json();
    assert_eq!(p.resolve_account(&number, "ana").unwrap(), "a");
}

#[test]
fn operators_see_and_revoke() {
    let p = plugin(&[account("a", "ana"), account("b", "ana")]);
    let status = p.admin_oauth_status("ana", None).unwrap();
    assert_eq!(status.get("account"), Some(&Json::text("a")));
    let status = p.admin_oauth_status_at("ana", Some("b"), NOW).unwrap();
    assert_eq!(status.get("reason"), Some(&Json::text("no tokens on file")));
    assert_eq!(status.get("account"), Some(&Json::text("b")));
    assert_eq!(p.admin_oauth_revoke("ghost", Some("b")).unwrap(), "b");
    assert_eq!(p.admin_oauth_revoke("ana", None).unwrap(), "a");
    let e = p.admin_oauth_revoke("ana", Some("c")).unwrap_err();
    assert_eq!(e.message(), "account `c` is not configured");
    let e = p.admin_oauth_status("ghost", None).unwrap_err();
    assert_eq!(
        e.message(),
        "agent `ghost` is not configured for google_auth (no entry in `google-auth.yaml::accounts[].agent_id`)"
    );
}

#[test]
fn replies_are_exact() {
    assert_eq!(
        auth_start_reply("a", "https://u", 8765),
        args(&[]).and(&[
            ("ok", Json::Bool(true)),
            ("account", Json::text("a")),
            ("url", Json::text("https://u")),
            (
                "instructions",
                Json::text(
                    "Open this URL in a browser you're logged into your Google account with, \
                     approve the scopes, then call google_auth_status to confirm."
                )
            ),
            ("redirect_uri", Json::text("http://127.0.0.1:8765/callback")),
        ])
    );
    assert_eq!(
        call_reply("a", Json::Null),
        args(&[]).and(&[
            ("ok", Json::Bool(true)),
            ("account", Json::text("a")),
            ("response", Json::Null),
        ])
    );
    assert_eq!(
        revoke_reply("a"),
        args(&[]).and(&[
            ("ok", Json::Bool(true)),
            ("account", Json::text("a")),
            ("message", Json::text("tokens revoked + wiped")),
        ])
    );
    assert_eq!(
        admin_revoke_reply("ana", "a"),
        args(&[]).and(&[
            ("ok", Json::Bool(true)),
            ("agent_id", Json::text("ana")),
            ("account", Json::text("a")),
        ])
    );
}

trait And {
    fn and(self, members: &[(&str, Json)]) -> Json;
}

impl And for Json {
    fn and(self, members: &[(&str, Json)]) -> Json {
        let mut m = Members::new();
        for (k, v) in members {
            m = m.with(k, v.copy());
        }
        m.into_json()
    }
}

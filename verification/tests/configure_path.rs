//! Configuring the plugin: several accounts, several agents.

use nexo_plugin_google::client::TokenFile;
use nexo_plugin_google::error::GoogleError;
use nexo_plugin_google::json::Json;
use nexo_plugin_google::plugin::{AccountFiles, GoogleAccount, GoogleAuthFile, GooglePlugin};
use nexo_plugin_google::GoogleTokens;

fn account(id: &str, agent: &str) -> AccountFiles {
    AccountFiles {
        account: GoogleAccount {
            id: id.into(),
            agent_id: agent.into(),
            client_id_path: format!("/secrets/{id}_cid.txt"),
            client_secret_path: format!("/secrets/{id}_cs.txt"),
            token_path: format!("/secrets/{id}_token.json"),
            scopes: vec!["gmail.readonly".into()],
            redirect_port: 0,
        },
        client_id: Some("test-cid".into()),
        client_secret: Some("test-cs".into()),
        id_mtime: Some(10),
        secret_mtime: Some(20),
        tokens: TokenFile::Missing,
    }
}

#[test]
fn empty_accounts_leaves_state_empty() {
    let mut p = GooglePlugin::new();
    let file = GoogleAuthFile::default();
    assert!(file.accounts.is_empty());
    p.on_configure(&[]).unwrap();
    assert_eq!(p.account_count(), 0);
    assert_eq!(p.agent_count(), 0);
}

#[test]
fn single_account_single_agent_round_trip() {
    let mut p = GooglePlugin::new();
    p.on_configure(&[account("solo@gmail.com", "solo")]).unwrap();
    assert_eq!(p.account_count(), 1);
    let default_acct = p.default_account_for("solo").unwrap();
    assert_eq!(default_acct, "solo@gmail.com");
    let client = p.client_by_account(&default_acct).unwrap();
    assert_eq!(client.config().client_id, "test-cid");
}

#[test]
fn full_replace_drops_removed_accounts() {
    let mut p = GooglePlugin::new();
    p.on_configure(&[
        account("a@gmail.com", "ana"),
        account("b@gmail.com", "bob"),
        account("c@gmail.com", "cat"),
    ])
    .unwrap();
    assert_eq!(p.account_count(), 3);

    p.on_configure(&[account("a@gmail.com", "ana")]).unwrap();
    assert_eq!(p.account_count(), 1);
    assert!(p.client_by_account("a@gmail.com").is_ok());
    assert!(p.client_by_account("b@gmail.com").is_err());
    assert!(p.default_account_for("bob").is_err());
}

#[test]
fn multi_account_per_agent_preserves_order() {
    let mut p = GooglePlugin::new();
    p.on_configure(&[account("ana@gmail.com", "ana"), account("ana@work.com", "ana")]).unwrap();

    assert_eq!(p.account_count(), 2);
    assert_eq!(p.agent_count(), 1);
    assert_eq!(p.default_account_for("ana").unwrap(), "ana@gmail.com");
    let listing = p.accounts_for_agent("ana");
    assert_eq!(listing, vec!["ana@gmail.com", "ana@work.com"]);
}

#[test]
fn absolute_token_path_used_verbatim() {
    let mut p = GooglePlugin::new();
    let mut a = account("solo@gmail.com", "solo");
    a.account.token_path = "/srv/absolute_tokens.json".to_string();
    p.on_configure(&[a]).unwrap();
    let client = p.client_by_account("solo@gmail.com").unwrap();
    assert_eq!(client.token_path(), "/srv/absolute_tokens.json");
}

#[test]
fn relative_token_path_used_verbatim() {
    let mut p = GooglePlugin::new();
    let mut a = account("solo@gmail.com", "solo");
    a.account.token_path = "./secrets/ana_token.json".to_string();
    p.on_configure(&[a]).unwrap();
    let client = p.client_by_account("solo@gmail.com").unwrap();
    assert_eq!(client.token_path(), "./secrets/ana_token.json");
    assert_eq!(client.config().token_file, "./secrets/ana_token.json");
}

#[test]
fn secrets_are_trimmed_and_watched() {
    let mut p = GooglePlugin::new();
    let mut a = account("a", "x");
    a.client_id = Some("\u{3000} id\r\n".into());
    a.client_secret = Some("\tse cret \n\n".into());
    p.on_configure(&[a]).unwrap();
    let client = p.client_by_account("a").unwrap();
    assert_eq!(client.config().client_id, "id");
    assert_eq!(client.config().client_secret, "se cret");
    assert_eq!(client.config().scopes, vec!["gmail.readonly"]);
    let sources = client.secret_sources().unwrap();
    assert_eq!(sources.client_id_path, "/secrets/a_cid.txt");
    assert_eq!(sources.client_secret_path, "/secrets/a_cs.txt");
    assert!(!client.secrets_changed(10, 20));
    assert!(client.secrets_changed(21, 20));
}

#[test]
fn an_unreadable_secret_changes_nothing() {
    let mut p = GooglePlugin::new();
    p.on_configure(&[account("a", "x")]).unwrap();

    let mut bad = account("b", "y");
    bad.client_secret = None;
    let mut worse = account("c", "z");
    worse.client_id = None;
    worse.client_secret = None;
    let e = p.on_configure(&[account("d", "x"), bad, worse]).unwrap_err();
    assert_eq!(e.message(), "account `b`: reading client_secret from /secrets/b_cs.txt");
    assert_eq!(p.account_count(), 1);
    assert_eq!(p.accounts_for_agent("x"), vec!["a"]);

    let mut worse = account("c", "z");
    worse.client_id = None;
    let e = p.on_configure(&[worse]).unwrap_err();
    assert_eq!(e.message(), "account `c`: reading client_id from /secrets/c_cid.txt");
    assert!(p.client_by_account("a").is_ok());
}

#[test]
fn an_account_declared_twice_has_its_last_client() {
    let mut p = GooglePlugin::new();
    let mut second = account("a", "x");
    second.client_id = Some("second".into());
    p.on_configure(&[account("a", "x"), account("b", "x"), second]).unwrap();
    assert_eq!(p.account_count(), 2);
    assert_eq!(p.accounts_for_agent("x"), vec!["a", "b", "a"]);
    assert_eq!(p.client_by_account("a").unwrap().config().client_id, "second");
}

#[test]
fn tokens_on_file_are_loaded_and_bad_ones_ignored() {
    let mut p = GooglePlugin::new();
    let mut good = account("a", "x");
    good.tokens = TokenFile::Tokens(GoogleTokens {
        access_token: "t".into(),
        refresh_token: None,
        expires_at: 1_000,
        scopes: vec![],
    });
    let mut bad = account("b", "x");
    bad.tokens = TokenFile::Malformed;
    let mut locked = account("c", "x");
    locked.tokens = TokenFile::Unreadable("denied".into());
    p.on_configure(&[good, bad, locked]).unwrap();
    let shown = |id: &str| p.client_by_account(id).unwrap().snapshot_at(0).get("authenticated") == Some(&Json::Bool(true));
    assert!(shown("a"));
    assert!(!shown("b"));
    assert!(!shown("c"));
}

#[test]
fn one_account_changes_alone() {
    let mut p = GooglePlugin::new();
    p.on_configure(&[account("a", "x"), account("b", "x")]).unwrap();
    let c = p.client_by_account_mut("a").unwrap();
    assert!(c.refresh_secrets_if_changed(30, 30, "new", "newer"));
    assert_eq!(p.client_by_account("a").unwrap().config().client_id, "new");
    assert_eq!(p.client_by_account("b").unwrap().config().client_id, "test-cid");
    assert_eq!(p.accounts_for_agent("x"), vec!["a", "b"]);
    let e = p.client_by_account_mut("ghost").err().unwrap();
    assert!(matches!(e, GoogleError::AccountNotConfigured(id) if id == "ghost"));
}

#[test]
fn many_accounts_are_kept_apart() {
    let mut p = GooglePlugin::new();
    let mut files: Vec<AccountFiles> = Vec::new();
    for i in 0..100 {
        let mut a = account(&format!("id{i}"), &format!("agent{}", i % 7));
        a.client_id = Some(format!("cid{i}"));
        files.push(a);
    }
    p.on_configure(&files).unwrap();
    assert_eq!(p.account_count(), 100);
    assert_eq!(p.agent_count(), 7);
    for i in 0..100 {
        let c = p.client_by_account(&format!("id{i}")).unwrap();
        assert_eq!(c.config().client_id, format!("cid{i}"));
    }
    assert_eq!(p.accounts_for_agent("agent3")[1], "id10");
    assert!(p.accounts_for_agent("agent7").is_empty());
}

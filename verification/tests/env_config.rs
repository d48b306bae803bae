//! What the environment says.

use nexo_plugin_google::env_config::{
    google_config_from_env, is_nats_url, resolve_config_path, ConfigFile, EnvVars, GoogleEnvConfig,
};
use nexo_plugin_google::{GoogleAccount, GoogleAuthFile};

fn env() -> EnvVars {
    EnvVars { broker_url: None, broker_kind: None, config_dir: None, config_path: None }
}

fn file(id: &str, agent: &str) -> ConfigFile {
    ConfigFile::Parsed(GoogleAuthFile {
        accounts: vec![GoogleAccount {
            id: id.into(),
            agent_id: agent.into(),
            client_id_path: "/tmp/cid".into(),
            client_secret_path: "/tmp/cs".into(),
            token_path: "/tmp/tok.json".into(),
            scopes: vec!["gmail.readonly".into()],
            redirect_port: 8765,
        }],
    })
}

#[test]
fn defaults_when_env_empty_and_no_file() {
    let mut e = env();
    e.config_dir = Some("/nonexistent-nexo-test-dir".into());
    let cfg = google_config_from_env(e, ConfigFile::Missing).unwrap();
    assert!(cfg.initial.is_none());
    assert_eq!(cfg.broker_kind, "local");
    assert_eq!(
        cfg.config_path.as_deref(),
        Some("/nonexistent-nexo-test-dir/plugins/google-auth.yaml")
    );
}

#[test]
fn nats_url_implies_nats_kind() {
    let mut e = env();
    e.broker_url = Some("nats://localhost:4222".into());
    e.config_dir = Some("/nonexistent-nexo-test-dir".into());
    let cfg = google_config_from_env(e, ConfigFile::Missing).unwrap();
    assert_eq!(cfg.broker_kind, "nats");
    assert_eq!(cfg.broker_url, "nats://localhost:4222");
}

#[test]
fn reads_google_auth_yaml_when_config_dir_points_at_real_file() {
    let mut e = env();
    e.config_dir = Some("/srv/nexo".into());
    assert_eq!(resolve_config_path(&e), "/srv/nexo/plugins/google-auth.yaml");
    let cfg = google_config_from_env(e, file("ana@gmail.com", "ana")).unwrap();
    let parsed = cfg.initial.expect("should load yaml");
    assert_eq!(parsed.accounts.len(), 1);
    assert_eq!(parsed.accounts[0].id, "ana@gmail.com");
    assert_eq!(parsed.accounts[0].agent_id, "ana");
}

#[test]
fn explicit_override_path_takes_precedence() {
    let mut e = env();
    e.config_path = Some("/srv/override.yaml".into());
    e.config_dir = Some("/nonexistent-nexo-test-dir".into());
    assert_eq!(resolve_config_path(&e), "/srv/override.yaml");
    let cfg = google_config_from_env(e, file("x@y", "x")).unwrap();
    let parsed = cfg.initial.expect("override path should win");
    assert_eq!(parsed.accounts[0].id, "x@y");
    assert_eq!(cfg.config_path.as_deref(), Some("/srv/override.yaml"));
}

#[test]
fn empty_variables_count_as_unset() {
    let mut e = env();
    e.config_path = Some("".into());
    e.config_dir = Some("".into());
    assert_eq!(resolve_config_path(&e), "./config/plugins/google-auth.yaml");
    e.config_dir = Some("/etc/nexo/".into());
    assert_eq!(resolve_config_path(&e), "/etc/nexo/plugins/google-auth.yaml");
    assert_eq!(resolve_config_path(&env()), "./config/plugins/google-auth.yaml");
}

#[test]
fn a_named_kind_wins() {
    let mut e = env();
    e.broker_url = Some("nats://x".into());
    e.broker_kind = Some("stdio_bridge".into());
    let cfg = google_config_from_env(e, ConfigFile::Missing).unwrap();
    assert_eq!(cfg.broker_kind, "stdio_bridge");
    assert!(is_nats_url("nats://x"));
    assert!(!is_nats_url("tls://nats://x"));
}

#[test]
fn a_malformed_file_is_a_failure() {
    let e = google_config_from_env(env(), ConfigFile::Malformed("line 3".into())).unwrap_err();
    assert_eq!(
        e.message(),
        "parsing google-auth.yaml at ./config/plugins/google-auth.yaml: line 3"
    );
}

#[test]
fn the_default_configuration_is_empty() {
    let d = GoogleEnvConfig::default();
    assert_eq!((d.broker_url.as_str(), d.broker_kind.as_str()), ("", ""));
    assert!(d.initial.is_none() && d.config_path.is_none());
}

//! Client id and secret are read again when their files change.

use nexo_plugin_google::{GoogleAuthClient, GoogleAuthConfig, SecretSources};

fn config(id: &str, secret: &str) -> GoogleAuthConfig {
    GoogleAuthConfig {
        client_id: id.into(),
        client_secret: secret.into(),
        scopes: vec![],
        token_file: "/tmp/ws/tok.json".into(),
        redirect_port: 0,
    }
}

fn sources() -> Option<SecretSources> {
    Some(SecretSources {
        client_id_path: "/tmp/ws/cid.txt".into(),
        client_secret_path: "/tmp/ws/cs.txt".into(),
    })
}

#[test]
fn refresh_when_files_change() {
    let mut client = GoogleAuthClient::new_with_sources(
        config("old-client-id", "old-secret"),
        "/tmp/ws",
        sources(),
        Some(1_000_000_000),
        Some(1_000_000_001),
    );

    assert_eq!(client.config().client_id, "old-client-id");
    assert_eq!(client.config().client_secret, "old-secret");

    let written = 1_000_000_001 + 1_100_000_000;
    assert!(client.secrets_changed(written, written));
    assert!(client.refresh_secrets_if_changed(written, written, "new-client-id", "new-secret"));

    assert_eq!(client.config().client_id, "new-client-id");
    assert_eq!(client.config().client_secret, "new-secret");
    assert!(!client.refresh_secrets_if_changed(written, written, "x", "y"));
    assert_eq!(client.config().client_id, "new-client-id");
}

#[test]
fn refresh_no_op_when_files_unchanged() {
    let mut client = GoogleAuthClient::new_with_sources(
        config("stable-id", "stable-secret"),
        "/tmp/ws",
        sources(),
        Some(5),
        Some(7),
    );
    assert!(!client.refresh_secrets_if_changed(5, 7, "other-id", "other-secret"));
    assert_eq!(client.config().client_id, "stable-id");
    assert_eq!(client.config().client_secret, "stable-secret");
}

#[test]
fn refresh_no_op_without_sources() {
    let mut client = GoogleAuthClient::new(config("x", "y"), "/tmp/ws");
    assert!(!client.refresh_secrets_if_changed(i128::MAX, i128::MAX, "new", "new"));
    assert_eq!(client.config().client_id, "x");
    assert!(client.secret_sources().is_none());
}

#[test]
fn unknown_times_count_as_never_read() {
    let mut client = GoogleAuthClient::new_with_sources(
        config("x", "y"),
        "/tmp/ws",
        sources(),
        Some(5),
        None,
    );
    assert!(!client.secrets_changed(-1, 0));
    assert!(client.refresh_secrets_if_changed(1, -3, " id ", "\nsecret\n"));
    assert_eq!(client.config().client_id, "id");
    assert_eq!(client.config().client_secret, "secret");
    assert!(!client.secrets_changed(1, 1));
    assert!(client.secrets_changed(0, 2));
}

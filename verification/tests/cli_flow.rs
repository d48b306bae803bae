//! A consent that is run from the shell.

use nexo_plugin_google::cli::{
    device_banner, is_wsl2, loopback_banner, run_oauth_once, saved_notice, should_use_device_flow,
    split_scopes, OauthRun, ShellMarkers,
};
use nexo_plugin_google::{Cli, Command, DeviceChallenge, OauthOnceArgs};

fn args() -> OauthOnceArgs {
    OauthOnceArgs {
        agent_id: "x".into(),
        client_id_file: "/tmp/cid".into(),
        client_secret_file: "/tmp/cs".into(),
        token_file: "tok.json".into(),
        scopes: "gmail.readonly, drive.readonly".into(),
        redirect_port: 8765,
        workspace_dir: "/tmp/ws".into(),
        device: false,
        remote: false,
    }
}

fn local() -> ShellMarkers {
    ShellMarkers {
        ssh_connection: false,
        ssh_tty: false,
        ssh_client: false,
        os_release: Some("6.8.0-generic\n".into()),
    }
}

fn failure(args: &OauthOnceArgs, id: Option<&str>, secret: Option<&str>) -> String {
    let id = id.map(|s| s.to_string());
    let secret = secret.map(|s| s.to_string());
    match run_oauth_once(args, &id, &secret, &local()) {
        Err(e) => e.message(),
        Ok(_) => panic!("a failure is due"),
    }
}

#[test]
fn device_flow_picked_when_explicit_flag() {
    let args = OauthOnceArgs {
        agent_id: "x".into(),
        client_id_file: "/tmp".into(),
        client_secret_file: "/tmp".into(),
        token_file: "/tmp".into(),
        scopes: String::new(),
        redirect_port: 0,
        workspace_dir: "/tmp".into(),
        device: true,
        remote: false,
    };
    assert!(should_use_device_flow(&args, &local()));
}

#[test]
fn loopback_picked_when_no_flags_no_env() {
    let args = OauthOnceArgs {
        agent_id: "x".into(),
        client_id_file: "/tmp".into(),
        client_secret_file: "/tmp".into(),
        token_file: "/tmp".into(),
        scopes: String::new(),
        redirect_port: 0,
        workspace_dir: "/tmp".into(),
        device: false,
        remote: false,
    };
    let picked_device = should_use_device_flow(&args, &local());
    assert!(!picked_device, "loopback expected when no remote markers");
}

#[test]
fn remote_shells_get_a_device_code() {
    let mut a = args();
    a.remote = true;
    assert!(should_use_device_flow(&a, &local()));
    let mut ssh = local();
    ssh.ssh_connection = true;
    assert!(should_use_device_flow(&args(), &ssh));
    let mut ssh = local();
    ssh.ssh_tty = true;
    assert!(should_use_device_flow(&args(), &ssh));
    let mut ssh = local();
    ssh.ssh_client = true;
    assert!(should_use_device_flow(&args(), &ssh));
    let mut wsl = local();
    wsl.os_release = Some("5.15.90.1-Microsoft-standard-WSL2".into());
    assert!(should_use_device_flow(&args(), &wsl));
}

#[test]
fn wsl2_is_known_by_its_kernel() {
    assert!(is_wsl2(&Some("4.4.0-MICROSOFT".to_string())));
    assert!(!is_wsl2(&Some("6.8.0-micro-soft".to_string())));
    assert!(!is_wsl2(&Some("".to_string())));
    assert!(!is_wsl2(&None));
}

#[test]
fn scopes_are_split_and_trimmed() {
    assert_eq!(split_scopes(" a , ,b,\tc d\n,"), vec!["a", "b", "c d"]);
    assert!(split_scopes("").is_empty());
    assert!(split_scopes(" , ").is_empty());
}

#[test]
fn consents_need_secrets_and_scopes() {
    let a = args();
    assert_eq!(failure(&a, None, None), "reading client_id file at /tmp/cid");
    assert_eq!(failure(&a, Some(""), None), "reading client_secret file at /tmp/cs");
    assert_eq!(failure(&a, Some(" \n"), Some("")), "client_id file empty: /tmp/cid");
    assert_eq!(failure(&a, Some("id"), Some("\t")), "client_secret file empty: /tmp/cs");
    let mut none = args();
    none.scopes = " ,".into();
    assert_eq!(
        failure(&none, Some("id"), Some("secret")),
        "--scopes must list at least one OAuth scope"
    );
}

#[test]
fn consents_are_set_up() {
    let id = Some(" id\n".to_string());
    let secret = Some("secret".to_string());
    match run_oauth_once(&args(), &id, &secret, &local()) {
        Ok(OauthRun::Loopback(c)) => {
            assert_eq!(c.config().client_id, "id");
            assert_eq!(c.config().client_secret, "secret");
            assert_eq!(c.config().scopes, vec!["gmail.readonly", "drive.readonly"]);
            assert_eq!(c.config().redirect_port, 8765);
            assert_eq!(c.token_path(), "/tmp/ws/tok.json");
            assert!(c.secret_sources().is_none());
        }
        _ => panic!("a loopback is due"),
    }
    let mut device = args();
    device.device = true;
    assert!(matches!(run_oauth_once(&device, &id, &secret, &local()), Ok(OauthRun::Device(_))));
}

#[test]
fn the_user_is_told() {
    let banner = loopback_banner("https://u", 81);
    assert!(banner.starts_with("\n╭─ Google OAuth consent (loopback) ─"));
    assert!(banner.contains("\n\n  https://u\n\n2. Login con tu cuenta"));
    assert!(banner.contains("`http://127.0.0.1:81/callback?…` y vas a ver"));
    assert!(banner.ends_with("Esperando callback en 127.0.0.1:81…\n"));
    let banner = device_banner(&DeviceChallenge {
        device_code: "dc".into(),
        user_code: "AB-CD".into(),
        verification_url: "https://g.co/x".into(),
        expires_in: 1800,
        interval: 5,
    });
    assert!(banner.contains("│    https://g.co/x\n│  Código a escribir:  AB-CD\n│  (válido por 1800s)\n"));
    assert!(!banner.contains("dc\n"));
    assert_eq!(
        saved_notice("/t", "ana", true),
        "\n✔ Tokens persistidos en /t (agent `ana`).\n   refresh_token: yes (persistente)\n"
    );
    assert!(saved_notice("/t", "ana", false).contains("refresh_token: no (sólo access_token;"));
}

#[test]
fn commands_hold_their_arguments() {
    let cli = Cli { command: Some(Command::OauthOnce(args())) };
    match cli.command {
        Some(Command::OauthOnce(a)) => assert_eq!(a.agent_id, "x"),
        other => panic!("expected OauthOnce; got {other:?}"),
    }
}

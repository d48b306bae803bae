//! The commands of the program, and a consent that is run from the shell.

use crate::client;
use crate::client::{ClientModel, DeviceChallenge, GoogleAuthClient};
use crate::config::{ConfigModel, GoogleAuthConfig};
use crate::error::GoogleError;
use crate::text;
use crate::text::{concat3, concat5, contains, decimal, is_empty, split, to_lowercase, trim};
use vstd::prelude::*;
use vstd::utf8::*;

verus! {

/// The command line.
#[derive(Debug)]
pub struct Cli {
    /// What to do; without a command the program serves the daemon.
    pub command: Option<Command>,
}

/// A command.
#[derive(Debug)]
pub enum Command {
    /// Print the manifest.
    PrintManifest,
    /// Run a consent, and keep its tokens.
    OauthOnce(OauthOnceArgs),
}

/// The arguments of a consent that is run from the shell.
#[derive(Debug)]
pub struct OauthOnceArgs {
    /// The agent that the tokens are for.
    pub agent_id: String,
    /// The file that holds the client id.
    pub client_id_file: String,
    /// The file that holds the client secret.
    pub client_secret_file: String,
    /// Where the tokens are kept.
    pub token_file: String,
    /// The scopes, separated by commas.
    pub scopes: String,
    /// The port of the loopback callback.
    pub redirect_port: u16,
    /// The directory that a relative `token_file` is seen from.
    pub workspace_dir: String,
    /// Ask for a device code.
    pub device: bool,
    /// The shell is remote.
    pub remote: bool,
}

/// What tells a remote shell: the variables of an SSH session that are set,
/// and the release of the kernel, where it can be read.
pub struct ShellMarkers {
    pub ssh_connection: bool,
    pub ssh_tty: bool,
    pub ssh_client: bool,
    pub os_release: Option<String>,
}

/// The release names the kernel of WSL2.
pub open spec fn wsl2_release(release: Option<Seq<char>>) -> bool {
    match release {
        Some(s) => text::occurs("microsoft"@, text::lowercase(s)),
        None => false,
    }
}

/// Whether the release of the kernel is that of WSL2.
pub fn is_wsl2(os_release: &Option<String>) -> (r: bool)
    ensures
        r == wsl2_release(text::opt_text(*os_release)),
        os_release matches Some(s) ==> is_ascii_chars(s@) ==> text::lowercase(s@)
            == text::ascii_lower(s@),
{
    match os_release {
        Some(s) => contains(to_lowercase(s.as_str()).as_str(), "microsoft"),
        None => false,
    }
}

/// Whether a consent asks for a device code rather than for a callback that
/// the browser of the user may not reach.
pub fn should_use_device_flow(args: &OauthOnceArgs, shell: &ShellMarkers) -> (r: bool)
    ensures
        r == device_flow(*args, *shell),
{
    if args.device {
        return true;
    }
    if args.remote {
        return true;
    }
    if shell.ssh_connection || shell.ssh_tty || shell.ssh_client {
        return true;
    }
    is_wsl2(&shell.os_release)
}

/// A consent asks for a device code.
pub open spec fn device_flow(args: OauthOnceArgs, shell: ShellMarkers) -> bool {
    ||| args.device
    ||| args.remote
    ||| shell.ssh_connection
    ||| shell.ssh_tty
    ||| shell.ssh_client
    ||| wsl2_release(text::opt_text(shell.os_release))
}

/// The parts that are not blank, trimmed.
pub open spec fn nonblank(parts: Seq<Seq<char>>) -> Seq<Seq<char>>
    decreases parts.len(),
{
    if parts.len() == 0 {
        Seq::empty()
    } else {
        let rest = nonblank(parts.drop_last());
        let last = text::trimmed(parts.last());
        if last.len() == 0 {
            rest
        } else {
            rest.push(last)
        }
    }
}

/// The scopes of a list that separates them by commas.
pub open spec fn listed_scopes(list: Seq<char>) -> Seq<Seq<char>> {
    nonblank(text::split_on(list, ','))
}

/// The scopes of a list that separates them by commas.
pub fn split_scopes(list: &str) -> (r: Vec<String>)
    ensures
        text::texts(r@) == listed_scopes(list@),
{
    let parts: Vec<String> = split(list, ',');
    let ghost all = text::texts(parts@);
    let mut out: Vec<String> = Vec::new();
    let mut i: usize = 0;
    assert(all.take(0) =~= Seq::<Seq<char>>::empty());
    assert(text::texts(out@) =~= nonblank(all.take(0)));
    while i < parts.len()
        invariant
            i <= parts@.len(),
            all == text::texts(parts@),
            text::texts(out@) == nonblank(all.take(i as int)),
        decreases parts@.len() - i,
    {
        let part: String = trim(parts[i].as_str());
        assert(all.take(i + 1).drop_last() =~= all.take(i as int));
        assert(all.take(i + 1).last() == parts@[i as int]@);
        if !is_empty(part.as_str()) {
            let ghost before = out@;
            out.push(part);
            assert(text::texts(out@) =~= text::texts(before).push(part@));
        }
        i = i + 1;
    }
    assert(all.take(all.len() as int) =~= all);
    out
}

/// A consent that is to be run.
pub enum OauthRun {
    /// With a callback to this machine.
    Loopback(GoogleAuthClient),
    /// With a code that the user enters on another device.
    Device(GoogleAuthClient),
}

impl OauthRun {
    /// The client that the consent is for.
    pub open spec fn client(self) -> ClientModel {
        match self {
            OauthRun::Loopback(c) => c@,
            OauthRun::Device(c) => c@,
        }
    }
}

/// The client of a consent that is run with the given secrets.
pub open spec fn oauth_client(
    args: OauthOnceArgs,
    client_id: Seq<char>,
    client_secret: Seq<char>,
) -> ClientModel {
    client::initial_client(
        ConfigModel {
            client_id: text::trimmed(client_id),
            client_secret: text::trimmed(client_secret),
            scopes: listed_scopes(args.scopes@),
            token_file: args.token_file@,
            redirect_port: args.redirect_port,
        },
        args.workspace_dir@,
        None,
        None,
        None,
    )
}

/// How a consent is run, where the two files were found to hold the given
/// texts.
pub open spec fn oauth_outcome(
    args: OauthOnceArgs,
    client_id: Option<Seq<char>>,
    client_secret: Option<Seq<char>>,
    shell: ShellMarkers,
    r: Result<OauthRun, GoogleError>,
) -> bool {
    if client_id is None {
        &&& r matches Err(GoogleError::ClientIdFile(path))
        &&& path@ == args.client_id_file@
    } else if client_secret is None {
        &&& r matches Err(GoogleError::ClientSecretFile(path))
        &&& path@ == args.client_secret_file@
    } else if text::trimmed(client_id->0).len() == 0 {
        &&& r matches Err(GoogleError::ClientIdEmpty(path))
        &&& path@ == args.client_id_file@
    } else if text::trimmed(client_secret->0).len() == 0 {
        &&& r matches Err(GoogleError::ClientSecretEmpty(path))
        &&& path@ == args.client_secret_file@
    } else if listed_scopes(args.scopes@).len() == 0 {
        r matches Err(GoogleError::NoScopes)
    } else {
        &&& r matches Ok(run)
        &&& run is Device <==> device_flow(args, shell)
        &&& run.client() == oauth_client(args, client_id->0, client_secret->0)
    }
}

/// How a consent is run, where the two files were found to hold the given
/// texts.
pub fn run_oauth_once(
    args: &OauthOnceArgs,
    client_id: &Option<String>,
    client_secret: &Option<String>,
    shell: &ShellMarkers,
) -> (r: Result<OauthRun, GoogleError>)
    ensures
        oauth_outcome(
            *args,
            text::opt_text(*client_id),
            text::opt_text(*client_secret),
            *shell,
            r,
        ),
{
    let client_id: String = match client_id {
        Some(s) => trim(s.as_str()),
        None => {
            return Err(GoogleError::ClientIdFile(args.client_id_file.as_str().to_owned()));
        },
    };
    let client_secret: String = match client_secret {
        Some(s) => trim(s.as_str()),
        None => {
            return Err(GoogleError::ClientSecretFile(args.client_secret_file.as_str().to_owned()));
        },
    };
    if is_empty(client_id.as_str()) {
        return Err(GoogleError::ClientIdEmpty(args.client_id_file.as_str().to_owned()));
    }
    if is_empty(client_secret.as_str()) {
        return Err(GoogleError::ClientSecretEmpty(args.client_secret_file.as_str().to_owned()));
    }
    let scopes: Vec<String> = split_scopes(args.scopes.as_str());
    assert(text::texts(scopes@).len() == scopes@.len());
    if scopes.len() == 0 {
        return Err(GoogleError::NoScopes);
    }
    let config: GoogleAuthConfig = GoogleAuthConfig {
        client_id,
        client_secret,
        scopes,
        token_file: args.token_file.as_str().to_owned(),
        redirect_port: args.redirect_port,
    };
    let client: GoogleAuthClient = GoogleAuthClient::new(config, args.workspace_dir.as_str());
    if should_use_device_flow(args, shell) {
        Ok(OauthRun::Device(client))
    } else {
        Ok(OauthRun::Loopback(client))
    }
}

// ---------------------------------------------------------------------------
// What the user is told

/// What the user is told who is to consent with a callback.
pub fn loopback_banner(url: &str, redirect_port: u16) -> (r: String)
    ensures
        r@ == "\n╭─ Google OAuth consent (loopback) ─────────────────────────────╮\n│ 1. Abrí este link en cualquier browser (laptop/celular):       │\n╰────────────────────────────────────────────────────────────────╯\n\n  "@
            + url@
            + "\n\n2. Login con tu cuenta de Google → click Allow.\n\n3. El browser te va a redirigir a `http://127.0.0.1:"@
            + text::decimal_text(redirect_port as nat)
            + ("/callback?…` y vas a ver `Authorisation received ✓`.\n\nEsperando callback en 127.0.0.1:"@
            + text::decimal_text(redirect_port as nat) + "…\n"@),
{
    let port: String = decimal(redirect_port as u64);
    let end: String = concat3(
        "/callback?…` y vas a ver `Authorisation received ✓`.\n\nEsperando callback en 127.0.0.1:",
        port.as_str(),
        "…\n",
    );
    concat5(
        "\n╭─ Google OAuth consent (loopback) ─────────────────────────────╮\n│ 1. Abrí este link en cualquier browser (laptop/celular):       │\n╰────────────────────────────────────────────────────────────────╯\n\n  ",
        url,
        "\n\n2. Login con tu cuenta de Google → click Allow.\n\n3. El browser te va a redirigir a `http://127.0.0.1:",
        port.as_str(),
        end.as_str(),
    )
}

/// What the user is told who is to enter a code on another device.
pub fn device_banner(challenge: &DeviceChallenge) -> (r: String)
    ensures
        r@ == "\n╭─ Google OAuth consent (device-code) ──────────────────────────╮\n│  Abrí en cualquier navegador:                                  │\n│    "@
            + challenge@.verification_url + "\n│  Código a escribir:  "@ + challenge@.user_code
            + ("\n│  (válido por "@ + text::decimal_text(challenge@.expires_in as nat)
            + "s)\n╰────────────────────────────────────────────────────────────────╯\n\nEsperando aprobación…\n"@),
{
    let end: String = concat3(
        "\n│  (válido por ",
        decimal(challenge.expires_in).as_str(),
        "s)\n╰────────────────────────────────────────────────────────────────╯\n\nEsperando aprobación…\n",
    );
    concat5(
        "\n╭─ Google OAuth consent (device-code) ──────────────────────────╮\n│  Abrí en cualquier navegador:                                  │\n│    ",
        challenge.verification_url.as_str(),
        "\n│  Código a escribir:  ",
        challenge.user_code.as_str(),
        end.as_str(),
    )
}

/// Whether the tokens can be renewed, as the user is told.
pub open spec fn refresh_notice(has_refresh: bool) -> Seq<char> {
    if has_refresh {
        "yes (persistente)"@
    } else {
        "no (sólo access_token; correr de nuevo con prompt=consent)"@
    }
}

/// What the user is told once the tokens are on file.
pub fn saved_notice(token_path: &str, agent_id: &str, has_refresh: bool) -> (r: String)
    ensures
        r@ == "\n✔ Tokens persistidos en "@ + token_path@ + " (agent `"@ + agent_id@
            + ("`).\n   refresh_token: "@ + refresh_notice(has_refresh) + "\n"@),
{
    let refresh: &str = if has_refresh {
        "yes (persistente)"
    } else {
        "no (sólo access_token; correr de nuevo con prompt=consent)"
    };
    let end: String = concat3("`).\n   refresh_token: ", refresh, "\n");
    concat5("\n✔ Tokens persistidos en ", token_path, " (agent `", agent_id, end.as_str())
}

// ---------------------------------------------------------------------------
// Laws

/// A device code is asked for where the user says so, or where the shell is not
/// on the machine of the user: each sign of that will do, and without any of
/// them the callback is used.
pub proof fn remote_shells_use_device_codes(args: OauthOnceArgs, shell: ShellMarkers)
    ensures
        args.device || args.remote ==> device_flow(args, shell),
        shell.ssh_connection || shell.ssh_tty || shell.ssh_client ==> device_flow(args, shell),
        shell.os_release matches Some(s) && text::occurs("microsoft"@, text::lowercase(s@))
            ==> device_flow(args, shell),
        !args.device && !args.remote && !shell.ssh_connection && !shell.ssh_tty && !shell.ssh_client
            && (shell.os_release matches Some(s) ==> !text::occurs(
            "microsoft"@,
            text::lowercase(s@),
        )) ==> !device_flow(args, shell),
{
}

proof fn lemma_nonblank_append(a: Seq<Seq<char>>, b: Seq<Seq<char>>)
    ensures
        nonblank(a + b) == nonblank(a) + nonblank(b),
    decreases b.len(),
{
    if b.len() == 0 {
        assert(a + b =~= a);
        assert(nonblank(a) + nonblank(b) =~= nonblank(a));
    } else {
        assert((a + b).drop_last() =~= a + b.drop_last());
        lemma_nonblank_append(a, b.drop_last());
        assert(nonblank(a + b) =~= nonblank(a) + nonblank(b));
    }
}

/// A list names what stands between its commas, without the white space around
/// it. Blank places name nothing.
pub proof fn lists_are_read_between_commas(
    list: Seq<char>,
    rest: Seq<char>,
    before: Seq<char>,
    scope: Seq<char>,
    after: Seq<char>,
)
    requires
        forall|i: int| 0 <= i < before.len() ==> text::is_space(#[trigger] before[i]),
        forall|i: int| 0 <= i < after.len() ==> text::is_space(#[trigger] after[i]),
        scope.len() > 0 ==> !text::is_space(scope[0]) && !text::is_space(scope.last()),
        !scope.contains(','),
    ensures
        listed_scopes(list + seq![','] + rest) == listed_scopes(list) + listed_scopes(rest),
        scope.len() > 0 ==> listed_scopes(before + scope + after) == seq![scope],
        scope.len() == 0 ==> listed_scopes(before + scope + after) == Seq::<Seq<char>>::empty(),
{
    text::splitting_goes_part_by_part(list, ',', rest);
    lemma_nonblank_append(text::split_on(list, ','), text::split_on(rest, ','));
    let s = before + scope + after;
    assert(!s.contains(',')) by {
        assert forall|i: int| 0 <= i < s.len() implies s[i] != ',' by {
            if i < before.len() {
                assert(s[i] == before[i]);
                assert(text::is_space(before[i]));
            } else if i < before.len() + scope.len() {
                assert(s[i] == scope[i - before.len()]);
                assert(scope.contains(scope[i - before.len()]));
            } else {
                assert(s[i] == after[i - before.len() - scope.len()]);
                assert(text::is_space(after[i - before.len() - scope.len()]));
            }
        }
    }
    text::splitting_goes_part_by_part(s, ',', rest);
    text::trimming_takes_white_space_only(before, scope, after);
    reveal_with_fuel(nonblank, 2);
    assert(seq![s].drop_last() =~= Seq::<Seq<char>>::empty());
    assert(nonblank(seq![s]) =~= (if scope.len() > 0 {
        seq![scope]
    } else {
        Seq::<Seq<char>>::empty()
    }));
}

/// A consent from the shell needs a client id, a client secret and a scope. Each
/// that is missing is reported with its file; the id and the secret are used
/// without the white space around them, and all else as it is given.
pub proof fn consents_from_the_shell_need_their_parts(
    args: OauthOnceArgs,
    shell: ShellMarkers,
    client_id: Option<Seq<char>>,
    client_secret: Option<Seq<char>>,
    r: Result<OauthRun, GoogleError>,
    before: Seq<char>,
    id: Seq<char>,
    secret: Seq<char>,
    after: Seq<char>,
)
    requires
        oauth_outcome(args, client_id, client_secret, shell, r),
        forall|i: int| 0 <= i < before.len() ==> text::is_space(#[trigger] before[i]),
        forall|i: int| 0 <= i < after.len() ==> text::is_space(#[trigger] after[i]),
        id.len() > 0 ==> !text::is_space(id[0]) && !text::is_space(id.last()),
        secret.len() > 0 ==> !text::is_space(secret[0]) && !text::is_space(secret.last()),
        client_id is Some ==> client_id == Some(before + id + after),
        client_secret is Some ==> client_secret == Some(before + secret + after),
    ensures
        client_id is None ==> (r matches Err(GoogleError::ClientIdFile(path)) && path@
            == args.client_id_file@),
        client_id is Some && client_secret is None ==> (
        r matches Err(GoogleError::ClientSecretFile(path)) && path@ == args.client_secret_file@),
        client_id is Some && client_secret is Some ==> {
            &&& id.len() == 0 ==> (r matches Err(GoogleError::ClientIdEmpty(path)) && path@
                == args.client_id_file@)
            &&& id.len() > 0 && secret.len() == 0 ==> (
            r matches Err(GoogleError::ClientSecretEmpty(path)) && path@
                == args.client_secret_file@)
            &&& id.len() > 0 && secret.len() > 0 && listed_scopes(args.scopes@).len() == 0
                ==> (r matches Err(e) && e is NoScopes)
            &&& id.len() > 0 && secret.len() > 0 && listed_scopes(args.scopes@).len() > 0 ==> {
                &&& r matches Ok(run)
                &&& run is Device <==> device_flow(args, shell)
                &&& run.client().config.client_id == id
                &&& run.client().config.client_secret == secret
                &&& run.client().config.scopes == listed_scopes(args.scopes@)
                &&& run.client().config.redirect_port == args.redirect_port
                &&& run.client().config.token_file == args.token_file@
                &&& run.client().tokens is None
                &&& run.client().secrets is None
                &&& seq!['/'].is_prefix_of(args.token_file@) ==> run.client().token_path
                    == args.token_file@
                &&& !seq!['/'].is_prefix_of(args.token_file@) && args.workspace_dir@.len() > 0
                    && args.workspace_dir@.last() != '/' ==> run.client().token_path
                    == args.workspace_dir@ + seq!['/'] + args.token_file@
            }
        },
{
    text::trimming_takes_white_space_only(before, id, after);
    text::trimming_takes_white_space_only(before, secret, after);
    if client_id is Some && client_secret is Some {
        client::new_clients_hold_nothing(
            oauth_client(args, client_id->0, client_secret->0).config,
            args.workspace_dir@,
            None,
            None,
            None,
        );
    }
}

/// The user is told whether the tokens can be renewed.
pub proof fn renewable_tokens_are_told(has_refresh: bool)
    ensures
        has_refresh <==> "yes"@.is_prefix_of(refresh_notice(has_refresh)),
        !has_refresh <==> "no"@.is_prefix_of(refresh_notice(has_refresh)),
{
    reveal_strlit("yes");
    reveal_strlit("no");
    reveal_strlit("yes (persistente)");
    reveal_strlit("no (sólo access_token; correr de nuevo con prompt=consent)");
    let notice = refresh_notice(has_refresh);
    if has_refresh {
        assert("yes"@ =~= notice.subrange(0, 3));
        assert("no"@[0] != notice.subrange(0, 2)[0]);
    } else {
        assert("no"@ =~= notice.subrange(0, 2));
        assert("yes"@[0] != notice.subrange(0, 3)[0]);
    }
}

} // verus!

//! The configuration that the daemon hands over in the environment.
//!
//! The accounts stand in a YAML file. It is looked for at
//! `NEXO_PLUGIN_GOOGLE_CONFIG_PATH`, else below `NEXO_CONFIG_DIR`, else below
//! the working directory.

use crate::error::GoogleError;
use crate::paths;
use crate::paths::resolve;
use crate::plugin::GoogleAuthFile;
use crate::text;
use crate::text::{is_empty, starts_with};
use vstd::prelude::*;

verus! {

/// The variables that the plugin reads, where they are set.
pub struct EnvVars {
    /// `NEXO_BROKER_URL`
    pub broker_url: Option<String>,
    /// `NEXO_BROKER_KIND`
    pub broker_kind: Option<String>,
    /// `NEXO_CONFIG_DIR`
    pub config_dir: Option<String>,
    /// `NEXO_PLUGIN_GOOGLE_CONFIG_PATH`
    pub config_path: Option<String>,
}

/// What the environment says of the broker and of the accounts.
#[derive(Debug)]
pub struct GoogleEnvConfig {
    pub broker_url: String,
    pub broker_kind: String,
    /// The accounts, where the file exists.
    pub initial: Option<GoogleAuthFile>,
    /// Where the file was looked for.
    pub config_path: Option<String>,
}

impl Default for GoogleEnvConfig {
    fn default() -> (r: Self)
        ensures
            r.broker_url@ == ""@,
            r.broker_kind@ == ""@,
            r.initial is None,
            r.config_path is None,
    {
        GoogleEnvConfig {
            broker_url: "".to_owned(),
            broker_kind: "".to_owned(),
            initial: None,
            config_path: None,
        }
    }
}

/// The broker at this address speaks NATS.
pub open spec fn nats_url(url: Seq<char>) -> bool {
    "nats://"@.is_prefix_of(url)
}

/// Whether the broker at this address speaks NATS.
pub fn is_nats_url(url: &str) -> (r: bool)
    ensures
        r == nats_url(url@),
{
    starts_with(url, "nats://")
}

/// The kind of the broker: the one that is named, else the one that the
/// address implies.
pub open spec fn broker_kind_of(url: Seq<char>, named: Option<Seq<char>>) -> Seq<char> {
    match named {
        Some(kind) => kind,
        None => if nats_url(url) {
            "nats"@
        } else {
            "local"@
        },
    }
}

/// Where the configuration file is looked for.
pub open spec fn config_path_of(explicit: Option<Seq<char>>, dir: Option<Seq<char>>) -> Seq<char> {
    if explicit is Some && explicit->0.len() > 0 {
        explicit->0
    } else if dir is Some && dir->0.len() > 0 {
        paths::resolved(dir->0, "plugins/google-auth.yaml"@)
    } else {
        "./config/plugins/google-auth.yaml"@
    }
}

/// Where the configuration file is looked for.
pub fn resolve_config_path(env: &EnvVars) -> (r: String)
    ensures
        r@ == config_path_of(text::opt_text(env.config_path), text::opt_text(env.config_dir)),
{
    if let Some(p) = &env.config_path {
        if !is_empty(p.as_str()) {
            return p.as_str().to_owned();
        }
    }
    if let Some(dir) = &env.config_dir {
        if !is_empty(dir.as_str()) {
            return resolve(dir.as_str(), "plugins/google-auth.yaml");
        }
    }
    "./config/plugins/google-auth.yaml".to_owned()
}

/// What was found where the configuration file is looked for.
pub enum ConfigFile {
    /// There is no such file, or it cannot be read.
    Missing,
    /// It cannot be parsed, for the given reason.
    Malformed(String),
    Parsed(GoogleAuthFile),
}

/// The configuration that the environment and the file say.
pub open spec fn env_outcome(
    env: EnvVars,
    file: ConfigFile,
    r: Result<GoogleEnvConfig, GoogleError>,
) -> bool {
    let path = config_path_of(text::opt_text(env.config_path), text::opt_text(env.config_dir));
    let url = match text::opt_text(env.broker_url) {
        Some(u) => u,
        None => ""@,
    };
    match file {
        ConfigFile::Malformed(why) => {
            &&& r matches Err(GoogleError::ConfigMalformed { path: p, reason })
            &&& p@ == path
            &&& reason@ == why@
        },
        ConfigFile::Missing => {
            &&& r matches Ok(config)
            &&& config.broker_url@ == url
            &&& config.broker_kind@ == broker_kind_of(url, text::opt_text(env.broker_kind))
            &&& config.initial is None
            &&& text::opt_text(config.config_path) == Some(path)
        },
        ConfigFile::Parsed(accounts) => {
            &&& r matches Ok(config)
            &&& config.broker_url@ == url
            &&& config.broker_kind@ == broker_kind_of(url, text::opt_text(env.broker_kind))
            &&& config.initial == Some(accounts)
            &&& text::opt_text(config.config_path) == Some(path)
        },
    }
}

/// The configuration that the environment says, together with the file that
/// was looked for at [`resolve_config_path`]. The only failure is a file that
/// cannot be parsed.
pub fn google_config_from_env(env: EnvVars, file: ConfigFile) -> (r: Result<
    GoogleEnvConfig,
    GoogleError,
>)
    ensures
        env_outcome(env, file, r),
{
    let path: String = resolve_config_path(&env);
    let initial: Option<GoogleAuthFile> = match file {
        ConfigFile::Missing => None,
        ConfigFile::Parsed(accounts) => Some(accounts),
        ConfigFile::Malformed(reason) => {
            return Err(GoogleError::ConfigMalformed { path, reason });
        },
    };
    let broker_url: String = match env.broker_url {
        Some(u) => u,
        None => "".to_owned(),
    };
    let broker_kind: String = match env.broker_kind {
        Some(k) => k,
        None => if is_nats_url(broker_url.as_str()) {
            "nats".to_owned()
        } else {
            "local".to_owned()
        },
    };
    Ok(GoogleEnvConfig { broker_url, broker_kind, initial, config_path: Some(path) })
}

/// A path that is named wins over every directory.
pub proof fn named_paths_win(explicit: Seq<char>, dir: Option<Seq<char>>)
    requires
        explicit.len() > 0,
    ensures
        config_path_of(Some(explicit), dir) == explicit,
{
}

/// A kind that is named wins over the address; else an address of NATS means
/// NATS, and any other a local broker.
pub proof fn named_kinds_win(url: Seq<char>, kind: Seq<char>)
    ensures
        broker_kind_of(url, Some(kind)) == kind,
        nats_url(url) ==> broker_kind_of(url, None) == "nats"@,
        !nats_url(url) ==> broker_kind_of(url, None) == "local"@,
{
}

/// A broker whose kind is not named speaks NATS where its address begins with
/// `nats://`, and is a local one elsewhere.
pub proof fn addresses_imply_the_kind(url: Seq<char>, rest: Seq<char>)
    ensures
        broker_kind_of("nats://"@ + rest, None) == "nats"@,
        !"nats://"@.is_prefix_of(url) ==> broker_kind_of(url, None) == "local"@,
{
    reveal_strlit("nats://");
    assert("nats://"@ =~= ("nats://"@ + rest).subrange(0, 7));
}

/// The configuration file is looked for at the path that is named, else below
/// the directory that is named, else below the working directory. An empty name
/// counts as none.
pub proof fn the_file_is_looked_for_in_turn(explicit: Seq<char>, dir: Seq<char>)
    requires
        explicit.len() > 0,
        dir.len() > 0,
        dir.last() != '/',
    ensures
        config_path_of(Some(explicit), Some(dir)) == explicit,
        config_path_of(Some(explicit), None) == explicit,
        config_path_of(None, Some(dir)) == dir + "/plugins/google-auth.yaml"@,
        config_path_of(Some(Seq::empty()), Some(dir)) == dir + "/plugins/google-auth.yaml"@,
        config_path_of(None, Some(dir + seq!['/'])) == dir + "/plugins/google-auth.yaml"@,
        config_path_of(None, None) == "./config/plugins/google-auth.yaml"@,
        config_path_of(None, Some(Seq::empty())) == "./config/plugins/google-auth.yaml"@,
        config_path_of(Some(Seq::empty()), None) == "./config/plugins/google-auth.yaml"@,
{
    reveal_strlit("/plugins/google-auth.yaml");
    reveal_strlit("plugins/google-auth.yaml");
    let file = "plugins/google-auth.yaml"@;
    assert("/plugins/google-auth.yaml"@ =~= seq!['/'] + file);
    if seq!['/'].is_prefix_of(file) {
        assert(seq!['/'][0] == file.subrange(0, 1)[0]);
    }
    paths::paths_are_seen_from_their_directory(dir, file);
    assert(dir + seq!['/'] + file =~= dir + "/plugins/google-auth.yaml"@);
}

/// The environment fails only on a file that cannot be parsed. Else its address
/// and kind of the broker, the accounts of the file and the place of that are
/// taken over; an address that is not set is empty.
pub proof fn only_malformed_files_fail(
    env: EnvVars,
    file: ConfigFile,
    r: Result<GoogleEnvConfig, GoogleError>,
)
    requires
        env_outcome(env, file, r),
    ensures
        r is Err <==> file is Malformed,
        r matches Err(e) ==> (e matches GoogleError::ConfigMalformed { path, reason } && reason@
            == file->Malformed_0@ && path@ == config_path_of(
            text::opt_text(env.config_path),
            text::opt_text(env.config_dir),
        )),
        r matches Ok(config) ==> {
            &&& env.broker_url matches Some(u) ==> config.broker_url@ == u@
            &&& env.broker_url is None ==> config.broker_url@ == ""@
            &&& env.broker_kind matches Some(k) ==> config.broker_kind@ == k@
            &&& env.broker_kind is None ==> config.broker_kind@ == broker_kind_of(
                config.broker_url@,
                None,
            )
            &&& file is Missing ==> config.initial is None
            &&& file matches ConfigFile::Parsed(accounts) ==> config.initial == Some(accounts)
            &&& config.config_path matches Some(p) && p@ == config_path_of(
                text::opt_text(env.config_path),
                text::opt_text(env.config_dir),
            )
        },
{
}

} // verus!

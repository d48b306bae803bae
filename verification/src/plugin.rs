//! The accounts of the plugin, and the tools that work on them.

use crate::client;
use crate::client::{redirect_uri_for, ClientModel, GoogleAuthClient, TokenFile};
use crate::clock;
use crate::clock::now_timestamp;
use crate::config::{ConfigModel, GoogleAuthConfig, SecretSources};
use crate::error::GoogleError;
use crate::http;
use crate::http::is_google_api_url;
use crate::json;
use crate::json::{text_array, Json, JsonModel, Members};
use crate::registry;
use crate::registry::{table_get, table_insert, table_len, table_names, table_new};
use crate::text;
use crate::text::{copy_texts, str_eq, trim};
use crate::tokens::TokensModel;
use dashmap::DashMap;
use vstd::prelude::*;

verus! {

// ---------------------------------------------------------------------------
// The configuration file

/// One account of the configuration file.
#[derive(Debug, Clone)]
pub struct GoogleAccount {
    /// The name of the account, by convention its mail address.
    pub id: String,
    /// The agent that owns the account. An agent may own several.
    pub agent_id: String,
    /// The file that holds the client id.
    pub client_id_path: String,
    /// The file that holds the client secret.
    pub client_secret_path: String,
    /// Where the tokens are kept: absolute, or relative to the working
    /// directory.
    pub token_path: String,
    /// The scopes to ask for, in full or in their short form.
    pub scopes: Vec<String>,
    /// The port of the loopback callback.
    pub redirect_port: u16,
}

/// The model of an account.
#[verifier::ext_equal]
pub struct AccountModel {
    pub id: Seq<char>,
    pub agent_id: Seq<char>,
    pub client_id_path: Seq<char>,
    pub client_secret_path: Seq<char>,
    pub token_path: Seq<char>,
    pub scopes: Seq<Seq<char>>,
    pub redirect_port: u16,
}

impl View for GoogleAccount {
    type V = AccountModel;

    open spec fn view(&self) -> AccountModel {
        AccountModel {
            id: self.id@,
            agent_id: self.agent_id@,
            client_id_path: self.client_id_path@,
            client_secret_path: self.client_secret_path@,
            token_path: self.token_path@,
            scopes: text::texts(self.scopes@),
            redirect_port: self.redirect_port,
        }
    }
}

/// The configuration file.
#[derive(Debug, Clone)]
pub struct GoogleAuthFile {
    pub accounts: Vec<GoogleAccount>,
}

impl Default for GoogleAuthFile {
    fn default() -> (r: Self)
        ensures
            r.accounts@.len() == 0,
    {
        GoogleAuthFile { accounts: Vec::new() }
    }
}

/// An account together with what was found in its files. The times are those
/// of the last change of the two secrets, where they can be told.
pub struct AccountFiles {
    pub account: GoogleAccount,
    pub client_id: Option<String>,
    pub client_secret: Option<String>,
    pub id_mtime: Option<i128>,
    pub secret_mtime: Option<i128>,
    pub tokens: TokenFile,
}

/// The model of an account together with its files.
#[verifier::ext_equal]
pub struct AccountFilesModel {
    pub account: AccountModel,
    pub client_id: Option<Seq<char>>,
    pub client_secret: Option<Seq<char>>,
    pub id_mtime: Option<i128>,
    pub secret_mtime: Option<i128>,
    pub tokens: Option<TokensModel>,
}

impl View for AccountFiles {
    type V = AccountFilesModel;

    open spec fn view(&self) -> AccountFilesModel {
        AccountFilesModel {
            account: self.account@,
            client_id: text::opt_text(self.client_id),
            client_secret: text::opt_text(self.client_secret),
            id_mtime: self.id_mtime,
            secret_mtime: self.secret_mtime,
            tokens: match self.tokens {
                TokenFile::Tokens(t) => Some(t@),
                _ => None,
            },
        }
    }
}

impl AccountFilesModel {
    /// One of the secrets cannot be read.
    pub open spec fn unreadable(self) -> bool {
        self.client_id is None || self.client_secret is None
    }

    /// The client of the account. Tokens that cannot be read do not count.
    pub open spec fn client(self) -> ClientModel {
        client::initial_client(
            ConfigModel {
                client_id: text::trimmed(self.client_id->0),
                client_secret: text::trimmed(self.client_secret->0),
                scopes: self.account.scopes,
                token_file: self.account.token_path,
                redirect_port: self.account.redirect_port,
            },
            ""@,
            Some((self.account.client_id_path, self.account.client_secret_path)),
            self.id_mtime,
            self.secret_mtime,
        ).with_tokens(self.tokens)
    }
}

/// The models of a list of accounts with their files.
pub open spec fn files_model(files: Seq<AccountFiles>) -> Seq<AccountFilesModel> {
    Seq::new(files.len(), |i: int| files[i]@)
}

/// The account at position `i` is the first whose secrets cannot be read.
pub open spec fn first_unreadable(files: Seq<AccountFilesModel>, i: int) -> bool {
    &&& 0 <= i < files.len()
    &&& files[i].unreadable()
    &&& forall|j: int| 0 <= j < i ==> !(#[trigger] files[j]).unreadable()
}

/// `error` reports that a secret of `file` cannot be read.
pub open spec fn reports_unreadable(error: GoogleError, file: AccountFilesModel) -> bool {
    if file.client_id is None {
        &&& error matches GoogleError::ClientIdUnreadable { account, path }
        &&& account@ == file.account.id
        &&& path@ == file.account.client_id_path
    } else {
        &&& error matches GoogleError::ClientSecretUnreadable { account, path }
        &&& account@ == file.account.id
        &&& path@ == file.account.client_secret_path
    }
}

// ---------------------------------------------------------------------------
// State

/// The state of the plugin: a client for every account, and for every agent
/// the accounts that it owns, in the order in which they were declared.
pub struct GooglePlugin {
    clients: Vec<GoogleAuthClient>,
    accounts: DashMap<String, usize>,
    lists: Vec<Vec<String>>,
    agents: DashMap<String, usize>,
}

impl Default for GooglePlugin {
    fn default() -> (r: Self)
        ensures
            r.valid(),
            r@ == PluginModel::empty(),
    {
        GooglePlugin::new()
    }
}

/// The model of the plugin.
#[verifier::ext_equal]
pub struct PluginModel {
    /// The client of each account.
    pub accounts: Map<Seq<char>, ClientModel>,
    /// The accounts of each agent, in order.
    pub agents: Map<Seq<char>, Seq<Seq<char>>>,
}

impl View for GooglePlugin {
    type V = PluginModel;

    closed spec fn view(&self) -> PluginModel {
        PluginModel {
            accounts: Map::new(
                |k: Seq<char>| registry::slots_of(self.accounts).contains_key(k),
                |k: Seq<char>| self.clients@[registry::slots_of(self.accounts)[k] as int]@,
            ),
            agents: Map::new(
                |k: Seq<char>| registry::slots_of(self.agents).contains_key(k),
                |k: Seq<char>| text::texts(self.lists@[registry::slots_of(self.agents)[k] as int]@),
            ),
        }
    }
}

/// Every slot lies below `len`, and no two names share one.
spec fn slots_ok(slots: Map<Seq<char>, usize>, len: nat) -> bool {
    &&& forall|k: Seq<char>| #[trigger] slots.contains_key(k) ==> slots[k] < len
    &&& forall|a: Seq<char>, b: Seq<char>|
        #[trigger] slots.contains_key(a) && #[trigger] slots.contains_key(b) && slots[a] == slots[b]
            ==> a == b
}

impl PluginModel {
    /// The plugin without accounts.
    pub open spec fn empty() -> PluginModel {
        PluginModel {
            accounts: Map::<Seq<char>, ClientModel>::empty(),
            agents: Map::<Seq<char>, Seq<Seq<char>>>::empty(),
        }
    }

    /// The accounts of an agent, in order.
    pub open spec fn accounts_of(self, agent: Seq<char>) -> Seq<Seq<char>> {
        if self.agents.contains_key(agent) {
            self.agents[agent]
        } else {
            Seq::empty()
        }
    }

    /// The plugin with one more account.
    pub open spec fn with_account(self, f: AccountFilesModel) -> PluginModel {
        PluginModel {
            accounts: self.accounts.insert(f.account.id, f.client()),
            agents: self.agents.insert(
                f.account.agent_id,
                self.accounts_of(f.account.agent_id).push(f.account.id),
            ),
        }
    }

    /// Every agent owns an account, every account of an agent has a client,
    /// and every client belongs to an agent.
    pub open spec fn consistent(self) -> bool {
        &&& self.accounts.dom().finite()
        &&& self.agents.dom().finite()
        &&& forall|a: Seq<char>| #[trigger]
            self.agents.contains_key(a) ==> self.agents[a].len() > 0
        &&& forall|a: Seq<char>, i: int|
            self.agents.contains_key(a) && 0 <= i < self.agents[a].len()
                ==> self.accounts.contains_key(#[trigger] self.agents[a][i])
        &&& forall|id: Seq<char>| #[trigger]
            self.accounts.contains_key(id) ==> exists|a: Seq<char>| #[trigger]
                self.agents.contains_key(a) && self.agents[a].contains(id)
    }
}

/// The plugin after it was configured with `files`.
pub open spec fn configured(files: Seq<AccountFilesModel>) -> PluginModel
    decreases files.len(),
{
    if files.len() == 0 {
        PluginModel::empty()
    } else {
        configured(files.drop_last()).with_account(files.last())
    }
}

proof fn lemma_with_account_consistent(m: PluginModel, f: AccountFilesModel)
    requires
        m.consistent(),
    ensures
        m.with_account(f).consistent(),
{
    let n = m.with_account(f);
    let agent = f.account.agent_id;
    let id = f.account.id;
    assert(n.agents[agent].last() == id);
    assert forall|a: Seq<char>, i: int|
        n.agents.contains_key(a) && 0 <= i < n.agents[a].len() implies n.accounts.contains_key(
        #[trigger] n.agents[a][i],
    ) by {
        if a == agent {
            if i < m.accounts_of(agent).len() {
                assert(n.agents[a][i] == m.agents[a][i]);
            }
        } else {
            assert(n.agents[a][i] == m.agents[a][i]);
        }
    }
    assert forall|k: Seq<char>| #[trigger] n.accounts.contains_key(k) implies exists|a: Seq<char>|
     #[trigger]
        n.agents.contains_key(a) && n.agents[a].contains(k) by {
        if k == id {
            let at = n.agents[agent].len() - 1;
            assert(n.agents[agent][at] == id);
            assert(n.agents.contains_key(agent) && n.agents[agent].contains(k));
        } else {
            let a = choose|a: Seq<char>| #[trigger]
                m.agents.contains_key(a) && m.agents[a].contains(k);
            let i = choose|i: int| 0 <= i < m.agents[a].len() && m.agents[a][i] == k;
            assert(n.agents[a][i] == k);
            assert(n.agents.contains_key(a) && n.agents[a].contains(k));
        }
    }
}

// ---------------------------------------------------------------------------
// Tools

/// What a tool does.
pub enum ToolAction {
    /// Start a consent of the account.
    StartConsent,
    /// Answer with this.
    Answer(Json),
    /// Make this API call with the tokens of the account.
    Call { method: String, url: String, body: Option<Json> },
    /// Revoke the tokens of the account.
    Revoke,
}

/// What a tool does, and the account that it is about.
pub struct ToolStep {
    pub account: String,
    pub action: ToolAction,
}

/// Why a call is about no account.
pub enum Untargeted {
    /// The account has no client, or it is not the agent's to use.
    Account(Seq<char>),
    /// The agent owns no account.
    Agent(Seq<char>),
}

impl Untargeted {
    /// The message of the error that reports this.
    pub open spec fn text(self) -> Seq<char> {
        match self {
            Untargeted::Account(id) => "account `"@ + id + "` is not configured"@,
            Untargeted::Agent(agent) => "agent `"@ + agent
                + "` is not configured for google_auth (no entry in `google-auth.yaml::accounts[].agent_id`)"@,
        }
    }
}

/// `error` reports why a call is about no account.
pub open spec fn untargeted(error: GoogleError, why: Result<Seq<char>, Untargeted>) -> bool {
    match why {
        Ok(_) => false,
        Err(Untargeted::Account(id)) => {
            &&& error matches GoogleError::AccountNotConfigured(a)
            &&& a@ == id
        },
        Err(Untargeted::Agent(agent)) => {
            &&& error matches GoogleError::AgentNotConfigured(a)
            &&& a@ == agent
        },
    }
}

/// The text of an optional string.
pub open spec fn opt_str(s: Option<&str>) -> Option<Seq<char>> {
    match s {
        Some(t) => Some(t@),
        None => None,
    }
}

impl PluginModel {
    /// The account that a request is about: the one that it names, else the
    /// first of the agent, where the agent owns any.
    pub open spec fn resolved(self, named: Option<Seq<char>>, agent: Seq<char>) -> Option<Seq<char>> {
        match named {
            Some(id) => Some(id),
            None => if self.agents.contains_key(agent) {
                Some(self.agents[agent].first())
            } else {
                None
            },
        }
    }

    /// The account that a request of an operator is about, where it has a
    /// client. Operators may name any account.
    pub open spec fn target(self, named: Option<Seq<char>>, agent: Seq<char>) -> Result<
        Seq<char>,
        Untargeted,
    > {
        match self.resolved(named, agent) {
            Some(id) => if self.accounts.contains_key(id) {
                Ok(id)
            } else {
                Err(Untargeted::Account(id))
            },
            None => Err(Untargeted::Agent(agent)),
        }
    }

    /// The account that a tool is about: the one that it names, where the
    /// agent owns that, else the first of the agent. To an agent the accounts
    /// of others are not configured.
    pub open spec fn tool_target(self, named: Option<Seq<char>>, agent: Seq<char>) -> Result<
        Seq<char>,
        Untargeted,
    > {
        match named {
            Some(id) => if self.accounts_of(agent).contains(id) {
                Ok(id)
            } else {
                Err(Untargeted::Account(id))
            },
            None => self.target(None, agent),
        }
    }
}

/// The report `snapshot` together with the name of its account.
pub open spec fn account_report(snapshot: JsonModel, account: Seq<char>) -> JsonModel {
    match snapshot {
        JsonModel::Object(members) => JsonModel::Object(
            members.push(("account"@, JsonModel::Str(account))),
        ),
        other => other,
    }
}

fn with_account(snapshot: Json, account: &str) -> (r: Json)
    ensures
        r@ == account_report(snapshot@, account@),
{
    match snapshot {
        Json::Object(members) => {
            let ghost before = members@;
            let mut all: Vec<(String, Json)> = members;
            all.push(("account".to_owned(), Json::text(account)));
            proof {
                json::lemma_object_model(members);
                assert(json::members_model(all@) =~= json::members_model(before).push(
                    ("account"@, JsonModel::Str(account@)),
                ));
            }
            Json::object(all)
        },
        other => other,
    }
}

/// The body that a call carries: none where it is null.
pub open spec fn call_body(args: JsonModel) -> Option<JsonModel> {
    match args.field("body"@) {
        Some(JsonModel::Null) => None,
        other => other,
    }
}

/// What `google_call` does on the given arguments.
pub open spec fn call_outcome(args: JsonModel, r: Result<ToolAction, GoogleError>) -> bool {
    match (args.field_text("method"@), args.field_text("url"@)) {
        (None, _) => {
            &&& r matches Err(e)
            &&& e is MissingMethod
        },
        (Some(_), None) => {
            &&& r matches Err(e)
            &&& e is MissingUrl
        },
        (Some(m), Some(u)) => if http::google_api_url(u) {
            &&& r matches Ok(ToolAction::Call { method, url, body })
            &&& method@ == m
            &&& url@ == u
            &&& client::opt_json(body) == call_body(args)
        } else {
            &&& r matches Err(e)
            &&& e matches GoogleError::UrlRejected(url)
            &&& url@ == u
        },
    }
}

/// The call that the arguments of `google_call` ask for.
pub fn tool_call(args: &Json) -> (r: Result<ToolAction, GoogleError>)
    ensures
        call_outcome(args@, r),
{
    let method: String = match args.field_str("method") {
        Some(m) => m,
        None => {
            return Err(GoogleError::MissingMethod);
        },
    };
    let url: String = match args.field_str("url") {
        Some(u) => u,
        None => {
            return Err(GoogleError::MissingUrl);
        },
    };
    if !is_google_api_url(url.as_str()) {
        return Err(GoogleError::UrlRejected(url));
    }
    let body: Option<Json> = match args.get("body") {
        Some(b) => if b.is_null() {
            None
        } else {
            Some(b.copy())
        },
        None => None,
    };
    Ok(ToolAction::Call { method, url, body })
}

/// The outcome of a tool.
pub open spec fn tool_outcome(
    plugin: PluginModel,
    tool: Seq<char>,
    args: JsonModel,
    agent: Seq<char>,
    now: int,
    r: Result<ToolStep, GoogleError>,
) -> bool {
    match plugin.tool_target(args.field_text("account"@), agent) {
        Err(_) => {
            &&& r matches Err(e)
            &&& untargeted(e, plugin.tool_target(args.field_text("account"@), agent))
        },
        Ok(id) => if tool == "google_auth_start"@ {
            &&& r matches Ok(step)
            &&& step.account@ == id
            &&& step.action is StartConsent
        } else if tool == "google_auth_status"@ {
            &&& r matches Ok(step)
            &&& step.account@ == id
            &&& step.action matches ToolAction::Answer(v)
            &&& v@ == account_report(client::snapshot_model(plugin.accounts[id].tokens, now), id)
        } else if tool == "google_call"@ {
            match r {
                Ok(step) => step.account@ == id && call_outcome(
                    args,
                    Ok::<ToolAction, GoogleError>(step.action),
                ),
                Err(e) => call_outcome(args, Err::<ToolAction, GoogleError>(e)),
            }
        } else if tool == "google_auth_revoke"@ {
            &&& r matches Ok(step)
            &&& step.account@ == id
            &&& step.action is Revoke
        } else {
            &&& r matches Err(e)
            &&& e matches GoogleError::UnknownTool(name)
            &&& name@ == tool
        },
    }
}

/// What `google_auth_start` answers.
pub open spec fn auth_start_model(account: Seq<char>, url: Seq<char>, redirect_port: u16) -> JsonModel {
    JsonModel::Object(
        seq![
            ("ok"@, JsonModel::Bool(true)),
            ("account"@, JsonModel::Str(account)),
            ("url"@, JsonModel::Str(url)),
            (
                "instructions"@,
                JsonModel::Str(
                    "Open this URL in a browser you're logged into your Google account with, approve the scopes, then call google_auth_status to confirm."@,
                ),
            ),
            ("redirect_uri"@, JsonModel::Str(client::redirect_uri_text(redirect_port))),
        ],
    )
}

/// What `google_auth_start` answers.
pub fn auth_start_reply(account: &str, url: &str, redirect_port: u16) -> (r: Json)
    ensures
        r@ == auth_start_model(account@, url@, redirect_port),
{
    let redirect_uri: String = redirect_uri_for(redirect_port);
    let r: Json = Members::new().with("ok", Json::Bool(true)).with(
        "account",
        Json::text(account),
    ).with("url", Json::text(url)).with(
        "instructions",
        Json::text(
            "Open this URL in a browser you're logged into your Google account with, approve the scopes, then call google_auth_status to confirm.",
        ),
    ).with("redirect_uri", Json::text(redirect_uri.as_str())).into_json();
    assert(r@->Object_0 =~= auth_start_model(account@, url@, redirect_port)->Object_0);
    r
}

/// What `google_call` answers.
pub open spec fn call_model(account: Seq<char>, response: JsonModel) -> JsonModel {
    JsonModel::Object(
        seq![
            ("ok"@, JsonModel::Bool(true)),
            ("account"@, JsonModel::Str(account)),
            ("response"@, response),
        ],
    )
}

/// What `google_call` answers.
pub fn call_reply(account: &str, response: Json) -> (r: Json)
    ensures
        r@ == call_model(account@, response@),
{
    let r: Json = Members::new().with("ok", Json::Bool(true)).with(
        "account",
        Json::text(account),
    ).with("response", response).into_json();
    assert(r@->Object_0 =~= call_model(account@, response@)->Object_0);
    r
}

/// What `google_auth_revoke` answers.
pub open spec fn revoke_model(account: Seq<char>) -> JsonModel {
    JsonModel::Object(
        seq![
            ("ok"@, JsonModel::Bool(true)),
            ("account"@, JsonModel::Str(account)),
            ("message"@, JsonModel::Str("tokens revoked + wiped"@)),
        ],
    )
}

/// What `google_auth_revoke` answers.
pub fn revoke_reply(account: &str) -> (r: Json)
    ensures
        r@ == revoke_model(account@),
{
    let r: Json = Members::new().with("ok", Json::Bool(true)).with(
        "account",
        Json::text(account),
    ).with("message", Json::text("tokens revoked + wiped")).into_json();
    assert(r@->Object_0 =~= revoke_model(account@)->Object_0);
    r
}

/// What an operator is told who had tokens revoked.
pub open spec fn admin_revoke_model(agent: Seq<char>, account: Seq<char>) -> JsonModel {
    JsonModel::Object(
        seq![
            ("ok"@, JsonModel::Bool(true)),
            ("agent_id"@, JsonModel::Str(agent)),
            ("account"@, JsonModel::Str(account)),
        ],
    )
}

/// What an operator is told who had tokens revoked.
pub fn admin_revoke_reply(agent_id: &str, account: &str) -> (r: Json)
    ensures
        r@ == admin_revoke_model(agent_id@, account@),
{
    let r: Json = Members::new().with("ok", Json::Bool(true)).with(
        "agent_id",
        Json::text(agent_id),
    ).with("account", Json::text(account)).into_json();
    assert(r@->Object_0 =~= admin_revoke_model(agent_id@, account@)->Object_0);
    r
}

/// What an operator is told of an account at `now`.
pub open spec fn status_outcome(
    plugin: PluginModel,
    agent: Seq<char>,
    named: Option<Seq<char>>,
    now: int,
    r: Result<Json, GoogleError>,
) -> bool {
    match plugin.target(named, agent) {
        Ok(id) => {
            &&& r matches Ok(v)
            &&& v@ == account_report(client::snapshot_model(plugin.accounts[id].tokens, now), id)
        },
        Err(_) => {
            &&& r matches Err(e)
            &&& untargeted(e, plugin.target(named, agent))
        },
    }
}

// ---------------------------------------------------------------------------
// Listing

/// `order` lists the members of `names`, each once.
pub open spec fn orders(order: Seq<Seq<char>>, names: Set<Seq<char>>) -> bool {
    order.no_duplicates() && order.to_set() == names
}

/// The entry of an account in a listing.
pub open spec fn account_item(plugin: PluginModel, id: Seq<char>, now: int) -> JsonModel {
    JsonModel::Object(
        seq![
            ("account"@, JsonModel::Str(id)),
            ("status"@, client::snapshot_model(plugin.accounts[id].tokens, now)),
        ],
    )
}

/// The entries of the accounts in a listing.
pub open spec fn account_items(plugin: PluginModel, ids: Seq<Seq<char>>, now: int) -> Seq<JsonModel> {
    Seq::new(ids.len(), |i: int| account_item(plugin, ids[i], now))
}

/// The entry of an agent in a listing.
pub open spec fn agent_item(plugin: PluginModel, agent: Seq<char>) -> JsonModel {
    JsonModel::Object(
        seq![
            ("agent_id"@, JsonModel::Str(agent)),
            ("accounts"@, JsonModel::Array(json::text_items(plugin.agents[agent]))),
        ],
    )
}

/// The entries of the agents in a listing.
pub open spec fn agent_items(plugin: PluginModel, agents: Seq<Seq<char>>) -> Seq<JsonModel> {
    Seq::new(agents.len(), |i: int| agent_item(plugin, agents[i]))
}

/// The listing that shows accounts and agents in the given orders.
pub open spec fn listing_model(
    plugin: PluginModel,
    accounts: Seq<Seq<char>>,
    agents: Seq<Seq<char>>,
    now: int,
) -> JsonModel {
    JsonModel::Object(
        seq![
            ("accounts"@, JsonModel::Array(account_items(plugin, accounts, now))),
            ("agents"@, JsonModel::Array(agent_items(plugin, agents))),
        ],
    )
}

/// `v` lists every account and every agent of the plugin once.
pub open spec fn is_listing(plugin: PluginModel, now: int, v: JsonModel) -> bool {
    exists|accounts: Seq<Seq<char>>, agents: Seq<Seq<char>>|
        #![trigger listing_model(plugin, accounts, agents, now)]
        orders(accounts, plugin.accounts.dom()) && orders(agents, plugin.agents.dom()) && v
            == listing_model(plugin, accounts, agents, now)
}

impl GooglePlugin {
    /// The tables and the lists fit together.
    pub closed spec fn valid(&self) -> bool {
        &&& slots_ok(registry::slots_of(self.accounts), self.clients@.len())
        &&& slots_ok(registry::slots_of(self.agents), self.lists@.len())
        &&& self@.consistent()
    }

    /// A valid plugin is consistent.
    pub proof fn valid_is_consistent(&self)
        requires
            self.valid(),
        ensures
            self@.consistent(),
    {
    }

    /// The plugin without accounts.
    pub fn new() -> (r: GooglePlugin)
        ensures
            r.valid(),
            r@ == PluginModel::empty(),
    {
        let r: GooglePlugin = GooglePlugin {
            clients: Vec::new(),
            accounts: table_new(),
            lists: Vec::new(),
            agents: table_new(),
        };
        assert(r@ =~= PluginModel::empty());
        r
    }

    /// How many accounts are configured.
    pub fn account_count(&self) -> (r: usize)
        requires
            self.valid(),
        ensures
            r == self@.accounts.dom().len(),
    {
        assert(self@.accounts.dom() =~= registry::slots_of(self.accounts).dom());
        table_len(&self.accounts)
    }

    /// How many agents own accounts.
    pub fn agent_count(&self) -> (r: usize)
        requires
            self.valid(),
        ensures
            r == self@.agents.dom().len(),
    {
        assert(self@.agents.dom() =~= registry::slots_of(self.agents).dom());
        table_len(&self.agents)
    }

    /// Adds the account of `f`, whose secrets are the given texts.
    fn add(&mut self, f: &AccountFiles, client_id: &str, client_secret: &str)
        requires
            old(self).valid(),
            f@.client_id == Some(client_id@),
            f@.client_secret == Some(client_secret@),
        ensures
            final(self).valid(),
            final(self)@ == old(self)@.with_account(f@),
    {
        let ghost before = *self;
        let config: GoogleAuthConfig = GoogleAuthConfig {
            client_id: trim(client_id),
            client_secret: trim(client_secret),
            scopes: copy_texts(&f.account.scopes),
            token_file: f.account.token_path.as_str().to_owned(),
            redirect_port: f.account.redirect_port,
        };
        let sources: SecretSources = SecretSources {
            client_id_path: f.account.client_id_path.as_str().to_owned(),
            client_secret_path: f.account.client_secret_path.as_str().to_owned(),
        };
        let mut client: GoogleAuthClient = GoogleAuthClient::new_with_sources(
            config,
            "",
            Some(sources),
            f.id_mtime,
            f.secret_mtime,
        );
        if let TokenFile::Tokens(t) = &f.tokens {
            let _ = client.load_from_disk(TokenFile::Tokens(t.copy()));
        }
        assert(client@ == f@.client());

        let slot: usize = self.clients.len();
        self.clients.push(client);
        table_insert(&mut self.accounts, f.account.id.as_str().to_owned(), slot);
        match table_get(&self.agents, f.account.agent_id.as_str()) {
            Some(at) => {
                let mut list: Vec<String> = copy_texts(&self.lists[at]);
                list.push(f.account.id.as_str().to_owned());
                self.lists[at] = list;
            },
            None => {
                let mut list: Vec<String> = Vec::new();
                list.push(f.account.id.as_str().to_owned());
                let at: usize = self.lists.len();
                self.lists.push(list);
                table_insert(&mut self.agents, f.account.agent_id.as_str().to_owned(), at);
            },
        }
        proof {
            let after = before@.with_account(f@);
            lemma_with_account_consistent(before@, f@);
            assert(self@.accounts =~= after.accounts);
            assert(self@.agents.dom() =~= after.agents.dom());
            assert forall|a: Seq<char>| after.agents.contains_key(a) implies self@.agents[a]
                == after.agents[a] by {
                assert(self@.agents[a] =~= after.agents[a]);
            }
            assert(self@.agents =~= after.agents);
            assert(self@ == after);
        }
    }

    /// Replaces all accounts by those of `files`. Where a secret cannot be
    /// read, nothing changes.
    pub fn on_configure(&mut self, files: &[AccountFiles]) -> (r: Result<(), GoogleError>)
        ensures
            match r {
                Ok(_) => {
                    &&& forall|i: int| 0 <= i < files@.len() ==> !(#[trigger] files@[i])@.unreadable()
                    &&& final(self).valid()
                    &&& final(self)@ == configured(files_model(files@))
                },
                Err(e) => {
                    &&& *final(self) == *old(self)
                    &&& exists|i: int| #[trigger]
                        first_unreadable(files_model(files@), i) && reports_unreadable(
                            e,
                            files@[i]@,
                        )
                },
            },
    {
        let mut next: GooglePlugin = GooglePlugin::new();
        let ghost all = files_model(files@);
        assert(all.take(0) =~= Seq::<AccountFilesModel>::empty());
        let mut i: usize = 0;
        while i < files.len()
            invariant
                i <= files@.len(),
                all == files_model(files@),
                forall|j: int| 0 <= j < i ==> !(#[trigger] all[j]).unreadable(),
                next.valid(),
                next@ == configured(all.take(i as int)),
                *self == *old(self),
            decreases files@.len() - i,
        {
            let f: &AccountFiles = &files[i];
            assert(all[i as int] == f@);
            let client_id: &str = match &f.client_id {
                Some(s) => s.as_str(),
                None => {
                    assert(first_unreadable(all, i as int));
                    return Err(
                        GoogleError::ClientIdUnreadable {
                            account: f.account.id.as_str().to_owned(),
                            path: f.account.client_id_path.as_str().to_owned(),
                        },
                    );
                },
            };
            let client_secret: &str = match &f.client_secret {
                Some(s) => s.as_str(),
                None => {
                    assert(first_unreadable(all, i as int));
                    return Err(
                        GoogleError::ClientSecretUnreadable {
                            account: f.account.id.as_str().to_owned(),
                            path: f.account.client_secret_path.as_str().to_owned(),
                        },
                    );
                },
            };
            next.add(f, client_id, client_secret);
            assert(all.take(i + 1).drop_last() =~= all.take(i as int));
            assert(all.take(i + 1).last() == f@);
            i = i + 1;
        }
        assert(all.take(all.len() as int) =~= all);
        assert forall|k: int| 0 <= k < files@.len() implies !(#[trigger] files@[k])@.unreadable() by {
            assert(!all[k].unreadable());
        }
        *self = next;
        Ok(())
    }

    /// The client of an account.
    pub fn client_by_account(&self, account_id: &str) -> (r: Result<&GoogleAuthClient, GoogleError>)
        requires
            self.valid(),
        ensures
            match r {
                Ok(c) => self@.accounts.contains_key(account_id@) && self@.accounts[account_id@]
                    == c@,
                Err(e) => {
                    &&& !self@.accounts.contains_key(account_id@)
                    &&& e matches GoogleError::AccountNotConfigured(id)
                    &&& id@ == account_id@
                },
            },
    {
        match table_get(&self.accounts, account_id) {
            Some(slot) => Ok(&self.clients[slot]),
            None => Err(GoogleError::AccountNotConfigured(account_id.to_owned())),
        }
    }

    /// The client of an account, to be changed. The other accounts stay as
    /// they are.
    pub fn client_by_account_mut(&mut self, account_id: &str) -> (r: Result<
        &mut GoogleAuthClient,
        GoogleError,
    >)
        requires
            old(self).valid(),
        ensures
            final(self).valid(),
            match r {
                Ok(c) => {
                    &&& old(self)@.accounts.contains_key(account_id@)
                    &&& old(self)@.accounts[account_id@] == c@
                    &&& final(self)@ == (PluginModel {
                        accounts: old(self)@.accounts.insert(account_id@, final(c)@),
                        ..old(self)@
                    })
                },
                Err(e) => {
                    &&& *final(self) == *old(self)
                    &&& !old(self)@.accounts.contains_key(account_id@)
                    &&& e matches GoogleError::AccountNotConfigured(id)
                    &&& id@ == account_id@
                },
            },
    {
        match table_get(&self.accounts, account_id) {
            Some(slot) => Ok(&mut self.clients[slot]),
            None => Err(GoogleError::AccountNotConfigured(account_id.to_owned())),
        }
    }

    /// The account that an agent uses where it names none: its first.
    pub fn default_account_for(&self, agent_id: &str) -> (r: Result<String, GoogleError>)
        requires
            self.valid(),
        ensures
            match r {
                Ok(id) => self@.agents.contains_key(agent_id@) && id@
                    == self@.agents[agent_id@].first(),
                Err(e) => {
                    &&& !self@.agents.contains_key(agent_id@)
                    &&& e matches GoogleError::AgentNotConfigured(a)
                    &&& a@ == agent_id@
                },
            },
    {
        match table_get(&self.agents, agent_id) {
            Some(at) => {
                let list: &Vec<String> = &self.lists[at];
                assert(text::texts(list@) == self@.agents[agent_id@]);
                if list.len() == 0 {
                    Err(GoogleError::AgentWithoutAccounts(agent_id.to_owned()))
                } else {
                    Ok(list[0].as_str().to_owned())
                }
            },
            None => Err(GoogleError::AgentNotConfigured(agent_id.to_owned())),
        }
    }

    /// Whether the agent owns the account.
    fn owns(&self, agent_id: &str, account: &str) -> (r: bool)
        requires
            self.valid(),
        ensures
            r == self@.accounts_of(agent_id@).contains(account@),
    {
        let list: Vec<String> = self.accounts_for_agent(agent_id);
        let ghost owned = text::texts(list@);
        let mut i: usize = 0;
        while i < list.len()
            invariant
                i <= list@.len(),
                owned == text::texts(list@),
                owned == self@.accounts_of(agent_id@),
                forall|k: int| 0 <= k < i ==> #[trigger] owned[k] != account@,
            decreases list@.len() - i,
        {
            assert(owned[i as int] == list@[i as int]@);
            if str_eq(list[i].as_str(), account) {
                return true;
            }
            i = i + 1;
        }
        false
    }

    /// The account that a tool is about: the one that it names, where the
    /// agent owns that, else the agent's default.
    pub fn resolve_account(&self, args: &Json, agent_id: &str) -> (r: Result<String, GoogleError>)
        requires
            self.valid(),
        ensures
            match r {
                Ok(id) => {
                    &&& self@.tool_target(args@.field_text("account"@), agent_id@) == Ok::<
                        Seq<char>,
                        Untargeted,
                    >(id@)
                    &&& self@.accounts.contains_key(id@)
                },
                Err(e) => untargeted(
                    e,
                    self@.tool_target(args@.field_text("account"@), agent_id@),
                ),
            },
    {
        match args.field_str("account") {
            Some(named) => {
                if self.owns(agent_id, named.as_str()) {
                    proof {
                        let owned = self@.accounts_of(agent_id@);
                        let i = choose|i: int| 0 <= i < owned.len() && owned[i] == named@;
                        assert(self@.accounts.contains_key(self@.agents[agent_id@][i]));
                    }
                    Ok(named)
                } else {
                    Err(GoogleError::AccountNotConfigured(named))
                }
            },
            None => {
                let r: Result<String, GoogleError> = self.default_account_for(agent_id);
                proof {
                    if r is Ok {
                        default_accounts_have_clients(self@, agent_id@);
                    }
                }
                r
            },
        }
    }

    /// The accounts of an agent, in order.
    pub fn accounts_for_agent(&self, agent_id: &str) -> (r: Vec<String>)
        requires
            self.valid(),
        ensures
            text::texts(r@) == self@.accounts_of(agent_id@),
    {
        match table_get(&self.agents, agent_id) {
            Some(at) => copy_texts(&self.lists[at]),
            None => {
                let none: Vec<String> = Vec::new();
                assert(text::texts(none@) =~= Seq::<Seq<char>>::empty());
                none
            },
        }
    }

    /// The account that an operator asks about, together with its client.
    fn target(&self, agent_id: &str, account: Option<&str>) -> (r: Result<
        (String, &GoogleAuthClient),
        GoogleError,
    >)
        requires
            self.valid(),
        ensures
            match r {
                Ok((id, c)) => self@.target(opt_str(account), agent_id@) == Ok::<
                    Seq<char>,
                    Untargeted,
                >(id@) && self@.accounts[id@] == c@,
                Err(e) => untargeted(e, self@.target(opt_str(account), agent_id@)),
            },
    {
        let id: String = match account {
            Some(a) => a.to_owned(),
            None => match self.default_account_for(agent_id) {
                Ok(id) => id,
                Err(e) => {
                    return Err(e);
                },
            },
        };
        match self.client_by_account(id.as_str()) {
            Ok(c) => Ok((id, c)),
            Err(e) => Err(e),
        }
    }

    /// What the tool `tool_name` does on the given arguments, where the clock
    /// reads `now`.
    pub fn invoke_outbound_tool_at(
        &self,
        tool_name: &str,
        args: &Json,
        agent_id: &str,
        now: i64,
    ) -> (r: Result<ToolStep, GoogleError>)
        requires
            self.valid(),
            clock::clock_reading(now),
        ensures
            tool_outcome(self@, tool_name@, args@, agent_id@, now as int, r),
    {
        let id: String = match self.resolve_account(args, agent_id) {
            Ok(id) => id,
            Err(e) => {
                return Err(e);
            },
        };
        let client: &GoogleAuthClient = match self.client_by_account(id.as_str()) {
            Ok(c) => c,
            Err(e) => {
                return Err(e);
            },
        };
        let action: ToolAction = if str_eq(tool_name, "google_auth_start") {
            ToolAction::StartConsent
        } else if str_eq(tool_name, "google_auth_status") {
            ToolAction::Answer(with_account(client.snapshot_at(now), id.as_str()))
        } else if str_eq(tool_name, "google_call") {
            match tool_call(args) {
                Ok(a) => a,
                Err(e) => {
                    return Err(e);
                },
            }
        } else if str_eq(tool_name, "google_auth_revoke") {
            ToolAction::Revoke
        } else {
            return Err(GoogleError::UnknownTool(tool_name.to_owned()));
        };
        Ok(ToolStep { account: id, action })
    }

    /// What the tool `tool_name` does now on the given arguments.
    pub fn invoke_outbound_tool(&self, tool_name: &str, args: &Json, agent_id: &str) -> (r: Result<
        ToolStep,
        GoogleError,
    >)
        requires
            self.valid(),
        ensures
            exists|now: i64| #[trigger]
                clock::clock_reading(now) && tool_outcome(
                    self@,
                    tool_name@,
                    args@,
                    agent_id@,
                    now as int,
                    r,
                ),
    {
        let now: i64 = now_timestamp();
        self.invoke_outbound_tool_at(tool_name, args, agent_id, now)
    }

    /// What an operator is told of an account at `now`.
    pub fn admin_oauth_status_at(&self, agent_id: &str, account: Option<&str>, now: i64) -> (r:
        Result<Json, GoogleError>)
        requires
            self.valid(),
            clock::clock_reading(now),
        ensures
            status_outcome(self@, agent_id@, opt_str(account), now as int, r),
    {
        match self.target(agent_id, account) {
            Ok((id, client)) => Ok(with_account(client.snapshot_at(now), id.as_str())),
            Err(e) => Err(e),
        }
    }

    /// What an operator is told of an account now.
    pub fn admin_oauth_status(&self, agent_id: &str, account: Option<&str>) -> (r: Result<
        Json,
        GoogleError,
    >)
        requires
            self.valid(),
        ensures
            exists|now: i64| #[trigger]
                clock::clock_reading(now) && status_outcome(
                    self@,
                    agent_id@,
                    opt_str(account),
                    now as int,
                    r,
                ),
    {
        let now: i64 = now_timestamp();
        self.admin_oauth_status_at(agent_id, account, now)
    }

    /// The account whose tokens an operator wants to be revoked.
    pub fn admin_oauth_revoke(&self, agent_id: &str, account: Option<&str>) -> (r: Result<
        String,
        GoogleError,
    >)
        requires
            self.valid(),
        ensures
            match r {
                Ok(id) => self@.target(opt_str(account), agent_id@) == Ok::<Seq<char>, Untargeted>(
                    id@,
                ),
                Err(e) => untargeted(e, self@.target(opt_str(account), agent_id@)),
            },
    {
        match self.target(agent_id, account) {
            Ok((id, _client)) => Ok(id),
            Err(e) => Err(e),
        }
    }

    /// All accounts with their tokens at `now`, and the accounts of all agents.
    /// The order of the two lists is not fixed.
    pub fn admin_list_tokens_at(&self, now: i64) -> (r: Json)
        requires
            self.valid(),
            clock::clock_reading(now),
        ensures
            is_listing(self@, now as int, r@),
    {
        let ids: Vec<String> = table_names(&self.accounts);
        assert(self@.accounts.dom() =~= registry::slots_of(self.accounts).dom());
        let ghost accounts = text::texts(ids@);
        let mut out: Vec<Json> = Vec::new();
        let mut i: usize = 0;
        while i < ids.len()
            invariant
                i <= ids@.len(),
                self.valid(),
                clock::clock_reading(now),
                accounts == text::texts(ids@),
                accounts.to_set() == self@.accounts.dom(),
                json::items_model(out@) == account_items(self@, accounts.take(i as int), now as int),
            decreases ids@.len() - i,
        {
            assert(accounts[i as int] == ids@[i as int]@);
            assert(accounts.contains(ids@[i as int]@));
            assert(self@.accounts.dom().contains(ids@[i as int]@));
            match self.client_by_account(ids[i].as_str()) {
                Ok(client) => {
                    let ghost before = out@;
                    let item: Json = Members::new().with(
                        "account",
                        Json::text(ids[i].as_str()),
                    ).with("status", client.snapshot_at(now)).into_json();
                    assert(item@->Object_0 =~= account_item(
                        self@,
                        ids@[i as int]@,
                        now as int,
                    )->Object_0);
                    out.push(item);
                    assert(json::items_model(out@) =~= account_items(
                        self@,
                        accounts.take(i + 1),
                        now as int,
                    )) by {
                        assert(json::items_model(before).len() == i);
                        assert forall|k: int| 0 <= k < i + 1 implies json::items_model(out@)[k]
                            == account_items(self@, accounts.take(i + 1), now as int)[k] by {
                            if k < i {
                                assert(json::items_model(out@)[k] == json::items_model(before)[k]);
                            }
                        }
                    }
                },
                Err(_) => {},
            }
            i = i + 1;
        }
        assert(accounts.take(accounts.len() as int) =~= accounts);

        let names: Vec<String> = table_names(&self.agents);
        assert(self@.agents.dom() =~= registry::slots_of(self.agents).dom());
        let ghost agents = text::texts(names@);
        let mut by_agent: Vec<Json> = Vec::new();
        let mut j: usize = 0;
        while j < names.len()
            invariant
                j <= names@.len(),
                self.valid(),
                agents == text::texts(names@),
                agents.to_set() == self@.agents.dom(),
                json::items_model(by_agent@) == agent_items(self@, agents.take(j as int)),
            decreases names@.len() - j,
        {
            assert(agents[j as int] == names@[j as int]@);
            assert(agents.contains(names@[j as int]@));
            assert(self@.agents.dom().contains(names@[j as int]@));
            let ghost before = by_agent@;
            let owned: Vec<String> = self.accounts_for_agent(names[j].as_str());
            let item: Json = Members::new().with("agent_id", Json::text(names[j].as_str())).with(
                "accounts",
                text_array(&owned),
            ).into_json();
            assert(item@->Object_0 =~= agent_item(self@, names@[j as int]@)->Object_0);
            by_agent.push(item);
            assert(json::items_model(by_agent@) =~= agent_items(self@, agents.take(j + 1))) by {
                assert(json::items_model(before).len() == j);
                assert forall|k: int| 0 <= k < j + 1 implies json::items_model(by_agent@)[k]
                    == agent_items(self@, agents.take(j + 1))[k] by {
                    if k < j {
                        assert(json::items_model(by_agent@)[k] == json::items_model(before)[k]);
                    }
                }
            }
            j = j + 1;
        }
        assert(agents.take(agents.len() as int) =~= agents);

        let r: Json = Members::new().with("accounts", Json::array(out)).with(
            "agents",
            Json::array(by_agent),
        ).into_json();
        assert(r@->Object_0 =~= listing_model(self@, accounts, agents, now as int)->Object_0);
        assert(orders(accounts, self@.accounts.dom()) && orders(agents, self@.agents.dom()));
        r
    }

    /// All accounts with their tokens now, and the accounts of all agents.
    pub fn admin_list_tokens(&self) -> (r: Json)
        requires
            self.valid(),
        ensures
            exists|now: i64| #[trigger]
                clock::clock_reading(now) && is_listing(self@, now as int, r@),
    {
        let now: i64 = now_timestamp();
        self.admin_list_tokens_at(now)
    }
}

// ---------------------------------------------------------------------------
// Laws

/// The names of the accounts that `files` declare for an agent, in order.
pub open spec fn declared(files: Seq<AccountFilesModel>, agent: Seq<char>) -> Seq<Seq<char>>
    decreases files.len(),
{
    if files.len() == 0 {
        Seq::empty()
    } else {
        let before = declared(files.drop_last(), agent);
        if files.last().account.agent_id == agent {
            before.push(files.last().account.id)
        } else {
            before
        }
    }
}

/// `files` declare the account, the last time at position `i`.
pub open spec fn last_declared(files: Seq<AccountFilesModel>, id: Seq<char>, i: int) -> bool {
    &&& 0 <= i < files.len()
    &&& files[i].account.id == id
    &&& forall|j: int| i < j < files.len() ==> (#[trigger] files[j]).account.id != id
}

/// An agent owns the accounts that are declared for it, in the order of their
/// declaration; it is known exactly where there is one.
pub proof fn agents_own_what_is_declared(files: Seq<AccountFilesModel>, agent: Seq<char>)
    ensures
        configured(files).accounts_of(agent) == declared(files, agent),
        configured(files).agents.contains_key(agent) <==> declared(files, agent).len() > 0,
    decreases files.len(),
{
    if files.len() > 0 {
        agents_own_what_is_declared(files.drop_last(), agent);
    }
}

/// The default account of an agent is the first that is declared for it.
pub proof fn the_first_account_is_the_default(files: Seq<AccountFilesModel>, agent: Seq<char>)
    ensures
        configured(files).resolved(None, agent) == (if declared(files, agent).len() > 0 {
            Some(declared(files, agent)[0])
        } else {
            None
        }),
{
    agents_own_what_is_declared(files, agent);
}

/// The clients are those of the declared accounts, and of no others; an
/// account that is declared twice has the client of its last declaration.
pub proof fn clients_are_those_declared(files: Seq<AccountFilesModel>, id: Seq<char>)
    ensures
        configured(files).accounts.contains_key(id) <==> exists|i: int| #[trigger]
            last_declared(files, id, i),
        forall|i: int| #[trigger]
            last_declared(files, id, i) ==> configured(files).accounts[id] == files[i].client(),
    decreases files.len(),
{
    if files.len() > 0 {
        let before = files.drop_last();
        let n = files.len() - 1;
        clients_are_those_declared(before, id);
        if files.last().account.id == id {
            assert(last_declared(files, id, n));
        } else {
            assert forall|i: int| #[trigger] last_declared(files, id, i) implies last_declared(
                before,
                id,
                i,
            ) by {
                assert forall|j: int| i < j < before.len() implies (#[trigger] before[j]).account.id
                    != id by {
                    assert(before[j] == files[j]);
                }
            }
            assert forall|i: int| #[trigger] last_declared(before, id, i) implies last_declared(
                files,
                id,
                i,
            ) by {
                assert forall|j: int| i < j < files.len() implies (#[trigger] files[j]).account.id
                    != id by {
                    if j < n {
                        assert(before[j] == files[j]);
                    }
                }
            }
        }
    }
}

/// The tokens of an account are kept at the path that its declaration names.
pub proof fn token_paths_are_verbatim(file: AccountFilesModel)
    ensures
        file.client().token_path == file.account.token_path,
{
    reveal_strlit("");
    assert(""@ + file.account.token_path =~= file.account.token_path);
}

/// An agent that owns an account can use its tools without naming one: its
/// default account has a client.
pub proof fn default_accounts_have_clients(plugin: PluginModel, agent: Seq<char>)
    requires
        plugin.consistent(),
        plugin.agents.contains_key(agent),
    ensures
        plugin.target(None, agent) == Ok::<Seq<char>, Untargeted>(plugin.agents[agent][0]),
{
    assert(plugin.accounts.contains_key(plugin.agents[agent][0]));
}

/// A tool is about the account that its arguments name, where the agent owns
/// it; where the agent does not, the tool fails and does nothing.
pub proof fn named_accounts_are_owned(
    plugin: PluginModel,
    tool: Seq<char>,
    args: JsonModel,
    agent: Seq<char>,
    now: int,
    r: Result<ToolStep, GoogleError>,
)
    requires
        tool_outcome(plugin, tool, args, agent, now, r),
        args.field_text("account"@) is Some,
    ensures
        r matches Ok(step) ==> step.account@ == args.field_text("account"@)->0,
        !plugin.accounts_of(agent).contains(args.field_text("account"@)->0) ==> {
            &&& r matches Err(e)
            &&& e is AccountNotConfigured
        },
{
}

/// The agents are kept apart: a tool is about an account of the agent that
/// calls it, whatever its arguments are.
pub proof fn tools_stay_with_the_agent(
    plugin: PluginModel,
    tool: Seq<char>,
    args: JsonModel,
    agent: Seq<char>,
    now: int,
    r: Result<ToolStep, GoogleError>,
)
    requires
        plugin.consistent(),
        tool_outcome(plugin, tool, args, agent, now, r),
    ensures
        r matches Ok(step) ==> plugin.accounts_of(agent).contains(step.account@)
            && plugin.accounts.contains_key(step.account@),
{
    if args.field_text("account"@) is None && r is Ok {
        assert(plugin.agents[agent][0] == plugin.agents[agent].first());
        assert(plugin.accounts_of(agent).contains(plugin.agents[agent].first()));
    }
    if r is Ok {
        let owned = plugin.accounts_of(agent);
        let id = r->Ok_0.account@;
        let i = choose|i: int| 0 <= i < owned.len() && owned[i] == id;
        assert(plugin.accounts.contains_key(plugin.agents[agent][i]));
    }
}

/// What an agent gets from its tools does not depend on the accounts of
/// others: two plugins that hold the same accounts for the agent have the same
/// outcomes.
pub proof fn agents_see_their_own_accounts_only(
    one: PluginModel,
    other: PluginModel,
    tool: Seq<char>,
    args: JsonModel,
    agent: Seq<char>,
    now: int,
    r: Result<ToolStep, GoogleError>,
)
    requires
        one.consistent(),
        other.consistent(),
        one.agents.contains_key(agent) == other.agents.contains_key(agent),
        one.accounts_of(agent) == other.accounts_of(agent),
        forall|id: Seq<char>| #[trigger]
            one.accounts_of(agent).contains(id) ==> one.accounts[id] == other.accounts[id],
    ensures
        tool_outcome(one, tool, args, agent, now, r) == tool_outcome(
            other,
            tool,
            args,
            agent,
            now,
            r,
        ),
{
    if one.agents.contains_key(agent) {
        default_accounts_have_clients(one, agent);
        default_accounts_have_clients(other, agent);
        assert(one.accounts_of(agent).contains(one.agents[agent][0]));
    }
    assert(one.tool_target(args.field_text("account"@), agent) == other.tool_target(
        args.field_text("account"@),
        agent,
    ));
}

/// A tool without a named account is about the first account of the agent.
pub proof fn unnamed_accounts_are_the_default(
    plugin: PluginModel,
    tool: Seq<char>,
    args: JsonModel,
    agent: Seq<char>,
    now: int,
    r: Result<ToolStep, GoogleError>,
)
    requires
        tool_outcome(plugin, tool, args, agent, now, r),
        args.field_text("account"@) is None,
    ensures
        r matches Ok(step) ==> plugin.agents.contains_key(agent) && step.account@
            == plugin.agents[agent].first(),
{
}

/// No call leaves for a host outside the Google APIs.
pub proof fn calls_stay_with_google(
    plugin: PluginModel,
    tool: Seq<char>,
    args: JsonModel,
    agent: Seq<char>,
    now: int,
    r: Result<ToolStep, GoogleError>,
)
    requires
        tool_outcome(plugin, tool, args, agent, now, r),
    ensures
        r matches Ok(step) ==> (step.action matches ToolAction::Call { method, url, body }
            ==> http::google_api_url(url@)),
{
}

/// What one account does leaves the others, and the agents, as they were; the
/// plugin stays consistent.
pub proof fn accounts_are_independent(
    plugin: PluginModel,
    id: Seq<char>,
    next: ClientModel,
    other: Seq<char>,
)
    requires
        plugin.consistent(),
        plugin.accounts.contains_key(id),
        other != id,
    ensures
        ({
            let after = PluginModel { accounts: plugin.accounts.insert(id, next), ..plugin };
            &&& after.consistent()
            &&& after.agents == plugin.agents
            &&& after.accounts.contains_key(other) == plugin.accounts.contains_key(other)
            &&& plugin.accounts.contains_key(other) ==> after.accounts[other]
                == plugin.accounts[other]
        }),
{
    let after = PluginModel { accounts: plugin.accounts.insert(id, next), ..plugin };
    assert(after.accounts.dom() =~= plugin.accounts.dom());
    assert forall|k: Seq<char>| #[trigger] after.accounts.contains_key(k) implies exists|
        a: Seq<char>,
    | #[trigger] after.agents.contains_key(a) && after.agents[a].contains(k) by {
        assert(plugin.accounts.contains_key(k));
        let a = choose|a: Seq<char>| #[trigger]
            plugin.agents.contains_key(a) && plugin.agents[a].contains(k);
        assert(after.agents.contains_key(a) && after.agents[a].contains(k));
    }
}

/// `google_call` makes the call that its arguments ask for: with the method and
/// the address that they name, and with exactly the value of their member
/// `body`. It carries no body only where that member is missing or null. It
/// fails only where the method or the address is missing, or the address is
/// none of the Google APIs.
pub proof fn calls_carry_what_is_asked(args: JsonModel, r: Result<ToolAction, GoogleError>)
    requires
        call_outcome(args, r),
    ensures
        match (args.field("method"@), args.field("url"@)) {
            (Some(JsonModel::Str(m)), Some(JsonModel::Str(u))) => if http::google_api_url(u) {
                &&& r matches Ok(ToolAction::Call { method, url, body })
                &&& method@ == m
                &&& url@ == u
                &&& match args.field("body"@) {
                    Some(v) => if v == JsonModel::Null {
                        body is None
                    } else {
                        body matches Some(b) && b@ == v
                    },
                    None => body is None,
                }
            } else {
                &&& r matches Err(e)
                &&& e matches GoogleError::UrlRejected(url)
                &&& url@ == u
            },
            (Some(JsonModel::Str(_)), _) => r matches Err(e) && e is MissingUrl,
            _ => r matches Err(e) && e is MissingMethod,
        },
{
    json::members_are_read_as_what_they_are(args, "method"@);
    json::members_are_read_as_what_they_are(args, "url"@);
}

/// The account that a request is about: an operator who names an account gets
/// that one, wherever it has a client, and no other; one who names none gets the
/// first account of the agent. There is none where the account has no client, or
/// the agent owns nothing.
pub proof fn operators_get_the_account_they_name(
    plugin: PluginModel,
    id: Seq<char>,
    agent: Seq<char>,
)
    requires
        plugin.consistent(),
    ensures
        plugin.accounts.contains_key(id) ==> plugin.target(Some(id), agent) == Ok::<
            Seq<char>,
            Untargeted,
        >(id),
        !plugin.accounts.contains_key(id) ==> plugin.target(Some(id), agent) == Err::<
            Seq<char>,
            Untargeted,
        >(Untargeted::Account(id)),
        plugin.agents.contains_key(agent) ==> plugin.target(None, agent) == Ok::<
            Seq<char>,
            Untargeted,
        >(plugin.agents[agent][0]),
        !plugin.agents.contains_key(agent) ==> plugin.target(None, agent) == Err::<
            Seq<char>,
            Untargeted,
        >(Untargeted::Agent(agent)),
{
    if plugin.agents.contains_key(agent) {
        default_accounts_have_clients(plugin, agent);
    }
}

/// The account that a tool is about: an agent that names one of its accounts
/// gets that one, and an agent that names none gets its first. An account of
/// another agent is as good as none.
pub proof fn agents_get_the_account_they_name(plugin: PluginModel, id: Seq<char>, agent: Seq<char>)
    requires
        plugin.consistent(),
    ensures
        plugin.agents.contains_key(agent) && plugin.agents[agent].contains(id)
            ==> plugin.tool_target(Some(id), agent) == Ok::<Seq<char>, Untargeted>(id),
        !(plugin.agents.contains_key(agent) && plugin.agents[agent].contains(id))
            ==> plugin.tool_target(Some(id), agent) == Err::<Seq<char>, Untargeted>(
            Untargeted::Account(id),
        ),
        plugin.agents.contains_key(agent) ==> plugin.tool_target(None, agent) == Ok::<
            Seq<char>,
            Untargeted,
        >(plugin.agents[agent][0]),
        !plugin.agents.contains_key(agent) ==> plugin.tool_target(None, agent) == Err::<
            Seq<char>,
            Untargeted,
        >(Untargeted::Agent(agent)),
{
    operators_get_the_account_they_name(plugin, id, agent);
}

/// The error that reports why a call is about no account names what is missing.
pub proof fn missing_accounts_are_named(error: GoogleError, id: Seq<char>, agent: Seq<char>)
    ensures
        untargeted(error, Err(Untargeted::Account(id))) <==> (
        error matches GoogleError::AccountNotConfigured(a) && a@ == id),
        untargeted(error, Err(Untargeted::Agent(agent))) <==> (
        error matches GoogleError::AgentNotConfigured(a) && a@ == agent),
        untargeted(error, Err(Untargeted::Account(id))) ==> error.text() == Untargeted::Account(
            id,
        ).text(),
        untargeted(error, Err(Untargeted::Agent(agent))) ==> error.text() == Untargeted::Agent(
            agent,
        ).text(),
        text::occurs(id, Untargeted::Account(id).text()),
        text::occurs(agent, Untargeted::Agent(agent).text()),
        text::occurs("not configured"@, Untargeted::Account(id).text()),
        text::occurs("not configured"@, Untargeted::Agent(agent).text()),
{
    reveal_strlit("account `");
    reveal_strlit("agent `");
    reveal_strlit("not configured");
    reveal_strlit("` is not configured");
    reveal_strlit(
        "` is not configured for google_auth (no entry in `google-auth.yaml::accounts[].agent_id`)",
    );
    let one = Untargeted::Account(id).text();
    let other = Untargeted::Agent(agent).text();
    assert(one.subrange(9, 9 + id.len() as int) =~= id);
    assert(text::occurs_at(id, one, 9));
    assert(other.subrange(7, 7 + agent.len() as int) =~= agent);
    assert(text::occurs_at(agent, other, 7));
    let at = 14 + id.len() as int;
    assert(one.subrange(at, at + 14) =~= "not configured"@);
    assert(text::occurs_at("not configured"@, one, at));
    let at = 12 + agent.len() as int;
    assert(other.subrange(at, at + 14) =~= "not configured"@);
    assert(text::occurs_at("not configured"@, other, at));
}

proof fn lemma_tool_names()
    ensures
        "google_auth_start"@.len() == 17,
        "google_auth_status"@.len() == 18,
        "google_call"@.len() == 11,
        "google_auth_revoke"@.len() == 18,
        "google_auth_status"@ != "google_auth_revoke"@,
{
    reveal_strlit("google_auth_start");
    reveal_strlit("google_auth_status");
    reveal_strlit("google_call");
    reveal_strlit("google_auth_revoke");
    assert("google_auth_status"@[12] != "google_auth_revoke"@[12]);
}

/// On an account of the agent, each tool does what it is there for: it starts a
/// consent, reports, makes a call or revokes, and does so for the account that
/// is named, or else for the first of the agent. No other tool is known.
pub proof fn tools_do_what_they_are_for(
    plugin: PluginModel,
    tool: Seq<char>,
    args: JsonModel,
    agent: Seq<char>,
    now: int,
    r: Result<ToolStep, GoogleError>,
    id: Seq<char>,
)
    requires
        plugin.consistent(),
        tool_outcome(plugin, tool, args, agent, now, r),
        plugin.agents.contains_key(agent),
        plugin.agents[agent].contains(id),
        match args.field("account"@) {
            Some(JsonModel::Str(named)) => named == id,
            _ => plugin.agents[agent][0] == id,
        },
    ensures
        r matches Ok(step) ==> step.account@ == id,
        tool == "google_auth_start"@ ==> (r matches Ok(step) && step.action is StartConsent),
        tool == "google_auth_revoke"@ ==> (r matches Ok(step) && step.action is Revoke),
        tool == "google_auth_status"@ ==> {
            &&& r matches Ok(step)
            &&& step.action matches ToolAction::Answer(v)
            &&& v@ == account_report(client::snapshot_model(plugin.accounts[id].tokens, now), id)
        },
        tool == "google_call"@ ==> match r {
            Ok(step) => call_outcome(args, Ok::<ToolAction, GoogleError>(step.action)),
            Err(e) => call_outcome(args, Err::<ToolAction, GoogleError>(e)),
        },
        tool != "google_auth_start"@ && tool != "google_auth_revoke"@ && tool
            != "google_auth_status"@ && tool != "google_call"@ ==> (r matches Err(e)
            && e matches GoogleError::UnknownTool(name) && name@ == tool),
{
    lemma_tool_names();
    json::members_are_read_as_what_they_are(args, "account"@);
    agents_get_the_account_they_name(plugin, id, agent);
}

/// A tool of an agent that owns no account, or on an account that is not the
/// agent's, does nothing: the error names the account, or else the agent.
pub proof fn tools_without_an_account_fail(
    plugin: PluginModel,
    tool: Seq<char>,
    args: JsonModel,
    agent: Seq<char>,
    now: int,
    r: Result<ToolStep, GoogleError>,
)
    requires
        plugin.consistent(),
        tool_outcome(plugin, tool, args, agent, now, r),
    ensures
        match args.field("account"@) {
            Some(JsonModel::Str(named)) => !(plugin.agents.contains_key(agent)
                && plugin.agents[agent].contains(named)) ==> {
                &&& r matches Err(e)
                &&& e matches GoogleError::AccountNotConfigured(a)
                &&& a@ == named
            },
            _ => !plugin.agents.contains_key(agent) ==> {
                &&& r matches Err(e)
                &&& e matches GoogleError::AgentNotConfigured(a)
                &&& a@ == agent
            },
        },
{
    json::members_are_read_as_what_they_are(args, "account"@);
    match args.field("account"@) {
        Some(JsonModel::Str(named)) => {
            agents_get_the_account_they_name(plugin, named, agent);
        },
        _ => {
            agents_get_the_account_they_name(plugin, agent, agent);
        },
    }
}

/// `google_call` on an account of the agent sends the body that it is given to
/// the Google API that it is given.
pub proof fn google_call_sends_its_body(
    plugin: PluginModel,
    args: JsonModel,
    agent: Seq<char>,
    now: int,
    r: Result<ToolStep, GoogleError>,
    id: Seq<char>,
    m: Seq<char>,
    u: Seq<char>,
)
    requires
        plugin.consistent(),
        tool_outcome(plugin, "google_call"@, args, agent, now, r),
        plugin.agents.contains_key(agent),
        plugin.agents[agent].contains(id),
        match args.field("account"@) {
            Some(JsonModel::Str(named)) => named == id,
            _ => plugin.agents[agent][0] == id,
        },
        args.field("method"@) == Some(JsonModel::Str(m)),
        args.field("url"@) == Some(JsonModel::Str(u)),
        http::google_api_url(u),
    ensures
        ({
            &&& r matches Ok(step)
            &&& step.account@ == id
            &&& step.action matches ToolAction::Call { method, url, body }
            &&& method@ == m
            &&& url@ == u
            &&& body is None <==> (args.field("body"@) is None || args.field("body"@) == Some(
                JsonModel::Null,
            ))
            &&& body matches Some(b) ==> args.field("body"@) == Some(b@)
        }),
{
    tools_do_what_they_are_for(plugin, "google_call"@, args, agent, now, r, id);
    match r {
        Ok(step) => {
            calls_carry_what_is_asked(args, Ok::<ToolAction, GoogleError>(step.action));
        },
        Err(e) => {
            calls_carry_what_is_asked(args, Err::<ToolAction, GoogleError>(e));
        },
    }
}

/// A report of an account is the report of its tokens with the name of the
/// account added.
pub proof fn reports_name_their_account(
    tokens: Option<TokensModel>,
    now: i64,
    account: Seq<char>,
    key: Seq<char>,
)
    requires
        clock::clock_reading(now),
    ensures
        ({
            let snapshot = client::snapshot_model(tokens, now as int);
            let report = account_report(snapshot, account);
            &&& report.field("account"@) == Some(JsonModel::Str(account))
            &&& report.field("authenticated"@) == Some(JsonModel::Bool(tokens is Some))
            &&& key != "account"@ ==> report.field(key) == snapshot.field(key)
        }),
{
    client::reports_show_the_tokens_on_file(tokens, now);
    let members = client::snapshot_model(tokens, now as int)->Object_0;
    lemma_one_more_member(members, "account"@, JsonModel::Str(account), key);
    lemma_one_more_member(members, "account"@, JsonModel::Str(account), "account"@);
    lemma_one_more_member(members, "account"@, JsonModel::Str(account), "authenticated"@);
}

proof fn lemma_one_more_member(
    members: Seq<(Seq<char>, JsonModel)>,
    name: Seq<char>,
    v: JsonModel,
    key: Seq<char>,
)
    ensures
        json::lookup(members.push((name, v)), key) == (match json::lookup(members, key) {
            Some(found) => Some(found),
            None => if key == name {
                Some(v)
            } else {
                None
            },
        }),
    decreases members.len(),
{
    let more = members.push((name, v));
    if members.len() == 0 {
        reveal_with_fuel(json::lookup, 2);
        assert(more[0] == (name, v));
        assert(more.skip(1).len() == 0);
    } else {
        assert(more[0] == members[0]);
        assert(more.skip(1) =~= members.skip(1).push((name, v)));
        lemma_one_more_member(members.skip(1), name, v, key);
    }
}

/// Every success is answered with `ok` and the account that it is about. A
/// started consent is answered with the address to open and the callback
/// address, a call with the reply that it got, and a revocation of an operator
/// with the agent.
pub proof fn answers_say_what_was_done(
    account: Seq<char>,
    url: Seq<char>,
    redirect_port: u16,
    response: JsonModel,
    agent: Seq<char>,
)
    ensures
        ({
            let start = auth_start_model(account, url, redirect_port);
            let call = call_model(account, response);
            let revoke = revoke_model(account);
            let admin = admin_revoke_model(agent, account);
            &&& start.field("ok"@) == Some(JsonModel::Bool(true))
            &&& start.field("account"@) == Some(JsonModel::Str(account))
            &&& start.field("url"@) == Some(JsonModel::Str(url))
            &&& start.field("redirect_uri"@) == Some(
                JsonModel::Str(client::redirect_uri_text(redirect_port)),
            )
            &&& call.field("ok"@) == Some(JsonModel::Bool(true))
            &&& call.field("account"@) == Some(JsonModel::Str(account))
            &&& call.field("response"@) == Some(response)
            &&& revoke.field("ok"@) == Some(JsonModel::Bool(true))
            &&& revoke.field("account"@) == Some(JsonModel::Str(account))
            &&& admin.field("ok"@) == Some(JsonModel::Bool(true))
            &&& admin.field("agent_id"@) == Some(JsonModel::Str(agent))
            &&& admin.field("account"@) == Some(JsonModel::Str(account))
        }),
{
    reveal_strlit("ok");
    reveal_strlit("account");
    reveal_strlit("url");
    reveal_strlit("instructions");
    reveal_strlit("redirect_uri");
    reveal_strlit("response");
    reveal_strlit("message");
    reveal_strlit("agent_id");
    assert("instructions"@[0] != "redirect_uri"@[0]);
    assert("message"@[0] != "account"@[0]);
    assert("ok"@.len() == 2 && "account"@.len() == 7 && "url"@.len() == 3 && "redirect_uri"@.len()
        == 12 && "response"@.len() == 8 && "agent_id"@.len() == 8);
    let start = auth_start_model(account, url, redirect_port)->Object_0;
    json::first_members_are_read(start, 0);
    json::first_members_are_read(start, 1);
    json::first_members_are_read(start, 2);
    json::first_members_are_read(start, 4);
    let call = call_model(account, response)->Object_0;
    json::first_members_are_read(call, 0);
    json::first_members_are_read(call, 1);
    json::first_members_are_read(call, 2);
    let revoke = revoke_model(account)->Object_0;
    json::first_members_are_read(revoke, 0);
    json::first_members_are_read(revoke, 1);
    let admin = admin_revoke_model(agent, account)->Object_0;
    json::first_members_are_read(admin, 0);
    json::first_members_are_read(admin, 1);
    json::first_members_are_read(admin, 2);
}

/// An operator who asks for the status of an account is told of that account;
/// one who names none is told of the first of the agent.
pub proof fn operators_are_told_of_the_account_they_name(
    plugin: PluginModel,
    agent: Seq<char>,
    named: Option<Seq<char>>,
    now: i64,
    r: Result<Json, GoogleError>,
)
    requires
        plugin.consistent(),
        clock::clock_reading(now),
        status_outcome(plugin, agent, named, now as int, r),
    ensures
        match named {
            Some(id) => if plugin.accounts.contains_key(id) {
                &&& r matches Ok(v)
                &&& v@.field("account"@) == Some(JsonModel::Str(id))
                &&& v@.field("authenticated"@) == Some(
                    JsonModel::Bool(plugin.accounts[id].tokens is Some),
                )
            } else {
                r matches Err(e) && e is AccountNotConfigured
            },
            None => if plugin.agents.contains_key(agent) {
                &&& r matches Ok(v)
                &&& v@.field("account"@) == Some(JsonModel::Str(plugin.agents[agent][0]))
                &&& v@.field("authenticated"@) == Some(
                    JsonModel::Bool(plugin.accounts[plugin.agents[agent][0]].tokens is Some),
                )
            } else {
                r matches Err(e) && e is AgentNotConfigured
            },
        },
{
    let id = match named {
        Some(id) => id,
        None => plugin.agents[agent][0],
    };
    operators_get_the_account_they_name(plugin, id, agent);
    reports_name_their_account(plugin.accounts[id].tokens, now, id, ""@);
}

/// The item of a listing is about the account, and shows the report of its
/// tokens.
pub open spec fn lists_account(item: JsonModel, id: Seq<char>, report: JsonModel) -> bool {
    item.field("account"@) == Some(JsonModel::Str(id)) && item.field("status"@) == Some(report)
}

/// The item of a listing is about the agent, and shows the accounts that it
/// owns.
pub open spec fn lists_agent(item: JsonModel, agent: Seq<char>, owned: Seq<Seq<char>>) -> bool {
    &&& item.field("agent_id"@) == Some(JsonModel::Str(agent))
    &&& item.field("accounts"@) matches Some(JsonModel::Array(names))
    &&& names.len() == owned.len()
    &&& forall|i: int| 0 <= i < names.len() ==> #[trigger] names[i] == JsonModel::Str(owned[i])
}

/// A listing shows each account with the report of its tokens, and each agent
/// with the accounts that it owns, in order; and it shows no other.
pub proof fn listings_show_everything_once(
    plugin: PluginModel,
    now: int,
    v: JsonModel,
    id: Seq<char>,
    agent: Seq<char>,
)
    requires
        plugin.consistent(),
        is_listing(plugin, now, v),
    ensures
        ({
            &&& v.field("accounts"@) matches Some(JsonModel::Array(accounts))
            &&& v.field("agents"@) matches Some(JsonModel::Array(agents))
            &&& accounts.len() == plugin.accounts.dom().len()
            &&& agents.len() == plugin.agents.dom().len()
            &&& plugin.accounts.contains_key(id) ==> exists|i: int|
                0 <= i < accounts.len() && lists_account(
                    #[trigger] accounts[i],
                    id,
                    client::snapshot_model(plugin.accounts[id].tokens, now),
                )
            &&& plugin.agents.contains_key(agent) ==> exists|i: int|
                0 <= i < agents.len() && lists_agent(
                    #[trigger] agents[i],
                    agent,
                    plugin.agents[agent],
                )
            &&& forall|i: int|
                0 <= i < accounts.len() ==> ((#[trigger] accounts[i]).field("account"@) matches Some(
                    JsonModel::Str(a),
                ) && plugin.accounts.contains_key(a))
            &&& forall|i: int|
                0 <= i < agents.len() ==> ((#[trigger] agents[i]).field("agent_id"@) matches Some(
                    JsonModel::Str(a),
                ) && plugin.agents.contains_key(a))
        }),
{
    let (ids, names) = choose|accounts: Seq<Seq<char>>, agents: Seq<Seq<char>>|
        #![trigger listing_model(plugin, accounts, agents, now)]
        orders(accounts, plugin.accounts.dom()) && orders(agents, plugin.agents.dom()) && v
            == listing_model(plugin, accounts, agents, now);
    reveal_strlit("accounts");
    reveal_strlit("agents");
    reveal_strlit("account");
    reveal_strlit("status");
    reveal_strlit("agent_id");
    assert("accounts"@.len() == 8 && "agents"@.len() == 6 && "account"@.len() == 7
        && "status"@.len() == 6 && "agent_id"@.len() == 8);
    assert("agent_id"@[1] != "accounts"@[1]);
    let members = v->Object_0;
    json::first_members_are_read(members, 0);
    json::first_members_are_read(members, 1);
    let accounts = account_items(plugin, ids, now);
    let agents = agent_items(plugin, names);
    ids.unique_seq_to_set();
    names.unique_seq_to_set();
    assert forall|i: int| 0 <= i < ids.len() implies lists_account(
        #[trigger] accounts[i],
        ids[i],
        client::snapshot_model(plugin.accounts[ids[i]].tokens, now),
    ) && plugin.accounts.contains_key(ids[i]) by {
        json::first_members_are_read(account_item(plugin, ids[i], now)->Object_0, 0);
        json::first_members_are_read(account_item(plugin, ids[i], now)->Object_0, 1);
        assert(ids.to_set().contains(ids[i]));
    }
    assert forall|i: int| 0 <= i < names.len() implies lists_agent(
        #[trigger] agents[i],
        names[i],
        plugin.agents[names[i]],
    ) && plugin.agents.contains_key(names[i]) by {
        json::first_members_are_read(agent_item(plugin, names[i])->Object_0, 0);
        json::first_members_are_read(agent_item(plugin, names[i])->Object_0, 1);
        assert(names.to_set().contains(names[i]));
    }
    if plugin.accounts.contains_key(id) {
        assert(ids.to_set().contains(id));
        let i = choose|i: int| 0 <= i < ids.len() && ids[i] == id;
        assert(lists_account(
            accounts[i],
            id,
            client::snapshot_model(plugin.accounts[id].tokens, now),
        ));
    }
    if plugin.agents.contains_key(agent) {
        assert(names.to_set().contains(agent));
        let i = choose|i: int| 0 <= i < names.len() && names[i] == agent;
        assert(lists_agent(agents[i], agent, plugin.agents[agent]));
    }
}

/// The client of an account is made of what its declaration and its files say:
/// the secrets without the white space around them, the scopes and the port as
/// they are declared, the tokens where they can be read.
pub proof fn clients_are_made_of_their_files(
    file: AccountFilesModel,
    before: Seq<char>,
    id: Seq<char>,
    secret: Seq<char>,
    after: Seq<char>,
)
    requires
        forall|i: int| 0 <= i < before.len() ==> text::is_space(#[trigger] before[i]),
        forall|i: int| 0 <= i < after.len() ==> text::is_space(#[trigger] after[i]),
        id.len() > 0 ==> !text::is_space(id[0]) && !text::is_space(id.last()),
        secret.len() > 0 ==> !text::is_space(secret[0]) && !text::is_space(secret.last()),
        file.client_id == Some(before + id + after),
        file.client_secret == Some(before + secret + after),
    ensures
        ({
            let c = file.client();
            &&& c.config.client_id == id
            &&& c.config.client_secret == secret
            &&& c.config.scopes == file.account.scopes
            &&& c.config.redirect_port == file.account.redirect_port
            &&& c.token_path == file.account.token_path
            &&& c.tokens == file.tokens
            &&& c.pending_state is None
            &&& c.pending_verifier is None
            &&& c.secrets matches Some(s)
            &&& s.client_id_path == file.account.client_id_path
            &&& s.client_secret_path == file.account.client_secret_path
            &&& match (file.id_mtime, file.secret_mtime) {
                (Some(a), Some(b)) => s.last_mtime >= a && s.last_mtime >= b && (s.last_mtime == a
                    || s.last_mtime == b),
                _ => s.last_mtime == 0,
            }
        }),
{
    text::trimming_takes_white_space_only(before, id, after);
    text::trimming_takes_white_space_only(before, secret, after);
    token_paths_are_verbatim(file);
}

/// An account cannot be used where one of its secrets cannot be read; the error
/// names the account and the file, the client id before the client secret.
pub proof fn unreadable_secrets_are_named(file: AccountFilesModel, error: GoogleError)
    ensures
        file.unreadable() <==> file.client_id is None || file.client_secret is None,
        file.client_id is None ==> (reports_unreadable(error, file) <==> (
        error matches GoogleError::ClientIdUnreadable { account, path } && account@
            == file.account.id && path@ == file.account.client_id_path)),
        file.client_id is Some && file.client_secret is None ==> (reports_unreadable(error, file)
            <==> (error matches GoogleError::ClientSecretUnreadable { account, path } && account@
            == file.account.id && path@ == file.account.client_secret_path)),
{
}

/// One more declaration gives its agent one more account, behind those that it
/// has, and the account a client; all else stays.
pub proof fn declarations_add_up(files: Seq<AccountFilesModel>, file: AccountFilesModel, other: Seq<char>)
    ensures
        ({
            let before = configured(files);
            let after = configured(files.push(file));
            &&& after.accounts_of(file.account.agent_id) == before.accounts_of(
                file.account.agent_id,
            ).push(file.account.id)
            &&& other != file.account.agent_id ==> after.accounts_of(other) == before.accounts_of(
                other,
            )
            &&& after.accounts.contains_key(file.account.id)
            &&& after.accounts[file.account.id] == file.client()
            &&& other != file.account.id ==> after.accounts.contains_key(other)
                == before.accounts.contains_key(other) && (before.accounts.contains_key(other)
                ==> after.accounts[other] == before.accounts[other])
            &&& configured(Seq::empty()).accounts.dom() == Set::<Seq<char>>::empty()
            &&& configured(Seq::empty()).agents.dom() == Set::<Seq<char>>::empty()
        }),
{
    assert(files.push(file).drop_last() =~= files);
    assert(configured(Seq::empty()).accounts.dom() =~= Set::<Seq<char>>::empty());
    assert(configured(Seq::empty()).agents.dom() =~= Set::<Seq<char>>::empty());
}

/// The accounts of an agent are those on its list; an agent that is not known
/// has none.
pub proof fn unknown_agents_own_nothing(plugin: PluginModel, agent: Seq<char>)
    ensures
        plugin.agents.contains_key(agent) ==> plugin.accounts_of(agent) == plugin.agents[agent],
        !plugin.agents.contains_key(agent) ==> plugin.accounts_of(agent).len() == 0,
{
}

/// The model of an account and its files shows every part of them; of a token
/// file it shows the tokens, where it holds any.
pub proof fn accounts_are_modelled_part_for_part(f: AccountFiles)
    ensures
        f@.account.id == f.account.id@,
        f@.account.agent_id == f.account.agent_id@,
        f@.account.client_id_path == f.account.client_id_path@,
        f@.account.client_secret_path == f.account.client_secret_path@,
        f@.account.token_path == f.account.token_path@,
        f@.account.scopes.len() == f.account.scopes@.len(),
        forall|i: int|
            0 <= i < f.account.scopes@.len() ==> #[trigger] f@.account.scopes[i]
                == f.account.scopes@[i]@,
        f@.account.redirect_port == f.account.redirect_port,
        f.client_id matches Some(s) ==> f@.client_id == Some(s@),
        f.client_id is None ==> f@.client_id is None,
        f.client_secret matches Some(s) ==> f@.client_secret == Some(s@),
        f.client_secret is None ==> f@.client_secret is None,
        f@.id_mtime == f.id_mtime,
        f@.secret_mtime == f.secret_mtime,
        f.tokens matches TokenFile::Tokens(t) ==> f@.tokens == Some(t@),
        !(f.tokens is Tokens) ==> f@.tokens is None,
{
}

/// The texts of the answers tell the user how to go on, and that the tokens are
/// gone.
pub proof fn answers_tell_how_to_go_on(account: Seq<char>, url: Seq<char>, redirect_port: u16)
    ensures
        auth_start_model(account, url, redirect_port).field_text("instructions"@) matches Some(t)
            && text::occurs("google_auth_status"@, t),
        revoke_model(account).field_text("message"@) matches Some(t) && text::occurs(
            "revoked"@,
            t,
        ),
{
    reveal_strlit("ok");
    reveal_strlit("account");
    reveal_strlit("url");
    reveal_strlit("instructions");
    reveal_strlit("message");
    assert("message"@[0] != "account"@[0]);
    assert("ok"@.len() == 2 && "account"@.len() == 7 && "url"@.len() == 3 && "instructions"@.len()
        == 12 && "message"@.len() == 7);
    json::first_members_are_read(auth_start_model(account, url, redirect_port)->Object_0, 3);
    json::first_members_are_read(revoke_model(account)->Object_0, 2);
    reveal_strlit("google_auth_status");
    reveal_strlit("revoked");
    reveal_strlit("tokens revoked + wiped");
    reveal_strlit(
        "Open this URL in a browser you're logged into your Google account with, approve the scopes, then call google_auth_status to confirm.",
    );
    let t =
        "Open this URL in a browser you're logged into your Google account with, approve the scopes, then call google_auth_status to confirm."@;
    assert(t.subrange(102, 120) =~= "google_auth_status"@);
    assert(text::occurs_at("google_auth_status"@, t, 102));
    let m = "tokens revoked + wiped"@;
    assert(m.subrange(7, 14) =~= "revoked"@);
    assert(text::occurs_at("revoked"@, m, 7));
}

} // verus!

//! What the daemon asks of the plugin over the broker: administrative
//! requests, and HTTP requests below `/google/`.
//!
//! Every answer to an administrative request is `{ok: true, result: ..}` or
//! `{ok: false, error: ..}`. Every answer to an HTTP request is
//! `{status, headers, body_base64}`.

use crate::client;
use crate::clock;
use crate::clock::now_timestamp;
use crate::encoding;
use crate::encoding::base64_std;
use crate::error::GoogleError;
use crate::json;
use crate::json::{Json, JsonModel, Members};
use crate::json_text;
use crate::plugin;
use crate::plugin::{admin_revoke_reply, GooglePlugin, PluginModel};
use crate::text;
use crate::text::{concat, str_eq};
use vstd::prelude::*;
use vstd::utf8::*;

verus! {

/// The version of the plugin.
pub open spec fn version() -> Seq<char> {
    "0.3.0"@
}

/// The state of a plugin that may not have been booted.
pub open spec fn booted(plugin: Option<&GooglePlugin>) -> Option<PluginModel> {
    match plugin {
        Some(p) => Some(p@),
        None => None,
    }
}

// ---------------------------------------------------------------------------
// Administrative requests

/// The answer to a request that succeeded.
pub open spec fn ok_model(result: JsonModel) -> JsonModel {
    JsonModel::Object(seq![("ok"@, JsonModel::Bool(true)), ("result"@, result)])
}

/// The answer to a request that failed.
pub open spec fn failure_model(error: Seq<char>) -> JsonModel {
    JsonModel::Object(seq![("ok"@, JsonModel::Bool(false)), ("error"@, JsonModel::Str(error))])
}

fn ok_reply(result: Json) -> (r: Json)
    ensures
        r@ == ok_model(result@),
{
    let r: Json = Members::new().with("ok", Json::Bool(true)).with("result", result).into_json();
    assert(r@->Object_0 =~= ok_model(result@)->Object_0);
    r
}

fn failure_reply(error: &str) -> (r: Json)
    ensures
        r@ == failure_model(error@),
{
    let r: Json = Members::new().with("ok", Json::Bool(false)).with(
        "error",
        Json::text(error),
    ).into_json();
    assert(r@->Object_0 =~= failure_model(error@)->Object_0);
    r
}

/// What `bot_info` reports.
pub open spec fn bot_info_model(agents: nat, accounts: nat) -> JsonModel {
    JsonModel::Object(
        seq![
            ("plugin"@, JsonModel::Str("google"@)),
            ("version"@, JsonModel::Str(version())),
            ("configured_agents"@, JsonModel::PosInt(agents as u64)),
            ("configured_accounts"@, JsonModel::PosInt(accounts as u64)),
        ],
    )
}

fn bot_info(plugin: &GooglePlugin) -> (r: Json)
    requires
        plugin.valid(),
    ensures
        r@ == bot_info_model(plugin@.agents.dom().len(), plugin@.accounts.dom().len()),
{
    let agents: u64 = plugin.agent_count() as u64;
    let accounts: u64 = plugin.account_count() as u64;
    let r: Json = Members::new().with("plugin", Json::text("google")).with(
        "version",
        Json::text("0.3.0"),
    ).with("configured_agents", Json::PosInt(agents)).with(
        "configured_accounts",
        Json::PosInt(accounts),
    ).into_json();
    assert(r@->Object_0 =~= bot_info_model(
        plugin@.agents.dom().len(),
        plugin@.accounts.dom().len(),
    )->Object_0);
    r
}

/// What is done on an administrative request.
pub enum AdminStep {
    /// Answer with this.
    Answer(Json),
    /// Revoke the tokens of the account, for the agent.
    Revoke { agent_id: String, account: String },
}

/// The parameters of a request.
pub open spec fn params_of(request: JsonModel) -> JsonModel {
    match request.field("params"@) {
        Some(p) => p,
        None => JsonModel::Null,
    }
}

/// The method of a request.
pub open spec fn admin_method(request: JsonModel) -> Seq<char> {
    match request.field_text("method"@) {
        Some(m) => m,
        None => ""@,
    }
}

/// What is done on an administrative request at `now`.
pub open spec fn admin_outcome(
    plugin: Option<PluginModel>,
    request: JsonModel,
    now: int,
    r: AdminStep,
) -> bool {
    let method = admin_method(request);
    let agent = params_of(request).field_text("agent_id"@);
    let named = params_of(request).field_text("account"@);
    match plugin {
        None => answers(r, failure_model("google plugin not yet booted"@)),
        Some(p) => if method == "nexo/admin/google/bot_info"@ {
            answers(r, ok_model(bot_info_model(p.agents.dom().len(), p.accounts.dom().len())))
        } else if method == "nexo/admin/google/oauth_status"@ {
            match agent {
                None => answers(r, failure_model("missing required param `agent_id`"@)),
                Some(a) => match p.target(named, a) {
                    Ok(id) => answers(
                        r,
                        ok_model(
                            plugin::account_report(
                                client::snapshot_model(p.accounts[id].tokens, now),
                                id,
                            ),
                        ),
                    ),
                    Err(why) => answers(r, failure_model(why.text())),
                },
            }
        } else if method == "nexo/admin/google/oauth_revoke"@ {
            match agent {
                None => answers(r, failure_model("missing required param `agent_id`"@)),
                Some(a) => match p.target(named, a) {
                    Ok(id) => {
                        &&& r matches AdminStep::Revoke { agent_id, account }
                        &&& agent_id@ == a
                        &&& account@ == id
                    },
                    Err(why) => answers(r, failure_model(why.text())),
                },
            }
        } else if method == "nexo/admin/google/list_tokens"@ {
            exists|v: JsonModel| #[trigger]
                plugin::is_listing(p, now, v) && answers(r, ok_model(v))
        } else {
            answers(r, failure_model("unknown admin method: "@ + method))
        },
    }
}

/// `step` answers with `v`.
pub open spec fn answers(step: AdminStep, v: JsonModel) -> bool {
    &&& step matches AdminStep::Answer(a)
    &&& a@ == v
}

/// What is done on an administrative request at `now`.
pub fn admin_handle_at(plugin: Option<&GooglePlugin>, request: &Json, now: i64) -> (r: AdminStep)
    requires
        plugin matches Some(p) ==> p.valid(),
        clock::clock_reading(now),
    ensures
        admin_outcome(booted(plugin), request@, now as int, r),
{
    let p: &GooglePlugin = match plugin {
        Some(p) => p,
        None => {
            return AdminStep::Answer(failure_reply("google plugin not yet booted"));
        },
    };
    let method: String = match request.field_str("method") {
        Some(m) => m,
        None => "".to_owned(),
    };
    let (agent, named): (Option<String>, Option<String>) = match request.get("params") {
        Some(params) => (params.field_str("agent_id"), params.field_str("account")),
        None => (None, None),
    };
    let account: Option<&str> = match &named {
        Some(a) => Some(a.as_str()),
        None => None,
    };
    if str_eq(method.as_str(), "nexo/admin/google/bot_info") {
        AdminStep::Answer(ok_reply(bot_info(p)))
    } else if str_eq(method.as_str(), "nexo/admin/google/oauth_status") {
        match agent {
            None => AdminStep::Answer(failure_reply("missing required param `agent_id`")),
            Some(agent_id) => match p.admin_oauth_status_at(agent_id.as_str(), account, now) {
                Ok(v) => AdminStep::Answer(ok_reply(v)),
                Err(e) => AdminStep::Answer(failure_reply(e.message().as_str())),
            },
        }
    } else if str_eq(method.as_str(), "nexo/admin/google/oauth_revoke") {
        match agent {
            None => AdminStep::Answer(failure_reply("missing required param `agent_id`")),
            Some(agent_id) => match p.admin_oauth_revoke(agent_id.as_str(), account) {
                Ok(account) => AdminStep::Revoke { agent_id, account },
                Err(e) => AdminStep::Answer(failure_reply(e.message().as_str())),
            },
        }
    } else if str_eq(method.as_str(), "nexo/admin/google/list_tokens") {
        AdminStep::Answer(ok_reply(p.admin_list_tokens_at(now)))
    } else {
        AdminStep::Answer(
            failure_reply(concat("unknown admin method: ", method.as_str()).as_str()),
        )
    }
}

/// What is done on an administrative request now.
pub fn admin_handle(plugin: Option<&GooglePlugin>, request: &Json) -> (r: AdminStep)
    requires
        plugin matches Some(p) ==> p.valid(),
    ensures
        exists|now: i64| #[trigger]
            clock::clock_reading(now) && admin_outcome(booted(plugin), request@, now as int, r),
{
    let now: i64 = now_timestamp();
    admin_handle_at(plugin, request, now)
}

/// The answer to a request for revocation, once that has been tried.
pub fn admin_revoked(agent_id: &str, account: &str, outcome: &Result<(), GoogleError>) -> (r: Json)
    ensures
        r@ == (match *outcome {
            Ok(_) => ok_model(plugin::admin_revoke_model(agent_id@, account@)),
            Err(e) => failure_model(e.text()),
        }),
{
    match outcome {
        Ok(_) => ok_reply(admin_revoke_reply(agent_id, account)),
        Err(e) => failure_reply(e.message().as_str()),
    }
}

// ---------------------------------------------------------------------------
// HTTP requests

/// The answer to an HTTP request.
pub open spec fn respond_model(status: u16, content_type: Seq<char>, body: Seq<u8>) -> JsonModel {
    JsonModel::Object(
        seq![
            ("status"@, JsonModel::PosInt(status as u64)),
            (
                "headers"@,
                JsonModel::Array(
                    seq![JsonModel::Array(json::text_items(seq!["Content-Type"@, content_type]))],
                ),
            ),
            ("body_base64"@, JsonModel::Str(encoding::base64_std_text(body))),
        ],
    )
}

/// The answer to an HTTP request.
pub fn respond(status: u16, content_type: &str, body: &[u8]) -> (r: Json)
    ensures
        r@ == respond_model(status, content_type@, body@),
{
    let mut header: Vec<Json> = Vec::new();
    header.push(Json::text("Content-Type"));
    header.push(Json::text(content_type));
    assert(json::items_model(header@) =~= json::text_items(seq!["Content-Type"@, content_type@]));
    let mut headers: Vec<Json> = Vec::new();
    headers.push(Json::array(header));
    assert(json::items_model(headers@) =~= seq![
        JsonModel::Array(json::text_items(seq!["Content-Type"@, content_type@])),
    ]);
    let body_base64: String = base64_std(body);
    let r: Json = Members::new().with("status", Json::PosInt(status as u64)).with(
        "headers",
        Json::array(headers),
    ).with("body_base64", Json::text(body_base64.as_str())).into_json();
    assert(r@->Object_0 =~= respond_model(status, content_type@, body@)->Object_0);
    r
}

/// `v` is what `/google/status` shows at `now`.
pub open spec fn is_status_report(plugin: Option<PluginModel>, now: int, v: JsonModel) -> bool {
    match plugin {
        None => v == JsonModel::Object(
            seq![
                ("status"@, JsonModel::Str("booting"@)),
                ("plugin"@, JsonModel::Str("google"@)),
                ("version"@, JsonModel::Str(version())),
            ],
        ),
        Some(p) => exists|listing: JsonModel| #[trigger]
            plugin::is_listing(p, now, listing) && v == report_model(p, listing),
    }
}

/// What `/google/status` shows of a booted plugin.
pub open spec fn report_model(p: PluginModel, listing: JsonModel) -> JsonModel {
    JsonModel::Object(
        seq![
            ("status"@, JsonModel::Str("ok"@)),
            ("plugin"@, JsonModel::Str("google"@)),
            ("version"@, JsonModel::Str(version())),
            ("agents"@, JsonModel::PosInt(p.agents.dom().len() as u64)),
            ("accounts"@, JsonModel::PosInt(p.accounts.dom().len() as u64)),
            ("listing"@, listing),
        ],
    )
}

/// What `/google/status` shows at `now`.
pub fn render_status_snapshot_at(plugin: Option<&GooglePlugin>, now: i64) -> (r: Json)
    requires
        plugin matches Some(p) ==> p.valid(),
        clock::clock_reading(now),
    ensures
        is_status_report(booted(plugin), now as int, r@),
{
    match plugin {
        None => {
            let r: Json = Members::new().with("status", Json::text("booting")).with(
                "plugin",
                Json::text("google"),
            ).with("version", Json::text("0.3.0")).into_json();
            assert(r@->Object_0 =~= seq![
                ("status"@, JsonModel::Str("booting"@)),
                ("plugin"@, JsonModel::Str("google"@)),
                ("version"@, JsonModel::Str(version())),
            ]);
            r
        },
        Some(p) => {
            let agents: u64 = p.agent_count() as u64;
            let accounts: u64 = p.account_count() as u64;
            let listing: Json = p.admin_list_tokens_at(now);
            let r: Json = Members::new().with("status", Json::text("ok")).with(
                "plugin",
                Json::text("google"),
            ).with("version", Json::text("0.3.0")).with("agents", Json::PosInt(agents)).with(
                "accounts",
                Json::PosInt(accounts),
            ).with("listing", listing).into_json();
            assert(r@->Object_0 =~= report_model(p@, listing@)->Object_0);
            r
        },
    }
}

/// The type of every body.
pub open spec fn json_type() -> Seq<char> {
    "application/json; charset=utf-8"@
}

/// `r` is the answer to an HTTP request at `now`.
pub open spec fn http_outcome(
    plugin: Option<PluginModel>,
    request: JsonModel,
    now: int,
    r: JsonModel,
) -> bool {
    let path = match request.field_text("path"@) {
        Some(p) => p,
        None => "/"@,
    };
    let method = match request.field_text("method"@) {
        Some(m) => m,
        None => "GET"@,
    };
    if method == "GET"@ && path == "/google/status"@ {
        exists|v: JsonModel| #[trigger]
            is_status_report(plugin, now, v) && r == respond_model(
                200,
                json_type(),
                encode_utf8(json_text::text_of(v)),
            )
    } else if method == "GET"@ && path == "/google/health"@ {
        r == respond_model(200, json_type(), encode_utf8("{\"status\":\"ok\"}"@))
    } else {
        r == respond_model(404, json_type(), encode_utf8("{\"error\":\"not found\"}"@))
    }
}

/// The answer to an HTTP request at `now`.
pub fn http_request_at(plugin: Option<&GooglePlugin>, request: &Json, now: i64) -> (r: Json)
    requires
        plugin matches Some(p) ==> p.valid(),
        clock::clock_reading(now),
    ensures
        http_outcome(booted(plugin), request@, now as int, r@),
{
    let path: String = match request.field_str("path") {
        Some(p) => p,
        None => "/".to_owned(),
    };
    let method: String = match request.field_str("method") {
        Some(m) => m,
        None => "GET".to_owned(),
    };
    let get: bool = str_eq(method.as_str(), "GET");
    if get && str_eq(path.as_str(), "/google/status") {
        let report: Json = render_status_snapshot_at(plugin, now);
        let body: String = json_text::json_text(&report);
        respond(200, "application/json; charset=utf-8", body.as_str().as_bytes())
    } else if get && str_eq(path.as_str(), "/google/health") {
        respond(200, "application/json; charset=utf-8", "{\"status\":\"ok\"}".as_bytes())
    } else {
        respond(404, "application/json; charset=utf-8", "{\"error\":\"not found\"}".as_bytes())
    }
}

/// The answer to an HTTP request now.
pub fn http_request(plugin: Option<&GooglePlugin>, request: &Json) -> (r: Json)
    requires
        plugin matches Some(p) ==> p.valid(),
    ensures
        exists|now: i64| #[trigger]
            clock::clock_reading(now) && http_outcome(booted(plugin), request@, now as int, r@),
{
    let now: i64 = now_timestamp();
    http_request_at(plugin, request, now)
}

// ---------------------------------------------------------------------------
// Laws

/// Every answer to an administrative request is a success with a result, or a
/// failure with an error.
pub proof fn admin_answers_are_framed(
    plugin: Option<PluginModel>,
    request: JsonModel,
    now: int,
    r: AdminStep,
)
    requires
        admin_outcome(plugin, request, now, r),
    ensures
        r matches AdminStep::Answer(v) ==> {
            ||| exists|result: JsonModel| v@ == #[trigger] ok_model(result)
            ||| exists|error: Seq<char>| v@ == #[trigger] failure_model(error)
        },
{
}

/// Before the plugin is booted every administrative request fails.
pub proof fn unbooted_plugins_refuse(request: JsonModel, now: int, r: AdminStep)
    requires
        admin_outcome(None, request, now, r),
    ensures
        answers(r, failure_model("google plugin not yet booted"@)),
{
}

/// The health of the plugin is reported whether or not it is booted, and
/// whatever it holds.
pub proof fn health_is_always_reported(
    plugin: Option<PluginModel>,
    request: JsonModel,
    now: int,
    r: JsonModel,
)
    requires
        http_outcome(plugin, request, now, r),
        request.field_text("path"@) == Some("/google/health"@),
        request.field_text("method"@) matches Some(m) ==> m == "GET"@,
    ensures
        r == respond_model(200, json_type(), encode_utf8("{\"status\":\"ok\"}"@)),
{
    reveal_strlit("/google/health");
    reveal_strlit("/google/status");
    assert("/google/health"@[8] != "/google/status"@[8]);
}

/// Anything but a `GET` is not found.
pub proof fn other_methods_are_not_found(
    plugin: Option<PluginModel>,
    request: JsonModel,
    now: int,
    r: JsonModel,
)
    requires
        http_outcome(plugin, request, now, r),
        request.field_text("method"@) matches Some(m) && m != "GET"@,
    ensures
        r == respond_model(404, json_type(), encode_utf8("{\"error\":\"not found\"}"@)),
{
}

proof fn lemma_admin_names()
    ensures
        "nexo/admin/google/bot_info"@.len() == 26,
        "nexo/admin/google/oauth_status"@.len() == 30,
        "nexo/admin/google/oauth_revoke"@.len() == 30,
        "nexo/admin/google/list_tokens"@.len() == 29,
        "nexo/admin/google/oauth_status"@ != "nexo/admin/google/oauth_revoke"@,
        "ok"@.len() == 2,
        "result"@.len() == 6,
        "error"@.len() == 5,
{
    reveal_strlit("nexo/admin/google/bot_info");
    reveal_strlit("nexo/admin/google/oauth_status");
    reveal_strlit("nexo/admin/google/oauth_revoke");
    reveal_strlit("nexo/admin/google/list_tokens");
    reveal_strlit("ok");
    reveal_strlit("result");
    reveal_strlit("error");
    assert("nexo/admin/google/oauth_status"@[24] != "nexo/admin/google/oauth_revoke"@[24]);
}

/// `step` answers that the request succeeded, with `result`.
pub open spec fn succeeds_with(step: AdminStep, result: JsonModel) -> bool {
    &&& step matches AdminStep::Answer(v)
    &&& v@.field("ok"@) == Some(JsonModel::Bool(true))
    &&& v@.field("result"@) == Some(result)
    &&& v@.field("error"@) is None
}

/// `step` answers that the request failed, for the given reason.
pub open spec fn fails_with(step: AdminStep, reason: Seq<char>) -> bool {
    &&& step matches AdminStep::Answer(v)
    &&& v@.field("ok"@) == Some(JsonModel::Bool(false))
    &&& v@.field("error"@) == Some(JsonModel::Str(reason))
    &&& v@.field("result"@) is None
}

/// A success says `ok` and shows its result; a failure denies it and shows its
/// reason.
pub proof fn frames_tell_success_from_failure(
    step: AdminStep,
    result: JsonModel,
    reason: Seq<char>,
)
    ensures
        answers(step, ok_model(result)) ==> succeeds_with(step, result),
        answers(step, failure_model(reason)) ==> fails_with(step, reason),
{
    lemma_admin_names();
    let ok = ok_model(result)->Object_0;
    json::first_members_are_read(ok, 0);
    json::first_members_are_read(ok, 1);
    json::missing_members_are_not_found(ok, "error"@);
    let failure = failure_model(reason)->Object_0;
    json::first_members_are_read(failure, 0);
    json::first_members_are_read(failure, 1);
    json::missing_members_are_not_found(failure, "result"@);
}

/// The parameter of a request, where it is given as a text.
pub open spec fn text_param(request: JsonModel, name: Seq<char>) -> Option<Seq<char>> {
    match request.field("params"@) {
        Some(params) => match params.field(name) {
            Some(JsonModel::Str(s)) => Some(s),
            _ => None,
        },
        None => None,
    }
}

proof fn lemma_params(request: JsonModel, name: Seq<char>)
    ensures
        params_of(request).field_text(name) == text_param(request, name),
{
    json::members_are_read_as_what_they_are(params_of(request), name);
}

/// A request to revoke tokens is about the account that its parameters name,
/// wherever that is configured; only where they name none is it about the first
/// account of the agent. The revocation is made for the agent that is named.
pub proof fn the_named_account_is_revoked(
    plugin: PluginModel,
    request: JsonModel,
    now: int,
    r: AdminStep,
    agent: Seq<char>,
)
    requires
        plugin.consistent(),
        admin_outcome(Some(plugin), request, now, r),
        request.field("method"@) == Some(JsonModel::Str("nexo/admin/google/oauth_revoke"@)),
        text_param(request, "agent_id"@) == Some(agent),
    ensures
        match text_param(request, "account"@) {
            Some(id) => if plugin.accounts.contains_key(id) {
                r matches AdminStep::Revoke { agent_id, account } && agent_id@ == agent && account@
                    == id
            } else {
                fails_with(r, plugin::Untargeted::Account(id).text())
            },
            None => if plugin.agents.contains_key(agent) {
                r matches AdminStep::Revoke { agent_id, account } && agent_id@ == agent && account@
                    == plugin.agents[agent][0]
            } else {
                fails_with(r, plugin::Untargeted::Agent(agent).text())
            },
        },
{
    lemma_admin_names();
    json::members_are_read_as_what_they_are(request, "method"@);
    lemma_params(request, "agent_id"@);
    lemma_params(request, "account"@);
    let id = match text_param(request, "account"@) {
        Some(id) => id,
        None => agent,
    };
    plugin::operators_get_the_account_they_name(plugin, id, agent);
    frames_tell_success_from_failure(r, JsonModel::Null, plugin::Untargeted::Account(id).text());
    frames_tell_success_from_failure(r, JsonModel::Null, plugin::Untargeted::Agent(agent).text());
}

/// A request for the status is answered with the report of the account that its
/// parameters name, wherever that is configured; only where they name none, with
/// that of the first account of the agent.
pub proof fn the_named_account_is_reported(
    plugin: PluginModel,
    request: JsonModel,
    now: i64,
    r: AdminStep,
    agent: Seq<char>,
)
    requires
        plugin.consistent(),
        clock::clock_reading(now),
        admin_outcome(Some(plugin), request, now as int, r),
        request.field("method"@) == Some(JsonModel::Str("nexo/admin/google/oauth_status"@)),
        text_param(request, "agent_id"@) == Some(agent),
    ensures
        match text_param(request, "account"@) {
            Some(id) => if plugin.accounts.contains_key(id) {
                &&& r matches AdminStep::Answer(v)
                &&& v@.field("result"@) matches Some(report)
                &&& succeeds_with(r, report)
                &&& report.field("account"@) == Some(JsonModel::Str(id))
                &&& report.field("authenticated"@) == Some(
                    JsonModel::Bool(plugin.accounts[id].tokens is Some),
                )
            } else {
                fails_with(r, plugin::Untargeted::Account(id).text())
            },
            None => if plugin.agents.contains_key(agent) {
                &&& r matches AdminStep::Answer(v)
                &&& v@.field("result"@) matches Some(report)
                &&& succeeds_with(r, report)
                &&& report.field("account"@) == Some(JsonModel::Str(plugin.agents[agent][0]))
                &&& report.field("authenticated"@) == Some(
                    JsonModel::Bool(plugin.accounts[plugin.agents[agent][0]].tokens is Some),
                )
            } else {
                fails_with(r, plugin::Untargeted::Agent(agent).text())
            },
        },
{
    lemma_admin_names();
    json::members_are_read_as_what_they_are(request, "method"@);
    lemma_params(request, "agent_id"@);
    lemma_params(request, "account"@);
    let id = match text_param(request, "account"@) {
        Some(id) => id,
        None => plugin.agents[agent][0],
    };
    let report = plugin::account_report(
        client::snapshot_model(plugin.accounts[id].tokens, now as int),
        id,
    );
    plugin::operators_get_the_account_they_name(plugin, id, agent);
    plugin::reports_name_their_account(plugin.accounts[id].tokens, now, id, ""@);
    frames_tell_success_from_failure(r, report, plugin::Untargeted::Account(id).text());
    frames_tell_success_from_failure(r, report, plugin::Untargeted::Agent(agent).text());
}

/// A request that is about an account fails where it names no agent.
pub proof fn requests_without_an_agent_fail(
    plugin: PluginModel,
    request: JsonModel,
    now: int,
    r: AdminStep,
)
    requires
        admin_outcome(Some(plugin), request, now, r),
        request.field("method"@) == Some(JsonModel::Str("nexo/admin/google/oauth_revoke"@))
            || request.field("method"@) == Some(JsonModel::Str("nexo/admin/google/oauth_status"@)),
        text_param(request, "agent_id"@) is None,
    ensures
        fails_with(r, "missing required param `agent_id`"@),
{
    lemma_admin_names();
    json::members_are_read_as_what_they_are(request, "method"@);
    lemma_params(request, "agent_id"@);
    frames_tell_success_from_failure(
        r,
        JsonModel::Null,
        "missing required param `agent_id`"@,
    );
}

/// The other requests: one for the accounts is answered with a listing, one for
/// the plugin with its name and version and with the numbers of agents and
/// accounts. A method that is not known fails and is named; without a plugin
/// everything fails.
pub proof fn other_requests_are_answered(
    plugin: Option<PluginModel>,
    request: JsonModel,
    now: int,
    r: AdminStep,
)
    requires
        admin_outcome(plugin, request, now, r),
        plugin matches Some(p) ==> p.accounts.dom().len() <= u64::MAX && p.agents.dom().len()
            <= u64::MAX,
    ensures
        match plugin {
            None => fails_with(r, "google plugin not yet booted"@),
            Some(p) => match request.field("method"@) {
                Some(JsonModel::Str(method)) => if method == "nexo/admin/google/bot_info"@ {
                    &&& r matches AdminStep::Answer(v)
                    &&& v@.field("result"@) matches Some(info)
                    &&& succeeds_with(r, info)
                    &&& info.field("plugin"@) == Some(JsonModel::Str("google"@))
                    &&& info.field("version"@) == Some(JsonModel::Str("0.3.0"@))
                    &&& info.field_unsigned("configured_agents"@) matches Some(n)
                    &&& n == p.agents.dom().len()
                    &&& info.field_unsigned("configured_accounts"@) matches Some(m)
                    &&& m == p.accounts.dom().len()
                } else if method == "nexo/admin/google/list_tokens"@ {
                    &&& r matches AdminStep::Answer(v)
                    &&& v@.field("result"@) matches Some(listing)
                    &&& succeeds_with(r, listing)
                    &&& plugin::is_listing(p, now, listing)
                } else {
                    method != "nexo/admin/google/oauth_status"@ && method
                        != "nexo/admin/google/oauth_revoke"@ ==> fails_with(
                        r,
                        "unknown admin method: "@ + method,
                    )
                },
                _ => fails_with(r, "unknown admin method: "@ + ""@),
            },
        },
{
    lemma_admin_names();
    json::members_are_read_as_what_they_are(request, "method"@);
    frames_tell_success_from_failure(r, JsonModel::Null, "google plugin not yet booted"@);
    reveal_strlit("");
    if let Some(p) = plugin {
        let method = admin_method(request);
        frames_tell_success_from_failure(r, JsonModel::Null, "unknown admin method: "@ + method);
        if method == "nexo/admin/google/bot_info"@ {
            let info = bot_info_model(p.agents.dom().len(), p.accounts.dom().len());
            frames_tell_success_from_failure(r, info, ""@);
            reveal_strlit("plugin");
            reveal_strlit("version");
            reveal_strlit("configured_agents");
            reveal_strlit("configured_accounts");
            assert("plugin"@.len() == 6 && "version"@.len() == 7 && "configured_agents"@.len()
                == 17 && "configured_accounts"@.len() == 19);
            json::first_members_are_read(info->Object_0, 0);
            json::first_members_are_read(info->Object_0, 1);
            json::first_members_are_read(info->Object_0, 2);
            json::first_members_are_read(info->Object_0, 3);
        } else if method == "nexo/admin/google/list_tokens"@ {
            let v = choose|v: JsonModel| #[trigger]
                plugin::is_listing(p, now, v) && answers(r, ok_model(v));
            frames_tell_success_from_failure(r, v, ""@);
        }
    }
}

/// The answer to an HTTP request shows the status, the type of the body as the
/// only header, and the body in base64.
pub proof fn responses_show_status_type_and_body(
    status: u16,
    content_type: Seq<char>,
    body: Seq<u8>,
)
    ensures
        ({
            let v = respond_model(status, content_type, body);
            &&& v.field("status"@) == Some(JsonModel::PosInt(status as u64))
            &&& v.field("headers"@) matches Some(JsonModel::Array(headers))
            &&& headers.len() == 1
            &&& headers[0] matches JsonModel::Array(header)
            &&& header.len() == 2
            &&& header[0] == JsonModel::Str("Content-Type"@)
            &&& header[1] == JsonModel::Str(content_type)
            &&& v.field("body_base64"@) == Some(JsonModel::Str(encoding::base64_std_text(body)))
        }),
{
    reveal_strlit("status");
    reveal_strlit("headers");
    reveal_strlit("body_base64");
    assert("status"@.len() == 6 && "headers"@.len() == 7 && "body_base64"@.len() == 11);
    let members = respond_model(status, content_type, body)->Object_0;
    json::first_members_are_read(members, 0);
    json::first_members_are_read(members, 1);
    json::first_members_are_read(members, 2);
}

/// `v` is an HTTP answer with the given status, whose body is the text.
pub open spec fn responds(v: JsonModel, status: u16, body: Seq<char>) -> bool {
    v == respond_model(status, "application/json; charset=utf-8"@, encode_utf8(body))
}

/// A `GET` of the status shows the report, one of the health that the plugin is
/// well, and everything else is not found. A request that names no method is a
/// `GET`.
pub proof fn http_requests_are_told_apart(
    plugin: Option<PluginModel>,
    request: JsonModel,
    now: int,
    r: JsonModel,
)
    requires
        http_outcome(plugin, request, now, r),
    ensures
        ({
            let get = match request.field("method"@) {
                Some(JsonModel::Str(m)) => m == "GET"@,
                _ => true,
            };
            match request.field("path"@) {
                Some(JsonModel::Str(path)) => if get && path == "/google/status"@ {
                    exists|v: JsonModel| #[trigger]
                        is_status_report(plugin, now, v) && responds(r, 200, json_text::text_of(v))
                } else if get && path == "/google/health"@ {
                    responds(r, 200, "{\"status\":\"ok\"}"@)
                } else {
                    responds(r, 404, "{\"error\":\"not found\"}"@)
                },
                _ => responds(r, 404, "{\"error\":\"not found\"}"@),
            }
        }),
{
    reveal_strlit("/google/health");
    reveal_strlit("/google/status");
    reveal_strlit("/");
    assert("/google/health"@[8] != "/google/status"@[8]);
    assert("/"@.len() == 1);
    json::members_are_read_as_what_they_are(request, "method"@);
    json::members_are_read_as_what_they_are(request, "path"@);
}

/// The status tells a plugin that is not booted from one that is; of the latter
/// it shows the numbers of agents and accounts, and the listing.
pub proof fn status_reports_show_the_plugin(plugin: Option<PluginModel>, now: int, v: JsonModel)
    requires
        is_status_report(plugin, now, v),
        plugin matches Some(p) ==> p.accounts.dom().len() <= u64::MAX && p.agents.dom().len()
            <= u64::MAX,
    ensures
        v.field("plugin"@) == Some(JsonModel::Str("google"@)),
        v.field("version"@) == Some(JsonModel::Str("0.3.0"@)),
        match plugin {
            None => v.field("status"@) == Some(JsonModel::Str("booting"@)),
            Some(p) => {
                &&& v.field("status"@) == Some(JsonModel::Str("ok"@))
                &&& v.field_unsigned("agents"@) matches Some(n)
                &&& n == p.agents.dom().len()
                &&& v.field_unsigned("accounts"@) matches Some(m)
                &&& m == p.accounts.dom().len()
                &&& v.field("listing"@) matches Some(listing)
                &&& plugin::is_listing(p, now, listing)
            },
        },
{
    reveal_strlit("status");
    reveal_strlit("plugin");
    reveal_strlit("version");
    reveal_strlit("agents");
    reveal_strlit("accounts");
    reveal_strlit("listing");
    assert("status"@[0] != "plugin"@[0] && "status"@[0] != "agents"@[0] && "plugin"@[0]
        != "agents"@[0] && "version"@[0] != "listing"@[0]);
    assert("status"@.len() == 6 && "plugin"@.len() == 6 && "version"@.len() == 7 && "agents"@.len()
        == 6 && "accounts"@.len() == 8 && "listing"@.len() == 7);
    let members = v->Object_0;
    json::first_members_are_read(members, 0);
    json::first_members_are_read(members, 1);
    json::first_members_are_read(members, 2);
    if plugin is Some {
        json::first_members_are_read(members, 3);
        json::first_members_are_read(members, 4);
        json::first_members_are_read(members, 5);
    }
}

} // verus!

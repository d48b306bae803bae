//! The four tools of the plugin, as they are declared to the daemon.

use crate::error::GoogleError;
use crate::http;
use crate::http::HttpMethod;
use crate::json;
use crate::json::{text_array, Json, JsonModel, Members};
use crate::plugin;
use crate::plugin::{PluginModel, ToolStep};
use crate::text;
use vstd::prelude::*;

verus! {

/// A tool: its name, what it does, and the JSON schema of its arguments.
pub struct ToolDef {
    pub name: String,
    pub description: String,
    pub input_schema: Json,
}

/// The model of a tool.
pub struct ToolModel {
    pub name: Seq<char>,
    pub description: Seq<char>,
    pub input_schema: JsonModel,
}

impl View for ToolDef {
    type V = ToolModel;

    open spec fn view(&self) -> ToolModel {
        ToolModel {
            name: self.name@,
            description: self.description@,
            input_schema: self.input_schema@,
        }
    }
}

/// The description of `google_auth_start`.
pub const START_DESCRIPTION: &'static str = "Begin the Google OAuth consent flow. Returns a URL the user must \
    open in a browser to approve access. The agent must forward the URL to the \
    user via chat and then stop calling Google tools until `google_auth_status` \
    reports authenticated. The callback listener binds on 127.0.0.1 inside the \
    plugin subprocess — remote hosts need an SSH tunnel \
    (`ssh -L <port>:127.0.0.1:<port> <host>`). Only call this when \
    `google_auth_status.authenticated` is false — re-calling it invalidates any \
    in-flight consent.";

/// The description of `google_auth_status`.
pub const STATUS_DESCRIPTION: &'static str = "Report the current Google OAuth state: `authenticated` (bool), \
    `expires_in_secs` (access token TTL), `has_refresh` (can auto-renew), \
    `scopes` (what access was granted). Safe to call repeatedly — does not touch \
    the network; just reads the on-file tokens. When `authenticated` is false, \
    call `google_auth_start` to kick off the consent flow.";

/// The description of `google_call`.
pub const CALL_DESCRIPTION: &'static str = "Make an authenticated HTTP request against any `*.googleapis.com` \
    endpoint. Method is one of GET, POST, PUT, PATCH, DELETE. `body` (optional) \
    is a JSON value sent as the request payload. The access token is attached \
    as `Authorization: Bearer` and refreshed transparently when stale. Returns \
    the parsed JSON response.\n\nExamples:\n\
    - Gmail inbox: `{method: 'GET', url: 'https://gmail.googleapis.com/gmail/v1/users/me/messages?maxResults=10'}`\n\
    - Calendar insert: `{method: 'POST', url: 'https://www.googleapis.com/calendar/v3/calendars/primary/events', body: {...}}`\n\
    - Drive list: `{method: 'GET', url: 'https://www.googleapis.com/drive/v3/files?pageSize=50'}`\n\n\
    A 401 typically means the refresh_token was revoked — call \
    `google_auth_start` again. A 403 means the scope wasn't granted; update \
    `google_auth.scopes` in the agent config and re-auth.";

/// The description of `google_auth_revoke`.
pub const REVOKE_DESCRIPTION: &'static str = "Revoke the agent's Google refresh_token (so even a leaked copy of \
    the file becomes useless) and delete the local tokens file. The user can \
    still see the agent at myaccount.google.com → Security → Third-party apps \
    until Google's cache clears (minutes). Next `google_call` will fail until \
    the user re-authorises via `google_auth_start`.";

/// The schema of arguments of which nothing is said.
pub open spec fn empty_schema_model() -> JsonModel {
    JsonModel::Object(
        seq![
            ("type"@, JsonModel::Str("object"@)),
            ("properties"@, JsonModel::Object(Seq::empty())),
        ],
    )
}

fn empty_schema() -> (r: Json)
    ensures
        r@ == empty_schema_model(),
{
    let none: Json = Members::new().into_json();
    let r: Json = Members::new().with("type", Json::text("object")).with(
        "properties",
        none,
    ).into_json();
    assert(r@->Object_0 =~= empty_schema_model()->Object_0);
    r
}

/// The schema of a value of the given type.
pub open spec fn property_model(kind: Seq<char>, description: Seq<char>) -> JsonModel {
    JsonModel::Object(
        seq![("type"@, JsonModel::Str(kind)), ("description"@, JsonModel::Str(description))],
    )
}

fn property(kind: &str, description: &str) -> (r: Json)
    ensures
        r@ == property_model(kind@, description@),
{
    let r: Json = Members::new().with("type", Json::text(kind)).with(
        "description",
        Json::text(description),
    ).into_json();
    assert(r@->Object_0 =~= property_model(kind@, description@)->Object_0);
    r
}

/// The names of the methods of `google_call`.
pub open spec fn method_names() -> Seq<Seq<char>> {
    seq!["GET"@, "POST"@, "PUT"@, "PATCH"@, "DELETE"@]
}

/// The schema of the method of `google_call`.
pub open spec fn method_model() -> JsonModel {
    JsonModel::Object(
        seq![
            ("type"@, JsonModel::Str("string"@)),
            ("enum"@, JsonModel::Array(json::text_items(method_names()))),
            ("description"@, JsonModel::Str("HTTP method."@)),
        ],
    )
}

fn method_property() -> (r: Json)
    ensures
        r@ == method_model(),
{
    let mut names: Vec<String> = Vec::new();
    names.push("GET".to_owned());
    names.push("POST".to_owned());
    names.push("PUT".to_owned());
    names.push("PATCH".to_owned());
    names.push("DELETE".to_owned());
    assert(text::texts(names@) =~= method_names());
    let r: Json = Members::new().with("type", Json::text("string")).with(
        "enum",
        text_array(&names),
    ).with("description", Json::text("HTTP method.")).into_json();
    assert(r@->Object_0 =~= method_model()->Object_0);
    r
}

/// The schemas of the arguments of `google_call`.
pub open spec fn call_properties_model() -> JsonModel {
    JsonModel::Object(
        seq![
            ("method"@, method_model()),
            (
                "url"@,
                property_model(
                    "string"@,
                    "Full URL. Must be https:// — Google API hosts only."@,
                ),
            ),
            (
                "body"@,
                property_model("object"@, "Optional JSON payload (POST/PUT/PATCH)."@),
            ),
        ],
    )
}

/// The schema of the arguments of `google_call`.
pub open spec fn call_schema_model() -> JsonModel {
    JsonModel::Object(
        seq![
            ("type"@, JsonModel::Str("object"@)),
            ("properties"@, call_properties_model()),
            ("required"@, JsonModel::Array(json::text_items(seq!["method"@, "url"@]))),
        ],
    )
}

fn call_schema() -> (r: Json)
    ensures
        r@ == call_schema_model(),
{
    let properties: Json = Members::new().with("method", method_property()).with(
        "url",
        property("string", "Full URL. Must be https:// — Google API hosts only."),
    ).with("body", property("object", "Optional JSON payload (POST/PUT/PATCH).")).into_json();
    assert(properties@->Object_0 =~= call_properties_model()->Object_0);
    let mut required: Vec<String> = Vec::new();
    required.push("method".to_owned());
    required.push("url".to_owned());
    assert(text::texts(required@) =~= seq!["method"@, "url"@]);
    let r: Json = Members::new().with("type", Json::text("object")).with(
        "properties",
        properties,
    ).with("required", text_array(&required)).into_json();
    assert(r@->Object_0 =~= call_schema_model()->Object_0);
    r
}

/// The tools of the plugin, in order.
pub open spec fn tool_models() -> Seq<ToolModel> {
    seq![
        ToolModel {
            name: "google_auth_start"@,
            description: START_DESCRIPTION@,
            input_schema: empty_schema_model(),
        },
        ToolModel {
            name: "google_auth_status"@,
            description: STATUS_DESCRIPTION@,
            input_schema: empty_schema_model(),
        },
        ToolModel {
            name: "google_call"@,
            description: CALL_DESCRIPTION@,
            input_schema: call_schema_model(),
        },
        ToolModel {
            name: "google_auth_revoke"@,
            description: REVOKE_DESCRIPTION@,
            input_schema: empty_schema_model(),
        },
    ]
}

fn tool_def(name: &str, description: &str, input_schema: Json) -> (r: ToolDef)
    ensures
        r@ == (ToolModel {
            name: name@,
            description: description@,
            input_schema: input_schema@,
        }),
{
    ToolDef { name: name.to_owned(), description: description.to_owned(), input_schema }
}

/// The tools of the plugin, in order.
pub fn tool_defs() -> (r: Vec<ToolDef>)
    ensures
        r@.len() == tool_models().len(),
        forall|i: int| 0 <= i < r@.len() ==> (#[trigger] r@[i])@ == tool_models()[i],
{
    let mut r: Vec<ToolDef> = Vec::new();
    r.push(tool_def("google_auth_start", START_DESCRIPTION, empty_schema()));
    r.push(tool_def("google_auth_status", STATUS_DESCRIPTION, empty_schema()));
    r.push(tool_def("google_call", CALL_DESCRIPTION, call_schema()));
    r.push(tool_def("google_auth_revoke", REVOKE_DESCRIPTION, empty_schema()));
    r
}

/// The tools that are declared are those that are known: on an account of
/// the agent, a tool is reported as unknown exactly where no tool of that name
/// is declared.
pub proof fn declared_tools_are_known(
    plugin: PluginModel,
    tool: Seq<char>,
    args: JsonModel,
    agent: Seq<char>,
    now: int,
    r: Result<ToolStep, GoogleError>,
)
    requires
        plugin::tool_outcome(plugin, tool, args, agent, now, r),
        plugin.tool_target(args.field_text("account"@), agent) is Ok,
    ensures
        (r matches Err(e) && e is UnknownTool) <==> !is_declared(tool),
{
    let t = tool_models();
    assert(t[0].name == "google_auth_start"@);
    assert(t[1].name == "google_auth_status"@);
    assert(t[2].name == "google_call"@);
    assert(t[3].name == "google_auth_revoke"@);
    if is_declared(tool) {
        let i = choose|i: int| 0 <= i < t.len() && (#[trigger] t[i]).name == tool;
        assert(i == 0 || i == 1 || i == 2 || i == 3);
    }
}

/// A tool of that name is declared.
pub open spec fn is_declared(name: Seq<char>) -> bool {
    exists|i: int| 0 <= i < tool_models().len() && (#[trigger] tool_models()[i]).name == name
}

/// `google_call` offers the methods that its schema lists.
pub proof fn listed_methods_are_offered(name: Seq<char>)
    ensures
        method_names().contains(name) <==> http::offered_method(name),
{
    let m = method_names();
    assert(m[0] == "GET"@ && m[1] == "POST"@ && m[2] == "PUT"@ && m[3] == "PATCH"@ && m[4]
        == "DELETE"@);
    if m.contains(name) {
        let i = choose|i: int| 0 <= i < m.len() && m[i] == name;
        assert(i == 0 || i == 1 || i == 2 || i == 3 || i == 4);
        assert(HttpMethod::Get.name() == m[0]);
        assert(HttpMethod::Post.name() == m[1]);
        assert(HttpMethod::Put.name() == m[2]);
        assert(HttpMethod::Patch.name() == m[3]);
        assert(HttpMethod::Delete.name() == m[4]);
    }
    if http::offered_method(name) {
        let method = choose|method: HttpMethod| name == #[trigger] method.name();
        match method {
            HttpMethod::Get => {},
            HttpMethod::Post => {},
            HttpMethod::Put => {},
            HttpMethod::Patch => {},
            HttpMethod::Delete => {},
        }
    }
}

/// Four tools are declared, under these names and in this order.
pub proof fn four_tools_are_declared(name: Seq<char>)
    ensures
        tool_models().len() == 4,
        tool_models()[0].name == "google_auth_start"@,
        tool_models()[1].name == "google_auth_status"@,
        tool_models()[2].name == "google_call"@,
        tool_models()[3].name == "google_auth_revoke"@,
        is_declared(name) <==> (name == "google_auth_start"@ || name == "google_auth_status"@
            || name == "google_call"@ || name == "google_auth_revoke"@),
{
    let t = tool_models();
    assert(t[0].name == "google_auth_start"@);
    assert(t[1].name == "google_auth_status"@);
    assert(t[2].name == "google_call"@);
    assert(t[3].name == "google_auth_revoke"@);
    if is_declared(name) {
        let i = choose|i: int| 0 <= i < t.len() && (#[trigger] t[i]).name == name;
        assert(i == 0 || i == 1 || i == 2 || i == 3);
    }
}

proof fn lemma_schema_names()
    ensures
        "type"@.len() == 4,
        "properties"@.len() == 10,
        "required"@.len() == 8,
        "method"@.len() == 6,
        "url"@.len() == 3,
        "body"@.len() == 4,
        "enum"@.len() == 4,
        "description"@.len() == 11,
        "type"@ != "enum"@,
{
    reveal_strlit("type");
    reveal_strlit("properties");
    reveal_strlit("required");
    reveal_strlit("method");
    reveal_strlit("url");
    reveal_strlit("body");
    reveal_strlit("enum");
    reveal_strlit("description");
    assert("type"@[0] != "enum"@[0]);
}

/// The arguments of every tool are an object. `google_call` needs a method, one
/// of the five, and an address, and may be given a body; the other tools need
/// nothing.
pub proof fn schemas_say_what_is_needed(i: int)
    requires
        0 <= i < 4,
    ensures
        ({
            let schema = tool_models()[i].input_schema;
            &&& schema.field("type"@) == Some(JsonModel::Str("object"@))
            &&& schema.field("properties"@) matches Some(properties)
            &&& i != 2 ==> schema.field("required"@) is None && properties == JsonModel::Object(
                Seq::empty(),
            )
            &&& i == 2 ==> {
                &&& schema.field("required"@) matches Some(JsonModel::Array(required))
                &&& required.len() == 2
                &&& required[0] == JsonModel::Str("method"@)
                &&& required[1] == JsonModel::Str("url"@)
                &&& properties.field("url"@) matches Some(url)
                &&& url.field("type"@) == Some(JsonModel::Str("string"@))
                &&& properties.field("body"@) matches Some(body)
                &&& body.field("type"@) == Some(JsonModel::Str("object"@))
                &&& properties.field("method"@) matches Some(method)
                &&& method.field("type"@) == Some(JsonModel::Str("string"@))
                &&& method.field("enum"@) matches Some(JsonModel::Array(names))
                &&& names.len() == 5
                &&& names[0] == JsonModel::Str("GET"@)
                &&& names[1] == JsonModel::Str("POST"@)
                &&& names[2] == JsonModel::Str("PUT"@)
                &&& names[3] == JsonModel::Str("PATCH"@)
                &&& names[4] == JsonModel::Str("DELETE"@)
            }
        }),
{
    lemma_schema_names();
    let m = tool_models()[i].input_schema->Object_0;
    assert(i == 0 || i == 1 || i == 2 || i == 3);
    json::first_members_are_read(m, 0);
    json::first_members_are_read(m, 1);
    if i == 2 {
        json::first_members_are_read(m, 2);
        let p = call_properties_model()->Object_0;
        json::first_members_are_read(p, 0);
        json::first_members_are_read(p, 1);
        json::first_members_are_read(p, 2);
        json::first_members_are_read(method_model()->Object_0, 0);
        json::first_members_are_read(method_model()->Object_0, 1);
        json::first_members_are_read(p[1].1->Object_0, 0);
        json::first_members_are_read(p[2].1->Object_0, 0);
    } else {
        json::missing_members_are_not_found(m, "required"@);
    }
}

} // verus!

//! The answer to a tool invocation of the daemon.

use crate::clock;
use crate::clock::now_timestamp;
use crate::error::GoogleError;
use crate::http;
use crate::json::{Json, JsonModel};
use crate::plugin;
use crate::plugin::{GooglePlugin, PluginModel, ToolStep};
use crate::text;
use crate::text::contains;
use vstd::prelude::*;

verus! {

/// A failed invocation, as the daemon tells them apart.
#[derive(Debug)]
pub enum InvocationError {
    /// There is no such tool.
    NotFound(String),
    /// The arguments are wrong.
    ArgumentInvalid(String),
    /// The tool cannot be used at the moment.
    Unavailable(String),
    /// The tool failed.
    ExecutionFailed(String),
}

/// The kinds of failed invocations.
pub enum FailureKind {
    NotFound,
    ArgumentInvalid,
    Unavailable,
    ExecutionFailed,
}

impl InvocationError {
    /// The kind of the failure.
    pub open spec fn kind(self) -> FailureKind {
        match self {
            InvocationError::NotFound(_) => FailureKind::NotFound,
            InvocationError::ArgumentInvalid(_) => FailureKind::ArgumentInvalid,
            InvocationError::Unavailable(_) => FailureKind::Unavailable,
            InvocationError::ExecutionFailed(_) => FailureKind::ExecutionFailed,
        }
    }

    /// The report of the failure.
    pub open spec fn text(self) -> Seq<char> {
        match self {
            InvocationError::NotFound(m) => m@,
            InvocationError::ArgumentInvalid(m) => m@,
            InvocationError::Unavailable(m) => m@,
            InvocationError::ExecutionFailed(m) => m@,
        }
    }
}

/// The kind of a failure with the given report.
pub open spec fn failure_kind(report: Seq<char>) -> FailureKind {
    if text::occurs("unknown tool"@, report) {
        FailureKind::NotFound
    } else if text::occurs("not configured"@, report) {
        FailureKind::Unavailable
    } else if text::occurs("circuit breaker open"@, report) {
        FailureKind::Unavailable
    } else if text::occurs("requires `method`"@, report) || text::occurs("requires `url`"@, report)
        || text::occurs("only accepts"@, report) {
        FailureKind::ArgumentInvalid
    } else {
        FailureKind::ExecutionFailed
    }
}

/// The failed invocation that reports `error`.
pub fn invocation_error(error: &GoogleError) -> (r: InvocationError)
    ensures
        r.kind() == failure_kind(error.text()),
        r.text() == error.text(),
{
    let report: String = error.message();
    if contains(report.as_str(), "unknown tool") {
        InvocationError::NotFound(report)
    } else if contains(report.as_str(), "not configured") {
        InvocationError::Unavailable(report)
    } else if contains(report.as_str(), "circuit breaker open") {
        InvocationError::Unavailable(report)
    } else if contains(report.as_str(), "requires `method`") || contains(
        report.as_str(),
        "requires `url`",
    ) || contains(report.as_str(), "only accepts") {
        InvocationError::ArgumentInvalid(report)
    } else {
        InvocationError::ExecutionFailed(report)
    }
}

/// The report of a tool that fails.
pub open spec fn tool_failure(
    plugin: PluginModel,
    tool: Seq<char>,
    args: JsonModel,
    agent: Seq<char>,
) -> Option<Seq<char>> {
    match plugin.tool_target(args.field_text("account"@), agent) {
        Err(why) => Some(why.text()),
        Ok(_) => if tool == "google_auth_start"@ || tool == "google_auth_status"@ || tool
            == "google_auth_revoke"@ {
            None
        } else if tool == "google_call"@ {
            match (args.field_text("method"@), args.field_text("url"@)) {
                (None, _) => Some(GoogleError::MissingMethod.text()),
                (Some(_), None) => Some(GoogleError::MissingUrl.text()),
                (Some(_), Some(url)) => if http::google_api_url(url) {
                    None
                } else {
                    Some(
                        "google_call only accepts https://*.googleapis.com URLs — got `"@ + url
                            + "`"@,
                    )
                },
            }
        } else {
            Some("unknown tool `"@ + tool + "`"@)
        },
    }
}

/// What is done on an invocation at `now`.
pub open spec fn dispatch_outcome(
    plugin: PluginModel,
    tool: Seq<char>,
    args: JsonModel,
    agent: Option<Seq<char>>,
    now: int,
    r: Result<ToolStep, InvocationError>,
) -> bool {
    match agent {
        None => {
            &&& r matches Err(e)
            &&& e.kind() is ArgumentInvalid
            &&& e.text() == "tool.invoke is missing `agent_id` (daemon must include it)"@
        },
        Some(a) => match tool_failure(plugin, tool, args, a) {
            None => {
                &&& r matches Ok(step)
                &&& plugin::tool_outcome(
                    plugin,
                    tool,
                    args,
                    a,
                    now,
                    Ok::<ToolStep, GoogleError>(step),
                )
            },
            Some(report) => {
                &&& r matches Err(e)
                &&& e.kind() == failure_kind(report)
                &&& e.text() == report
            },
        },
    }
}

/// The report of a tool that fails is that of its error.
pub proof fn tool_failures_are_reported(
    plugin: PluginModel,
    tool: Seq<char>,
    args: JsonModel,
    agent: Seq<char>,
    now: int,
    r: Result<ToolStep, GoogleError>,
)
    requires
        plugin::tool_outcome(plugin, tool, args, agent, now, r),
    ensures
        tool_failure(plugin, tool, args, agent) == (match r {
            Ok(_) => None::<Seq<char>>,
            Err(e) => Some(e.text()),
        }),
{
    reveal_strlit("google_auth_revoke");
    reveal_strlit("google_call");
    assert("google_auth_revoke"@.len() != "google_call"@.len());
    if r is Ok {
        assert(tool_failure(plugin, tool, args, agent) is None);
    } else {
        assert(tool_failure(plugin, tool, args, agent) is Some);
    }
}

/// What is done on an invocation at `now`.
pub fn dispatch_tool_at(
    plugin: &GooglePlugin,
    tool_name: &str,
    args: &Json,
    agent_id: Option<&str>,
    now: i64,
) -> (r: Result<ToolStep, InvocationError>)
    requires
        plugin.valid(),
        clock::clock_reading(now),
    ensures
        dispatch_outcome(plugin@, tool_name@, args@, plugin::opt_str(agent_id), now as int, r),
{
    let agent: &str = match agent_id {
        Some(a) => a,
        None => {
            return Err(
                InvocationError::ArgumentInvalid(
                    "tool.invoke is missing `agent_id` (daemon must include it)".to_owned(),
                ),
            );
        },
    };
    let outcome: Result<ToolStep, GoogleError> = plugin.invoke_outbound_tool_at(
        tool_name,
        args,
        agent,
        now,
    );
    proof {
        tool_failures_are_reported(plugin@, tool_name@, args@, agent@, now as int, outcome);
    }
    match outcome {
        Ok(step) => Ok(step),
        Err(e) => Err(invocation_error(&e)),
    }
}

/// What is done on an invocation now.
pub fn dispatch_tool(
    plugin: &GooglePlugin,
    tool_name: &str,
    args: &Json,
    agent_id: Option<&str>,
) -> (r: Result<ToolStep, InvocationError>)
    requires
        plugin.valid(),
    ensures
        exists|now: i64| #[trigger]
            clock::clock_reading(now) && dispatch_outcome(
                plugin@,
                tool_name@,
                args@,
                plugin::opt_str(agent_id),
                now as int,
                r,
            ),
{
    let now: i64 = now_timestamp();
    dispatch_tool_at(plugin, tool_name, args, agent_id, now)
}

// ---------------------------------------------------------------------------
// Laws

/// An unknown tool is reported as not found, whatever its name.
pub proof fn unknown_tools_are_not_found(error: GoogleError)
    requires
        error is UnknownTool,
    ensures
        failure_kind(error.text()) is NotFound,
{
    let name = error->UnknownTool_0@;
    reveal_strlit("unknown tool");
    reveal_strlit("unknown tool `");
    let report = error.text();
    assert(report.subrange(0, 12) =~= "unknown tool"@);
    assert(text::occurs_at("unknown tool"@, report, 0));
}

/// A missing configuration and an open circuit breaker are reported as
/// unavailable, unless a name in the report reads like that of an unknown
/// tool.
pub proof fn missing_configuration_is_unavailable(error: GoogleError)
    requires
        error is AccountNotConfigured || error is AgentNotConfigured || error is CircuitOpen,
        !text::occurs("unknown tool"@, error.text()),
    ensures
        failure_kind(error.text()) is Unavailable,
{
    let report = error.text();
    reveal_strlit("not configured");
    reveal_strlit("circuit breaker open");
    match error {
        GoogleError::AccountNotConfigured(id) => {
            reveal_strlit("account `");
            reveal_strlit("` is not configured");
            let at: int = 9 + id@.len() as int + 5;
            assert(report.subrange(at, at + 14) =~= "not configured"@);
            assert(text::occurs_at("not configured"@, report, at));
        },
        GoogleError::AgentNotConfigured(agent) => {
            reveal_strlit("agent `");
            reveal_strlit(
                "` is not configured for google_auth (no entry in `google-auth.yaml::accounts[].agent_id`)",
            );
            let at: int = 7 + agent@.len() as int + 5;
            assert(report.subrange(at, at + 14) =~= "not configured"@);
            assert(text::occurs_at("not configured"@, report, at));
        },
        GoogleError::CircuitOpen(name) => {
            reveal_strlit("google circuit breaker open (");
            reveal_strlit(")");
            assert(report.subrange(7, 27) =~= "circuit breaker open"@);
            assert(text::occurs_at("circuit breaker open"@, report, 7));
        },
        _ => {},
    }
}

/// A text occurs in no other that lacks one of its characters.
proof fn lemma_absent(needle: Seq<char>, hay: Seq<char>, k: int)
    requires
        0 <= k < needle.len(),
        forall|i: int| 0 <= i < hay.len() ==> hay[i] != needle[k],
    ensures
        !text::occurs(needle, hay),
{
    assert forall|i: int| !text::occurs_at(needle, hay, i) by {
        if text::occurs_at(needle, hay, i) {
            assert(hay.subrange(i, i + needle.len())[k] == hay[i + k]);
        }
    }
}

/// A missing argument of `google_call` is reported as invalid.
pub proof fn missing_arguments_are_invalid(error: GoogleError)
    requires
        error is MissingMethod || error is MissingUrl,
    ensures
        failure_kind(error.text()) is ArgumentInvalid,
{
    let report = error.text();
    reveal_strlit("google_call requires `method`");
    reveal_strlit("google_call requires `url`");
    reveal_strlit("requires `method`");
    reveal_strlit("requires `url`");
    reveal_strlit("unknown tool");
    reveal_strlit("not configured");
    reveal_strlit("circuit breaker open");
    assert(forall|i: int| 0 <= i < report.len() ==> report[i] != 'n');
    lemma_absent("unknown tool"@, report, 1);
    lemma_absent("not configured"@, report, 0);
    lemma_absent("circuit breaker open"@, report, 19);
    if error is MissingMethod {
        assert(report.subrange(12, 29) =~= "requires `method`"@);
        assert(text::occurs_at("requires `method`"@, report, 12));
    } else {
        assert(report.subrange(12, 26) =~= "requires `url`"@);
        assert(text::occurs_at("requires `url`"@, report, 12));
    }
}

/// An address that `google_call` refuses is reported as an invalid argument,
/// unless it reads like another failure.
pub proof fn refused_addresses_are_invalid(error: GoogleError)
    requires
        error is UrlRejected,
        !text::occurs("unknown tool"@, error.text()),
        !text::occurs("not configured"@, error.text()),
        !text::occurs("circuit breaker open"@, error.text()),
    ensures
        failure_kind(error.text()) is ArgumentInvalid,
{
    let report = error.text();
    reveal_strlit("google_call only accepts https://*.googleapis.com URLs — got `");
    reveal_strlit("only accepts");
    assert(report.subrange(12, 24) =~= "only accepts"@);
    assert(text::occurs_at("only accepts"@, report, 12));
}

/// The report tells the kind of a failure: words of an unknown tool before
/// those of a missing configuration or an open circuit breaker, and these
/// before those of a wrong argument. A report with none of these words is that
/// of a tool that failed.
pub proof fn reports_tell_the_kind(report: Seq<char>)
    ensures
        failure_kind(report) is NotFound <==> text::occurs("unknown tool"@, report),
        failure_kind(report) is Unavailable <==> !text::occurs("unknown tool"@, report) && (
        text::occurs("not configured"@, report) || text::occurs("circuit breaker open"@, report)),
        !text::occurs("unknown tool"@, report) && !text::occurs("not configured"@, report)
            && !text::occurs("circuit breaker open"@, report) ==> (failure_kind(
            report,
        ) is ArgumentInvalid <==> text::occurs("requires `method`"@, report) || text::occurs(
            "requires `url`"@,
            report,
        ) || text::occurs("only accepts"@, report)),
        failure_kind(report) is ExecutionFailed ==> !text::occurs("only accepts"@, report),
{
}

/// An invocation of an agent does what the tool does, and fails where the tool
/// fails, with the report of the tool. Without an agent it fails for that.
pub proof fn invocations_do_what_the_tool_does(
    plugin: PluginModel,
    tool: Seq<char>,
    args: JsonModel,
    agent: Option<Seq<char>>,
    now: int,
    done: Result<ToolStep, GoogleError>,
    r: Result<ToolStep, InvocationError>,
)
    requires
        dispatch_outcome(plugin, tool, args, agent, now, r),
        agent matches Some(a) ==> plugin::tool_outcome(plugin, tool, args, a, now, done),
    ensures
        match agent {
            Some(a) => match done {
                Ok(_) => {
                    &&& r matches Ok(step)
                    &&& plugin::tool_outcome(
                        plugin,
                        tool,
                        args,
                        a,
                        now,
                        Ok::<ToolStep, GoogleError>(step),
                    )
                },
                Err(e) => {
                    &&& r matches Err(failure)
                    &&& failure.text() == e.text()
                    &&& failure.kind() == failure_kind(e.text())
                },
            },
            None => {
                &&& r matches Err(InvocationError::ArgumentInvalid(report))
                &&& text::occurs("missing `agent_id`"@, report@)
            },
        },
{
    match agent {
        Some(a) => {
            tool_failures_are_reported(plugin, tool, args, a, now, done);
        },
        None => {
            let report = "tool.invoke is missing `agent_id` (daemon must include it)"@;
            reveal_strlit("tool.invoke is missing `agent_id` (daemon must include it)");
            reveal_strlit("missing `agent_id`");
            assert(report.subrange(15, 33) =~= "missing `agent_id`"@);
            assert(text::occurs_at("missing `agent_id`"@, report, 15));
        },
    }
}

/// A failed invocation keeps its kind and its report.
pub proof fn failures_are_what_they_say(report: String)
    ensures
        InvocationError::NotFound(report).kind() is NotFound,
        InvocationError::ArgumentInvalid(report).kind() is ArgumentInvalid,
        InvocationError::Unavailable(report).kind() is Unavailable,
        InvocationError::ExecutionFailed(report).kind() is ExecutionFailed,
        InvocationError::NotFound(report).text() == report@,
        InvocationError::ArgumentInvalid(report).text() == report@,
        InvocationError::Unavailable(report).text() == report@,
        InvocationError::ExecutionFailed(report).text() == report@,
{
}

} // verus!

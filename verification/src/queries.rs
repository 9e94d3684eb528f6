//! The daemon's answers to state queries, heartbeats, raw command
//! acknowledgements, and the suggestion and context-command requests.
use vstd::prelude::*;
use vstd::string::*;

use crate::context::AggregatedContext;
use crate::events::StateTarget;
use crate::memory::{MemoryEntry, MemoryQuery};
use crate::resolver::CommandSuggestion;
use crate::server::{
    DEFAULT_COMMAND_LIMIT, Payload, Reply, error_reply, is_error, is_ok_note, limit_or, ok_note,
};
use crate::suggestion::{
    DismissalRecord, PERMANENT_COOLDOWN, Suggestion, SuggestionKind, dismissal_record,
    dismissal_target, spec_cooldown_until,
};

verus! {

/// How `format!("{:?}", ..)` writes a list of strings (brackets, quoted and
/// escaped items, separated by ", ").
pub uninterp spec fn debug_text_list(items: Seq<Seq<char>>) -> Seq<char>;

pub open spec fn texts(v: Seq<String>) -> Seq<Seq<char>> {
    v.map_values(|s: String| s@)
}

/// Calls `format!("{:?}", items)` on a list of strings.
#[verifier::external_body]
fn debug_list_text(items: &Vec<String>) -> (r: String)
    ensures
        r@ == debug_text_list(texts(items@)),
{
    format!("{:?}", items)
}

/// The answer to `Execute`, which the daemon only acknowledges: the command
/// and its arguments as a debug list.
pub fn execute_reply(command: &str, args: &Vec<String>) -> (r: Reply)
    ensures
        is_ok_note(r, "Executing: "@ + command@ + " "@ + debug_text_list(texts(args@))),
{
    let listed = debug_list_text(args);
    ok_note(String::from_str("Executing: ").concat(command).concat(" ").concat(listed.as_str()))
}

/// The answer to a ping, carrying the daemon's clock in milliseconds.
pub fn pong_reply(latency_ms: u64) -> (r: Reply)
    ensures
        r matches Reply::Data { payload: Payload::Pong { latency_ms: l } } && l == latency_ms,
{
    Reply::Data { payload: Payload::Pong { latency_ms } }
}

/// The answer to a message a client should not send (a response, an event or a pong).
pub fn unexpected_kind_reply() -> (r: Reply)
    ensures
        is_error(r, "UNEXPECTED"@, "Unexpected message kind from client"@),
{
    error_reply("UNEXPECTED", String::from_str("Unexpected message kind from client"))
}

/// The answer to a line that is not a valid message, given the parser's complaint.
pub fn parse_error_reply(detail: &str) -> (r: Reply)
    ensures
        is_error(r, "PARSE_ERROR"@, "Invalid JSON: "@ + detail@),
{
    error_reply("PARSE_ERROR", String::from_str("Invalid JSON: ").concat(detail))
}

/// What a client's line asks of the connection: nothing for a blank line,
/// else the line with surrounding white space removed, to be parsed.
pub fn incoming_line(line: &str) -> (r: Option<String>)
    ensures
        crate::text::trimmed(line@).len() == 0 ==> r is None,
        crate::text::trimmed(line@).len() > 0 ==> (r matches Some(t) && t@ == crate::text::trimmed(line@)),
{
    let t = crate::text::trim_text(line);
    if t.unicode_len() == 0 {
        None
    } else {
        Some(t.to_owned())
    }
}

/// How a state query is answered.
pub enum StateQuery {
    /// At once, with this reply.
    Answer { reply: Reply },
    /// With the host's facts (see `system_info_reply`).
    HostFacts,
    /// By running this memory query; a failure is reported under `error_code`.
    Memory { query: MemoryQuery, error_code: String },
    /// With the memory store's summary (see `summary_reply`).
    Summary,
}

/// The subsystems through which the daemon integrates with the desktop.
pub open spec fn desktop_subsystems() -> Seq<Seq<char>> {
    seq![
        "upower"@,
        "networkmanager"@,
        "window-tracker"@,
        "workspace"@,
        "clipboard"@,
        "notifications"@,
        "audio"@,
        "mpris"@,
    ]
}

fn subsystem_names() -> (r: Vec<String>)
    ensures
        texts(r@) == desktop_subsystems(),
{
    let r = vec![
        String::from_str("upower"),
        String::from_str("networkmanager"),
        String::from_str("window-tracker"),
        String::from_str("workspace"),
        String::from_str("clipboard"),
        String::from_str("notifications"),
        String::from_str("audio"),
        String::from_str("mpris"),
    ];
    assert(texts(r@) =~= desktop_subsystems());
    r
}

/// Whether `q` is the query every entry, newest `limit`, would give.
pub open spec fn plain_query(q: MemoryQuery, limit: usize) -> bool {
    &&& q.entry_types@.len() == 0
    &&& q.workspace is None
    &&& q.limit == limit
    &&& q.since is None
    &&& q.search is None
}

/// How each state target is answered.
pub fn state_query(target: &StateTarget) -> (r: StateQuery)
    ensures
        match target {
            StateTarget::ActiveWindows => r matches StateQuery::Answer {
                reply: Reply::Data { payload: Payload::Windows { message } },
            } && message@ == "Window tracking active via system module"@,
            StateTarget::RunningAgents => r matches StateQuery::Answer {
                reply: Reply::Data { payload: Payload::Agents },
            },
            StateTarget::ProcessList => r matches StateQuery::Answer {
                reply: Reply::Data { payload: Payload::Processes },
            },
            StateTarget::DesktopContext => r matches StateQuery::Answer {
                reply: Reply::Data { payload: Payload::Desktop { subsystems } },
            } && texts(subsystems@) == desktop_subsystems(),
            StateTarget::SystemInfo => r is HostFacts,
            StateTarget::MemoryRecent => r matches StateQuery::Memory { query, error_code }
                && plain_query(query, 20) && error_code@ == "MEMORY_QUERY"@,
            StateTarget::MemorySummary => r is Summary,
            StateTarget::MemorySearch { query: terms } => r matches StateQuery::Memory {
                query,
                error_code,
            } && query.entry_types@.len() == 0 && query.workspace is None && query.limit == 15
                && query.since is None && (query.search matches Some(t) && t@ == terms@)
                && error_code@ == "MEMORY_SEARCH"@,
        },
{
    match target {
        StateTarget::ActiveWindows => StateQuery::Answer {
            reply: Reply::Data {
                payload: Payload::Windows {
                    message: String::from_str("Window tracking active via system module"),
                },
            },
        },
        StateTarget::RunningAgents => StateQuery::Answer { reply: Reply::Data { payload: Payload::Agents } },
        StateTarget::ProcessList => StateQuery::Answer { reply: Reply::Data { payload: Payload::Processes } },
        StateTarget::DesktopContext => StateQuery::Answer {
            reply: Reply::Data { payload: Payload::Desktop { subsystems: subsystem_names() } },
        },
        StateTarget::SystemInfo => StateQuery::HostFacts,
        StateTarget::MemoryRecent => {
            let mut query = MemoryQuery::new();
            query.limit = 20;
            StateQuery::Memory { query, error_code: String::from_str("MEMORY_QUERY") }
        },
        StateTarget::MemorySummary => StateQuery::Summary,
        StateTarget::MemorySearch { query } => StateQuery::Memory {
            query: MemoryQuery::search(query.as_str()),
            error_code: String::from_str("MEMORY_SEARCH"),
        },
    }
}

/// The answer once a memory query ran.
pub fn memory_reply(error_code: &str, outcome: Result<Vec<MemoryEntry>, String>) -> (r: Reply)
    ensures
        match outcome {
            Ok(v) => r matches Reply::Data { payload: Payload::Memories { entries } } && entries@ == v@,
            Err(e) => is_error(r, error_code@, e@),
        },
{
    match outcome {
        Ok(entries) => Reply::Data { payload: Payload::Memories { entries } },
        Err(e) => error_reply(error_code, e),
    }
}

/// The answer to the memory summary query, given the summary already
/// encoded as JSON text.
pub fn summary_reply(outcome: Result<String, String>) -> (r: Reply)
    ensures
        match outcome {
            Ok(t) => r matches Reply::Data { payload: Payload::Json { text } } && text@ == t@,
            Err(e) => is_error(r, "MEMORY_SUMMARY"@, e@),
        },
{
    match outcome {
        Ok(text) => Reply::Data { payload: Payload::Json { text } },
        Err(e) => error_reply("MEMORY_SUMMARY", e),
    }
}

/// The answer to the system-info query, from the host's facts.
pub fn system_info_reply(os: String, arch: String, hostname: String, uptime: u64) -> (r: Reply)
    ensures
        r matches Reply::Data { payload: Payload::SystemInfo { os: o, arch: a, hostname: h, uptime: u } }
            && o@ == os@ && a@ == arch@ && h@ == hostname@ && u == uptime,
{
    Reply::Data { payload: Payload::SystemInfo { os, arch, hostname, uptime } }
}

/// The answer to `GetContext`: the host's facts, the desktop "EnaOS" and
/// the daemon's version.
pub fn host_context_reply(os: String, arch: String, hostname: String, version: String) -> (r: Reply)
    ensures
        r matches Reply::Data {
            payload: Payload::HostContext { os: o, arch: a, hostname: h, desktop: d, version: v },
        } && o@ == os@ && a@ == arch@ && h@ == hostname@ && d@ == "EnaOS"@ && v@ == version@,
{
    Reply::Data {
        payload: Payload::HostContext { os, arch, hostname, desktop: String::from_str("EnaOS"), version },
    }
}

/// The answer to `GetSuggestions`, once the store listed the active ones.
pub fn suggestions_reply(outcome: Result<Vec<Suggestion>, String>) -> (r: Reply)
    ensures
        match outcome {
            Ok(v) => r matches Reply::Data { payload: Payload::Suggestions { suggestions } }
                && suggestions@ == v@,
            Err(e) => is_error(r, "SUGGESTION_LIST_FAILED"@, e@),
        },
{
    match outcome {
        Ok(suggestions) => Reply::Data { payload: Payload::Suggestions { suggestions } },
        Err(e) => error_reply("SUGGESTION_LIST_FAILED", e),
    }
}

/// The dismissal to record for `DismissSuggestion`: the stored suggestion's
/// kind and context (a context hint with an empty context when it is gone),
/// permanent only when the client says so.
pub fn dismissal_for(
    suggestion_id: u128,
    found: Option<(SuggestionKind, String)>,
    permanent: Option<bool>,
    now: i128,
) -> (r: DismissalRecord)
    requires
        now + PERMANENT_COOLDOWN <= i128::MAX,
    ensures
        r.suggestion_id == suggestion_id,
        match found {
            Some((k, h)) => r.kind == k && r.context_hash@ == h@,
            None => r.kind == SuggestionKind::ContextHint && r.context_hash@.len() == 0,
        },
        r.permanent == (permanent == Some(true)),
        r.dismissed_at == now,
        r.cooldown_until == spec_cooldown_until(r.kind, r.permanent, now),
{
    let (kind, hash) = dismissal_target(found);
    let forever = match permanent {
        Some(p) => p,
        None => false,
    };
    dismissal_record(suggestion_id, kind, hash.as_str(), forever, now)
}

/// The answer to `DismissSuggestion`, once the dismissal was stored (or not).
pub fn dismiss_reply(outcome: Result<(), String>) -> (r: Reply)
    ensures
        match outcome {
            Ok(_) => is_ok_note(r, "Suggestion dismissed"@),
            Err(e) => is_error(r, "DISMISS_FAILED"@, e@),
        },
{
    match outcome {
        Ok(()) => ok_note(String::from_str("Suggestion dismissed")),
        Err(e) => error_reply("DISMISS_FAILED", e),
    }
}

/// The answer to `GetContextCommands`: the first `limit` ranked commands
/// (six when the client names no limit) and the context they came from.
pub fn context_commands_reply(
    ranked: Vec<CommandSuggestion>,
    limit: Option<u32>,
    context: AggregatedContext,
) -> (r: Reply)
    ensures
        ({
            let n = limit_or_spec(limit, DEFAULT_COMMAND_LIMIT);
            r matches Reply::Data { payload: Payload::ContextCommands { commands, context: c } }
                && commands@ == ranked@.take(if n < ranked@.len() { n as int } else { ranked@.len() as int })
                && c == context
        }),
{
    let n = limit_or(limit, DEFAULT_COMMAND_LIMIT);
    let ghost orig = ranked@;
    let mut commands = ranked;
    if (n as usize) < commands.len() {
        commands.truncate(n as usize);
    }
    proof {
        assert(commands@ =~= orig.take(
            if limit_or_spec(limit, DEFAULT_COMMAND_LIMIT) < orig.len() {
                limit_or_spec(limit, DEFAULT_COMMAND_LIMIT) as int
            } else {
                orig.len() as int
            },
        ));
    }
    Reply::Data { payload: Payload::ContextCommands { commands, context } }
}

pub open spec fn limit_or_spec(limit: Option<u32>, default: u32) -> u32 {
    match limit {
        Some(l) => l,
        None => default,
    }
}

} // verus!

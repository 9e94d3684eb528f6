//! Working memory: entry kinds, queries and the statements that run them,
//! and what each captured event is remembered as.
use vstd::prelude::*;
use vstd::string::*;

use crate::ids::{LAST_CHRONO_NANO, format_rfc3339, rfc3339_at};
use crate::text::{decimal, decimal_text, text_eq};

verus! {

/// Types of memory entries.
#[derive(Debug, Clone, Copy, PartialEq, Eq, Structural)]
pub enum MemoryType {
    /// System event (window focus, workspace change, battery, etc.)
    Event,
    /// Desktop action execution
    Action,
    /// Full desktop context snapshot
    ContextSnapshot,
    /// Workspace state snapshot
    WorkspaceSnapshot,
    /// User intent (query to AI runtime)
    Intent,
    /// AI response summary
    AiResponse,
    /// Auto-generated memory summary
    Summary,
}

/// The name a memory type is stored under.
pub open spec fn spec_type_name(t: MemoryType) -> Seq<char> {
    match t {
        MemoryType::Event => "event"@,
        MemoryType::Action => "action"@,
        MemoryType::ContextSnapshot => "context_snapshot"@,
        MemoryType::WorkspaceSnapshot => "workspace_snapshot"@,
        MemoryType::Intent => "intent"@,
        MemoryType::AiResponse => "ai_response"@,
        MemoryType::Summary => "summary"@,
    }
}

/// The memory type stored under a name, if any.
pub open spec fn spec_type_from_name(s: Seq<char>) -> Option<MemoryType> {
    if s == "event"@ {
        Some(MemoryType::Event)
    } else if s == "action"@ {
        Some(MemoryType::Action)
    } else if s == "context_snapshot"@ {
        Some(MemoryType::ContextSnapshot)
    } else if s == "workspace_snapshot"@ {
        Some(MemoryType::WorkspaceSnapshot)
    } else if s == "intent"@ {
        Some(MemoryType::Intent)
    } else if s == "ai_response"@ {
        Some(MemoryType::AiResponse)
    } else if s == "summary"@ {
        Some(MemoryType::Summary)
    } else {
        None
    }
}

impl MemoryType {
    /// The name this type is stored and displayed under.
    pub fn name(&self) -> (r: &'static str)
        ensures
            r@ == spec_type_name(*self),
    {
        match self {
            MemoryType::Event => "event",
            MemoryType::Action => "action",
            MemoryType::ContextSnapshot => "context_snapshot",
            MemoryType::WorkspaceSnapshot => "workspace_snapshot",
            MemoryType::Intent => "intent",
            MemoryType::AiResponse => "ai_response",
            MemoryType::Summary => "summary",
        }
    }

    /// Read a stored type name.
    pub fn from_name(s: &str) -> (r: Result<MemoryType, String>)
        ensures
            match spec_type_from_name(s@) {
                Some(t) => r == Ok::<MemoryType, String>(t),
                None => r matches Err(m) && m@ == "Unknown memory type: "@ + s@,
            },
    {
        if text_eq(s, "event") {
            Ok(MemoryType::Event)
        } else if text_eq(s, "action") {
            Ok(MemoryType::Action)
        } else if text_eq(s, "context_snapshot") {
            Ok(MemoryType::ContextSnapshot)
        } else if text_eq(s, "workspace_snapshot") {
            Ok(MemoryType::WorkspaceSnapshot)
        } else if text_eq(s, "intent") {
            Ok(MemoryType::Intent)
        } else if text_eq(s, "ai_response") {
            Ok(MemoryType::AiResponse)
        } else if text_eq(s, "summary") {
            Ok(MemoryType::Summary)
        } else {
            Err(String::from_str("Unknown memory type: ").concat(s))
        }
    }

    /// The type of a stored row: its name read back, an event where the name
    /// is not one of ours.
    pub fn stored(s: &str) -> (r: MemoryType)
        ensures
            r == match spec_type_from_name(s@) {
                Some(t) => t,
                None => MemoryType::Event,
            },
    {
        match MemoryType::from_name(s) {
            Ok(t) => t,
            Err(_) => MemoryType::Event,
        }
    }
}

/// Reading back the name of a type gives the type.
pub proof fn law_type_name_roundtrip(t: MemoryType)
    ensures
        spec_type_from_name(spec_type_name(t)) == Some(t),
{
    reveal_strlit("event");
    reveal_strlit("action");
    reveal_strlit("context_snapshot");
    reveal_strlit("workspace_snapshot");
    reveal_strlit("intent");
    reveal_strlit("ai_response");
    reveal_strlit("summary");
    assert("event"@ != "action"@) by {
        assert("event"@.len() != "action"@.len());
    }
    assert("event"@ != "context_snapshot"@) by {
        assert("event"@.len() != "context_snapshot"@.len());
    }
    assert("event"@ != "workspace_snapshot"@) by {
        assert("event"@.len() != "workspace_snapshot"@.len());
    }
    assert("event"@ != "intent"@) by {
        assert("event"@.len() != "intent"@.len());
    }
    assert("event"@ != "ai_response"@) by {
        assert("event"@.len() != "ai_response"@.len());
    }
    assert("event"@ != "summary"@) by {
        assert("event"@.len() != "summary"@.len());
    }
    assert("action"@ != "context_snapshot"@) by {
        assert("action"@.len() != "context_snapshot"@.len());
    }
    assert("action"@ != "workspace_snapshot"@) by {
        assert("action"@.len() != "workspace_snapshot"@.len());
    }
    assert("action"@ != "intent"@) by {
        assert("action"@[0] != "intent"@[0]);
    }
    assert("action"@ != "ai_response"@) by {
        assert("action"@.len() != "ai_response"@.len());
    }
    assert("action"@ != "summary"@) by {
        assert("action"@.len() != "summary"@.len());
    }
    assert("context_snapshot"@ != "workspace_snapshot"@) by {
        assert("context_snapshot"@.len() != "workspace_snapshot"@.len());
    }
    assert("context_snapshot"@ != "intent"@) by {
        assert("context_snapshot"@.len() != "intent"@.len());
    }
    assert("context_snapshot"@ != "ai_response"@) by {
        assert("context_snapshot"@.len() != "ai_response"@.len());
    }
    assert("context_snapshot"@ != "summary"@) by {
        assert("context_snapshot"@.len() != "summary"@.len());
    }
    assert("workspace_snapshot"@ != "intent"@) by {
        assert("workspace_snapshot"@.len() != "intent"@.len());
    }
    assert("workspace_snapshot"@ != "ai_response"@) by {
        assert("workspace_snapshot"@.len() != "ai_response"@.len());
    }
    assert("workspace_snapshot"@ != "summary"@) by {
        assert("workspace_snapshot"@.len() != "summary"@.len());
    }
    assert("intent"@ != "ai_response"@) by {
        assert("intent"@.len() != "ai_response"@.len());
    }
    assert("intent"@ != "summary"@) by {
        assert("intent"@.len() != "summary"@.len());
    }
    assert("ai_response"@ != "summary"@) by {
        assert("ai_response"@.len() != "summary"@.len());
    }
}


// ── Queries ──────────────────────────────────────────────────

/// Query parameters for memory retrieval.
#[derive(Debug, Clone)]
pub struct MemoryQuery {
    /// Only these types; every type when empty.
    pub entry_types: Vec<MemoryType>,
    pub workspace: Option<String>,
    pub limit: usize,
    /// Only entries after this instant (nanoseconds after the Unix epoch).
    pub since: Option<i128>,
    /// Full-text search terms.
    pub search: Option<String>,
}

impl MemoryQuery {
    /// Every entry, newest 20.
    pub fn new() -> (q: Self)
        ensures
            q.entry_types@.len() == 0,
            q.workspace is None,
            q.limit == 20,
            q.since is None,
            q.search is None,
    {
        MemoryQuery { entry_types: Vec::new(), workspace: None, limit: 20, since: None, search: None }
    }

    /// Action entries, newest 20.
    pub fn actions() -> (q: Self)
        ensures
            q.entry_types@ == seq![MemoryType::Action],
            q.workspace is None,
            q.limit == 20,
            q.since is None,
            q.search is None,
    {
        MemoryQuery { entry_types: vec![MemoryType::Action], workspace: None, limit: 20, since: None, search: None }
    }

    /// Intents and AI responses, newest 10.
    pub fn intents() -> (q: Self)
        ensures
            q.entry_types@ == seq![MemoryType::Intent, MemoryType::AiResponse],
            q.workspace is None,
            q.limit == 10,
            q.since is None,
            q.search is None,
    {
        MemoryQuery {
            entry_types: vec![MemoryType::Intent, MemoryType::AiResponse],
            workspace: None,
            limit: 10,
            since: None,
            search: None,
        }
    }

    /// Context and workspace snapshots, newest 5.
    pub fn recent_context() -> (q: Self)
        ensures
            q.entry_types@ == seq![MemoryType::ContextSnapshot, MemoryType::WorkspaceSnapshot],
            q.workspace is None,
            q.limit == 5,
            q.since is None,
            q.search is None,
    {
        MemoryQuery {
            entry_types: vec![MemoryType::ContextSnapshot, MemoryType::WorkspaceSnapshot],
            workspace: None,
            limit: 5,
            since: None,
            search: None,
        }
    }

    /// Entries of one workspace, newest 30.
    pub fn for_workspace(workspace: &str) -> (q: Self)
        ensures
            q.entry_types@.len() == 0,
            q.workspace matches Some(w) && w@ == workspace@,
            q.limit == 30,
            q.since is None,
            q.search is None,
    {
        MemoryQuery {
            entry_types: Vec::new(),
            workspace: Some(workspace.to_owned()),
            limit: 30,
            since: None,
            search: None,
        }
    }

    /// A full-text search, best 15.
    pub fn search(query: &str) -> (q: Self)
        ensures
            q.entry_types@.len() == 0,
            q.workspace is None,
            q.limit == 15,
            q.since is None,
            q.search matches Some(t) && t@ == query@,
    {
        MemoryQuery { entry_types: Vec::new(), workspace: None, limit: 15, since: None, search: Some(query.to_owned()) }
    }
}

/// A value bound to a `?` of a statement.
#[derive(Debug, Clone)]
pub enum SqlValue {
    Text(String),
    Int(u64),
}

pub ghost enum SqlValueSpec {
    Text(Seq<char>),
    Int(u64),
}

pub open spec fn values_view(v: Seq<SqlValue>) -> Seq<SqlValueSpec> {
    v.map_values(
        |x: SqlValue|
            match x {
                SqlValue::Text(t) => SqlValueSpec::Text(t@),
                SqlValue::Int(n) => SqlValueSpec::Int(n),
            },
    )
}

pub open spec fn value_view(x: SqlValue) -> SqlValueSpec {
    match x {
        SqlValue::Text(t) => SqlValueSpec::Text(t@),
        SqlValue::Int(n) => SqlValueSpec::Int(n),
    }
}

proof fn lemma_values_push(v: Seq<SqlValue>, x: SqlValue)
    ensures
        values_view(v.push(x)) == values_view(v).push(value_view(x)),
{
    assert(values_view(v.push(x)) =~= values_view(v).push(value_view(x)));
}

/// A statement and the values for its placeholders, in order.
pub struct Statement {
    pub sql: String,
    pub params: Vec<SqlValue>,
}

/// `n` placeholders separated by commas.
pub open spec fn placeholders(n: nat) -> Seq<char>
    decreases n,
{
    if n == 0 {
        Seq::empty()
    } else if n == 1 {
        "?"@
    } else {
        placeholders((n - 1) as nat) + ","@ + "?"@
    }
}

/// The filter clauses of a query, on columns written with `col` before them.
pub open spec fn filter_sql(q: MemoryQuery, col: Seq<char>) -> Seq<char> {
    (if q.entry_types@.len() > 0 {
        " AND "@ + col + "entry_type IN ("@ + placeholders(q.entry_types@.len()) + ")"@
    } else {
        Seq::empty()
    }) + (if q.workspace is Some {
        " AND "@ + col + "workspace = ?"@
    } else {
        Seq::empty()
    }) + (if q.since is Some {
        " AND "@ + col + "timestamp > ?"@
    } else {
        Seq::empty()
    })
}

/// The values of the filter clauses: the type names, the workspace, and the
/// instant in RFC 3339.
pub open spec fn filter_params(q: MemoryQuery) -> Seq<SqlValueSpec> {
    q.entry_types@.map_values(|t: MemoryType| SqlValueSpec::Text(spec_type_name(t))) + (match q.workspace {
        Some(w) => seq![SqlValueSpec::Text(w@)],
        None => Seq::empty(),
    }) + (match q.since {
        Some(t) => seq![SqlValueSpec::Text(rfc3339_at(t))],
        None => Seq::empty(),
    })
}

pub open spec fn recency_select() -> Seq<char> {
    "SELECT id, timestamp, entry_type, workspace, summary, details, relevance\n             FROM memory_entries WHERE 1=1"@
}

pub open spec fn search_select() -> Seq<char> {
    "SELECT m.id, m.timestamp, m.entry_type, m.workspace, m.summary, m.details, m.relevance\n                 FROM memory_entries m\n                 JOIN memory_fts f ON m.id = f.rowid\n                 WHERE memory_fts MATCH ? AND 1=1"@
}

/// The statement that runs a query. Without search terms: the filters, newest
/// first, up to the limit. With search terms: a full-text match, the same
/// filters on the joined table, best rank first; the filter values are bound
/// after the search terms.
pub open spec fn spec_statement(q: MemoryQuery) -> (Seq<char>, Seq<SqlValueSpec>) {
    match q.search {
        None => (
            recency_select() + filter_sql(q, Seq::empty()) + " ORDER BY timestamp DESC LIMIT ?"@,
            filter_params(q).push(SqlValueSpec::Int(q.limit as u64)),
        ),
        Some(terms) => (
            search_select() + filter_sql(q, "m."@) + " ORDER BY rank DESC, m.timestamp DESC LIMIT ?"@,
            seq![SqlValueSpec::Text(terms@)] + filter_params(q) + seq![
                SqlValueSpec::Int(q.limit as u64),
            ],
        ),
    }
}

fn placeholders_text(n: usize) -> (r: String)
    requires
        n > 0,
    ensures
        r@ == placeholders(n as nat),
{
    let mut r = String::from_str("?");
    let mut i: usize = 1;
    while i < n
        invariant
            1 <= i <= n,
            r@ == placeholders(i as nat),
        decreases n - i,
    {
        r.append(",");
        r.append("?");
        i += 1;
    }
    r
}

fn filter_sql_text(q: &MemoryQuery, col: &str) -> (r: String)
    ensures
        r@ == filter_sql(*q, col@),
{
    let mut sql = String::new();
    if q.entry_types.len() > 0 {
        sql.append(" AND ");
        sql.append(col);
        sql.append("entry_type IN (");
        sql.append(placeholders_text(q.entry_types.len()).as_str());
        sql.append(")");
    }
    let ghost a = sql@;
    if q.workspace.is_some() {
        sql.append(" AND ");
        sql.append(col);
        sql.append("workspace = ?");
    }
    let ghost b = sql@;
    if q.since.is_some() {
        sql.append(" AND ");
        sql.append(col);
        sql.append("timestamp > ?");
    }
    proof {
        let e: Seq<char> = Seq::empty();
        assert(e + e =~= e);
        assert(a + e =~= a);
        assert(b + e =~= b);
    }
    sql
}

/// The filter values, or `None` where the instant cannot be written.
fn filter_params_values(q: &MemoryQuery) -> (r: Option<Vec<SqlValue>>)
    ensures
        q.since is None ==> r is Some,
        q.since matches Some(t) && 0 <= t <= LAST_CHRONO_NANO ==> r is Some,
        r matches Some(v) ==> values_view(v@) == filter_params(*q),
{
    let mut v: Vec<SqlValue> = Vec::new();
    let mut i: usize = 0;
    while i < q.entry_types.len()
        invariant
            i <= q.entry_types@.len(),
            values_view(v@) == q.entry_types@.take(i as int).map_values(
                |t: MemoryType| SqlValueSpec::Text(spec_type_name(t)),
            ),
        decreases q.entry_types@.len() - i,
    {
        let item = SqlValue::Text(String::from_str(q.entry_types[i].name()));
        proof {
            lemma_values_push(v@, item);
        }
        v.push(item);
        i += 1;
        assert(q.entry_types@.take(i as int) =~= q.entry_types@.take(i - 1).push(q.entry_types@[i - 1]));
        assert(values_view(v@) =~= q.entry_types@.take(i as int).map_values(
            |t: MemoryType| SqlValueSpec::Text(spec_type_name(t)),
        ));
    }
    assert(q.entry_types@.take(i as int) =~= q.entry_types@);
    let ghost types_part = values_view(v@);
    match &q.workspace {
        Some(w) => {
            let item = SqlValue::Text(w.clone());
            proof {
                lemma_values_push(v@, item);
            }
            v.push(item);
        },
        None => {},
    }
    let ghost ws_part = values_view(v@);
    assert(ws_part =~= types_part + match q.workspace {
        Some(w) => seq![SqlValueSpec::Text(w@)],
        None => Seq::empty(),
    });
    match q.since {
        Some(t) => match format_rfc3339(t) {
            Some(text) => {
                let item = SqlValue::Text(text);
                proof {
                    lemma_values_push(v@, item);
                }
                v.push(item);
            },
            None => return None,
        },
        None => {},
    }
    assert(values_view(v@) =~= filter_params(*q));
    Some(v)
}

/// The statement that runs a memory query, or `None` where the query's
/// instant cannot be written as RFC 3339.
pub fn query_statement(q: &MemoryQuery) -> (r: Option<Statement>)
    ensures
        q.since is None ==> r is Some,
        q.since matches Some(t) && 0 <= t <= LAST_CHRONO_NANO ==> r is Some,
        r matches Some(st) ==> st.sql@ == spec_statement(*q).0 && values_view(st.params@)
            == spec_statement(*q).1,
{
    let filters = match filter_params_values(q) {
        Some(v) => v,
        None => return None,
    };
    match &q.search {
        None => {
            let sql = String::from_str(
                "SELECT id, timestamp, entry_type, workspace, summary, details, relevance\n             FROM memory_entries WHERE 1=1",
            ).concat(filter_sql_text(q, "").as_str()).concat(" ORDER BY timestamp DESC LIMIT ?");
            let mut params = filters;
            let item = SqlValue::Int(q.limit as u64);
            proof {
                lemma_values_push(params@, item);
            }
            params.push(item);
            proof {
                reveal_strlit("");
            }
            assert(values_view(params@) =~= spec_statement(*q).1);
            Some(Statement { sql, params })
        },
        Some(terms) => {
            let sql = String::from_str(
                "SELECT m.id, m.timestamp, m.entry_type, m.workspace, m.summary, m.details, m.relevance\n                 FROM memory_entries m\n                 JOIN memory_fts f ON m.id = f.rowid\n                 WHERE memory_fts MATCH ? AND 1=1",
            ).concat(filter_sql_text(q, "m.").as_str()).concat(
                " ORDER BY rank DESC, m.timestamp DESC LIMIT ?",
            );
            let mut params: Vec<SqlValue> = Vec::new();
            let first = SqlValue::Text(terms.clone());
            proof {
                lemma_values_push(params@, first);
            }
            params.push(first);
            let ghost before = values_view(params@);
            let mut k: usize = 0;
            while k < filters.len()
                invariant
                    k <= filters@.len(),
                    values_view(filters@) == filter_params(*q),
                    before == seq![SqlValueSpec::Text(terms@)],
                    values_view(params@) == before + values_view(filters@).take(k as int),
                decreases filters@.len() - k,
            {
                let item = match &filters[k] {
                    SqlValue::Text(t) => SqlValue::Text(t.clone()),
                    SqlValue::Int(n) => SqlValue::Int(*n),
                };
                proof {
                    lemma_values_push(params@, item);
                    assert(value_view(item) == values_view(filters@)[k as int]);
                    assert(values_view(filters@).take(k + 1) =~= values_view(filters@).take(k as int).push(
                        values_view(filters@)[k as int],
                    ));
                }
                params.push(item);
                k += 1;
                assert(values_view(params@) =~= before + values_view(filters@).take(k as int));
            }
            assert(values_view(filters@).take(k as int) =~= values_view(filters@));
            let item = SqlValue::Int(q.limit as u64);
            proof {
                lemma_values_push(params@, item);
            }
            params.push(item);
            assert(values_view(params@) =~= spec_statement(*q).1);
            Some(Statement { sql, params })
        },
    }
}


// ── Capture ──────────────────────────────────────────────────

/// The events the memory remembers, with the fields their summaries use.
/// The battery level arrives already written with no decimals.
pub enum CapturedEvent {
    WindowFocused { app: String, title: String },
    WindowOpened { app: String, pid: u32 },
    WindowClosed { app: String, pid: u32 },
    WorkspaceChanged { workspace: String },
    BatteryStatus { percentage_text: String, state: String },
    NetworkStatus { connected: bool, ssid: Option<String> },
    MediaPlayback { player: String, state: String, title: Option<String>, artist: Option<String> },
    ClipboardUpdated { content_type: String, preview: String },
    ActionStarted { message: String },
    ActionCompleted { result: String },
    ActionFailed { error: String },
    AgentSpawned { task: String },
    AgentCompleted { result: String },
    AgentFailed { error: String },
}

/// What is written to memory for one event: its type, the workspace it is
/// tagged with, and its summary line.
pub struct MemoryRecord {
    pub entry_type: MemoryType,
    pub workspace: Option<String>,
    pub summary: String,
}

/// "player: title", with " by artist" when known; the player alone without a title.
pub open spec fn media_info(player: Seq<char>, title: Option<String>, artist: Option<String>) -> Seq<char> {
    match title {
        Some(t) => player + ": "@ + t@ + match artist {
            Some(a) => " by "@ + a@,
            None => Seq::empty(),
        },
        None => player,
    }
}

/// The record an event leaves in memory.
pub open spec fn spec_record(e: CapturedEvent) -> (MemoryType, Option<Seq<char>>, Seq<char>) {
    match e {
        CapturedEvent::WindowFocused { app, title } => (MemoryType::Event, None, "Focused: "@ + app@ + " — "@ + title@),
        CapturedEvent::WindowOpened { app, pid } => (
            MemoryType::Event,
            None,
            "Opened: "@ + app@ + " (pid "@ + decimal(pid as nat) + ")"@,
        ),
        CapturedEvent::WindowClosed { app, pid } => (
            MemoryType::Event,
            None,
            "Closed: "@ + app@ + " (pid "@ + decimal(pid as nat) + ")"@,
        ),
        CapturedEvent::WorkspaceChanged { workspace } => (
            MemoryType::WorkspaceSnapshot,
            Some(workspace@),
            "Switched to: "@ + workspace@,
        ),
        CapturedEvent::BatteryStatus { percentage_text, state } => (
            MemoryType::Event,
            None,
            "Battery: "@ + percentage_text@ + "% ("@ + state@ + ")"@,
        ),
        CapturedEvent::NetworkStatus { connected, ssid } => (
            MemoryType::Event,
            None,
            if connected {
                "Network: connected"@ + match ssid {
                    Some(s) => " to "@ + s@,
                    None => Seq::empty(),
                }
            } else {
                "Network: disconnected"@
            },
        ),
        CapturedEvent::MediaPlayback { player, state, title, artist } => (
            MemoryType::Event,
            None,
            "Media "@ + state@ + ": "@ + media_info(player@, title, artist),
        ),
        CapturedEvent::ClipboardUpdated { content_type, preview } => (
            MemoryType::Event,
            None,
            "Clipboard ("@ + content_type@ + "): "@ + preview@,
        ),
        CapturedEvent::ActionStarted { message } => (MemoryType::Action, None, message@),
        CapturedEvent::ActionCompleted { result } => (MemoryType::Action, None, "Completed: "@ + result@),
        CapturedEvent::ActionFailed { error } => (MemoryType::Action, None, "Failed: "@ + error@),
        CapturedEvent::AgentSpawned { task } => (MemoryType::Event, None, "Agent spawned: "@ + task@),
        CapturedEvent::AgentCompleted { result } => (MemoryType::Event, None, "Agent completed: "@ + result@),
        CapturedEvent::AgentFailed { error } => (MemoryType::Event, None, "Agent failed: "@ + error@),
    }
}

pub open spec fn record_view(r: MemoryRecord) -> (MemoryType, Option<Seq<char>>, Seq<char>) {
    (
        r.entry_type,
        match r.workspace {
            Some(w) => Some(w@),
            None => None,
        },
        r.summary@,
    )
}

fn text_of(prefix: &str, value: &str) -> (r: String)
    ensures
        r@ == prefix@ + value@,
{
    String::from_str(prefix).concat(value)
}

fn record(entry_type: MemoryType, summary: String) -> (r: MemoryRecord)
    ensures
        r.entry_type == entry_type,
        r.workspace is None,
        r.summary@ == summary@,
{
    MemoryRecord { entry_type, workspace: None, summary }
}

/// What an event is remembered as.
pub fn memory_record(e: &CapturedEvent) -> (r: MemoryRecord)
    ensures
        record_view(r) == spec_record(*e),
{
    match e {
        CapturedEvent::WindowFocused { app, title } => record(
            MemoryType::Event,
            text_of("Focused: ", app.as_str()).concat(" — ").concat(title.as_str()),
        ),
        CapturedEvent::WindowOpened { app, pid } => record(
            MemoryType::Event,
            text_of("Opened: ", app.as_str()).concat(" (pid ").concat(decimal_text(*pid as u64).as_str()).concat(")"),
        ),
        CapturedEvent::WindowClosed { app, pid } => record(
            MemoryType::Event,
            text_of("Closed: ", app.as_str()).concat(" (pid ").concat(decimal_text(*pid as u64).as_str()).concat(")"),
        ),
        CapturedEvent::WorkspaceChanged { workspace } => MemoryRecord {
            entry_type: MemoryType::WorkspaceSnapshot,
            workspace: Some(workspace.clone()),
            summary: text_of("Switched to: ", workspace.as_str()),
        },
        CapturedEvent::BatteryStatus { percentage_text, state } => record(
            MemoryType::Event,
            text_of("Battery: ", percentage_text.as_str()).concat("% (").concat(state.as_str()).concat(")"),
        ),
        CapturedEvent::NetworkStatus { connected, ssid } => {
            let summary = if *connected {
                match ssid {
                    Some(s) => String::from_str("Network: connected").concat(" to ").concat(s.as_str()),
                    None => {
                        let t = String::from_str("Network: connected");
                        assert(t@ + Seq::<char>::empty() =~= t@);
                        t
                    },
                }
            } else {
                String::from_str("Network: disconnected")
            };
            record(MemoryType::Event, summary)
        },
        CapturedEvent::MediaPlayback { player, state, title, artist } => {
            let info = match title {
                Some(t) => {
                    let base = player.clone().concat(": ").concat(t.as_str());
                    match artist {
                        Some(a) => base.concat(" by ").concat(a.as_str()),
                        None => {
                            assert(base@ + Seq::<char>::empty() =~= base@);
                            base
                        },
                    }
                },
                None => player.clone(),
            };
            record(MemoryType::Event, text_of("Media ", state.as_str()).concat(": ").concat(info.as_str()))
        },
        CapturedEvent::ClipboardUpdated { content_type, preview } => record(
            MemoryType::Event,
            text_of("Clipboard (", content_type.as_str()).concat("): ").concat(preview.as_str()),
        ),
        CapturedEvent::ActionStarted { message } => record(MemoryType::Action, message.clone()),
        CapturedEvent::ActionCompleted { result } => record(MemoryType::Action, text_of("Completed: ", result.as_str())),
        CapturedEvent::ActionFailed { error } => record(MemoryType::Action, text_of("Failed: ", error.as_str())),
        CapturedEvent::AgentSpawned { task } => record(MemoryType::Event, text_of("Agent spawned: ", task.as_str())),
        CapturedEvent::AgentCompleted { result } => record(
            MemoryType::Event,
            text_of("Agent completed: ", result.as_str()),
        ),
        CapturedEvent::AgentFailed { error } => record(MemoryType::Event, text_of("Agent failed: ", error.as_str())),
    }
}

/// A user's query to the assistant, remembered word for word.
pub fn intent_record(query: &str) -> (r: MemoryRecord)
    ensures
        record_view(r) == (MemoryType::Intent, None::<Seq<char>>, query@),
{
    record(MemoryType::Intent, String::from_str(query))
}

/// An answer of the assistant, remembered by the query it answered.
pub fn ai_response_record(query: &str) -> (r: MemoryRecord)
    ensures
        record_view(r) == (MemoryType::AiResponse, None::<Seq<char>>, "Q: "@ + query@),
{
    record(MemoryType::AiResponse, text_of("Q: ", query))
}

/// A snapshot of the desktop context.
pub fn context_snapshot_record() -> (r: MemoryRecord)
    ensures
        record_view(r) == (MemoryType::ContextSnapshot, None::<Seq<char>>, "Context snapshot"@),
{
    record(MemoryType::ContextSnapshot, String::from_str("Context snapshot"))
}

// ── Entries ──────────────────────────────────────────────────

/// The detail fields of an entry that the daemon reads back.
#[derive(Debug, Clone)]
pub struct EntryDetails {
    pub app: Option<String>,
    pub title: Option<String>,
    pub pid: Option<u64>,
    pub query: Option<String>,
}

/// A memory entry read back from the store.
#[derive(Debug, Clone)]
pub struct MemoryEntry {
    pub id: i64,
    /// Nanoseconds after the Unix epoch.
    pub timestamp: i128,
    pub entry_type: MemoryType,
    pub workspace: Option<String>,
    pub summary: String,
    pub details: EntryDetails,
}

} // verus!

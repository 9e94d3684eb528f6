//! The daemon's answers to client commands: how an action request is read
//! from its name and parameters, and which reply each outcome earns.
use vstd::prelude::*;
use vstd::string::*;

use crate::actions::{
    ActionRequest, ActionSpec, ActionType, clone_opt_string, clone_strings, opt_view,
    spec_default_permission,
};
use crate::engine::{EngineState, PlanEvent, first_pending};
use crate::context::AggregatedContext;
use crate::events::Subscription;
use crate::memory::MemoryEntry;
use crate::resolver::CommandSuggestion;
use crate::suggestion::Suggestion;
use crate::ids::{format_id, new_id, uuid_text};
use crate::orchestration::{ExecutionPlan, PlanStatus};
use crate::restore::{
    RestorePlanner, RestorePreview, RestoreResult, RestoreSelections, all_selected, is_restoration_plan,
};
use crate::snapshot::{SnapshotSummary, WorkspaceSnapshot};
use crate::text::{decimal, decimal_text, text_eq};

verus! {

/// The parameters of an action request, each as the text the client sent
/// under its key (`None` where the key is missing or not a string).
pub struct ActionParams {
    pub app: Option<String>,
    pub url: Option<String>,
    pub title: Option<String>,
    pub command: Option<String>,
    /// The string elements of `args`, in order.
    pub args: Vec<String>,
    pub workspace: Option<String>,
    pub query: Option<String>,
    pub path: Option<String>,
    pub action: Option<String>,
    pub text: Option<String>,
    pub body: Option<String>,
}

pub open spec fn text_or_empty(o: Option<String>) -> Seq<char> {
    match o {
        Some(s) => s@,
        None => Seq::empty(),
    }
}

/// The action a request names, or `None` for an unknown name. A missing
/// text parameter reads as the empty text where the action needs one.
pub open spec fn spec_parse_action(name: Seq<char>, p: ActionParams) -> Option<ActionSpec> {
    if name == "open_app"@ {
        Some(ActionSpec::OpenApp { app: text_or_empty(p.app) })
    } else if name == "open_url"@ {
        Some(ActionSpec::OpenUrl { url: text_or_empty(p.url) })
    } else if name == "focus_window"@ {
        Some(ActionSpec::FocusWindow { app: opt_view(p.app), title: opt_view(p.title) })
    } else if name == "launch_command"@ {
        Some(ActionSpec::LaunchCommand {
            command: text_or_empty(p.command),
            args: p.args@.map_values(|a: String| a@),
        })
    } else if name == "switch_workspace"@ {
        Some(ActionSpec::SwitchWorkspace { workspace: text_or_empty(p.workspace) })
    } else if name == "search_files"@ {
        Some(ActionSpec::SearchFiles { query: text_or_empty(p.query), path: opt_view(p.path) })
    } else if name == "media_control"@ {
        Some(ActionSpec::MediaControl { action: text_or_empty(p.action) })
    } else if name == "clipboard_set"@ {
        Some(ActionSpec::ClipboardSet { text: text_or_empty(p.text) })
    } else if name == "read_window_title"@ {
        Some(ActionSpec::ReadWindowTitle)
    } else if name == "notify"@ {
        Some(ActionSpec::Notify { title: text_or_empty(p.title), body: text_or_empty(p.body) })
    } else {
        None
    }
}

fn owned_or_empty(o: &Option<String>) -> (r: String)
    ensures
        r@ == text_or_empty(*o),
{
    match o {
        Some(s) => s.clone(),
        None => String::new(),
    }
}

/// Read an action from its name and parameters.
pub fn parse_action_type(name: &str, params: &ActionParams) -> (r: Result<ActionType, String>)
    ensures
        match spec_parse_action(name@, *params) {
            Some(a) => r matches Ok(t) && t@ == a,
            None => r matches Err(m) && m@ == "Unknown action: "@ + name@,
        },
{
    if text_eq(name, "open_app") {
        Ok(ActionType::OpenApp { app: owned_or_empty(&params.app) })
    } else if text_eq(name, "open_url") {
        Ok(ActionType::OpenUrl { url: owned_or_empty(&params.url) })
    } else if text_eq(name, "focus_window") {
        Ok(ActionType::FocusWindow {
            app: clone_opt_string(&params.app),
            title: clone_opt_string(&params.title),
        })
    } else if text_eq(name, "launch_command") {
        Ok(ActionType::LaunchCommand {
            command: owned_or_empty(&params.command),
            args: clone_strings(&params.args),
        })
    } else if text_eq(name, "switch_workspace") {
        Ok(ActionType::SwitchWorkspace { workspace: owned_or_empty(&params.workspace) })
    } else if text_eq(name, "search_files") {
        Ok(ActionType::SearchFiles {
            query: owned_or_empty(&params.query),
            path: clone_opt_string(&params.path),
        })
    } else if text_eq(name, "media_control") {
        Ok(ActionType::MediaControl { action: owned_or_empty(&params.action) })
    } else if text_eq(name, "clipboard_set") {
        Ok(ActionType::ClipboardSet { text: owned_or_empty(&params.text) })
    } else if text_eq(name, "read_window_title") {
        Ok(ActionType::ReadWindowTitle)
    } else if text_eq(name, "notify") {
        Ok(ActionType::Notify { title: owned_or_empty(&params.title), body: owned_or_empty(&params.body) })
    } else {
        Err(String::from_str("Unknown action: ").concat(name))
    }
}


// ── Replies ──────────────────────────────────────────────────

/// Data a command hands back on success.
pub enum Payload {
    ActionStarted { action_id: u128 },
    AgentSpawned { agent_id: u128, task: String, capabilities: Vec<String> },
    PlanSubmitted { plan_id: u128 },
    Plans { plans: Vec<ExecutionPlan> },
    SnapshotTaken { snapshot_id: u128 },
    Snapshots { summaries: Vec<SnapshotSummary> },
    Snapshot { snapshot: WorkspaceSnapshot },
    Preview { preview: RestorePreview },
    Restore { result: RestoreResult },
    /// The answer to a ping: the daemon's clock in milliseconds.
    Pong { latency_ms: u64 },
    /// No window list yet, with a note on where windows are tracked.
    Windows { message: String },
    /// No agents are listed.
    Agents,
    /// No processes are listed.
    Processes,
    /// Desktop integration is on, through these subsystems.
    Desktop { subsystems: Vec<String> },
    /// Facts about the host.
    SystemInfo { os: String, arch: String, hostname: String, uptime: u64 },
    /// Context for AI prompts: host facts, the desktop's name and the daemon's version.
    HostContext { os: String, arch: String, hostname: String, desktop: String, version: String },
    /// Memory entries, as the store returned them.
    Memories { entries: Vec<MemoryEntry> },
    /// A value the caller already encoded as JSON text.
    Json { text: String },
    /// Active suggestions.
    Suggestions { suggestions: Vec<Suggestion> },
    /// Ranked context commands and the context they were drawn from.
    ContextCommands { commands: Vec<CommandSuggestion>, context: AggregatedContext },
}

/// The daemon's answer to a command.
pub enum Reply {
    /// Done, with an optional note.
    Done { message: Option<String> },
    /// Done, with data.
    Data { payload: Payload },
    /// Refused or failed: a fixed code and a human message.
    Error { code: String, message: String },
}

pub open spec fn is_error(r: Reply, code: Seq<char>, message: Seq<char>) -> bool {
    r matches Reply::Error { code: c, message: m } && c@ == code && m@ == message
}

pub open spec fn is_ok_note(r: Reply, message: Seq<char>) -> bool {
    r matches Reply::Done { message: Some(m) } && m@ == message
}

pub(crate) fn error_reply(code: &str, message: String) -> (r: Reply)
    ensures
        is_error(r, code@, message@),
{
    Reply::Error { code: String::from_str(code), message }
}

pub(crate) fn ok_note(message: String) -> (r: Reply)
    ensures
        is_ok_note(r, message@),
{
    Reply::Done { message: Some(message) }
}

/// `prefix`, the id in its hyphenated form, then `suffix`.
pub open spec fn id_note(prefix: Seq<char>, id: u128, suffix: Seq<char>) -> Seq<char> {
    prefix + uuid_text(id) + suffix
}

fn id_note_text(prefix: &str, id: u128, suffix: &str) -> (r: String)
    ensures
        r@ == id_note(prefix@, id, suffix@),
{
    String::from_str(prefix).concat(format_id(id).as_str()).concat(suffix)
}

/// The request an `ExecuteAction` command asks for: the named action at its
/// default permission, or `INVALID_ACTION` for an unknown name.
pub fn action_request(name: &str, params: &ActionParams) -> (r: Result<ActionRequest, Reply>)
    ensures
        match spec_parse_action(name@, *params) {
            Some(a) => r matches Ok(req) && req.action@ == a && req.permission
                == spec_default_permission(a),
            None => r matches Err(e) && is_error(e, "INVALID_ACTION"@, "Unknown action: "@ + name@),
        },
{
    match parse_action_type(name, params) {
        Ok(action_type) => {
            let permission = ActionRequest::default_permission(&action_type);
            Ok(ActionRequest::new(action_type, permission))
        },
        Err(error) => Err(error_reply("INVALID_ACTION", error)),
    }
}

/// The answer once the executor took (or refused) a request.
pub fn action_started_reply(outcome: Result<u128, String>) -> (r: Reply)
    ensures
        match outcome {
            Ok(id) => r matches Reply::Data { payload: Payload::ActionStarted { action_id } }
                && action_id == id,
            Err(e) => is_error(r, "ACTION_FAILED"@, e@),
        },
{
    match outcome {
        Ok(action_id) => Reply::Data { payload: Payload::ActionStarted { action_id } },
        Err(error) => error_reply("ACTION_FAILED", error),
    }
}

/// The answer to `CancelAction`.
pub fn cancel_action_reply(action_id: u128, outcome: Result<(), String>) -> (r: Reply)
    ensures
        match outcome {
            Ok(_) => is_ok_note(r, id_note("Action "@, action_id, " cancelled"@)),
            Err(e) => is_error(r, "CANCEL_FAILED"@, e@),
        },
{
    match outcome {
        Ok(()) => ok_note(id_note_text("Action ", action_id, " cancelled")),
        Err(error) => error_reply("CANCEL_FAILED", error),
    }
}

/// The answer to `SpawnAgent`, with the fresh agent id it announces.
pub fn spawn_agent_reply(task: String, capabilities: Vec<String>) -> (r: (Reply, u128))
    ensures
        r.0 matches Reply::Data { payload: Payload::AgentSpawned { agent_id, task: t, capabilities: c } }
            && agent_id == r.1 && t@ == task@ && c@ == capabilities@,
{
    let agent_id = new_id();
    (Reply::Data { payload: Payload::AgentSpawned { agent_id, task, capabilities } }, agent_id)
}

/// The answer to `Terminate`, which the daemon does not carry out yet.
pub fn terminate_reply(id: u128) -> (r: Reply)
    ensures
        is_ok_note(r, id_note("Terminate request for "@, id, " (not yet implemented)"@)),
{
    ok_note(id_note_text("Terminate request for ", id, " (not yet implemented)"))
}


/// A command on the orchestration engine's plans.
pub enum PlanCommand {
    /// Submit a plan; `Err` carries why the client's plan could not be read.
    Submit { plan: Result<ExecutionPlan, String> },
    Approve { plan_id: u128 },
    Reject { plan_id: u128 },
    Cancel { plan_id: u128 },
    List,
}

pub open spec fn needs_approval(p: ExecutionPlan) -> bool {
    exists|k: int| 0 <= k < p.nodes@.len() && p.nodes@[k].requires_approval
}

/// Carry out a plan command on the engine. Returns the reply and the event
/// to publish, if the engine changed.
pub fn plan_command(engine: &mut EngineState, cmd: PlanCommand) -> (r: (Reply, Option<PlanEvent>))
    requires
        old(engine).wf(),
    ensures
        final(engine).wf(),
        match cmd {
            PlanCommand::Submit { plan: Ok(p) } => {
                &&& r.0 matches Reply::Data { payload: Payload::PlanSubmitted { plan_id } } && plan_id == p.id
                &&& r.1 matches Some(e) && e.plan_id == p.id
                &&& needs_approval(p) ==> final(engine).pending_approval@ == old(engine).pending_approval@.push(
                    ExecutionPlan { status: PlanStatus::PendingApproval, ..p },
                ) && final(engine).active_plans == old(engine).active_plans
                &&& !needs_approval(p) ==> final(engine).pending_approval == old(engine).pending_approval
                    && final(engine).is_active(p.id)
            },
            PlanCommand::Submit { plan: Err(e) } => {
                &&& is_error(r.0, "INVALID_PLAN"@, "Invalid plan: "@ + e@)
                &&& r.1 is None
                &&& *final(engine) == *old(engine)
            },
            PlanCommand::Approve { plan_id } => match first_pending(old(engine).pending_approval@, plan_id) {
                Some(i) => {
                    &&& is_ok_note(r.0, id_note("Plan "@, plan_id, " approved"@))
                    &&& r.1 matches Some(e) && e.plan_id == plan_id && e.status == PlanStatus::Approved
                    &&& final(engine).pending_approval@ == old(engine).pending_approval@.remove(i)
                    &&& final(engine).is_active(plan_id)
                },
                None => {
                    &&& is_error(r.0, "APPROVE_FAILED"@, "No pending plan with id "@ + uuid_text(plan_id))
                    &&& r.1 is None
                    &&& *final(engine) == *old(engine)
                },
            },
            PlanCommand::Reject { plan_id } => match first_pending(old(engine).pending_approval@, plan_id) {
                Some(i) => {
                    &&& is_ok_note(r.0, id_note("Plan "@, plan_id, " rejected"@))
                    &&& r.1 matches Some(e) && e.plan_id == plan_id && e.status == PlanStatus::Cancelled
                    &&& final(engine).pending_approval@ == old(engine).pending_approval@.remove(i)
                    &&& final(engine).active_plans == old(engine).active_plans
                },
                None => {
                    &&& is_error(r.0, "REJECT_FAILED"@, "No pending plan with id "@ + uuid_text(plan_id))
                    &&& r.1 is None
                    &&& *final(engine) == *old(engine)
                },
            },
            PlanCommand::Cancel { plan_id } => if old(engine).is_active(plan_id) {
                &&& is_ok_note(r.0, id_note("Plan "@, plan_id, " cancelled"@))
                &&& r.1 matches Some(e) && e.plan_id == plan_id && e.status == PlanStatus::Cancelled
                &&& final(engine).pending_approval == old(engine).pending_approval
            } else {
                &&& is_error(r.0, "CANCEL_FAILED"@, "No active plan with id "@ + uuid_text(plan_id))
                &&& r.1 is None
                &&& *final(engine) == *old(engine)
            },
            PlanCommand::List => {
                &&& r.0 matches Reply::Data { payload: Payload::Plans { plans } } && plans@.len()
                    == old(engine).active_plans@.len() + old(engine).pending_approval@.len()
                &&& r.1 is None
                &&& *final(engine) == *old(engine)
            },
        },
{
    match cmd {
        PlanCommand::Submit { plan } => match plan {
            Ok(plan) => {
                let (plan_id, event) = engine.submit_plan(plan);
                (Reply::Data { payload: Payload::PlanSubmitted { plan_id } }, Some(event))
            },
            Err(e) => (error_reply("INVALID_PLAN", String::from_str("Invalid plan: ").concat(e.as_str())), None),
        },
        PlanCommand::Approve { plan_id } => match engine.approve_plan(plan_id) {
            Ok(event) => (ok_note(id_note_text("Plan ", plan_id, " approved")), Some(event)),
            Err(e) => (error_reply("APPROVE_FAILED", e), None),
        },
        PlanCommand::Reject { plan_id } => match engine.reject_plan(plan_id) {
            Ok(event) => (ok_note(id_note_text("Plan ", plan_id, " rejected")), Some(event)),
            Err(e) => (error_reply("REJECT_FAILED", e), None),
        },
        PlanCommand::Cancel { plan_id } => match engine.cancel_plan(plan_id) {
            Ok(event) => (ok_note(id_note_text("Plan ", plan_id, " cancelled")), Some(event)),
            Err(e) => (error_reply("CANCEL_FAILED", e), None),
        },
        PlanCommand::List => {
            let plans = engine.list_plans();
            (Reply::Data { payload: Payload::Plans { plans } }, None)
        },
    }
}


// ── Snapshots and restoration ────────────────────────────────

/// How many snapshots `ListSnapshots` lists when the client names no limit.
pub const DEFAULT_SNAPSHOT_LIMIT: u32 = 20;
/// How many suggestions `GetSuggestions` hands out when the client names no limit.
pub const DEFAULT_SUGGESTION_LIMIT: u32 = 5;
/// How many commands `GetContextCommands` hands out when the client names no limit.
pub const DEFAULT_COMMAND_LIMIT: u32 = 6;

/// The client's limit, or the command's default.
pub fn limit_or(limit: Option<u32>, default: u32) -> (r: u32)
    ensures
        r == match limit {
            Some(l) => l,
            None => default,
        },
{
    match limit {
        Some(l) => l,
        None => default,
    }
}

/// The label of a snapshot taken on request: the client's, or "Manual snapshot".
pub fn snapshot_label(label: Option<String>) -> (r: String)
    ensures
        r@ == match label {
            Some(l) => l@,
            None => "Manual snapshot"@,
        },
{
    match label {
        Some(l) => l,
        None => String::from_str("Manual snapshot"),
    }
}

/// The answer to `TakeSnapshot`.
pub fn take_snapshot_reply(outcome: Result<u128, String>) -> (r: Reply)
    ensures
        match outcome {
            Ok(id) => r matches Reply::Data { payload: Payload::SnapshotTaken { snapshot_id } }
                && snapshot_id == id,
            Err(e) => is_error(r, "SNAPSHOT_FAILED"@, e@),
        },
{
    match outcome {
        Ok(snapshot_id) => Reply::Data { payload: Payload::SnapshotTaken { snapshot_id } },
        Err(e) => error_reply("SNAPSHOT_FAILED", e),
    }
}

/// The answer to `ListSnapshots`.
pub fn list_snapshots_reply(outcome: Result<Vec<SnapshotSummary>, String>) -> (r: Reply)
    ensures
        match outcome {
            Ok(v) => r matches Reply::Data { payload: Payload::Snapshots { summaries } } && summaries@ == v@,
            Err(e) => is_error(r, "SNAPSHOT_LIST"@, e@),
        },
{
    match outcome {
        Ok(summaries) => Reply::Data { payload: Payload::Snapshots { summaries } },
        Err(e) => error_reply("SNAPSHOT_LIST", e),
    }
}

pub open spec fn not_found_message(id: u128) -> Seq<char> {
    id_note("Snapshot "@, id, " not found"@)
}

fn not_found(snapshot_id: u128) -> (r: Reply)
    ensures
        is_error(r, "NOT_FOUND"@, not_found_message(snapshot_id)),
{
    error_reply("NOT_FOUND", id_note_text("Snapshot ", snapshot_id, " not found"))
}

/// The answer to `GetSnapshot`, given what the store found.
pub fn get_snapshot_reply(snapshot_id: u128, lookup: Result<Option<WorkspaceSnapshot>, String>) -> (r: Reply)
    ensures
        match lookup {
            Ok(Some(s)) => r matches Reply::Data { payload: Payload::Snapshot { snapshot } } && snapshot == s,
            Ok(None) => is_error(r, "NOT_FOUND"@, not_found_message(snapshot_id)),
            Err(e) => is_error(r, "SNAPSHOT_GET"@, e@),
        },
{
    match lookup {
        Ok(Some(snapshot)) => Reply::Data { payload: Payload::Snapshot { snapshot } },
        Ok(None) => not_found(snapshot_id),
        Err(e) => error_reply("SNAPSHOT_GET", e),
    }
}

/// The answer to `DeleteSnapshot`, given whether the store removed a row.
pub fn delete_snapshot_reply(snapshot_id: u128, outcome: Result<bool, String>) -> (r: Reply)
    ensures
        match outcome {
            Ok(true) => is_ok_note(r, id_note("Snapshot "@, snapshot_id, " deleted"@)),
            Ok(false) => is_error(r, "NOT_FOUND"@, not_found_message(snapshot_id)),
            Err(e) => is_error(r, "SNAPSHOT_DELETE"@, e@),
        },
{
    match outcome {
        Ok(true) => ok_note(id_note_text("Snapshot ", snapshot_id, " deleted")),
        Ok(false) => not_found(snapshot_id),
        Err(e) => error_reply("SNAPSHOT_DELETE", e),
    }
}

/// The answer to `PreviewRestore`: the planner's preview of the snapshot.
pub fn preview_restore_reply(snapshot_id: u128, lookup: Result<Option<WorkspaceSnapshot>, String>) -> (r: Reply)
    ensures
        match lookup {
            Ok(Some(s)) => r matches Reply::Data { payload: Payload::Preview { preview } }
                && preview.snapshot_id == s.snapshot_id && preview.snapshot_label@ == s.label@
                && crate::restore::previews_view(preview.actions@) == crate::restore::spec_preview(s)
                && preview.action_count == preview.actions@.len() as u32,
            Ok(None) => is_error(r, "NOT_FOUND"@, not_found_message(snapshot_id)),
            Err(e) => is_error(r, "SNAPSHOT_GET"@, e@),
        },
{
    match lookup {
        Ok(Some(snapshot)) => {
            let planner = RestorePlanner;
            Reply::Data { payload: Payload::Preview { preview: planner.preview(&snapshot) } }
        },
        Ok(None) => not_found(snapshot_id),
        Err(e) => error_reply("SNAPSHOT_GET", e),
    }
}

/// The selections a restoration uses: the client's, or every part.
pub open spec fn chosen_selection(selections: Option<RestoreSelections>) -> RestoreSelections {
    match selections {
        Some(s) => s,
        None => all_selected(),
    }
}

/// What a restoration that started leaves for the daemon to announce.
pub struct RestoreStarted {
    pub result: RestoreResult,
    /// The engine's event for the submitted plan.
    pub plan_event: PlanEvent,
    /// "Restoration of <label> with <n> actions".
    pub description: String,
}

/// Whether the snapshot is small enough to lay out: its step count fits a
/// machine word.
pub fn fits_step_budget(snapshot: &WorkspaceSnapshot) -> (r: bool)
    ensures
        r == (crate::restore::step_budget(*snapshot) < usize::MAX),
{
    let w = snapshot.workspaces.len() as u128;
    let a = snapshot.applications.len() as u128;
    let t = snapshot.terminals.len() as u128;
    let u = snapshot.browser_urls.len() as u128;
    w + 2 * a + t + u < usize::MAX as u128
}

/// Carry out `RestoreSnapshot`: plan the restoration of the snapshot the
/// store found (with the client's selections, all parts when none), submit
/// the plan to the engine, and answer with the plan's id and size.
pub fn restore_snapshot(
    engine: &mut EngineState,
    snapshot_id: u128,
    lookup: Result<Option<WorkspaceSnapshot>, String>,
    selections: Option<RestoreSelections>,
) -> (r: (Reply, Option<RestoreStarted>))
    requires
        old(engine).wf(),
        lookup matches Ok(Some(s)) ==> crate::restore::step_budget(s) < usize::MAX,
    ensures
        final(engine).wf(),
        match lookup {
            Ok(Some(s)) => {
                &&& r.1 matches Some(st) && {
                    &&& st.result.snapshot_id == snapshot_id
                    &&& st.plan_event.plan_id == st.result.plan_id
                    &&& st.description@ == "Restoration of "@ + s.label@ + " with "@ + decimal(
                        st.result.action_count as nat,
                    ) + " actions"@
                    &&& r.0 matches Reply::Data { payload: Payload::Restore { result } } && result == st.result
                    &&& exists|p: ExecutionPlan| {
                        &&& #[trigger] is_restoration_plan(p, s, chosen_selection(selections))
                        &&& p.id == st.result.plan_id
                        &&& st.result.action_count == p.nodes@.len() as u32
                        &&& needs_approval(p) ==> final(engine).pending_approval@
                            == old(engine).pending_approval@.push(p) && final(engine).active_plans
                            == old(engine).active_plans && st.plan_event.status == PlanStatus::PendingApproval
                        &&& !needs_approval(p) ==> final(engine).pending_approval == old(engine).pending_approval
                            && final(engine).is_active(p.id) && st.plan_event.status == PlanStatus::Approved
                    }
                }
            },
            Ok(None) => is_error(r.0, "NOT_FOUND"@, not_found_message(snapshot_id)) && r.1 is None
                && *final(engine) == *old(engine),
            Err(e) => is_error(r.0, "SNAPSHOT_GET"@, e@) && r.1 is None && *final(engine) == *old(engine),
        },
{
    let snapshot = match lookup {
        Ok(Some(s)) => s,
        Ok(None) => return (not_found(snapshot_id), None),
        Err(e) => return (error_reply("SNAPSHOT_GET", e), None),
    };
    let planner = RestorePlanner;
    let plan = planner.plan_restoration(&snapshot, selections.as_ref());
    let ghost p0 = plan;
    let plan_id = plan.id;
    #[verifier::truncate]
    let action_count = plan.nodes.len() as u32;
    let (_, plan_event) = engine.submit_plan(plan);
    assert(is_restoration_plan(p0, snapshot, chosen_selection(selections)));
    assert(p0.status == PlanStatus::PendingApproval);
    assert(needs_approval(p0) ==> (ExecutionPlan { status: PlanStatus::PendingApproval, ..p0 }) == p0);
    let description = String::from_str("Restoration of ").concat(snapshot.label.as_str()).concat(
        " with ",
    ).concat(decimal_text(action_count as u64).as_str()).concat(" actions");
    let result = RestoreResult { snapshot_id, plan_id, action_count };
    (Reply::Data { payload: Payload::Restore { result } }, Some(RestoreStarted { result, plan_event, description }))
}


/// The answer to a subscription request.
pub fn subscribe_reply(sub: &Subscription) -> (r: Reply)
    ensures
        is_ok_note(r, "Subscribed to "@ + decimal(sub.kinds@.len()) + " event kind(s)"@),
{
    let n = sub.kinds.len() as u64;
    ok_note(String::from_str("Subscribed to ").concat(decimal_text(n).as_str()).concat(" event kind(s)"))
}

} // verus!

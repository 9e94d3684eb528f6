//! Workspace snapshots: the environment state at a point in time.
use vstd::prelude::*;
use vstd::string::*;
use vstd::std_specs::hash::DefaultHasherAdditionalSpecFns;
use vstd::utf8::encode_utf8;
use std::collections::hash_map::DefaultHasher;
use std::hash::Hasher;

use crate::ids::{NANOS_PER_DAY, NANOS_PER_HOUR, NANOS_PER_MINUTE, new_id, now_nanos};
use crate::memory::{MemoryEntry, MemoryType};
use crate::orchestration::{ExecutionPlan, spec_plan_status_name};
use crate::text::{
    contains_exec, contains_text, decimal, decimal_text, hex, hex_text, lowercase, split_parts, split_text,
    text_eq, to_lower, trim_text, trimmed,
};

verus! {

/// A workspace (virtual desktop) that was active.
#[derive(Debug, Clone)]
pub struct WorkspaceInfo {
    pub name: String,
    pub output: Option<String>,
    pub is_focused: bool,
}

/// A running application.
#[derive(Debug, Clone)]
pub struct AppInfo {
    pub name: String,
    pub title: String,
    pub pid: Option<u32>,
    pub is_focused: bool,
}

/// A specific window.
#[derive(Debug, Clone)]
pub struct WindowInfo {
    pub app: String,
    pub title: String,
    pub pid: Option<u32>,
    pub workspace: Option<String>,
    pub geometry: Option<String>,
}

/// A terminal session.
#[derive(Debug, Clone)]
pub struct TerminalInfo {
    pub app: String,
    pub pid: Option<u32>,
    pub working_directory: Option<String>,
    pub command: Option<String>,
}

/// A browser tab.
#[derive(Debug, Clone)]
pub struct BrowserTab {
    pub browser: String,
    pub url: String,
    pub title: Option<String>,
}

/// Reference to an orchestration plan.
#[derive(Debug, Clone)]
pub struct OrchestrationPlanRef {
    pub plan_id: u128,
    pub title: String,
    pub status: String,
    /// Nanoseconds after the Unix epoch.
    pub created_at: i128,
}

/// Reference to a recent action.
#[derive(Debug, Clone)]
pub struct ActionRef {
    pub action_id: u128,
    pub action_type: String,
    pub summary: String,
    pub status: String,
    /// Nanoseconds after the Unix epoch.
    pub timestamp: i128,
}

/// Reference to an AI conversation.
#[derive(Debug, Clone)]
pub struct ConversationRef {
    pub query: String,
    pub response_summary: String,
    /// Nanoseconds after the Unix epoch.
    pub timestamp: i128,
}

/// A complete workspace snapshot — the environment state at a point in time.
#[derive(Debug, Clone)]
pub struct WorkspaceSnapshot {
    pub snapshot_id: u128,
    /// Nanoseconds after the Unix epoch.
    pub created_at: i128,
    pub label: String,
    pub workspaces: Vec<WorkspaceInfo>,
    pub applications: Vec<AppInfo>,
    pub windows: Vec<WindowInfo>,
    pub terminals: Vec<TerminalInfo>,
    pub browser_urls: Vec<BrowserTab>,
    pub orchestration_plans: Vec<OrchestrationPlanRef>,
    pub recent_actions: Vec<ActionRef>,
    pub ai_conversations: Vec<ConversationRef>,
    pub active_project: Option<String>,
    pub context_summary: Option<String>,
    pub is_auto: bool,
    pub env_checksum: String,
}

/// Summary info for list view.
#[derive(Debug, Clone)]
pub struct SnapshotSummary {
    pub snapshot_id: u128,
    pub created_at: i128,
    pub label: String,
    pub is_auto: bool,
    pub app_count: usize,
    pub terminal_count: usize,
    pub plan_count: usize,
    pub is_restored: bool,
}

/// Number of actionable items: one for the workspace layout when there is
/// any workspace, plus one per application and per terminal.
pub open spec fn spec_node_count(s: WorkspaceSnapshot) -> int {
    (if s.workspaces@.len() > 0 {
        1int
    } else {
        0int
    }) + s.applications@.len() + s.terminals@.len()
}

impl WorkspaceSnapshot {
    /// An empty automatic snapshot with a fresh id, taken now.
    pub fn new(label: &str) -> (s: Self)
        ensures
            s.label@ == label@,
            s.workspaces@.len() == 0,
            s.applications@.len() == 0,
            s.windows@.len() == 0,
            s.terminals@.len() == 0,
            s.browser_urls@.len() == 0,
            s.orchestration_plans@.len() == 0,
            s.recent_actions@.len() == 0,
            s.ai_conversations@.len() == 0,
            s.active_project.is_none(),
            s.context_summary.is_none(),
            s.is_auto,
            s.env_checksum@.len() == 0,
    {
        WorkspaceSnapshot {
            snapshot_id: new_id(),
            created_at: now_nanos(),
            label: String::from_str(label),
            workspaces: Vec::new(),
            applications: Vec::new(),
            windows: Vec::new(),
            terminals: Vec::new(),
            browser_urls: Vec::new(),
            orchestration_plans: Vec::new(),
            recent_actions: Vec::new(),
            ai_conversations: Vec::new(),
            active_project: None,
            context_summary: None,
            is_auto: true,
            env_checksum: String::new(),
        }
    }

    /// Number of actionable items in this snapshot (for restoration planning).
    pub fn node_count(&self) -> (c: u32)
        requires
            spec_node_count(*self) <= u32::MAX,
        ensures
            c == spec_node_count(*self),
    {
        let mut count: u32 = 0;
        if self.workspaces.len() > 0 {
            count += 1;
        }
        count += self.applications.len() as u32;
        count += self.terminals.len() as u32;
        count
    }
}


// ── Gathering ────────────────────────────────────────────────

/// `n` (below 100) written with two digits.
pub open spec fn two_digits(n: nat) -> Seq<char> {
    if n < 10 {
        "0"@ + decimal(n)
    } else {
        decimal(n)
    }
}

fn two_digits_text(n: u64) -> (r: String)
    requires
        n < 100,
    ensures
        r@ == two_digits(n as nat),
{
    if n < 10 {
        String::from_str("0").concat(decimal_text(n).as_str())
    } else {
        decimal_text(n)
    }
}

/// The UTC wall-clock time of an instant (in nanoseconds), as `HH:MM`.
pub open spec fn spec_clock(t: i128) -> Seq<char> {
    let day = t % NANOS_PER_DAY;
    two_digits((day / NANOS_PER_HOUR) as nat) + ":"@ + two_digits(((day % NANOS_PER_HOUR) / NANOS_PER_MINUTE) as nat)
}

/// `HH:MM` of an instant in UTC, as chrono formats `%H:%M`.
pub fn clock_text(t: i128) -> (r: String)
    ensures
        r@ == spec_clock(t),
{
    let day = match t.checked_rem_euclid(NANOS_PER_DAY) {
        Some(d) => d,
        None => 0,
    };
    assert(0 <= day < NANOS_PER_DAY);
    let h = (day / NANOS_PER_HOUR) as u64;
    let m = ((day % NANOS_PER_HOUR) / NANOS_PER_MINUTE) as u64;
    two_digits_text(h).concat(":").concat(two_digits_text(m).as_str())
}

/// The label of a gathered snapshot: "Auto-snapshot HH:MM" when automatic,
/// "Manual snapshot" otherwise.
pub fn gathered_label(is_auto: bool, now: i128) -> (r: String)
    ensures
        r@ == if is_auto {
            "Auto-snapshot "@ + spec_clock(now)
        } else {
            "Manual snapshot"@
        },
{
    if is_auto {
        String::from_str("Auto-snapshot ").concat(clock_text(now).as_str())
    } else {
        String::from_str("Manual snapshot")
    }
}

/// What the memory contributes to a snapshot: applications (name, title,
/// pid, focused), actions (id, type, summary, status, time) and
/// conversations (query, summary, time).
pub ghost struct Gathered {
    pub apps: Seq<(Seq<char>, Seq<char>, Option<u32>, bool)>,
    pub actions: Seq<(u128, Seq<char>, Seq<char>, Seq<char>, i128)>,
    pub convs: Seq<(Seq<char>, Seq<char>, i128)>,
}

pub open spec fn text_or_empty(o: Option<String>) -> Seq<char> {
    match o {
        Some(s) => s@,
        None => Seq::empty(),
    }
}

pub open spec fn has_app(apps: Seq<(Seq<char>, Seq<char>, Option<u32>, bool)>, name: Seq<char>) -> bool {
    exists|i: int| 0 <= i < apps.len() && apps[i].0 == name
}

pub open spec fn has_query(convs: Seq<(Seq<char>, Seq<char>, i128)>, query: Seq<char>) -> bool {
    exists|i: int| 0 <= i < convs.len() && convs[i].0 == query
}

/// One entry read into the gathered state: an event naming a new
/// application adds it, not focused (pids cut to 32 bits); an action adds a
/// completed "action" reference with id 0 and its summary; an
/// intent adds a conversation; an AI response adds one unless its query is
/// already there.
pub open spec fn gather_step(g: Gathered, e: MemoryEntry) -> Gathered {
    match e.entry_type {
        MemoryType::Event => match e.details.app {
            Some(app) => if has_app(g.apps, app@) {
                g
            } else {
                Gathered {
                    apps: g.apps.push(
                        (
                            app@,
                            text_or_empty(e.details.title),
                            match e.details.pid {
                                Some(p) => Some(p as u32),
                                None => None,
                            },
                            false,
                        ),
                    ),
                    ..g
                }
            },
            None => g,
        },
        MemoryType::Action => Gathered {
            actions: g.actions.push((0u128, "action"@, e.summary@, "completed"@, e.timestamp)),
            ..g
        },
        MemoryType::Intent => Gathered {
            convs: g.convs.push((text_or_empty(e.details.query), e.summary@, e.timestamp)),
            ..g
        },
        MemoryType::AiResponse => if has_query(g.convs, text_or_empty(e.details.query)) {
            g
        } else {
            Gathered { convs: g.convs.push((text_or_empty(e.details.query), e.summary@, e.timestamp)), ..g }
        },
        _ => g,
    }
}

/// The entries read in order.
pub open spec fn gather(es: Seq<MemoryEntry>) -> Gathered
    decreases es.len(),
{
    if es.len() == 0 {
        Gathered { apps: Seq::empty(), actions: Seq::empty(), convs: Seq::empty() }
    } else {
        gather_step(gather(es.drop_last()), es.last())
    }
}

pub open spec fn apps_view(v: Seq<AppInfo>) -> Seq<(Seq<char>, Seq<char>, Option<u32>, bool)> {
    v.map_values(|a: AppInfo| (a.name@, a.title@, a.pid, a.is_focused))
}

pub open spec fn actions_view(v: Seq<ActionRef>) -> Seq<(u128, Seq<char>, Seq<char>, Seq<char>, i128)> {
    v.map_values(|a: ActionRef| (a.action_id, a.action_type@, a.summary@, a.status@, a.timestamp))
}

pub open spec fn convs_view(v: Seq<ConversationRef>) -> Seq<(Seq<char>, Seq<char>, i128)> {
    v.map_values(|c: ConversationRef| (c.query@, c.response_summary@, c.timestamp))
}

pub open spec fn plans_view(v: Seq<OrchestrationPlanRef>) -> Seq<(u128, Seq<char>, Seq<char>, i128)> {
    v.map_values(|p: OrchestrationPlanRef| (p.plan_id, p.title@, p.status@, p.created_at))
}

pub open spec fn plan_refs(v: Seq<ExecutionPlan>) -> Seq<(u128, Seq<char>, Seq<char>, i128)> {
    v.map_values(|p: ExecutionPlan| (p.id, p.title@, spec_plan_status_name(p.status), p.created_at))
}

fn owned_or_empty(o: &Option<String>) -> (r: String)
    ensures
        r@ == text_or_empty(*o),
{
    match o {
        Some(s) => s.clone(),
        None => String::new(),
    }
}

fn find_app(apps: &Vec<AppInfo>, name: &str) -> (r: bool)
    ensures
        r == has_app(apps_view(apps@), name@),
{
    let mut i: usize = 0;
    while i < apps.len()
        invariant
            i <= apps@.len(),
            forall|k: int| 0 <= k < i ==> apps@[k].name@ != name@,
        decreases apps@.len() - i,
    {
        if text_eq(apps[i].name.as_str(), name) {
            assert(apps_view(apps@)[i as int].0 == name@);
            return true;
        }
        i += 1;
    }
    assert forall|k: int| 0 <= k < apps_view(apps@).len() implies apps_view(apps@)[k].0 != name@ by {
        assert(apps_view(apps@)[k].0 == apps@[k].name@);
    }
    false
}

fn find_query(convs: &Vec<ConversationRef>, query: &str) -> (r: bool)
    ensures
        r == has_query(convs_view(convs@), query@),
{
    let mut i: usize = 0;
    while i < convs.len()
        invariant
            i <= convs@.len(),
            forall|k: int| 0 <= k < i ==> convs@[k].query@ != query@,
        decreases convs@.len() - i,
    {
        if text_eq(convs[i].query.as_str(), query) {
            assert(convs_view(convs@)[i as int].0 == query@);
            return true;
        }
        i += 1;
    }
    assert forall|k: int| 0 <= k < convs_view(convs@).len() implies convs_view(convs@)[k].0 != query@ by {
        assert(convs_view(convs@)[k].0 == convs@[k].query@);
    }
    false
}

/// Read one entry into the snapshot.
fn gather_entry(snapshot: &mut WorkspaceSnapshot, e: &MemoryEntry)
    ensures
        ({
            let g = gather_step(
                Gathered {
                    apps: apps_view(old(snapshot).applications@),
                    actions: actions_view(old(snapshot).recent_actions@),
                    convs: convs_view(old(snapshot).ai_conversations@),
                },
                *e,
            );
            &&& apps_view(final(snapshot).applications@) == g.apps
            &&& actions_view(final(snapshot).recent_actions@) == g.actions
            &&& convs_view(final(snapshot).ai_conversations@) == g.convs
        }),
        final(snapshot).orchestration_plans == old(snapshot).orchestration_plans,
        final(snapshot).label == old(snapshot).label,
        final(snapshot).is_auto == old(snapshot).is_auto,
        final(snapshot).workspaces == old(snapshot).workspaces,
        final(snapshot).windows == old(snapshot).windows,
        final(snapshot).terminals == old(snapshot).terminals,
        final(snapshot).browser_urls == old(snapshot).browser_urls,
        final(snapshot).active_project == old(snapshot).active_project,
        final(snapshot).context_summary == old(snapshot).context_summary,
        final(snapshot).env_checksum == old(snapshot).env_checksum,
        (forall|k: int| 0 <= k < old(snapshot).applications@.len() ==> !(#[trigger] old(snapshot).applications@[k]).is_focused)
            ==> (forall|k: int| 0 <= k < final(snapshot).applications@.len() ==> !(#[trigger] final(snapshot).applications@[k]).is_focused),
{
    match e.entry_type {
        MemoryType::Event => match &e.details.app {
            Some(app) => {
                if !find_app(&snapshot.applications, app.as_str()) {
                    #[verifier::truncate]
                    let pid = match e.details.pid {
                        Some(p) => Some(p as u32),
                        None => None,
                    };
                    let info = AppInfo {
                        name: app.clone(),
                        title: owned_or_empty(&e.details.title),
                        pid,
                        is_focused: false,
                    };
                    let ghost before = snapshot.applications@;
                    snapshot.applications.push(info);
                    assert(apps_view(snapshot.applications@) =~= apps_view(before).push(
                        (info.name@, info.title@, info.pid, info.is_focused),
                    ));
                }
            },
            None => {},
        },
        MemoryType::Action => {
            let r = ActionRef {
                action_id: 0,
                action_type: String::from_str("action"),
                summary: e.summary.clone(),
                status: String::from_str("completed"),
                timestamp: e.timestamp,
            };
            let ghost before = snapshot.recent_actions@;
            snapshot.recent_actions.push(r);
            assert(actions_view(snapshot.recent_actions@) =~= actions_view(before).push(
                (r.action_id, r.action_type@, r.summary@, r.status@, r.timestamp),
            ));
        },
        MemoryType::Intent => {
            let c = ConversationRef {
                query: owned_or_empty(&e.details.query),
                response_summary: e.summary.clone(),
                timestamp: e.timestamp,
            };
            let ghost before = snapshot.ai_conversations@;
            snapshot.ai_conversations.push(c);
            assert(convs_view(snapshot.ai_conversations@) =~= convs_view(before).push(
                (c.query@, c.response_summary@, c.timestamp),
            ));
        },
        MemoryType::AiResponse => {
            let query = owned_or_empty(&e.details.query);
            if !find_query(&snapshot.ai_conversations, query.as_str()) {
                let c = ConversationRef { query, response_summary: e.summary.clone(), timestamp: e.timestamp };
                let ghost before = snapshot.ai_conversations@;
                snapshot.ai_conversations.push(c);
                assert(convs_view(snapshot.ai_conversations@) =~= convs_view(before).push(
                    (c.query@, c.response_summary@, c.timestamp),
                ));
            }
        },
        _ => {},
    }
}

/// Gather the environment into a new snapshot: its label, the applications,
/// actions and conversations that the memory entries (newest first, as the
/// store lists them) mention, and a reference to each plan the engine holds.
/// The checksum is left empty for the caller to fill.
pub fn assemble_snapshot(label: &str, is_auto: bool, entries: &Vec<MemoryEntry>, plans: &Vec<ExecutionPlan>) -> (s: WorkspaceSnapshot)
    ensures
        s.label@ == label@,
        s.is_auto == is_auto,
        apps_view(s.applications@) == gather(entries@).apps,
        actions_view(s.recent_actions@) == gather(entries@).actions,
        convs_view(s.ai_conversations@) == gather(entries@).convs,
        plans_view(s.orchestration_plans@) == plan_refs(plans@),
        forall|k: int| 0 <= k < s.applications@.len() ==> !(#[trigger] s.applications@[k]).is_focused,
        s.workspaces@.len() == 0,
        s.windows@.len() == 0,
        s.terminals@.len() == 0,
        s.browser_urls@.len() == 0,
        s.active_project is None,
        s.context_summary is None,
        s.env_checksum@.len() == 0,
{
    let mut snapshot = WorkspaceSnapshot::new(label);
    snapshot.is_auto = is_auto;
    let mut i: usize = 0;
    while i < entries.len()
        invariant
            i <= entries@.len(),
            snapshot.label@ == label@,
            snapshot.is_auto == is_auto,
            apps_view(snapshot.applications@) == gather(entries@.take(i as int)).apps,
            actions_view(snapshot.recent_actions@) == gather(entries@.take(i as int)).actions,
            convs_view(snapshot.ai_conversations@) == gather(entries@.take(i as int)).convs,
            forall|k: int| 0 <= k < snapshot.applications@.len() ==> !(#[trigger] snapshot.applications@[k]).is_focused,
            snapshot.orchestration_plans@.len() == 0,
            snapshot.workspaces@.len() == 0,
            snapshot.windows@.len() == 0,
            snapshot.terminals@.len() == 0,
            snapshot.browser_urls@.len() == 0,
            snapshot.active_project is None,
            snapshot.context_summary is None,
            snapshot.env_checksum@.len() == 0,
        decreases entries@.len() - i,
    {
        assert(entries@.take(i + 1).drop_last() =~= entries@.take(i as int));
        assert(entries@.take(i + 1).last() == entries@[i as int]);
        gather_entry(&mut snapshot, &entries[i]);
        i += 1;
    }
    assert(entries@.take(i as int) =~= entries@);
    let mut j: usize = 0;
    assert(plans_view(snapshot.orchestration_plans@) =~= plan_refs(plans@.take(0)));
    while j < plans.len()
        invariant
            j <= plans@.len(),
            plans_view(snapshot.orchestration_plans@) == plan_refs(plans@.take(j as int)),
            snapshot.label@ == label@,
            snapshot.is_auto == is_auto,
            apps_view(snapshot.applications@) == gather(entries@).apps,
            actions_view(snapshot.recent_actions@) == gather(entries@).actions,
            convs_view(snapshot.ai_conversations@) == gather(entries@).convs,
            forall|k: int| 0 <= k < snapshot.applications@.len() ==> !(#[trigger] snapshot.applications@[k]).is_focused,
            snapshot.workspaces@.len() == 0,
            snapshot.windows@.len() == 0,
            snapshot.terminals@.len() == 0,
            snapshot.browser_urls@.len() == 0,
            snapshot.active_project is None,
            snapshot.context_summary is None,
            snapshot.env_checksum@.len() == 0,
        decreases plans@.len() - j,
    {
        let p = &plans[j];
        let r = OrchestrationPlanRef {
            plan_id: p.id,
            title: p.title.clone(),
            status: String::from_str(p.status.name()),
            created_at: p.created_at,
        };
        let ghost before = snapshot.orchestration_plans@;
        snapshot.orchestration_plans.push(r);
        j += 1;
        assert(plans@.take(j as int) =~= plans@.take(j - 1).push(plans@[j - 1]));
        assert(plans_view(snapshot.orchestration_plans@) =~= plans_view(before).push(
            (r.plan_id, r.title@, r.status@, r.created_at),
        ));
        assert(plan_refs(plans@.take(j as int)) =~= plan_refs(plans@.take(j - 1)).push(
            (p.id, p.title@, spec_plan_status_name(p.status), p.created_at),
        ));
    }
    assert(plans@.take(j as int) =~= plans@);
    snapshot
}


// ── Active project ───────────────────────────────────────────

/// The project a focused window's title names: an editor title
/// "project — … Code", the last part of a "… • project" title, or the whole
/// title of a terminal away from the home directory.
pub open spec fn focused_rule(a: AppInfo) -> Option<Seq<char>> {
    let t = a.title@;
    let dash = split_parts(t, " — "@);
    let dot = split_parts(t, " • "@);
    let lower = lowercase(a.name@);
    if contains_text(t, " — "@) && dash.len() == 2 && contains_text(dash[1], "Code"@) {
        Some(trimmed(dash[0]))
    } else if contains_text(t, " • "@) && dot.len() >= 2 {
        Some(trimmed(dot[dot.len() - 1]))
    } else if (contains_text(lower, "terminal"@) || contains_text(lower, "kitty"@) || contains_text(
        lower,
        "alacritty"@,
    )) && t.len() > 0 && !contains_text(t, "~"@) {
        Some(trimmed(t))
    } else {
        None
    }
}

/// The project an editor's title names: its part before the first " — ".
pub open spec fn editor_rule(a: AppInfo) -> Option<Seq<char>> {
    let lower = lowercase(a.name@);
    if (contains_text(lower, "code"@) || contains_text(lower, "idea"@) || contains_text(lower, "vim"@)
        || contains_text(lower, "neovim"@)) && a.title@.len() > 0 && a.title@ != a.name@ {
        Some(trimmed(split_parts(a.title@, " — "@)[0]))
    } else {
        None
    }
}

/// The first focused application whose title names a project.
pub open spec fn focused_project(apps: Seq<AppInfo>) -> Option<Seq<char>>
    decreases apps.len(),
{
    if apps.len() == 0 {
        None
    } else if apps[0].is_focused && focused_rule(apps[0]) is Some {
        focused_rule(apps[0])
    } else {
        focused_project(apps.drop_first())
    }
}

/// The first editor whose title names a project.
pub open spec fn editor_project(apps: Seq<AppInfo>) -> Option<Seq<char>>
    decreases apps.len(),
{
    if apps.len() == 0 {
        None
    } else if editor_rule(apps[0]) is Some {
        editor_rule(apps[0])
    } else {
        editor_project(apps.drop_first())
    }
}

pub open spec fn spec_active_project(apps: Seq<AppInfo>) -> Option<Seq<char>> {
    match focused_project(apps) {
        Some(p) => Some(p),
        None => editor_project(apps),
    }
}

fn apply_focused_rule(a: &AppInfo) -> (r: Option<String>)
    ensures
        match focused_rule(*a) {
            Some(p) => r matches Some(s) && s@ == p,
            None => r is None,
        },
{
    let t = a.title.as_str();
    proof {
        reveal_strlit(" — ");
        reveal_strlit(" • ");
    }
    let has_dash = contains_exec(t, " — ");
    let dash = split_text(t, " — ");
    assert(dash@.map_values(|p: String| p@).len() == dash@.len());
    if has_dash && dash.len() == 2 {
        assert(dash@.map_values(|p: String| p@)[1] == dash@[1]@);
        if contains_exec(dash[1].as_str(), "Code") {
            assert(dash@.map_values(|p: String| p@)[0] == dash@[0]@);
            return Some(trim_text(dash[0].as_str()).to_owned());
        }
    }
    let has_dot = contains_exec(t, " • ");
    let dot = split_text(t, " • ");
    assert(dot@.map_values(|p: String| p@).len() == dot@.len());
    if has_dot && dot.len() >= 2 {
        let last = dot.len() - 1;
        assert(dot@.map_values(|p: String| p@)[last as int] == dot@[last as int]@);
        return Some(trim_text(dot[last].as_str()).to_owned());
    }
    let lower = to_lower(a.name.as_str());
    let l = lower.as_str();
    if (contains_exec(l, "terminal") || contains_exec(l, "kitty") || contains_exec(l, "alacritty"))
        && t.unicode_len() > 0 && !contains_exec(t, "~") {
        return Some(trim_text(t).to_owned());
    }
    None
}

fn apply_editor_rule(a: &AppInfo) -> (r: Option<String>)
    ensures
        match editor_rule(*a) {
            Some(p) => r matches Some(s) && s@ == p,
            None => r is None,
        },
{
    let lower = to_lower(a.name.as_str());
    let l = lower.as_str();
    let t = a.title.as_str();
    if (contains_exec(l, "code") || contains_exec(l, "idea") || contains_exec(l, "vim") || contains_exec(l, "neovim"))
        && t.unicode_len() > 0 && !text_eq(t, a.name.as_str()) {
        proof {
            reveal_strlit(" — ");
        }
        let parts = split_text(t, " — ");
        proof {
            reveal(split_parts);
            assert(parts@.map_values(|p: String| p@).len() == parts@.len());
        }
        assert(parts@.len() > 0);
        assert(parts@.map_values(|p: String| p@)[0] == parts@[0]@);
        return Some(trim_text(parts[0].as_str()).to_owned());
    }
    None
}

/// Guess the project the user works on from the snapshot's applications.
pub fn detect_active_project(snapshot: &WorkspaceSnapshot) -> (r: Option<String>)
    ensures
        match spec_active_project(snapshot.applications@) {
            Some(p) => r matches Some(s) && s@ == p,
            None => r is None,
        },
{
    let apps = &snapshot.applications;
    assert(apps@.skip(0) =~= apps@);
    let mut i: usize = 0;
    while i < apps.len()
        invariant
            i <= apps@.len(),
            apps@ == snapshot.applications@,
            focused_project(apps@) == focused_project(apps@.skip(i as int)),
        decreases apps@.len() - i,
    {
        assert(apps@.skip(i as int)[0] == apps@[i as int]);
        assert(apps@.skip(i as int).drop_first() =~= apps@.skip(i + 1));
        if apps[i].is_focused {
            let found = apply_focused_rule(&apps[i]);
            if found.is_some() {
                assert(focused_project(apps@.skip(i as int)) == focused_rule(apps@[i as int]));
                return found;
            }
        }
        assert(focused_project(apps@.skip(i as int)) == focused_project(apps@.skip(i + 1)));
        i += 1;
    }
    assert(apps@.skip(i as int).len() == 0);
    let mut j: usize = 0;
    while j < apps.len()
        invariant
            j <= apps@.len(),
            apps@ == snapshot.applications@,
            focused_project(apps@) is None,
            editor_project(apps@) == editor_project(apps@.skip(j as int)),
        decreases apps@.len() - j,
    {
        assert(apps@.skip(j as int)[0] == apps@[j as int]);
        assert(apps@.skip(j as int).drop_first() =~= apps@.skip(j + 1));
        let found = apply_editor_rule(&apps[j]);
        if found.is_some() {
            assert(editor_project(apps@.skip(j as int)) == editor_rule(apps@[j as int]));
            return found;
        }
        assert(editor_project(apps@.skip(j as int)) == editor_project(apps@.skip(j + 1)));
        j += 1;
    }
    assert(apps@.skip(j as int).len() == 0);
    None
}

pub open spec fn app_names(apps: Seq<AppInfo>) -> Seq<Seq<char>> {
    apps.map_values(|a: AppInfo| a.name@)
}

pub open spec fn workspace_names(ws: Seq<WorkspaceInfo>) -> Seq<Seq<char>> {
    ws.map_values(|w: WorkspaceInfo| w.name@)
}

/// The writes that hashing each of some texts makes, as `str`'s `Hash`
/// feeds a hasher: the text's UTF-8 bytes, then the byte 0xff that ends it.
pub open spec fn text_writes(names: Seq<Seq<char>>) -> Seq<Seq<u8>>
    decreases names.len(),
{
    if names.len() == 0 {
        Seq::empty()
    } else {
        text_writes(names.drop_last()).push(encode_utf8(names.last())).push(seq![0xffu8])
    }
}

/// The checksum of some application and workspace names: what a fresh
/// `DefaultHasher` finishes with after hashing the application names and
/// then the workspace names, in lower-case hexadecimal.
pub open spec fn names_checksum(app_names: Seq<Seq<char>>, workspace_names: Seq<Seq<char>>) -> Seq<char> {
    hex(DefaultHasher::spec_finish(text_writes(app_names + workspace_names)) as nat)
}

/// Hash one text into a hasher, as `str`'s `Hash` does.
fn hash_text(hasher: &mut DefaultHasher, text: &str)
    ensures
        final(hasher)@ == old(hasher)@.push(encode_utf8(text@)).push(seq![0xffu8]),
{
    let bytes = text.as_bytes();
    assert(bytes@ == encode_utf8(text@));
    hasher.write(bytes);
    let end: Vec<u8> = vec![0xffu8];
    let tail = end.as_slice();
    assert(tail@ =~= seq![0xffu8]);
    hasher.write(tail);
}

/// The checksum of the application names followed by the workspace names.
fn hash_names(apps: &Vec<AppInfo>, workspaces: &Vec<WorkspaceInfo>) -> (r: String)
    ensures
        r@ == names_checksum(app_names(apps@), workspace_names(workspaces@)),
{
    let ghost names = app_names(apps@) + workspace_names(workspaces@);
    let mut hasher = DefaultHasher::new();
    let mut i: usize = 0;
    while i < apps.len()
        invariant
            i <= apps@.len(),
            names == app_names(apps@) + workspace_names(workspaces@),
            hasher@ == text_writes(names.take(i as int)),
        decreases apps@.len() - i,
    {
        hash_text(&mut hasher, apps[i].name.as_str());
        proof {
            assert(names.take(i + 1).drop_last() =~= names.take(i as int));
            assert(names[i as int] == apps@[i as int].name@);
        }
        i += 1;
    }
    let mut j: usize = 0;
    while j < workspaces.len()
        invariant
            j <= workspaces@.len(),
            names == app_names(apps@) + workspace_names(workspaces@),
            hasher@ == text_writes(names.take(apps@.len() + j as int)),
        decreases workspaces@.len() - j,
    {
        hash_text(&mut hasher, workspaces[j].name.as_str());
        proof {
            let k = apps@.len() + j;
            assert(names.take(k + 1).drop_last() =~= names.take(k));
            assert(names[k] == workspaces@[j as int].name@);
        }
        j += 1;
    }
    proof {
        assert(names.take((apps@.len() + workspaces@.len()) as int) =~= names);
    }
    hex_text(hasher.finish())
}

/// The environment checksum of a snapshot: its application names, then its
/// workspace names, hashed.
pub fn compute_checksum(snapshot: &WorkspaceSnapshot) -> (r: String)
    ensures
        r@ == names_checksum(app_names(snapshot.applications@), workspace_names(snapshot.workspaces@)),
{
    hash_names(&snapshot.applications, &snapshot.workspaces)
}

/// Gather the environment into a snapshot (see `assemble_snapshot`), label
/// it by how it was taken (an automatic one by its creation time), then
/// stamp it with its checksum and the project it suggests.
pub fn gather_snapshot(is_auto: bool, entries: &Vec<MemoryEntry>, plans: &Vec<ExecutionPlan>) -> (s:
    WorkspaceSnapshot)
    ensures
        s.label@ == if is_auto {
            "Auto-snapshot "@ + spec_clock(s.created_at)
        } else {
            "Manual snapshot"@
        },
        s.is_auto == is_auto,
        apps_view(s.applications@) == gather(entries@).apps,
        actions_view(s.recent_actions@) == gather(entries@).actions,
        convs_view(s.ai_conversations@) == gather(entries@).convs,
        plans_view(s.orchestration_plans@) == plan_refs(plans@),
        forall|k: int| 0 <= k < s.applications@.len() ==> !(#[trigger] s.applications@[k]).is_focused,
        s.workspaces@.len() == 0,
        s.windows@.len() == 0,
        s.terminals@.len() == 0,
        s.browser_urls@.len() == 0,
        s.context_summary is None,
        s.env_checksum@ == names_checksum(app_names(s.applications@), workspace_names(s.workspaces@)),
        match spec_active_project(s.applications@) {
            Some(p) => s.active_project matches Some(t) && t@ == p,
            None => s.active_project is None,
        },
{
    let mut snapshot = assemble_snapshot("", is_auto, entries, plans);
    snapshot.label = gathered_label(is_auto, snapshot.created_at);
    snapshot.env_checksum = compute_checksum(&snapshot);
    snapshot.active_project = detect_active_project(&snapshot);
    snapshot
}

/// Decides which automatic snapshots are worth keeping: one whose checksum
/// differs from the last one kept.
pub struct AutoSnapshotGate {
    pub last_checksum: String,
}

impl AutoSnapshotGate {
    pub fn new() -> (r: Self)
        ensures
            r.last_checksum@.len() == 0,
    {
        AutoSnapshotGate { last_checksum: String::new() }
    }

    /// Whether a snapshot with this checksum is saved; if so its checksum
    /// becomes the last one.
    pub fn keeps(&mut self, checksum: &str) -> (r: bool)
        ensures
            r == (checksum@ != old(self).last_checksum@),
            final(self).last_checksum@ == checksum@,
    {
        if text_eq(checksum, self.last_checksum.as_str()) {
            false
        } else {
            self.last_checksum = String::from_str(checksum);
            true
        }
    }
}

/// The newest stored snapshots, which expiry always keeps.
pub const KEEP_NEWEST_SNAPSHOTS: i64 = 20;

/// Two days, in nanoseconds: snapshots taken longer ago than this may expire.
pub const SNAPSHOT_MAX_AGE: i128 = 172_800_000_000_000;

/// Expiry of the stored snapshots: nothing goes while at most twenty are
/// stored; beyond that, those taken before the returned instant go, except
/// the twenty newest.
pub fn snapshot_expiry_cutoff(stored: i64, now: i128) -> (r: Option<i128>)
    requires
        now >= i128::MIN + SNAPSHOT_MAX_AGE,
    ensures
        stored > KEEP_NEWEST_SNAPSHOTS ==> r == Some((now - SNAPSHOT_MAX_AGE) as i128),
        stored <= KEEP_NEWEST_SNAPSHOTS ==> r is None,
{
    if stored > KEEP_NEWEST_SNAPSHOTS {
        Some(now - SNAPSHOT_MAX_AGE)
    } else {
        None
    }
}

} // verus!

//! Restoration planning: turning a workspace snapshot into a preview of the
//! actions a restore would take, and into an execution plan.
use vstd::prelude::*;
use vstd::string::*;

use crate::actions::{ActionSpec, ActionType};
use crate::ids::{LAST_CHRONO_NANO, format_rfc3339, rfc3339_at};
use crate::orchestration::{EdgeCondition, ExecutionPlan, PlanEdge, PlanNode};
use crate::snapshot::{AppInfo, BrowserTab, TerminalInfo, WorkspaceInfo, WorkspaceSnapshot};

verus! {

/// What to include in a restoration.
#[derive(Debug, Clone, Copy)]
pub struct RestoreSelections {
    /// Restore applications (open apps).
    pub applications: bool,
    /// Restore workspace layout.
    pub workspaces: bool,
    /// Restore terminal sessions.
    pub terminals: bool,
    /// Restore browser URLs.
    pub browser_urls: bool,
    /// Restore orchestration context.
    pub orchestration_context: bool,
}

/// A single action that will be performed during restoration.
#[derive(Debug, Clone)]
pub struct RestoreActionPreview {
    pub label: String,
    pub action_type: String,
    pub target: String,
    pub requires_approval: bool,
}

/// Preview of what a restoration will do.
#[derive(Debug, Clone)]
pub struct RestorePreview {
    pub snapshot_id: u128,
    pub snapshot_label: String,
    pub snapshot_taken_at: String,
    pub action_count: u32,
    pub actions: Vec<RestoreActionPreview>,
}

/// Result of a restoration request.
#[derive(Debug, Clone, Copy)]
pub struct RestoreResult {
    pub snapshot_id: u128,
    pub plan_id: u128,
    pub action_count: u32,
}

/// Converts a workspace snapshot into a structured restoration execution plan.
pub struct RestorePlanner;

// ── Preview ───────────────────────────────────────────────────

pub ghost struct PreviewSpec {
    pub label: Seq<char>,
    pub action_type: Seq<char>,
    pub target: Seq<char>,
    pub requires_approval: bool,
}

impl View for RestoreActionPreview {
    type V = PreviewSpec;

    open spec fn view(&self) -> PreviewSpec {
        PreviewSpec {
            label: self.label@,
            action_type: self.action_type@,
            target: self.target@,
            requires_approval: self.requires_approval,
        }
    }
}

pub open spec fn preview_ws(ws: Seq<WorkspaceInfo>) -> Seq<PreviewSpec>
    decreases ws.len(),
{
    if ws.len() == 0 {
        Seq::empty()
    } else {
        preview_ws(ws.drop_last()) + if ws.last().is_focused {
            seq![
                PreviewSpec {
                    label: "Switch to workspace: "@ + ws.last().name@,
                    action_type: "switch_workspace"@,
                    target: ws.last().name@,
                    requires_approval: false,
                },
            ]
        } else {
            Seq::empty()
        }
    }
}

pub open spec fn preview_apps(apps: Seq<AppInfo>) -> Seq<PreviewSpec>
    decreases apps.len(),
{
    if apps.len() == 0 {
        Seq::empty()
    } else {
        let a = apps.last();
        preview_apps(apps.drop_last()) + seq![
            PreviewSpec {
                label: "Open: "@ + a.name@,
                action_type: "open_app"@,
                target: a.name@,
                requires_approval: false,
            },
        ] + if a.is_focused {
            seq![
                PreviewSpec {
                    label: "Focus: "@ + a.name@ + " — "@ + a.title@,
                    action_type: "focus_window"@,
                    target: a.name@,
                    requires_approval: false,
                },
            ]
        } else {
            Seq::empty()
        }
    }
}

pub open spec fn preview_terms(terms: Seq<TerminalInfo>) -> Seq<PreviewSpec>
    decreases terms.len(),
{
    if terms.len() == 0 {
        Seq::empty()
    } else {
        let t = terms.last();
        preview_terms(terms.drop_last()) + seq![
            PreviewSpec {
                label: "Restore terminal: "@ + t.app@ + " ("@ + match t.working_directory {
                    Some(d) => d@,
                    None => "default"@,
                } + ")"@,
                action_type: "launch_command"@,
                target: t.app@,
                requires_approval: true,
            },
        ]
    }
}

pub open spec fn preview_urls(tabs: Seq<BrowserTab>) -> Seq<PreviewSpec>
    decreases tabs.len(),
{
    if tabs.len() == 0 {
        Seq::empty()
    } else {
        let t = tabs.last();
        preview_urls(tabs.drop_last()) + seq![
            PreviewSpec {
                label: "Open URL: "@ + t.url@,
                action_type: "open_url"@,
                target: t.url@,
                requires_approval: false,
            },
        ]
    }
}

pub open spec fn spec_preview(s: WorkspaceSnapshot) -> Seq<PreviewSpec> {
    preview_ws(s.workspaces@) + preview_apps(s.applications@) + preview_terms(s.terminals@)
        + preview_urls(s.browser_urls@)
}

pub open spec fn previews_view(v: Seq<RestoreActionPreview>) -> Seq<PreviewSpec> {
    v.map_values(|p: RestoreActionPreview| p@)
}

fn make_preview(label: String, action_type: &str, target: String, requires_approval: bool) -> (r:
    RestoreActionPreview)
    ensures
        r.label == label,
        r.action_type@ == action_type@,
        r.target == target,
        r.requires_approval == requires_approval,
{
    RestoreActionPreview {
        label,
        action_type: String::from_str(action_type),
        target,
        requires_approval,
    }
}

// ── Plan layout ───────────────────────────────────────────────

/// One node of a restoration plan before it gets an id.
pub struct RestoreStep {
    pub label: String,
    pub action: ActionType,
    pub requires_approval: bool,
}

pub ghost struct StepSpec {
    pub label: Seq<char>,
    pub action: ActionSpec,
    pub requires_approval: bool,
}

impl View for RestoreStep {
    type V = StepSpec;

    open spec fn view(&self) -> StepSpec {
        StepSpec { label: self.label@, action: self.action@, requires_approval: self.requires_approval }
    }
}

pub open spec fn steps_view(v: Seq<RestoreStep>) -> Seq<StepSpec> {
    v.map_values(|s: RestoreStep| s@)
}

pub open spec fn edges_view(v: Seq<(usize, usize)>) -> Seq<(int, int)> {
    v.map_values(|e: (usize, usize)| (e.0 as int, e.1 as int))
}

pub open spec fn ws_steps(ws: Seq<WorkspaceInfo>) -> Seq<StepSpec>
    decreases ws.len(),
{
    if ws.len() == 0 {
        Seq::empty()
    } else {
        ws_steps(ws.drop_last()) + if ws.last().is_focused {
            seq![
                StepSpec {
                    label: "Switch to workspace: "@ + ws.last().name@,
                    action: ActionSpec::SwitchWorkspace { workspace: ws.last().name@ },
                    requires_approval: false,
                },
            ]
        } else {
            Seq::empty()
        }
    }
}

pub open spec fn focus_step(a: AppInfo) -> StepSpec {
    StepSpec {
        label: "Focus: "@ + a.name@,
        action: ActionSpec::FocusWindow { app: Some(a.name@), title: Some(a.title@) },
        requires_approval: false,
    }
}

pub open spec fn app_steps(apps: Seq<AppInfo>) -> Seq<StepSpec>
    decreases apps.len(),
{
    if apps.len() == 0 {
        Seq::empty()
    } else {
        let a = apps.last();
        app_steps(apps.drop_last()) + seq![
            StepSpec {
                label: "Open: "@ + a.name@,
                action: ActionSpec::OpenApp { app: a.name@ },
                requires_approval: false,
            },
        ] + if a.is_focused {
            seq![focus_step(a)]
        } else {
            Seq::empty()
        }
    }
}

/// The command a terminal is reopened with: its own, or its program when it
/// has none.
pub open spec fn term_command(t: TerminalInfo) -> Seq<char> {
    match t.command {
        Some(c) => if c@.len() == 0 {
            t.app@
        } else {
            c@
        },
        None => t.app@,
    }
}

pub open spec fn term_label(t: TerminalInfo) -> Seq<char> {
    "Open terminal: "@ + t.app@ + match t.working_directory {
        Some(d) => " in "@ + d@,
        None => Seq::empty(),
    }
}

pub open spec fn term_steps(terms: Seq<TerminalInfo>) -> Seq<StepSpec>
    decreases terms.len(),
{
    if terms.len() == 0 {
        Seq::empty()
    } else {
        let t = terms.last();
        term_steps(terms.drop_last()) + seq![
            StepSpec {
                label: term_label(t),
                action: ActionSpec::LaunchCommand { command: term_command(t), args: Seq::empty() },
                requires_approval: true,
            },
        ]
    }
}

pub open spec fn url_steps(tabs: Seq<BrowserTab>) -> Seq<StepSpec>
    decreases tabs.len(),
{
    if tabs.len() == 0 {
        Seq::empty()
    } else {
        let t = tabs.last();
        url_steps(tabs.drop_last()) + seq![
            StepSpec {
                label: "Open: "@ + t.url@,
                action: ActionSpec::OpenUrl { url: t.url@ },
                requires_approval: false,
            },
        ]
    }
}

/// Edges of a chain of `n` nodes placed from index `base`, each following
/// the one before it, the first following `prev` when there is one.
pub open spec fn chain_edges(prev: Option<int>, base: int, n: nat) -> Seq<(int, int)>
    decreases n,
{
    if n == 0 {
        Seq::empty()
    } else {
        chain_edges(prev, base, (n - 1) as nat) + if n == 1 {
            match prev {
                Some(p) => seq![(p, base)],
                None => Seq::empty(),
            }
        } else {
            seq![(base + n - 2, base + n - 1)]
        }
    }
}

/// The last node of such a chain.
pub open spec fn chain_last(prev: Option<int>, base: int, n: nat) -> Option<int> {
    if n == 0 {
        prev
    } else {
        Some(base + n - 1)
    }
}

/// Edges added while opening applications from index `base`: each opened
/// application follows `prev` when there is one, and each focus step follows
/// its application.
pub open spec fn app_pair_edges(apps: Seq<AppInfo>, prev: Option<int>, base: int) -> Seq<(int, int)>
    decreases apps.len(),
{
    if apps.len() == 0 {
        Seq::empty()
    } else {
        let o = base + app_steps(apps.drop_last()).len();
        app_pair_edges(apps.drop_last(), prev, base) + match prev {
            Some(q) => seq![(q, o)],
            None => Seq::<(int, int)>::empty(),
        } + if apps.last().is_focused {
            seq![(o, o + 1)]
        } else {
            Seq::empty()
        }
    }
}

/// Edges that chain the application steps `1..i` to the step before them,
/// for each step that has no incoming edge yet: with no `prev`, an opened
/// application has none.
pub open spec fn app_chain_edges(steps: Seq<StepSpec>, prev: Option<int>, base: int, i: nat) -> Seq<
    (int, int),
>
    decreases i,
{
    if i <= 1 {
        Seq::empty()
    } else {
        app_chain_edges(steps, prev, base, (i - 1) as nat) + if prev is None && !(steps[i
            - 1].action is FocusWindow) {
            seq![(base + i - 2, base + i - 1)]
        } else {
            Seq::empty()
        }
    }
}

pub open spec fn all_selected() -> RestoreSelections {
    RestoreSelections {
        applications: true,
        workspaces: true,
        terminals: true,
        browser_urls: true,
        orchestration_context: true,
    }
}

pub open spec fn sel_ws(s: WorkspaceSnapshot, sel: RestoreSelections) -> Seq<StepSpec> {
    if sel.workspaces {
        ws_steps(s.workspaces@)
    } else {
        Seq::empty()
    }
}

pub open spec fn sel_apps(s: WorkspaceSnapshot, sel: RestoreSelections) -> Seq<StepSpec> {
    if sel.applications {
        app_steps(s.applications@)
    } else {
        Seq::empty()
    }
}

pub open spec fn sel_terms(s: WorkspaceSnapshot, sel: RestoreSelections) -> Seq<StepSpec> {
    if sel.terminals {
        term_steps(s.terminals@)
    } else {
        Seq::empty()
    }
}

pub open spec fn sel_urls(s: WorkspaceSnapshot, sel: RestoreSelections) -> Seq<StepSpec> {
    if sel.browser_urls {
        url_steps(s.browser_urls@)
    } else {
        Seq::empty()
    }
}

/// The steps of a restoration, phase by phase: focused workspaces, then
/// applications, then terminals, then browser tabs.
pub open spec fn layout_steps(s: WorkspaceSnapshot, sel: RestoreSelections) -> Seq<StepSpec> {
    sel_ws(s, sel) + sel_apps(s, sel) + sel_terms(s, sel) + sel_urls(s, sel)
}

/// The node that later phases follow once the application phase is done.
pub open spec fn prev_after_apps(s: WorkspaceSnapshot, sel: RestoreSelections) -> Option<int> {
    let nw = sel_ws(s, sel).len();
    let na = sel_apps(s, sel).len();
    if na > 0 {
        Some(nw + na - 1)
    } else {
        chain_last(None, 0, nw)
    }
}

/// The dependency edges of a restoration, as index pairs into its steps.
pub open spec fn layout_edges(s: WorkspaceSnapshot, sel: RestoreSelections) -> Seq<(int, int)> {
    let nw = sel_ws(s, sel).len();
    let na = sel_apps(s, sel).len();
    let nt = sel_terms(s, sel).len();
    let nu = sel_urls(s, sel).len();
    let p1 = chain_last(None, 0, nw);
    let e2 = if sel.applications {
        app_pair_edges(s.applications@, p1, nw as int) + app_chain_edges(
            sel_apps(s, sel),
            p1,
            nw as int,
            na,
        )
    } else {
        Seq::empty()
    };
    let p2 = prev_after_apps(s, sel);
    let p3 = chain_last(p2, (nw + na) as int, nt);
    chain_edges(None, 0, nw) + e2 + chain_edges(p2, (nw + na) as int, nt) + chain_edges(
        p3,
        (nw + na + nt) as int,
        nu,
    )
}

/// The names of the selected parts, as the plan description lists them.
pub open spec fn selection_parts(sel: RestoreSelections) -> Seq<Seq<char>> {
    (if sel.applications {
        seq!["apps"@]
    } else {
        Seq::empty()
    }) + (if sel.workspaces {
        seq!["workspaces"@]
    } else {
        Seq::empty()
    }) + (if sel.terminals {
        seq!["terminals"@]
    } else {
        Seq::empty()
    }) + (if sel.browser_urls {
        seq!["browser"@]
    } else {
        Seq::empty()
    })
}

/// The parts joined by `", "`.
pub open spec fn join_parts(parts: Seq<Seq<char>>) -> Seq<char>
    decreases parts.len(),
{
    if parts.len() == 0 {
        Seq::empty()
    } else if parts.len() == 1 {
        parts[0]
    } else {
        join_parts(parts.drop_last()) + ", "@ + parts.last()
    }
}

pub open spec fn restoration_description(label: Seq<char>, sel: RestoreSelections) -> Seq<char> {
    "Restoration of "@ + label + " ("@ + join_parts(selection_parts(sel)) + ")"@
}

/// `p` is the restoration plan of the snapshot under these selections: one
/// fresh, untried node per layout step, in order (no retries, error, result
/// or times yet), and one success edge per layout edge; it waits for
/// approval as a whole, neither approved nor completed.
pub open spec fn is_restoration_plan(p: ExecutionPlan, snapshot: WorkspaceSnapshot, sel: RestoreSelections) -> bool {
    let steps = layout_steps(snapshot, sel);
    let es = layout_edges(snapshot, sel);
    &&& p.title@ == "Restore: "@ + snapshot.label@
    &&& p.description@ == restoration_description(snapshot.label@, sel)
    &&& p.status == crate::orchestration::PlanStatus::PendingApproval
    &&& p.nodes@.len() == steps.len()
    &&& forall|k: int| 0 <= k < steps.len() ==> {
        &&& (#[trigger] p.nodes@[k]).label@ == steps[k].label
        &&& p.nodes@[k].action@ == steps[k].action
        &&& p.nodes@[k].requires_approval == (steps[k].requires_approval || steps[k].action is LaunchCommand)
        &&& p.nodes@[k].status == crate::orchestration::NodeStatus::Pending
        &&& p.nodes@[k].max_retries == 2
        &&& p.nodes@[k].rollback_action.is_none()
        &&& p.nodes@[k].retry_count == 0
        &&& p.nodes@[k].error.is_none()
        &&& p.nodes@[k].result.is_none()
        &&& p.nodes@[k].started_at.is_none()
        &&& p.nodes@[k].completed_at.is_none()
    }
    &&& p.approved_at.is_none()
    &&& p.completed_at.is_none()
    &&& p.edges@.len() == es.len()
    &&& forall|j: int| 0 <= j < es.len() ==> {
        &&& (#[trigger] p.edges@[j]).from == p.nodes@[es[j].0].id
        &&& p.edges@[j].to == p.nodes@[es[j].1].id
        &&& p.edges@[j].condition == EdgeCondition::Success
    }
}

pub open spec fn step_budget(s: WorkspaceSnapshot) -> int {
    (s.workspaces@.len() + 2 * s.applications@.len() + s.terminals@.len() + s.browser_urls@.len()) as int
}

proof fn lemma_ws_steps_len(ws: Seq<WorkspaceInfo>)
    ensures
        ws_steps(ws).len() <= ws.len(),
    decreases ws.len(),
{
    if ws.len() > 0 {
        lemma_ws_steps_len(ws.drop_last());
    }
}

proof fn lemma_app_steps_len(apps: Seq<AppInfo>)
    ensures
        app_steps(apps).len() <= 2 * apps.len(),
    decreases apps.len(),
{
    if apps.len() > 0 {
        lemma_app_steps_len(apps.drop_last());
    }
}

proof fn lemma_term_steps_len(t: Seq<TerminalInfo>)
    ensures
        term_steps(t).len() == t.len(),
    decreases t.len(),
{
    if t.len() > 0 {
        lemma_term_steps_len(t.drop_last());
    }
}

proof fn lemma_url_steps_len(t: Seq<BrowserTab>)
    ensures
        url_steps(t).len() == t.len(),
    decreases t.len(),
{
    if t.len() > 0 {
        lemma_url_steps_len(t.drop_last());
    }
}

fn push_step(steps: &mut Vec<RestoreStep>, label: String, action: ActionType, requires_approval: bool)
    requires
        old(steps)@.len() < usize::MAX,
    ensures
        steps_view(final(steps)@) == steps_view(old(steps)@).push(
            StepSpec { label: label@, action: action@, requires_approval },
        ),
        final(steps)@.len() == old(steps)@.len() + 1,
{
    let ghost before = steps@;
    steps.push(RestoreStep { label, action, requires_approval });
    assert(steps_view(steps@) =~= steps_view(before).push(
        StepSpec { label: label@, action: action@, requires_approval },
    ));
}

fn push_edge(edges: &mut Vec<(usize, usize)>, a: usize, b: usize)
    ensures
        edges_view(final(edges)@) == edges_view(old(edges)@).push((a as int, b as int)),
        final(edges)@.len() == old(edges)@.len() + 1,
{
    let ghost before = edges@;
    edges.push((a, b));
    assert(edges_view(edges@) =~= edges_view(before).push((a as int, b as int)));
}

/// Every edge joins two of the first `n` steps.
pub open spec fn edges_in(e: Seq<(int, int)>, n: int) -> bool {
    forall|j: int| 0 <= j < e.len() ==> 0 <= #[trigger] e[j].0 < n && 0 <= e[j].1 < n
}

proof fn lemma_edges_in_grow(e: Seq<(int, int)>, n: int, m: int)
    requires
        edges_in(e, n),
        n <= m,
    ensures
        edges_in(e, m),
{
}

proof fn lemma_edges_in_push(e: Seq<(int, int)>, n: int, a: int, b: int)
    requires
        edges_in(e, n),
        0 <= a < n,
        0 <= b < n,
    ensures
        edges_in(e.push((a, b)), n),
{
    assert forall|j: int| 0 <= j < e.push((a, b)).len() implies 0 <= #[trigger] e.push((a, b))[j].0 < n
        && 0 <= e.push((a, b))[j].1 < n by {
        if j < e.len() {
            assert(e.push((a, b))[j] == e[j]);
        }
    }
}

pub open spec fn ov(o: Option<usize>) -> Option<int> {
    match o {
        Some(x) => Some(x as int),
        None => None,
    }
}

/// Append a chain phase: one step per element, each following the previous
/// node. Shared by the terminal and browser phases.
fn chain_phase_edges(
    edges: &mut Vec<(usize, usize)>,
    prev: Option<usize>,
    base: usize,
    n: usize,
) -> (last: Option<usize>)
    requires
        base + n <= usize::MAX,
        prev matches Some(p) ==> p < base,
        edges_in(edges_view(old(edges)@), base as int),
    ensures
        edges_view(final(edges)@) == edges_view(old(edges)@) + chain_edges(ov(prev), base as int, n as nat),
        edges_in(edges_view(final(edges)@), base + n),
        ov(last) == chain_last(ov(prev), base as int, n as nat),
        last matches Some(l) ==> l < base + n,
{
    let ghost e0 = edges_view(edges@);
    let mut k: usize = 0;
    let mut p = prev;
    while k < n
        invariant
            k <= n,
            base + n <= usize::MAX,
            prev matches Some(pp) ==> pp < base,
            edges_view(edges@) == e0 + chain_edges(ov(prev), base as int, k as nat),
            ov(p) == chain_last(ov(prev), base as int, k as nat),
            p matches Some(l) ==> l < base + k,
            edges_in(edges_view(edges@), base + k),
        decreases n - k,
    {
        proof {
            lemma_edges_in_grow(edges_view(edges@), base + k, base + k + 1);
        }
        match p {
            Some(q) => {
                proof {
                    lemma_edges_in_push(edges_view(edges@), base + k + 1, q as int, base + k);
                }
                push_edge(edges, q, base + k);
            },
            None => {},
        }
        proof {
            if k == 0 {
            } else {
                assert(p == Some((base + k - 1) as usize));
            }
            assert(chain_edges(ov(prev), base as int, (k + 1) as nat) == chain_edges(
                ov(prev),
                base as int,
                k as nat,
            ) + if k + 1 == 1 {
                match ov(prev) {
                    Some(pp) => seq![(pp, base as int)],
                    None => Seq::empty(),
                }
            } else {
                seq![(base + k - 1, base + k)]
            });
        }
        p = Some(base + k);
        k += 1;
        proof {
            assert(edges_view(edges@) =~= e0 + chain_edges(ov(prev), base as int, k as nat));
        }
    }
    p
}

fn push_preview(v: &mut Vec<RestoreActionPreview>, label: String, action_type: &str, target: String, requires_approval: bool)
    ensures
        previews_view(final(v)@) == previews_view(old(v)@).push(
            PreviewSpec { label: label@, action_type: action_type@, target: target@, requires_approval },
        ),
{
    let ghost before = v@;
    let p = make_preview(label, action_type, target, requires_approval);
    v.push(p);
    assert(previews_view(v@) =~= previews_view(before).push(p@));
}

fn preview_ws_phase(ws: &Vec<WorkspaceInfo>, actions: &mut Vec<RestoreActionPreview>)
    ensures
        previews_view(final(actions)@) == previews_view(old(actions)@) + preview_ws(ws@),
{
    let ghost a0 = previews_view(actions@);
    let mut i: usize = 0;
    while i < ws.len()
        invariant
            i <= ws@.len(),
            previews_view(actions@) == a0 + preview_ws(ws@.take(i as int)),
        decreases ws@.len() - i,
    {
        assert(ws@.take(i + 1).drop_last() =~= ws@.take(i as int));
        assert(ws@.take(i + 1).last() == ws@[i as int]);
        if ws[i].is_focused {
            let name = &ws[i].name;
            push_preview(
                actions,
                String::from_str("Switch to workspace: ").concat(name.as_str()),
                "switch_workspace",
                name.clone(),
                false,
            );
        }
        i += 1;
        assert(previews_view(actions@) =~= a0 + preview_ws(ws@.take(i as int)));
    }
    assert(ws@.take(ws@.len() as int) =~= ws@);
}

fn preview_apps_phase(apps: &Vec<AppInfo>, actions: &mut Vec<RestoreActionPreview>)
    ensures
        previews_view(final(actions)@) == previews_view(old(actions)@) + preview_apps(apps@),
{
    let ghost a0 = previews_view(actions@);
    let mut i: usize = 0;
    while i < apps.len()
        invariant
            i <= apps@.len(),
            previews_view(actions@) == a0 + preview_apps(apps@.take(i as int)),
        decreases apps@.len() - i,
    {
        assert(apps@.take(i + 1).drop_last() =~= apps@.take(i as int));
        assert(apps@.take(i + 1).last() == apps@[i as int]);
        let app = &apps[i];
        push_preview(
            actions,
            String::from_str("Open: ").concat(app.name.as_str()),
            "open_app",
            app.name.clone(),
            false,
        );
        if app.is_focused {
            push_preview(
                actions,
                String::from_str("Focus: ").concat(app.name.as_str()).concat(" — ").concat(
                    app.title.as_str(),
                ),
                "focus_window",
                app.name.clone(),
                false,
            );
        }
        i += 1;
        assert(previews_view(actions@) =~= a0 + preview_apps(apps@.take(i as int)));
    }
    assert(apps@.take(apps@.len() as int) =~= apps@);
}

fn preview_terms_phase(terms: &Vec<TerminalInfo>, actions: &mut Vec<RestoreActionPreview>)
    ensures
        previews_view(final(actions)@) == previews_view(old(actions)@) + preview_terms(terms@),
{
    let ghost a0 = previews_view(actions@);
    let mut i: usize = 0;
    while i < terms.len()
        invariant
            i <= terms@.len(),
            previews_view(actions@) == a0 + preview_terms(terms@.take(i as int)),
        decreases terms@.len() - i,
    {
        assert(terms@.take(i + 1).drop_last() =~= terms@.take(i as int));
        assert(terms@.take(i + 1).last() == terms@[i as int]);
        let term = &terms[i];
        let wd = match &term.working_directory {
            Some(d) => d.as_str(),
            None => "default",
        };
        push_preview(
            actions,
            String::from_str("Restore terminal: ").concat(term.app.as_str()).concat(" (").concat(
                wd,
            ).concat(")"),
            "launch_command",
            term.app.clone(),
            true,
        );
        i += 1;
        assert(previews_view(actions@) =~= a0 + preview_terms(terms@.take(i as int)));
    }
    assert(terms@.take(terms@.len() as int) =~= terms@);
}

fn preview_urls_phase(tabs: &Vec<BrowserTab>, actions: &mut Vec<RestoreActionPreview>)
    ensures
        previews_view(final(actions)@) == previews_view(old(actions)@) + preview_urls(tabs@),
{
    let ghost a0 = previews_view(actions@);
    let mut i: usize = 0;
    while i < tabs.len()
        invariant
            i <= tabs@.len(),
            previews_view(actions@) == a0 + preview_urls(tabs@.take(i as int)),
        decreases tabs@.len() - i,
    {
        assert(tabs@.take(i + 1).drop_last() =~= tabs@.take(i as int));
        assert(tabs@.take(i + 1).last() == tabs@[i as int]);
        let tab = &tabs[i];
        push_preview(
            actions,
            String::from_str("Open URL: ").concat(tab.url.as_str()),
            "open_url",
            tab.url.clone(),
            false,
        );
        i += 1;
        assert(previews_view(actions@) =~= a0 + preview_urls(tabs@.take(i as int)));
    }
    assert(tabs@.take(tabs@.len() as int) =~= tabs@);
}

proof fn lemma_chain_step(prev: Option<int>, base: int, k: nat)
    ensures
        chain_edges(prev, base, k + 1) == chain_edges(prev, base, k) + if k == 0 {
            match prev {
                Some(p) => seq![(p, base)],
                None => Seq::<(int, int)>::empty(),
            }
        } else {
            seq![(base + k - 1, base + k)]
        },
{
    assert((k + 1) as nat - 1 == k);
}

fn layout_ws_phase(ws: &Vec<WorkspaceInfo>, steps: &mut Vec<RestoreStep>, edges: &mut Vec<(usize, usize)>) -> (prev: Option<usize>)
    requires
        old(steps)@.len() == 0,
        old(edges)@.len() == 0,
        ws@.len() < usize::MAX,
    ensures
        steps_view(final(steps)@) == ws_steps(ws@),
        edges_view(final(edges)@) == chain_edges(None, 0, final(steps)@.len() as nat),
        ov(prev) == chain_last(None, 0, final(steps)@.len() as nat),
        final(steps)@.len() <= ws@.len(),
        edges_in(edges_view(final(edges)@), final(steps)@.len() as int),
{
    assert(edges_view(edges@) =~= Seq::empty());
    let mut prev: Option<usize> = None;
    let mut i: usize = 0;
    while i < ws.len()
        invariant
            i <= ws@.len(),
            ws@.len() < usize::MAX,
            steps@.len() <= i,
            steps_view(steps@) == ws_steps(ws@.take(i as int)),
            edges_view(edges@) == chain_edges(None, 0, steps@.len() as nat),
            ov(prev) == chain_last(None, 0, steps@.len() as nat),
            edges_in(edges_view(edges@), steps@.len() as int),
        decreases ws@.len() - i,
    {
        assert(ws@.take(i + 1).drop_last() =~= ws@.take(i as int));
        assert(ws@.take(i + 1).last() == ws@[i as int]);
        if ws[i].is_focused {
            let name = &ws[i].name;
            let n = steps.len();
            push_step(
                steps,
                String::from_str("Switch to workspace: ").concat(name.as_str()),
                ActionType::SwitchWorkspace { workspace: name.clone() },
                false,
            );
            proof {
                lemma_chain_step(None, 0, n as nat);
                lemma_edges_in_grow(edges_view(edges@), n as int, n + 1);
            }
            match prev {
                Some(p) => {
                    proof {
                        lemma_edges_in_push(edges_view(edges@), n + 1, p as int, n as int);
                    }
                    push_edge(edges, p, n)
                },
                None => {},
            }
            prev = Some(n);
            assert(edges_view(edges@) =~= chain_edges(None, 0, steps@.len() as nat));
        }
        i += 1;
        assert(steps_view(steps@) =~= ws_steps(ws@.take(i as int)));
    }
    assert(ws@.take(ws@.len() as int) =~= ws@);
    prev
}

fn layout_apps_phase(apps: &Vec<AppInfo>, steps: &mut Vec<RestoreStep>, edges: &mut Vec<(usize, usize)>, p1: Option<usize>)
    requires
        p1 matches Some(q) ==> q < old(steps)@.len(),
        old(steps)@.len() + 2 * apps@.len() < usize::MAX,
        edges_in(edges_view(old(edges)@), old(steps)@.len() as int),
    ensures
        edges_in(edges_view(final(edges)@), final(steps)@.len() as int),
        steps_view(final(steps)@) == steps_view(old(steps)@) + app_steps(apps@),
        edges_view(final(edges)@) == edges_view(old(edges)@) + app_pair_edges(apps@, ov(p1), old(steps)@.len() as int),
        final(steps)@.len() == old(steps)@.len() + app_steps(apps@).len(),
        app_steps(apps@).len() <= 2 * apps@.len(),
{
    let ghost s0 = steps_view(steps@);
    let ghost e0 = edges_view(edges@);
    let nw = steps.len();
    let mut i: usize = 0;
    while i < apps.len()
        invariant
            i <= apps@.len(),
            nw == s0.len(),
            nw + 2 * apps@.len() < usize::MAX,
            p1 matches Some(q) ==> q < nw,
            app_steps(apps@.take(i as int)).len() <= 2 * i,
            steps@.len() == nw + app_steps(apps@.take(i as int)).len(),
            steps_view(steps@) == s0 + app_steps(apps@.take(i as int)),
            edges_view(edges@) == e0 + app_pair_edges(apps@.take(i as int), ov(p1), nw as int),
            edges_in(edges_view(edges@), steps@.len() as int),
        decreases apps@.len() - i,
    {
        let ghost prefix = apps@.take(i as int);
        assert(apps@.take(i + 1).drop_last() =~= prefix);
        assert(apps@.take(i + 1).last() == apps@[i as int]);
        let app = &apps[i];
        let o = steps.len();
        push_step(
            steps,
            String::from_str("Open: ").concat(app.name.as_str()),
            ActionType::OpenApp { app: app.name.clone() },
            false,
        );
        proof {
            lemma_edges_in_grow(edges_view(edges@), o as int, o + 1);
        }
        match p1 {
            Some(q) => {
                proof {
                    lemma_edges_in_push(edges_view(edges@), o + 1, q as int, o as int);
                }
                push_edge(edges, q, o)
            },
            None => {},
        }
        if app.is_focused {
            push_step(
                steps,
                String::from_str("Focus: ").concat(app.name.as_str()),
                ActionType::FocusWindow {
                    app: Some(app.name.clone()),
                    title: Some(app.title.clone()),
                },
                false,
            );
            proof {
                lemma_edges_in_grow(edges_view(edges@), o + 1, o + 2);
                lemma_edges_in_push(edges_view(edges@), o + 2, o as int, o + 1);
            }
            push_edge(edges, o, o + 1);
        }
        i += 1;
        proof {
            assert(steps_view(steps@) =~= s0 + app_steps(apps@.take(i as int)));
            assert(edges_view(edges@) =~= e0 + app_pair_edges(apps@.take(i as int), ov(p1), nw as int));
        }
    }
    assert(apps@.take(apps@.len() as int) =~= apps@);
}

fn layout_app_chain(steps: &Vec<RestoreStep>, edges: &mut Vec<(usize, usize)>, p1: Option<usize>, nw: usize)
    requires
        nw <= steps@.len(),
        edges_in(edges_view(old(edges)@), steps@.len() as int),
    ensures
        edges_in(edges_view(final(edges)@), steps@.len() as int),
        edges_view(final(edges)@) == edges_view(old(edges)@) + app_chain_edges(
            steps_view(steps@).skip(nw as int),
            ov(p1),
            nw as int,
            (steps@.len() - nw) as nat,
        ),
{
    let na = steps.len() - nw;
    let ghost a_steps = steps_view(steps@).skip(nw as int);
    let ghost e0 = edges_view(edges@);
    if na == 0 {
        assert(app_chain_edges(a_steps, ov(p1), nw as int, 0) =~= Seq::empty());
        assert(edges_view(edges@) =~= e0 + app_chain_edges(a_steps, ov(p1), nw as int, 0));
        return;
    }
    let total = steps.len();
    let mut k: usize = 1;
    assert(app_chain_edges(a_steps, ov(p1), nw as int, 1) =~= Seq::empty());
    assert(edges_view(edges@) =~= e0 + app_chain_edges(a_steps, ov(p1), nw as int, 1));
    while k < na
        invariant
            1 <= k <= na,
            total == steps@.len(),
            na == steps@.len() - nw,
            nw <= steps@.len(),
            a_steps == steps_view(steps@).skip(nw as int),
            edges_view(edges@) == e0 + app_chain_edges(a_steps, ov(p1), nw as int, k as nat),
            edges_in(edges_view(edges@), steps@.len() as int),
        decreases na - k,
    {
        let is_focus = match &steps[nw + k].action {
            ActionType::FocusWindow { .. } => true,
            _ => false,
        };
        proof {
            assert(a_steps[k as int] == steps@[nw + k]@);
        }
        if p1.is_none() && !is_focus {
            proof {
                lemma_edges_in_push(edges_view(edges@), steps@.len() as int, nw + k - 1, nw + k);
            }
            push_edge(edges, nw + k - 1, nw + k);
        }
        k += 1;
        proof {
            assert(edges_view(edges@) =~= e0 + app_chain_edges(a_steps, ov(p1), nw as int, k as nat));
        }
    }
}

fn layout_terms_phase(terms: &Vec<TerminalInfo>, steps: &mut Vec<RestoreStep>)
    requires
        old(steps)@.len() + terms@.len() < usize::MAX,
    ensures
        steps_view(final(steps)@) == steps_view(old(steps)@) + term_steps(terms@),
        final(steps)@.len() == old(steps)@.len() + terms@.len(),
{
    let ghost s0 = steps_view(steps@);
    let n0 = steps.len();
    let mut i: usize = 0;
    while i < terms.len()
        invariant
            i <= terms@.len(),
            n0 + terms@.len() < usize::MAX,
            steps@.len() == n0 + i,
            steps_view(steps@) == s0 + term_steps(terms@.take(i as int)),
        decreases terms@.len() - i,
    {
        assert(terms@.take(i + 1).drop_last() =~= terms@.take(i as int));
        assert(terms@.take(i + 1).last() == terms@[i as int]);
        let term = &terms[i];
        let command = match &term.command {
            Some(c) => c.clone(),
            None => String::new(),
        };
        let mut label = String::from_str("Open terminal: ").concat(term.app.as_str());
        match &term.working_directory {
            Some(cwd) => {
                label = label.concat(" in ").concat(cwd.as_str());
            },
            None => {},
        }
        let cmd = if command.as_str().unicode_len() == 0 {
            term.app.clone()
        } else {
            command
        };
        let args: Vec<String> = Vec::new();
        let action = ActionType::LaunchCommand { command: cmd, args };
        assert(action@ == ActionSpec::LaunchCommand {
            command: term_command(terms@[i as int]),
            args: Seq::empty(),
        }) by {
            assert(args@.map_values(|a: String| a@) =~= Seq::<Seq<char>>::empty());
        }
        assert(label@ == term_label(terms@[i as int]));
        push_step(steps, label, action, true);
        i += 1;
        assert(steps_view(steps@) =~= s0 + term_steps(terms@.take(i as int)));
    }
    assert(terms@.take(terms@.len() as int) =~= terms@);
    proof {
        lemma_term_steps_len(terms@);
    }
}

fn layout_urls_phase(tabs: &Vec<BrowserTab>, steps: &mut Vec<RestoreStep>)
    requires
        old(steps)@.len() + tabs@.len() < usize::MAX,
    ensures
        steps_view(final(steps)@) == steps_view(old(steps)@) + url_steps(tabs@),
        final(steps)@.len() == old(steps)@.len() + tabs@.len(),
{
    let ghost s0 = steps_view(steps@);
    let n0 = steps.len();
    let mut i: usize = 0;
    while i < tabs.len()
        invariant
            i <= tabs@.len(),
            n0 + tabs@.len() < usize::MAX,
            steps@.len() == n0 + i,
            steps_view(steps@) == s0 + url_steps(tabs@.take(i as int)),
        decreases tabs@.len() - i,
    {
        assert(tabs@.take(i + 1).drop_last() =~= tabs@.take(i as int));
        assert(tabs@.take(i + 1).last() == tabs@[i as int]);
        let tab = &tabs[i];
        push_step(
            steps,
            String::from_str("Open: ").concat(tab.url.as_str()),
            ActionType::OpenUrl { url: tab.url.clone() },
            false,
        );
        i += 1;
        assert(steps_view(steps@) =~= s0 + url_steps(tabs@.take(i as int)));
    }
    assert(tabs@.take(tabs@.len() as int) =~= tabs@);
    proof {
        lemma_url_steps_len(tabs@);
    }
}

impl RestorePlanner {
    /// Generate a restoration preview from a snapshot (no side effects).
    pub fn preview(&self, snapshot: &WorkspaceSnapshot) -> (r: RestorePreview)
        ensures
            r.snapshot_id == snapshot.snapshot_id,
            r.snapshot_label@ == snapshot.label@,
            r.snapshot_taken_at@ == rfc3339_at(snapshot.created_at) || r.snapshot_taken_at@.len() == 0,
            0 <= snapshot.created_at <= LAST_CHRONO_NANO ==> r.snapshot_taken_at@ == rfc3339_at(
                snapshot.created_at,
            ),
            previews_view(r.actions@) == spec_preview(*snapshot),
            r.action_count == r.actions@.len() as u32,
    {
        let mut actions: Vec<RestoreActionPreview> = Vec::new();
        assert(previews_view(actions@) =~= Seq::empty());
        preview_ws_phase(&snapshot.workspaces, &mut actions);
        preview_apps_phase(&snapshot.applications, &mut actions);
        preview_terms_phase(&snapshot.terminals, &mut actions);
        preview_urls_phase(&snapshot.browser_urls, &mut actions);
        assert(previews_view(actions@) =~= spec_preview(*snapshot));
        let taken_at = match format_rfc3339(snapshot.created_at) {
            Some(s) => s,
            None => String::new(),
        };
        #[verifier::truncate]
        let count = actions.len() as u32;
        RestorePreview {
            snapshot_id: snapshot.snapshot_id,
            snapshot_label: snapshot.label.clone(),
            snapshot_taken_at: taken_at,
            action_count: count,
            actions,
        }
    }

    /// The steps and dependency edges (as index pairs) of a restoration,
    /// respecting the selection filters.
    #[verifier::rlimit(60)]
    pub fn restoration_layout(&self, snapshot: &WorkspaceSnapshot, sel: RestoreSelections) -> (r: (
        Vec<RestoreStep>,
        Vec<(usize, usize)>,
    ))
        requires
            step_budget(*snapshot) < usize::MAX,
        ensures
            steps_view(r.0@) == layout_steps(*snapshot, sel),
            edges_view(r.1@) == layout_edges(*snapshot, sel),
            edges_in(edges_view(r.1@), r.0@.len() as int),
    {
        proof {
            lemma_ws_steps_len(snapshot.workspaces@);
            lemma_app_steps_len(snapshot.applications@);
            lemma_term_steps_len(snapshot.terminals@);
            lemma_url_steps_len(snapshot.browser_urls@);
        }
        let mut steps: Vec<RestoreStep> = Vec::new();
        let mut edges: Vec<(usize, usize)> = Vec::new();
        assert(steps_view(steps@) =~= Seq::empty());
        assert(edges_view(edges@) =~= Seq::empty());
        let mut prev: Option<usize> = None;
        if sel.workspaces {
            prev = layout_ws_phase(&snapshot.workspaces, &mut steps, &mut edges);
        }
        let nw = steps.len();
        let ghost s1 = steps_view(steps@);
        let ghost e1 = edges_view(edges@);
        assert(s1 == sel_ws(*snapshot, sel));
        assert(e1 == chain_edges(None, 0, nw as nat));
        assert(ov(prev) == chain_last(None, 0, nw as nat));
        let p1 = prev;
        if sel.applications {
            layout_apps_phase(&snapshot.applications, &mut steps, &mut edges, p1);
            assert(steps_view(steps@).skip(nw as int) =~= app_steps(snapshot.applications@));
            layout_app_chain(&steps, &mut edges, p1, nw);
            if steps.len() > nw {
                prev = Some(steps.len() - 1);
            }
        }
        let ghost s2 = steps_view(steps@);
        assert(s2 =~= s1 + sel_apps(*snapshot, sel));
        assert(ov(prev) == prev_after_apps(*snapshot, sel));
        let nt0 = steps.len();
        if sel.terminals {
            layout_terms_phase(&snapshot.terminals, &mut steps);
        }
        let nt = steps.len() - nt0;
        proof {
            lemma_edges_in_grow(edges_view(edges@), nt0 as int, nt0 as int);
        }
        assert(steps_view(steps@) =~= s2 + sel_terms(*snapshot, sel));
        let p3 = chain_phase_edges(&mut edges, prev, nt0, nt);
        let nu0 = steps.len();
        if sel.browser_urls {
            layout_urls_phase(&snapshot.browser_urls, &mut steps);
        }
        let nu = steps.len() - nu0;
        chain_phase_edges(&mut edges, p3, nu0, nu);
        assert(steps_view(steps@) =~= layout_steps(*snapshot, sel));
        assert(edges_view(edges@) =~= layout_edges(*snapshot, sel));
        (steps, edges)
    }

    /// Convert a snapshot into an execution plan for the orchestration
    /// engine, respecting the selection filters (all parts when none given).
    /// Node `k` carries step `k` of the layout and a fresh id; each layout
    /// edge `(a, b)` becomes an edge from node `a` to node `b`.
    pub fn plan_restoration(&self, snapshot: &WorkspaceSnapshot, selections: Option<&RestoreSelections>) -> (p: ExecutionPlan)
        requires
            step_budget(*snapshot) < usize::MAX,
        ensures
            is_restoration_plan(
                p,
                *snapshot,
                match selections {
                    Some(s) => *s,
                    None => all_selected(),
                },
            ),
    {
        let sel = match selections {
            Some(s) => *s,
            None => RestoreSelections {
                applications: true,
                workspaces: true,
                terminals: true,
                browser_urls: true,
                orchestration_context: true,
            },
        };
        let (steps, index_edges) = self.restoration_layout(snapshot, sel);
        let ghost sv = steps_view(steps@);
        let ghost ev = edges_view(index_edges@);
        let mut nodes: Vec<PlanNode> = Vec::new();
        let mut i: usize = 0;
        while i < steps.len()
            invariant
                i <= steps@.len(),
                sv == steps_view(steps@),
                nodes@.len() == i,
                forall|k: int| 0 <= k < i ==> {
                    &&& (#[trigger] nodes@[k]).label@ == sv[k].label
                    &&& nodes@[k].action@ == sv[k].action
                    &&& nodes@[k].requires_approval == sv[k].requires_approval
                    &&& nodes@[k].status == crate::orchestration::NodeStatus::Pending
                    &&& nodes@[k].max_retries == 2
                    &&& nodes@[k].rollback_action.is_none()
                    &&& nodes@[k].retry_count == 0
                    &&& nodes@[k].error.is_none()
                    &&& nodes@[k].result.is_none()
                    &&& nodes@[k].started_at.is_none()
                    &&& nodes@[k].completed_at.is_none()
                },
            decreases steps@.len() - i,
        {
            let step = &steps[i];
            assert(sv[i as int] == step@);
            let mut node = PlanNode::new(step.label.as_str(), step.action.duplicate());
            if step.requires_approval {
                node = node.requires_approval();
            }
            nodes.push(node);
            i += 1;
        }
        let mut edges: Vec<PlanEdge> = Vec::new();
        let mut j: usize = 0;
        while j < index_edges.len()
            invariant
                j <= index_edges@.len(),
                ev == edges_view(index_edges@),
                edges_in(ev, nodes@.len() as int),
                nodes@.len() == steps@.len(),
                edges@.len() == j,
                forall|k: int| 0 <= k < j ==> {
                    &&& (#[trigger] edges@[k]).from == nodes@[ev[k].0].id
                    &&& edges@[k].to == nodes@[ev[k].1].id
                    &&& edges@[k].condition == EdgeCondition::Success
                },
            decreases index_edges@.len() - j,
        {
            let (a, b) = index_edges[j];
            assert(ev[j as int] == (a as int, b as int));
            edges.push(PlanEdge { from: nodes[a].id, to: nodes[b].id, condition: EdgeCondition::Success });
            j += 1;
        }
        let title = String::from_str("Restore: ").concat(snapshot.label.as_str());
        let desc = restoration_description_text(snapshot.label.as_str(), sel);
        let mut plan = ExecutionPlan::new(title.as_str(), desc.as_str(), nodes, edges);
        let ghost n0 = plan.nodes@;
        let ghost pe = plan.edges@;
        let mut k: usize = 0;
        while k < plan.nodes.len()
            invariant
                k <= plan.nodes@.len(),
                plan.nodes@.len() == n0.len(),
                forall|m: int| 0 <= m < plan.nodes@.len() ==> {
                    &&& (#[trigger] plan.nodes@[m]).id == n0[m].id
                    &&& plan.nodes@[m].label == n0[m].label
                    &&& plan.nodes@[m].action == n0[m].action
                    &&& plan.nodes@[m].status == n0[m].status
                    &&& plan.nodes@[m].max_retries == n0[m].max_retries
                    &&& plan.nodes@[m].rollback_action == n0[m].rollback_action
                    &&& plan.nodes@[m].retry_count == n0[m].retry_count
                    &&& plan.nodes@[m].error == n0[m].error
                    &&& plan.nodes@[m].result == n0[m].result
                    &&& plan.nodes@[m].started_at == n0[m].started_at
                    &&& plan.nodes@[m].completed_at == n0[m].completed_at
                    &&& plan.nodes@[m].requires_approval == if m < k {
                        n0[m].requires_approval || n0[m].action@ is LaunchCommand
                    } else {
                        n0[m].requires_approval
                    }
                },
                plan.title@ == title@,
                plan.description@ == desc@,
                plan.edges@ == pe,
                plan.status == crate::orchestration::PlanStatus::PendingApproval,
                plan.approved_at.is_none(),
                plan.completed_at.is_none(),
            decreases plan.nodes@.len() - k,
        {
            if plan.nodes[k].action.is_launch_command() {
                let mut node = plan.nodes.remove(k);
                node.requires_approval = true;
                plan.nodes.insert(k, node);
            }
            k += 1;
        }
        plan
    }
}

/// "Restoration of <label> (<parts>)", the parts of the selection joined by ", ".
pub fn restoration_description_text(label: &str, sel: RestoreSelections) -> (r: String)
    ensures
        r@ == restoration_description(label@, sel),
{
    let mut parts: Vec<&str> = Vec::new();
    if sel.applications {
        parts.push("apps");
    }
    if sel.workspaces {
        parts.push("workspaces");
    }
    if sel.terminals {
        parts.push("terminals");
    }
    if sel.browser_urls {
        parts.push("browser");
    }
    let ghost pv = parts@.map_values(|p: &str| p@);
    assert(pv =~= selection_parts(sel));
    let mut joined = String::new();
    let mut i: usize = 0;
    while i < parts.len()
        invariant
            i <= parts@.len(),
            pv == parts@.map_values(|p: &str| p@),
            joined@ == join_parts(pv.take(i as int)),
        decreases parts@.len() - i,
    {
        assert(pv.take(i + 1).drop_last() =~= pv.take(i as int));
        if i != 0 {
            joined = joined.concat(", ");
        } else {
            assert(joined@ =~= Seq::<char>::empty());
        }
        joined = joined.concat(parts[i]);
        i += 1;
        assert(joined@ =~= join_parts(pv.take(i as int)));
    }
    assert(pv.take(parts@.len() as int) =~= pv);
    String::from_str("Restoration of ").concat(label).concat(" (").concat(joined.as_str()).concat(")")
}


// ── Laws ─────────────────────────────────────────────────────

pub open spec fn opens_no_app(steps: Seq<StepSpec>) -> bool {
    forall|k: int| 0 <= k < steps.len() ==> !((#[trigger] steps[k]).action is OpenApp)
}

proof fn lemma_ws_steps_open_no_app(ws: Seq<WorkspaceInfo>)
    ensures
        opens_no_app(ws_steps(ws)),
    decreases ws.len(),
{
    if ws.len() > 0 {
        lemma_ws_steps_open_no_app(ws.drop_last());
    }
}

proof fn lemma_term_steps_open_no_app(terms: Seq<TerminalInfo>)
    ensures
        opens_no_app(term_steps(terms)),
    decreases terms.len(),
{
    if terms.len() > 0 {
        lemma_term_steps_open_no_app(terms.drop_last());
    }
}

proof fn lemma_url_steps_open_no_app(tabs: Seq<BrowserTab>)
    ensures
        opens_no_app(url_steps(tabs)),
    decreases tabs.len(),
{
    if tabs.len() > 0 {
        lemma_url_steps_open_no_app(tabs.drop_last());
    }
}

/// A partial restoration that leaves applications out reopens none: no
/// step of its layout, and so no node of its plan, opens an application.
pub proof fn law_unselected_applications_stay_closed(
    p: ExecutionPlan,
    snapshot: WorkspaceSnapshot,
    sel: RestoreSelections,
)
    requires
        !sel.applications,
        is_restoration_plan(p, snapshot, sel),
    ensures
        opens_no_app(layout_steps(snapshot, sel)),
        forall|k: int| 0 <= k < p.nodes@.len() ==> !((#[trigger] p.nodes@[k]).action@ is OpenApp),
{
    lemma_ws_steps_open_no_app(snapshot.workspaces@);
    lemma_term_steps_open_no_app(snapshot.terminals@);
    lemma_url_steps_open_no_app(snapshot.browser_urls@);
    let steps = layout_steps(snapshot, sel);
    let a = sel_ws(snapshot, sel);
    let t = sel_terms(snapshot, sel);
    let u = sel_urls(snapshot, sel);
    assert(opens_no_app(a));
    assert(opens_no_app(t));
    assert(opens_no_app(u));
    assert(steps =~= a + t + u);
    assert forall|k: int| 0 <= k < steps.len() implies !((#[trigger] steps[k]).action is OpenApp) by {
        if k < a.len() {
            assert(steps[k] == a[k]);
        } else if k < a.len() + t.len() {
            assert(steps[k] == t[k - a.len()]);
        } else {
            assert(steps[k] == u[k - a.len() - t.len()]);
        }
    }
    assert forall|k: int| 0 <= k < p.nodes@.len() implies !((#[trigger] p.nodes@[k]).action@ is OpenApp) by {
        assert(p.nodes@[k].action@ == steps[k].action);
    }
}

/// Leaving every part out restores nothing: the plan has no node.
pub proof fn law_nothing_selected_restores_nothing(p: ExecutionPlan, snapshot: WorkspaceSnapshot, sel: RestoreSelections)
    requires
        !sel.applications,
        !sel.workspaces,
        !sel.terminals,
        !sel.browser_urls,
        is_restoration_plan(p, snapshot, sel),
    ensures
        p.nodes@.len() == 0,
        p.edges@.len() == 0,
{
    assert(layout_steps(snapshot, sel) =~= Seq::<StepSpec>::empty());
    assert(layout_edges(snapshot, sel).len() == 0) by {
        reveal_with_fuel(chain_edges, 2);
    }
}


// ── Laws of restoration plans and previews ───────────────────

/// How many workspaces are focused.
pub open spec fn focused_ws_count(ws: Seq<WorkspaceInfo>) -> nat
    decreases ws.len(),
{
    if ws.len() == 0 {
        0
    } else {
        focused_ws_count(ws.drop_last()) + if ws.last().is_focused {
            1nat
        } else {
            0nat
        }
    }
}

/// How many applications are focused.
pub open spec fn focused_app_count(apps: Seq<AppInfo>) -> nat
    decreases apps.len(),
{
    if apps.len() == 0 {
        0
    } else {
        focused_app_count(apps.drop_last()) + if apps.last().is_focused {
            1nat
        } else {
            0nat
        }
    }
}

proof fn lemma_ws_steps_count(ws: Seq<WorkspaceInfo>)
    ensures
        ws_steps(ws).len() == focused_ws_count(ws),
    decreases ws.len(),
{
    if ws.len() > 0 {
        lemma_ws_steps_count(ws.drop_last());
    }
}

proof fn lemma_app_steps_count(apps: Seq<AppInfo>)
    ensures
        app_steps(apps).len() == apps.len() + focused_app_count(apps),
    decreases apps.len(),
{
    if apps.len() > 0 {
        lemma_app_steps_count(apps.drop_last());
    }
}

/// The size of a restoration: one node per focused workspace, one per
/// application plus one more per focused application, one per terminal and
/// one per browser tab, each part counted only when it is selected.
pub proof fn law_restoration_node_count(p: ExecutionPlan, snapshot: WorkspaceSnapshot, sel: RestoreSelections)
    requires
        is_restoration_plan(p, snapshot, sel),
    ensures
        p.nodes@.len() == (if sel.workspaces {
            focused_ws_count(snapshot.workspaces@)
        } else {
            0
        }) + (if sel.applications {
            snapshot.applications@.len() + focused_app_count(snapshot.applications@)
        } else {
            0
        }) + (if sel.terminals {
            snapshot.terminals@.len()
        } else {
            0
        }) + (if sel.browser_urls {
            snapshot.browser_urls@.len()
        } else {
            0
        }),
{
    lemma_ws_steps_count(snapshot.workspaces@);
    lemma_app_steps_count(snapshot.applications@);
    lemma_term_steps_len(snapshot.terminals@);
    lemma_url_steps_len(snapshot.browser_urls@);
}

/// Only terminal steps ask for approval, and they are exactly the steps
/// that launch a command.
pub open spec fn approval_is_launch(steps: Seq<StepSpec>) -> bool {
    forall|k: int|
        0 <= k < steps.len() ==> ((#[trigger] steps[k]).requires_approval <==> steps[k].action is LaunchCommand)
}

pub open spec fn launches_none(steps: Seq<StepSpec>) -> bool {
    forall|k: int| 0 <= k < steps.len() ==> !((#[trigger] steps[k]).action is LaunchCommand)
}

proof fn lemma_ws_steps_no_launch(ws: Seq<WorkspaceInfo>)
    ensures
        launches_none(ws_steps(ws)),
        approval_is_launch(ws_steps(ws)),
    decreases ws.len(),
{
    if ws.len() > 0 {
        lemma_ws_steps_no_launch(ws.drop_last());
    }
}

proof fn lemma_app_steps_no_launch(apps: Seq<AppInfo>)
    ensures
        launches_none(app_steps(apps)),
        approval_is_launch(app_steps(apps)),
    decreases apps.len(),
{
    if apps.len() > 0 {
        lemma_app_steps_no_launch(apps.drop_last());
    }
}

proof fn lemma_url_steps_no_launch(tabs: Seq<BrowserTab>)
    ensures
        launches_none(url_steps(tabs)),
        approval_is_launch(url_steps(tabs)),
    decreases tabs.len(),
{
    if tabs.len() > 0 {
        lemma_url_steps_no_launch(tabs.drop_last());
    }
}

proof fn lemma_term_steps_launch(terms: Seq<TerminalInfo>)
    ensures
        approval_is_launch(term_steps(terms)),
        forall|k: int|
            0 <= k < terms.len() ==> (#[trigger] term_steps(terms)[k]).action == (ActionSpec::LaunchCommand {
                command: term_command(terms[k]),
                args: Seq::empty(),
            }) && term_steps(terms)[k].label == term_label(terms[k]),
    decreases terms.len(),
{
    if terms.len() > 0 {
        lemma_term_steps_launch(terms.drop_last());
        lemma_term_steps_len(terms.drop_last());
        assert forall|k: int| 0 <= k < terms.len() implies (#[trigger] term_steps(terms)[k]).action
            == (ActionSpec::LaunchCommand { command: term_command(terms[k]), args: Seq::empty() }) && term_steps(
            terms,
        )[k].label == term_label(terms[k]) by {
            if k < terms.len() - 1 {
                assert(terms.drop_last()[k] == terms[k]);
            }
        }
    }
}

proof fn lemma_concat_approval(a: Seq<StepSpec>, b: Seq<StepSpec>)
    requires
        approval_is_launch(a),
        approval_is_launch(b),
    ensures
        approval_is_launch(a + b),
{
    assert forall|k: int| 0 <= k < (a + b).len() implies ((#[trigger] (a + b)[k]).requires_approval
        <==> ((a + b)[k].action is LaunchCommand)) by {
        if k < a.len() {
            assert((a + b)[k] == a[k]);
        } else {
            assert((a + b)[k] == b[k - a.len()]);
        }
    }
}

/// Approval in a restoration plan: a node asks for it exactly when it
/// launches a command, which only terminals do (each with its own command,
/// or its program when it has none, and no arguments); so the plan waits
/// for approval exactly when terminals are selected and the snapshot has
/// some. The description names the selected parts.
pub proof fn law_restoration_approval(p: ExecutionPlan, snapshot: WorkspaceSnapshot, sel: RestoreSelections)
    requires
        is_restoration_plan(p, snapshot, sel),
    ensures
        forall|k: int|
            0 <= k < p.nodes@.len() ==> ((#[trigger] p.nodes@[k]).requires_approval <==> (p.nodes@[k].action@ is LaunchCommand)),
        (exists|k: int| 0 <= k < p.nodes@.len() && p.nodes@[k].requires_approval) <==> (sel.terminals
            && snapshot.terminals@.len() > 0),
        sel.terminals ==> forall|k: int|
            0 <= k < snapshot.terminals@.len() ==> p.nodes@[sel_ws(snapshot, sel).len() + sel_apps(
                snapshot,
                sel,
            ).len() + k].action@ == (ActionSpec::LaunchCommand {
                command: term_command(#[trigger] snapshot.terminals@[k]),
                args: Seq::empty(),
            }),
        p.description@ == restoration_description(snapshot.label@, sel),
{
    let w = sel_ws(snapshot, sel);
    let a = sel_apps(snapshot, sel);
    let t = sel_terms(snapshot, sel);
    let u = sel_urls(snapshot, sel);
    let steps = layout_steps(snapshot, sel);
    lemma_ws_steps_no_launch(snapshot.workspaces@);
    lemma_app_steps_no_launch(snapshot.applications@);
    lemma_url_steps_no_launch(snapshot.browser_urls@);
    lemma_term_steps_launch(snapshot.terminals@);
    lemma_term_steps_len(snapshot.terminals@);
    assert(approval_is_launch(w));
    assert(approval_is_launch(a));
    assert(approval_is_launch(t));
    assert(approval_is_launch(u));
    lemma_concat_approval(w, a);
    lemma_concat_approval(w + a, t);
    lemma_concat_approval(w + a + t, u);
    assert(steps =~= w + a + t + u);
    assert forall|k: int| 0 <= k < p.nodes@.len() implies ((#[trigger] p.nodes@[k]).requires_approval
        <==> (p.nodes@[k].action@ is LaunchCommand)) by {
        assert(p.nodes@[k].action@ == steps[k].action);
        assert(steps[k].requires_approval <==> steps[k].action is LaunchCommand);
    }
    let base: int = (w.len() + a.len()) as int;
    if sel.terminals {
        assert forall|k: int| 0 <= k < snapshot.terminals@.len() implies p.nodes@[base + k].action@
            == (ActionSpec::LaunchCommand {
                command: term_command(#[trigger] snapshot.terminals@[k]),
                args: Seq::empty(),
            }) by {
            assert(steps[base + k] == t[k]);
            assert(t[k] == term_steps(snapshot.terminals@)[k]);
        }
    }
    if sel.terminals && snapshot.terminals@.len() > 0 {
        assert(steps[base] == t[0]);
        assert(t[0] == term_steps(snapshot.terminals@)[0]);
        assert(p.nodes@[base].requires_approval);
    }
    if exists|k: int| 0 <= k < p.nodes@.len() && p.nodes@[k].requires_approval {
        let k = choose|k: int| 0 <= k < p.nodes@.len() && p.nodes@[k].requires_approval;
        assert(p.nodes@[k].action@ is LaunchCommand);
        assert(steps[k].action is LaunchCommand);
        if k < w.len() {
            assert(steps[k] == w[k]);
        } else if k < base {
            assert(steps[k] == a[k - w.len()]);
        } else if k < base + t.len() {
            assert(steps[k] == t[k - base]);
        } else {
            assert(steps[k] == u[k - base - t.len()]);
        }
    }
}

/// A restored terminal runs again what it was running: with terminals
/// selected, the node for terminal `k` (it follows the selected workspace
/// and application steps) launches the terminal's recorded command, without
/// arguments, when that command is not empty, and the terminal program
/// itself when no command, or an empty one, was recorded; it asks for
/// approval, and its label names the program and the working directory
/// when one was recorded.
pub proof fn law_terminal_relaunches_its_command(p: ExecutionPlan, snapshot: WorkspaceSnapshot, sel: RestoreSelections)
    requires
        is_restoration_plan(p, snapshot, sel),
        sel.terminals,
    ensures
        forall|k: int|
            #![trigger snapshot.terminals@[k]]
            0 <= k < snapshot.terminals@.len() ==> {
                let n = sel_ws(snapshot, sel).len() + sel_apps(snapshot, sel).len() + k;
                let t = snapshot.terminals@[k];
                &&& 0 <= n < p.nodes@.len()
                &&& (t.command is Some && t.command.unwrap()@.len() > 0) ==> p.nodes@[n].action@
                    == (ActionSpec::LaunchCommand { command: t.command.unwrap()@, args: Seq::empty() })
                &&& (t.command is None || t.command.unwrap()@.len() == 0) ==> p.nodes@[n].action@
                    == (ActionSpec::LaunchCommand { command: t.app@, args: Seq::empty() })
                &&& p.nodes@[n].requires_approval
                &&& t.working_directory is None ==> p.nodes@[n].label@ == "Open terminal: "@ + t.app@
                &&& t.working_directory is Some ==> p.nodes@[n].label@ == "Open terminal: "@ + t.app@ + " in "@
                    + t.working_directory.unwrap()@
            },
{
    law_restoration_approval(p, snapshot, sel);
    lemma_term_steps_len(snapshot.terminals@);
    let w = sel_ws(snapshot, sel);
    let a = sel_apps(snapshot, sel);
    let t = sel_terms(snapshot, sel);
    let u = sel_urls(snapshot, sel);
    let steps = layout_steps(snapshot, sel);
    assert(steps =~= w + a + t + u);
    lemma_term_steps_launch(snapshot.terminals@);
    let base: int = (w.len() + a.len()) as int;
    assert forall|k: int| 0 <= k < snapshot.terminals@.len() implies #[trigger] p.nodes@[base + k].label@
        == term_label(snapshot.terminals@[k]) by {
        assert(steps[base + k] == t[k]);
        assert(t[k] == term_steps(snapshot.terminals@)[k]);
    }
}

/// The kind name a preview gives to the action of a step.
pub open spec fn action_kind(a: ActionSpec) -> Seq<char> {
    match a {
        ActionSpec::SwitchWorkspace { .. } => "switch_workspace"@,
        ActionSpec::OpenApp { .. } => "open_app"@,
        ActionSpec::FocusWindow { .. } => "focus_window"@,
        ActionSpec::LaunchCommand { .. } => "launch_command"@,
        ActionSpec::OpenUrl { .. } => "open_url"@,
        _ => Seq::empty(),
    }
}

/// Preview entries that describe steps one for one: same kind of action,
/// same need for approval.
pub open spec fn previews_match(pv: Seq<PreviewSpec>, st: Seq<StepSpec>) -> bool {
    &&& pv.len() == st.len()
    &&& forall|k: int|
        0 <= k < pv.len() ==> (#[trigger] pv[k]).action_type == action_kind(st[k].action)
            && pv[k].requires_approval == st[k].requires_approval
}

proof fn lemma_match_concat(p1: Seq<PreviewSpec>, s1: Seq<StepSpec>, p2: Seq<PreviewSpec>, s2: Seq<StepSpec>)
    requires
        previews_match(p1, s1),
        previews_match(p2, s2),
    ensures
        previews_match(p1 + p2, s1 + s2),
{
    assert forall|k: int| 0 <= k < (p1 + p2).len() implies (#[trigger] (p1 + p2)[k]).action_type == action_kind(
        (s1 + s2)[k].action,
    ) && (p1 + p2)[k].requires_approval == (s1 + s2)[k].requires_approval by {
        if k < p1.len() {
            assert((p1 + p2)[k] == p1[k]);
            assert((s1 + s2)[k] == s1[k]);
        } else {
            assert((p1 + p2)[k] == p2[k - p1.len()]);
            assert((s1 + s2)[k] == s2[k - s1.len()]);
        }
    }
}

proof fn lemma_preview_ws_match(ws: Seq<WorkspaceInfo>)
    ensures
        previews_match(preview_ws(ws), ws_steps(ws)),
    decreases ws.len(),
{
    if ws.len() > 0 {
        lemma_preview_ws_match(ws.drop_last());
        let w = ws.last();
        if w.is_focused {
            let pv = seq![
                PreviewSpec {
                    label: "Switch to workspace: "@ + w.name@,
                    action_type: "switch_workspace"@,
                    target: w.name@,
                    requires_approval: false,
                },
            ];
            let st = seq![
                StepSpec {
                    label: "Switch to workspace: "@ + w.name@,
                    action: ActionSpec::SwitchWorkspace { workspace: w.name@ },
                    requires_approval: false,
                },
            ];
            assert(previews_match(pv, st));
            lemma_match_concat(preview_ws(ws.drop_last()), ws_steps(ws.drop_last()), pv, st);
        } else {
            assert(preview_ws(ws) =~= preview_ws(ws.drop_last()));
            assert(ws_steps(ws) =~= ws_steps(ws.drop_last()));
        }
    }
}

proof fn lemma_preview_apps_match(apps: Seq<AppInfo>)
    ensures
        previews_match(preview_apps(apps), app_steps(apps)),
    decreases apps.len(),
{
    if apps.len() > 0 {
        lemma_preview_apps_match(apps.drop_last());
        let a = apps.last();
        let pv1 = seq![
            PreviewSpec { label: "Open: "@ + a.name@, action_type: "open_app"@, target: a.name@, requires_approval: false },
        ];
        let st1 = seq![
            StepSpec { label: "Open: "@ + a.name@, action: ActionSpec::OpenApp { app: a.name@ }, requires_approval: false },
        ];
        assert(previews_match(pv1, st1));
        lemma_match_concat(preview_apps(apps.drop_last()), app_steps(apps.drop_last()), pv1, st1);
        if a.is_focused {
            let pv2 = seq![
                PreviewSpec {
                    label: "Focus: "@ + a.name@ + " — "@ + a.title@,
                    action_type: "focus_window"@,
                    target: a.name@,
                    requires_approval: false,
                },
            ];
            let st2 = seq![focus_step(a)];
            assert(previews_match(pv2, st2));
            lemma_match_concat(preview_apps(apps.drop_last()) + pv1, app_steps(apps.drop_last()) + st1, pv2, st2);
        } else {
            let e1: Seq<PreviewSpec> = Seq::empty();
            let e2: Seq<StepSpec> = Seq::empty();
            assert(preview_apps(apps) =~= preview_apps(apps.drop_last()) + pv1);
            assert(app_steps(apps) =~= app_steps(apps.drop_last()) + st1);
        }
    }
}

proof fn lemma_preview_terms_match(terms: Seq<TerminalInfo>)
    ensures
        previews_match(preview_terms(terms), term_steps(terms)),
    decreases terms.len(),
{
    if terms.len() > 0 {
        lemma_preview_terms_match(terms.drop_last());
        let t = terms.last();
        let pv = seq![
            PreviewSpec {
                label: "Restore terminal: "@ + t.app@ + " ("@ + match t.working_directory {
                    Some(d) => d@,
                    None => "default"@,
                } + ")"@,
                action_type: "launch_command"@,
                target: t.app@,
                requires_approval: true,
            },
        ];
        let st = seq![
            StepSpec {
                label: term_label(t),
                action: ActionSpec::LaunchCommand { command: term_command(t), args: Seq::empty() },
                requires_approval: true,
            },
        ];
        assert(previews_match(pv, st));
        lemma_match_concat(preview_terms(terms.drop_last()), term_steps(terms.drop_last()), pv, st);
    }
}

proof fn lemma_preview_urls_match(tabs: Seq<BrowserTab>)
    ensures
        previews_match(preview_urls(tabs), url_steps(tabs)),
    decreases tabs.len(),
{
    if tabs.len() > 0 {
        lemma_preview_urls_match(tabs.drop_last());
        let t = tabs.last();
        let pv = seq![
            PreviewSpec { label: "Open URL: "@ + t.url@, action_type: "open_url"@, target: t.url@, requires_approval: false },
        ];
        let st = seq![StepSpec { label: "Open: "@ + t.url@, action: ActionSpec::OpenUrl { url: t.url@ }, requires_approval: false }];
        assert(previews_match(pv, st));
        lemma_match_concat(preview_urls(tabs.drop_last()), url_steps(tabs.drop_last()), pv, st);
    }
}

/// The preview announces the full restoration: its entries are the steps
/// of the plan made with everything selected, one for one and in order,
/// each of the same kind and with the same need for approval; so exactly
/// the terminal entries ask for approval.
pub proof fn law_preview_matches_full_plan(p: ExecutionPlan, snapshot: WorkspaceSnapshot)
    requires
        is_restoration_plan(p, snapshot, all_selected()),
    ensures
        previews_match(spec_preview(snapshot), layout_steps(snapshot, all_selected())),
        spec_preview(snapshot).len() == p.nodes@.len(),
        forall|k: int|
            0 <= k < spec_preview(snapshot).len() ==> (#[trigger] spec_preview(snapshot)[k]).action_type
                == action_kind(p.nodes@[k].action@),
        forall|k: int|
            0 <= k < spec_preview(snapshot).len() ==> ((#[trigger] spec_preview(snapshot)[k]).requires_approval
                <==> spec_preview(snapshot)[k].action_type == "launch_command"@),
{
    let sel = all_selected();
    lemma_preview_ws_match(snapshot.workspaces@);
    lemma_preview_apps_match(snapshot.applications@);
    lemma_preview_terms_match(snapshot.terminals@);
    lemma_preview_urls_match(snapshot.browser_urls@);
    let pw = preview_ws(snapshot.workspaces@);
    let pa = preview_apps(snapshot.applications@);
    let pt = preview_terms(snapshot.terminals@);
    let pu = preview_urls(snapshot.browser_urls@);
    let w = ws_steps(snapshot.workspaces@);
    let a = app_steps(snapshot.applications@);
    let t = term_steps(snapshot.terminals@);
    let u = url_steps(snapshot.browser_urls@);
    lemma_match_concat(pw, w, pa, a);
    lemma_match_concat(pw + pa, w + a, pt, t);
    lemma_match_concat(pw + pa + pt, w + a + t, pu, u);
    assert(layout_steps(snapshot, sel) =~= w + a + t + u);
    let pv = spec_preview(snapshot);
    let steps = layout_steps(snapshot, sel);
    law_restoration_approval(p, snapshot, sel);
    lemma_ws_steps_no_launch(snapshot.workspaces@);
    lemma_app_steps_no_launch(snapshot.applications@);
    lemma_url_steps_no_launch(snapshot.browser_urls@);
    lemma_term_steps_launch(snapshot.terminals@);
    lemma_concat_approval(w, a);
    lemma_concat_approval(w + a, t);
    lemma_concat_approval(w + a + t, u);
    assert forall|k: int| 0 <= k < pv.len() implies (#[trigger] pv[k]).action_type == action_kind(
        p.nodes@[k].action@,
    ) by {
        assert(p.nodes@[k].action@ == steps[k].action);
    }
    assert forall|k: int| 0 <= k < pv.len() implies ((#[trigger] pv[k]).requires_approval <==> pv[k].action_type
        == "launch_command"@) by {
        assert(pv[k].action_type == action_kind(steps[k].action));
        assert(pv[k].requires_approval == steps[k].requires_approval);
        assert(steps[k].requires_approval <==> (steps[k].action is LaunchCommand));
        reveal_strlit("launch_command");
        reveal_strlit("switch_workspace");
        reveal_strlit("open_app");
        reveal_strlit("focus_window");
        reveal_strlit("open_url");
    }
}


// ── The shape of a restoration's edges ───────────────────────

/// Every edge runs forward, from an earlier node to a later one, below `hi`.
pub open spec fn forward(e: Seq<(int, int)>, hi: int) -> bool {
    forall|j: int| 0 <= j < e.len() ==> 0 <= #[trigger] e[j].0 < e[j].1 < hi
}

proof fn lemma_forward_concat(a: Seq<(int, int)>, b: Seq<(int, int)>, ha: int, hb: int)
    requires
        forward(a, ha),
        forward(b, hb),
        ha <= hb,
    ensures
        forward(a + b, hb),
{
    assert forall|j: int| 0 <= j < (a + b).len() implies 0 <= #[trigger] (a + b)[j].0 < (a + b)[j].1 < hb by {
        if j < a.len() {
            assert((a + b)[j] == a[j]);
        } else {
            assert((a + b)[j] == b[j - a.len()]);
        }
    }
}

proof fn lemma_chain_edges_shape(prev: Option<int>, base: int, n: nat)
    requires
        0 <= base,
        prev matches Some(p) ==> 0 <= p < base,
    ensures
        forward(chain_edges(prev, base, n), base + n),
        chain_edges(prev, base, n).len() == if n > 0 && prev is None {
            n - 1
        } else {
            n as int
        },
    decreases n,
{
    if n > 0 {
        lemma_chain_edges_shape(prev, base, (n - 1) as nat);
        let e0 = chain_edges(prev, base, (n - 1) as nat);
        let tail: Seq<(int, int)> = if n == 1 {
            match prev {
                Some(p) => seq![(p, base)],
                None => Seq::empty(),
            }
        } else {
            seq![(base + n - 2, base + n - 1)]
        };
        assert(forward(tail, base + n));
        lemma_forward_concat(e0, tail, base + n - 1, base + n);
    }
}

proof fn lemma_app_pair_edges_shape(apps: Seq<AppInfo>, prev: Option<int>, base: int)
    requires
        0 <= base,
        prev matches Some(p) ==> 0 <= p < base,
    ensures
        forward(app_pair_edges(apps, prev, base), base + app_steps(apps).len()),
        app_pair_edges(apps, prev, base).len() == (if prev is Some {
            apps.len() as int
        } else {
            0int
        }) + focused_app_count(apps),
    decreases apps.len(),
{
    if apps.len() > 0 {
        let init = apps.drop_last();
        lemma_app_pair_edges_shape(init, prev, base);
        let o = base + app_steps(init).len();
        let mid: Seq<(int, int)> = match prev {
            Some(q) => seq![(q, o)],
            None => Seq::<(int, int)>::empty(),
        };
        let last: Seq<(int, int)> = if apps.last().is_focused {
            seq![(o, o + 1)]
        } else {
            Seq::empty()
        };
        let hi = base + app_steps(apps).len();
        assert(forward(mid, hi));
        assert(forward(last, hi));
        lemma_forward_concat(app_pair_edges(init, prev, base), mid, base + app_steps(init).len(), hi);
        lemma_forward_concat(app_pair_edges(init, prev, base) + mid, last, hi, hi);
    }
}

/// How many of the steps at indices `1..i` are not focus steps.
pub open spec fn nonfocus_count(steps: Seq<StepSpec>, i: nat) -> nat
    decreases i,
{
    if i <= 1 {
        0
    } else {
        nonfocus_count(steps, (i - 1) as nat) + if !(steps[i - 1].action is FocusWindow) {
            1nat
        } else {
            0nat
        }
    }
}

proof fn lemma_app_chain_edges_shape(steps: Seq<StepSpec>, prev: Option<int>, base: int, i: nat)
    requires
        0 <= base,
        i <= steps.len(),
    ensures
        forward(app_chain_edges(steps, prev, base, i), base + i),
        app_chain_edges(steps, prev, base, i).len() == if prev is None {
            nonfocus_count(steps, i) as int
        } else {
            0int
        },
    decreases i,
{
    if i > 1 {
        lemma_app_chain_edges_shape(steps, prev, base, (i - 1) as nat);
        let tail: Seq<(int, int)> = if prev is None && !(steps[i - 1].action is FocusWindow) {
            seq![(base + i - 2, base + i - 1)]
        } else {
            Seq::empty()
        };
        assert(forward(tail, base + i));
        lemma_forward_concat(app_chain_edges(steps, prev, base, (i - 1) as nat), tail, base + i - 1, base + i);
    }
}

proof fn lemma_nonfocus_prefix(a: Seq<StepSpec>, b: Seq<StepSpec>, i: nat)
    requires
        i <= a.len(),
    ensures
        nonfocus_count(a + b, i) == nonfocus_count(a, i),
    decreases i,
{
    if i > 1 {
        lemma_nonfocus_prefix(a, b, (i - 1) as nat);
        assert((a + b)[i - 1] == a[i - 1]);
    }
}

proof fn lemma_app_nonfocus(apps: Seq<AppInfo>)
    ensures
        apps.len() > 0 ==> nonfocus_count(app_steps(apps), app_steps(apps).len()) == apps.len() - 1,
        apps.len() > 0 ==> !(app_steps(apps)[0].action is FocusWindow),
    decreases apps.len(),
{
    if apps.len() > 0 {
        let init = apps.drop_last();
        lemma_app_nonfocus(init);
        lemma_app_steps_count(init);
        let a = apps.last();
        let st1 = seq![
            StepSpec { label: "Open: "@ + a.name@, action: ActionSpec::OpenApp { app: a.name@ }, requires_approval: false },
        ];
        let st2: Seq<StepSpec> = if a.is_focused {
            seq![focus_step(a)]
        } else {
            Seq::empty()
        };
        let s0 = app_steps(init);
        let s = app_steps(apps);
        assert(s =~= s0 + st1 + st2);
        let m = s0.len();
        lemma_nonfocus_prefix(s0 + st1, st2, m + 1);
        lemma_nonfocus_prefix(s0, st1, m);
        assert((s0 + st1)[m as int] == st1[0]);
        if m == 0 {
            assert(init.len() == 0);
            assert(nonfocus_count(s0 + st1, 1) == 0);
        } else {
            assert(nonfocus_count(s0 + st1, m + 1) == nonfocus_count(s0 + st1, m) + 1);
            assert(s0[0] == s[0]);
        }
        if a.is_focused {
            assert(s[m as int + 1] == focus_step(a));
            assert(nonfocus_count(s, m + 2) == nonfocus_count(s, m + 1));
            assert(s[0] == (s0 + st1)[0]);
        }
        if m == 0 {
            assert(s[0] == st1[0]);
        }
    }
}

/// The edges of a restoration form one tree over its nodes, rooted at the
/// first: there is one edge fewer than nodes, every edge is a success edge
/// that runs from an earlier node to a later one, and so the first node has
/// no incoming edge.
pub proof fn law_restoration_edges_run_forward(p: ExecutionPlan, snapshot: WorkspaceSnapshot, sel: RestoreSelections)
    requires
        is_restoration_plan(p, snapshot, sel),
        p.nodes@.len() > 0,
    ensures
        p.edges@.len() == p.nodes@.len() - 1,
        forward(layout_edges(snapshot, sel), p.nodes@.len() as int),
        forall|j: int| 0 <= j < p.edges@.len() ==> (#[trigger] p.edges@[j]).condition == EdgeCondition::Success,
        forall|j: int|
            0 <= j < p.edges@.len() ==> (#[trigger] p.edges@[j]).from == p.nodes@[layout_edges(snapshot, sel)[j].0].id
                && p.edges@[j].to == p.nodes@[layout_edges(snapshot, sel)[j].1].id,
{
    let nw = sel_ws(snapshot, sel).len();
    let na = sel_apps(snapshot, sel).len();
    let nt = sel_terms(snapshot, sel).len();
    let nu = sel_urls(snapshot, sel).len();
    let n = nw + na + nt + nu;
    assert(layout_steps(snapshot, sel).len() == n);
    let p1 = chain_last(None, 0, nw);
    let p2 = prev_after_apps(snapshot, sel);
    let p3 = chain_last(p2, (nw + na) as int, nt);
    lemma_chain_edges_shape(None, 0, nw);
    lemma_chain_edges_shape(p2, (nw + na) as int, nt);
    lemma_chain_edges_shape(p3, (nw + na + nt) as int, nu);
    let e1 = chain_edges(None, 0, nw);
    let e2 = if sel.applications {
        app_pair_edges(snapshot.applications@, p1, nw as int) + app_chain_edges(
            sel_apps(snapshot, sel),
            p1,
            nw as int,
            na,
        )
    } else {
        Seq::empty()
    };
    let e3 = chain_edges(p2, (nw + na) as int, nt);
    let e4 = chain_edges(p3, (nw + na + nt) as int, nu);
    assert(layout_edges(snapshot, sel) == e1 + e2 + e3 + e4);
    if sel.applications {
        lemma_app_pair_edges_shape(snapshot.applications@, p1, nw as int);
        lemma_app_chain_edges_shape(sel_apps(snapshot, sel), p1, nw as int, na);
        lemma_app_steps_count(snapshot.applications@);
        lemma_app_nonfocus(snapshot.applications@);
        lemma_forward_concat(
            app_pair_edges(snapshot.applications@, p1, nw as int),
            app_chain_edges(sel_apps(snapshot, sel), p1, nw as int, na),
            (nw + na) as int,
            (nw + na) as int,
        );
        assert(forward(e2, (nw + na) as int));
    } else {
        assert(forward(e2, (nw + na) as int));
    }
    lemma_forward_concat(e1, e2, nw as int, (nw + na) as int);
    lemma_forward_concat(e1 + e2, e3, (nw + na) as int, (nw + na + nt) as int);
    lemma_forward_concat(e1 + e2 + e3, e4, (nw + na + nt) as int, n as int);
}


/// Some edge points at node `v`.
pub open spec fn covers(e: Seq<(int, int)>, v: int) -> bool {
    exists|j: int| 0 <= j < e.len() && #[trigger] e[j].1 == v
}

proof fn lemma_covers_left(a: Seq<(int, int)>, b: Seq<(int, int)>, v: int)
    requires
        covers(a, v),
    ensures
        covers(a + b, v),
{
    let j = choose|j: int| 0 <= j < a.len() && #[trigger] a[j].1 == v;
    assert((a + b)[j] == a[j]);
}

proof fn lemma_covers_right(a: Seq<(int, int)>, b: Seq<(int, int)>, v: int)
    requires
        covers(b, v),
    ensures
        covers(a + b, v),
{
    let j = choose|j: int| 0 <= j < b.len() && #[trigger] b[j].1 == v;
    assert((a + b)[a.len() + j] == b[j]);
}

proof fn lemma_chain_edges_cover(prev: Option<int>, base: int, n: nat)
    ensures
        forall|v: int| base < v < base + n ==> covers(chain_edges(prev, base, n), v),
        n > 0 && prev is Some ==> covers(chain_edges(prev, base, n), base),
    decreases n,
{
    if n > 0 {
        lemma_chain_edges_cover(prev, base, (n - 1) as nat);
        let e0 = chain_edges(prev, base, (n - 1) as nat);
        let tail: Seq<(int, int)> = if n == 1 {
            match prev {
                Some(p) => seq![(p, base)],
                None => Seq::empty(),
            }
        } else {
            seq![(base + n - 2, base + n - 1)]
        };
        assert(chain_edges(prev, base, n) == e0 + tail);
        assert forall|v: int| base < v < base + n implies covers(chain_edges(prev, base, n), v) by {
            if v < base + n - 1 {
                lemma_covers_left(e0, tail, v);
            } else {
                assert(tail[0].1 == v);
                lemma_covers_right(e0, tail, v);
            }
        }
        if n == 1 && prev is Some {
            assert(tail[0].1 == base);
            lemma_covers_right(e0, tail, base);
        }
        if n > 1 && prev is Some {
            lemma_covers_left(e0, tail, base);
        }
    }
}

proof fn lemma_app_pair_cover(apps: Seq<AppInfo>, prev: Option<int>, base: int)
    ensures
        forall|k: int|
            0 <= k < app_steps(apps).len() && ((app_steps(apps)[k].action is FocusWindow) || prev is Some) ==> covers(
                app_pair_edges(apps, prev, base),
                base + k,
            ),
    decreases apps.len(),
{
    if apps.len() > 0 {
        let init = apps.drop_last();
        lemma_app_pair_cover(init, prev, base);
        let a = apps.last();
        let s0 = app_steps(init);
        let o = base + s0.len();
        let e0 = app_pair_edges(init, prev, base);
        let mid: Seq<(int, int)> = match prev {
            Some(q) => seq![(q, o)],
            None => Seq::<(int, int)>::empty(),
        };
        let last: Seq<(int, int)> = if a.is_focused {
            seq![(o, o + 1)]
        } else {
            Seq::empty()
        };
        assert(app_pair_edges(apps, prev, base) == e0 + mid + last);
        let st1 = seq![
            StepSpec { label: "Open: "@ + a.name@, action: ActionSpec::OpenApp { app: a.name@ }, requires_approval: false },
        ];
        let st2: Seq<StepSpec> = if a.is_focused {
            seq![focus_step(a)]
        } else {
            Seq::empty()
        };
        let s = app_steps(apps);
        assert(s =~= s0 + st1 + st2);
        assert forall|k: int|
            0 <= k < s.len() && ((s[k].action is FocusWindow) || prev is Some) implies covers(
                app_pair_edges(apps, prev, base),
                base + k,
            ) by {
            if k < s0.len() {
                assert(s[k] == s0[k]);
                lemma_covers_left(e0, mid, base + k);
                lemma_covers_left(e0 + mid, last, base + k);
            } else if k == s0.len() {
                assert(s[k] == st1[0]);
                assert(mid[0].1 == o);
                lemma_covers_right(e0, mid, base + k);
                lemma_covers_left(e0 + mid, last, base + k);
            } else {
                assert(a.is_focused);
                assert(last[0].1 == o + 1);
                lemma_covers_right(e0 + mid, last, base + k);
            }
        }
    }
}

proof fn lemma_app_chain_cover(steps: Seq<StepSpec>, prev: Option<int>, base: int, i: nat)
    requires
        i <= steps.len(),
    ensures
        forall|k: int|
            1 <= k < i && prev is None && !(steps[k].action is FocusWindow) ==> covers(
                app_chain_edges(steps, prev, base, i),
                base + k,
            ),
    decreases i,
{
    if i > 1 {
        lemma_app_chain_cover(steps, prev, base, (i - 1) as nat);
        let e0 = app_chain_edges(steps, prev, base, (i - 1) as nat);
        let tail: Seq<(int, int)> = if prev is None && !(steps[i - 1].action is FocusWindow) {
            seq![(base + i - 2, base + i - 1)]
        } else {
            Seq::empty()
        };
        assert(app_chain_edges(steps, prev, base, i) == e0 + tail);
        assert forall|k: int|
            1 <= k < i && prev is None && !(steps[k].action is FocusWindow) implies covers(
                app_chain_edges(steps, prev, base, i),
                base + k,
            ) by {
            if k < i - 1 {
                lemma_covers_left(e0, tail, base + k);
            } else {
                assert(tail[0].1 == base + k);
                lemma_covers_right(e0, tail, base + k);
            }
        }
    }
}

/// Every node of a restoration but the first has an edge pointing at it.
proof fn lemma_layout_covers(snapshot: WorkspaceSnapshot, sel: RestoreSelections)
    ensures
        forall|v: int| 1 <= v < layout_steps(snapshot, sel).len() ==> covers(layout_edges(snapshot, sel), v),
{
    let nw = sel_ws(snapshot, sel).len();
    let na = sel_apps(snapshot, sel).len();
    let nt = sel_terms(snapshot, sel).len();
    let nu = sel_urls(snapshot, sel).len();
    let n = nw + na + nt + nu;
    let p1 = chain_last(None, 0, nw);
    let p2 = prev_after_apps(snapshot, sel);
    let p3 = chain_last(p2, (nw + na) as int, nt);
    let e1 = chain_edges(None, 0, nw);
    let ep = app_pair_edges(snapshot.applications@, p1, nw as int);
    let ec = app_chain_edges(sel_apps(snapshot, sel), p1, nw as int, na);
    let e2 = if sel.applications {
        ep + ec
    } else {
        Seq::empty()
    };
    let e3 = chain_edges(p2, (nw + na) as int, nt);
    let e4 = chain_edges(p3, (nw + na + nt) as int, nu);
    assert(layout_edges(snapshot, sel) == e1 + e2 + e3 + e4);
    assert(layout_steps(snapshot, sel).len() == n);
    lemma_chain_edges_cover(None, 0, nw);
    lemma_chain_edges_cover(p2, (nw + na) as int, nt);
    lemma_chain_edges_cover(p3, (nw + na + nt) as int, nu);
    if sel.applications {
        lemma_app_pair_cover(snapshot.applications@, p1, nw as int);
        lemma_app_chain_cover(sel_apps(snapshot, sel), p1, nw as int, na);
        lemma_app_nonfocus(snapshot.applications@);
    }
    assert forall|v: int| 1 <= v < n implies covers(layout_edges(snapshot, sel), v) by {
        if v < nw {
            lemma_covers_left(e1, e2, v);
            lemma_covers_left(e1 + e2, e3, v);
            lemma_covers_left(e1 + e2 + e3, e4, v);
        } else if v < nw + na {
            let k = v - nw;
            assert(sel.applications);
            let st = sel_apps(snapshot, sel);
            if (st[k].action is FocusWindow) || p1 is Some {
                lemma_covers_left(ep, ec, v);
            } else {
                assert(nw == 0);
                assert(k >= 1);
                lemma_covers_right(ep, ec, v);
            }
            lemma_covers_right(e1, e2, v);
            lemma_covers_left(e1 + e2, e3, v);
            lemma_covers_left(e1 + e2 + e3, e4, v);
        } else if v < nw + na + nt {
            if v == nw + na {
                assert(p2 is Some);
            }
            lemma_covers_right(e1 + e2, e3, v);
            lemma_covers_left(e1 + e2 + e3, e4, v);
        } else {
            if v == nw + na + nt {
                assert(p3 is Some);
            }
            lemma_covers_right(e1 + e2 + e3, e4, v);
        }
    }
}

/// In a restoration, every node but the first has exactly one edge pointing
/// at it: with one edge fewer than nodes, all running forward, and every
/// later node reached, no node is reached twice.
pub proof fn law_restoration_edges_form_a_tree(p: ExecutionPlan, snapshot: WorkspaceSnapshot, sel: RestoreSelections)
    requires
        is_restoration_plan(p, snapshot, sel),
        p.nodes@.len() > 0,
    ensures
        layout_edges(snapshot, sel).map_values(|e: (int, int)| e.1).no_duplicates(),
        forall|v: int| 1 <= v < p.nodes@.len() ==> covers(layout_edges(snapshot, sel), v),
        !covers(layout_edges(snapshot, sel), 0),
{
    law_restoration_edges_run_forward(p, snapshot, sel);
    lemma_layout_covers(snapshot, sel);
    let e = layout_edges(snapshot, sel);
    let n = p.nodes@.len() as int;
    let tg = e.map_values(|x: (int, int)| x.1);
    vstd::set_lib::lemma_int_range(1, n);
    assert(layout_steps(snapshot, sel).len() == n);
    assert forall|v: int| tg.to_set().contains(v) <==> vstd::set_lib::set_int_range(1, n).contains(v) by {
        if tg.to_set().contains(v) {
            assert(tg.contains(v));
            let j = choose|j: int| 0 <= j < tg.len() && tg[j] == v;
            assert(tg[j] == e[j].1);
            assert(0 <= e[j].0 < e[j].1 < n);
        }
        if 1 <= v < n {
            assert(covers(e, v));
            let j = choose|j: int| 0 <= j < e.len() && #[trigger] e[j].1 == v;
            assert(tg[j] == e[j].1);
            assert(tg.contains(v));
        }
    }
    assert(tg.to_set() =~= vstd::set_lib::set_int_range(1, n));
    tg.lemma_no_dup_set_cardinality();
    if covers(e, 0) {
        let j = choose|j: int| 0 <= j < e.len() && #[trigger] e[j].1 == 0;
        assert(0 <= e[j].0 < e[j].1 < n);
    }
}

} // verus!

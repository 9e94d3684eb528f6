//! First-run state: detecting fresh installs, onboarding progress, and the
//! demo data offered to new users. Reading and writing the marker file is
//! the caller's part; this module decides.
use vstd::prelude::*;
use vstd::string::*;

use crate::ids::{CLOCK_LIMIT, now_nanos};

verus! {

/// First-run status returned to the bar.
#[derive(Debug)]
pub struct FirstRunStatus {
    /// Whether this is the first-ever launch (no marker file exists).
    pub is_first_launch: bool,
    /// Whether onboarding has been completed (welcome overlay shown + dismissed).
    pub onboarding_completed: bool,
    /// Whether demo data has been seeded.
    pub demo_seeded: bool,
    /// Suggested first commands for the user to try.
    pub suggested_commands: Vec<String>,
    /// Timestamp of first launch (ISO 8601).
    pub first_launch_at: Option<String>,
}

pub open spec fn suggested_commands_spec() -> Seq<Seq<char>> {
    seq!["open browser"@, "check system status"@, "create a snapshot"@]
}

pub open spec fn texts(v: Seq<String>) -> Seq<Seq<char>> {
    v.map_values(|s: String| s@)
}

fn default_commands() -> (r: Vec<String>)
    ensures
        texts(r@) == suggested_commands_spec(),
{
    let mut v: Vec<String> = Vec::new();
    v.push(String::from_str("open browser"));
    v.push(String::from_str("check system status"));
    v.push(String::from_str("create a snapshot"));
    assert(texts(v@) =~= suggested_commands_spec());
    v
}

impl Default for FirstRunStatus {
    fn default() -> (r: Self)
        ensures
            r.is_first_launch,
            !r.onboarding_completed,
            !r.demo_seeded,
            texts(r.suggested_commands@) == suggested_commands_spec(),
            r.first_launch_at.is_none(),
    {
        FirstRunStatus {
            is_first_launch: true,
            onboarding_completed: false,
            demo_seeded: false,
            suggested_commands: default_commands(),
            first_launch_at: None,
        }
    }
}

impl FirstRunStatus {
    /// A copy with the same flags and texts.
    pub fn duplicate(&self) -> (r: Self)
        ensures
            r.is_first_launch == self.is_first_launch,
            r.onboarding_completed == self.onboarding_completed,
            r.demo_seeded == self.demo_seeded,
            texts(r.suggested_commands@) == texts(self.suggested_commands@),
            r.first_launch_at == self.first_launch_at,
    {
        let mut cmds: Vec<String> = Vec::new();
        let mut i: usize = 0;
        while i < self.suggested_commands.len()
            invariant
                i <= self.suggested_commands@.len(),
                cmds@.len() == i,
                forall|k: int| 0 <= k < i ==> cmds@[k]@ == self.suggested_commands@[k]@,
            decreases self.suggested_commands@.len() - i,
        {
            cmds.push(self.suggested_commands[i].clone());
            i += 1;
        }
        assert(texts(cmds@) =~= texts(self.suggested_commands@));
        FirstRunStatus {
            is_first_launch: self.is_first_launch,
            onboarding_completed: self.onboarding_completed,
            demo_seeded: self.demo_seeded,
            suggested_commands: cmds,
            first_launch_at: match &self.first_launch_at {
                Some(s) => Some(s.clone()),
                None => None,
            },
        }
    }
}

/// The manager once onboarding is completed.
pub open spec fn after_onboarding(m: FirstRunManager) -> FirstRunManager {
    FirstRunManager {
        status: FirstRunStatus { onboarding_completed: true, is_first_launch: false, ..m.status },
        ..m
    }
}

/// The manager once demo data is seeded.
pub open spec fn after_demo_seeded(m: FirstRunManager) -> FirstRunManager {
    FirstRunManager { status: FirstRunStatus { demo_seeded: true, ..m.status }, ..m }
}

/// Manages first-run state and the demo data lifecycle.
pub struct FirstRunManager {
    /// Path of the marker file that records a completed first run.
    pub marker_path: String,
    /// Current status (persisted through the marker on completion). Its
    /// `demo_seeded` flag is the one record of whether demo data has been
    /// seeded in this session, so the status and `is_demo_seeded` always
    /// agree.
    pub status: FirstRunStatus,
}

impl FirstRunManager {
    /// A first launch is one with neither a marker nor an existing database;
    /// onboarding counts as completed when the marker exists.
    pub fn new(marker_path: String, marker_exists: bool, has_db: bool) -> (m: Self)
        ensures
            m.marker_path == marker_path,
            m.status.is_first_launch == (!marker_exists && !has_db),
            m.status.onboarding_completed == marker_exists,
            !m.status.demo_seeded,
            texts(m.status.suggested_commands@) == suggested_commands_spec(),
            m.status.first_launch_at.is_none(),
    {
        FirstRunManager {
            marker_path,
            status: FirstRunStatus {
                is_first_launch: !marker_exists && !has_db,
                onboarding_completed: marker_exists,
                demo_seeded: false,
                suggested_commands: default_commands(),
                first_launch_at: None,
            },
        }
    }

    /// Check if this is a fresh first launch.
    pub fn is_first_launch(&self) -> (r: bool)
        ensures
            r == self.status.is_first_launch,
    {
        self.status.is_first_launch
    }

    /// Get the current first-run status.
    pub fn get_status(&self) -> (r: FirstRunStatus)
        ensures
            r.is_first_launch == self.status.is_first_launch,
            r.onboarding_completed == self.status.onboarding_completed,
            r.demo_seeded == self.status.demo_seeded,
            texts(r.suggested_commands@) == texts(self.status.suggested_commands@),
            r.first_launch_at == self.status.first_launch_at,
    {
        self.status.duplicate()
    }

    /// Mark onboarding as completed; the caller then writes the marker file.
    pub fn complete_onboarding(&mut self)
        ensures
            *final(self) == after_onboarding(*old(self)),
            final(self).status.onboarding_completed,
            !final(self).status.is_first_launch,
            final(self).status.demo_seeded == old(self).status.demo_seeded,
            final(self).status.suggested_commands == old(self).status.suggested_commands,
            final(self).status.first_launch_at == old(self).status.first_launch_at,
            final(self).marker_path == old(self).marker_path,
    {
        self.status.onboarding_completed = true;
        self.status.is_first_launch = false;
    }

    /// Mark demo data as seeded.
    pub fn mark_demo_seeded(&mut self)
        ensures
            *final(self) == after_demo_seeded(*old(self)),
            final(self).status.demo_seeded,
            final(self).status.is_first_launch == old(self).status.is_first_launch,
            final(self).status.onboarding_completed == old(self).status.onboarding_completed,
            final(self).status.suggested_commands == old(self).status.suggested_commands,
            final(self).status.first_launch_at == old(self).status.first_launch_at,
            final(self).marker_path == old(self).marker_path,
    {
        self.status.demo_seeded = true;
    }

    /// Check if demo data has been seeded.
    pub fn is_demo_seeded(&self) -> (r: bool)
        ensures
            r == self.status.demo_seeded,
    {
        self.status.demo_seeded
    }

    /// Whether the demo data should go: the demo snapshot plus at least one
    /// real one exist.
    pub fn should_cleanup_demo(&self, real_snapshot_count: usize) -> (r: bool)
        ensures
            r == (real_snapshot_count > 1),
    {
        real_snapshot_count > 1
    }
}

/// A seeded demo snapshot for fresh installs.
#[derive(Debug, Clone)]
pub struct DemoSnapshot {
    pub id: u128,
    pub label: String,
    pub demo: bool,
    /// Nanoseconds after the Unix epoch.
    pub created_at: i128,
    pub window_count: i64,
    pub terminal_count: i64,
    pub active_project: String,
    pub summary: String,
}

/// Demo orchestration plan nodes for the seeded example.
#[derive(Debug, Clone)]
pub struct DemoPlanNode {
    pub id: String,
    pub label: String,
    /// Completed, Running, etc.
    pub status: String,
}

/// The fixed id of the demo snapshot, 00000000-0000-0000-0000-000000000001.
pub const DEMO_SNAPSHOT_ID: u128 = 1;

/// The fixed id of the demo plan, 00000000-0000-0000-0000-000000000002.
pub const DEMO_PLAN_ID: u128 = 2;

/// Two hours, in nanoseconds: how long before now the demo snapshot was taken.
pub const DEMO_AGE: i128 = 7_200_000_000_000;

/// The demo snapshot, taken two hours before `now` (nanoseconds after the
/// Unix epoch).
pub fn demo_snapshot_at(now: i128) -> (d: DemoSnapshot)
    requires
        now >= i128::MIN + DEMO_AGE,
    ensures
        d.created_at == now - DEMO_AGE,
        d.id == DEMO_SNAPSHOT_ID,
        d.label@ == "EnaOS Development"@,
        d.demo,
        d.window_count == 3,
        d.terminal_count == 2,
        d.active_project@ == "EnaOS"@,
        d.summary@ == "Code editor, terminal, and browser open with EnaOS project"@,
{
    let id = DEMO_SNAPSHOT_ID;
    let created = now - DEMO_AGE;
    DemoSnapshot {
        id,
        label: String::from_str("EnaOS Development"),
        demo: true,
        created_at: created,
        window_count: 3,
        terminal_count: 2,
        active_project: String::from_str("EnaOS"),
        summary: String::from_str("Code editor, terminal, and browser open with EnaOS project"),
    }
}

/// The demo snapshot, taken two hours before the UTC clock's reading.
pub fn create_demo_snapshot() -> (d: DemoSnapshot)
    ensures
        d.id == DEMO_SNAPSHOT_ID,
        d.label@ == "EnaOS Development"@,
        d.demo,
        d.window_count == 3,
        d.terminal_count == 2,
        d.active_project@ == "EnaOS"@,
        d.summary@ == "Code editor, terminal, and browser open with EnaOS project"@,
        -DEMO_AGE <= d.created_at < CLOCK_LIMIT - DEMO_AGE,
{
    demo_snapshot_at(now_nanos())
}

pub open spec fn demo_node_spec(k: int) -> (Seq<char>, Seq<char>, Seq<char>) {
    if k == 0 {
        ("node-1"@, "Open VS Code"@, "Completed"@)
    } else if k == 1 {
        ("node-2"@, "Start dev server"@, "Completed"@)
    } else {
        ("node-3"@, "Open browser to docs"@, "Completed"@)
    }
}

fn demo_node(id: &str, label: &str, status: &str) -> (n: DemoPlanNode)
    ensures
        n.id@ == id@,
        n.label@ == label@,
        n.status@ == status@,
{
    DemoPlanNode {
        id: String::from_str(id),
        label: String::from_str(label),
        status: String::from_str(status),
    }
}

/// The demo orchestration plan: its id and its three completed nodes.
pub fn create_demo_orchestration_plan() -> (r: (u128, Vec<DemoPlanNode>))
    ensures
        r.0 == DEMO_PLAN_ID,
        r.1@.len() == 3,
        forall|k: int|
            0 <= k < 3 ==> ((#[trigger] r.1@[k]).id@, r.1@[k].label@, r.1@[k].status@)
                == demo_node_spec(k),
{
    let plan_id = DEMO_PLAN_ID;
    let mut nodes: Vec<DemoPlanNode> = Vec::new();
    nodes.push(demo_node("node-1", "Open VS Code", "Completed"));
    nodes.push(demo_node("node-2", "Start dev server", "Completed"));
    nodes.push(demo_node("node-3", "Open browser to docs", "Completed"));
    (plan_id, nodes)
}

/// Demo data stays seeded: once it is, neither completing onboarding nor
/// seeding again clears it, and onboarding, once completed, stays completed.
/// (What `is_demo_seeded` reports and what `get_status` reports are the
/// same flag, so they agree in every state.)
pub proof fn law_demo_seeded_stays_seeded(m: FirstRunManager)
    ensures
        after_demo_seeded(m).status.demo_seeded,
        m.status.demo_seeded ==> after_onboarding(m).status.demo_seeded,
        m.status.onboarding_completed ==> after_demo_seeded(m).status.onboarding_completed,
        after_onboarding(m).status.onboarding_completed,
{
}

} // verus!

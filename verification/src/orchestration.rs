//! Execution plans: structured multi-step intents whose nodes run in
//! dependency order, with retries, rollbacks and cancellation.
use vstd::prelude::*;
use vstd::string::*;

use crate::actions::ActionType;
use crate::ids::{new_id, now_nanos};

verus! {

/// When a downstream node should execute.
#[derive(Debug, Clone, Copy, PartialEq, Eq, Structural)]
pub enum EdgeCondition {
    /// Execute only if upstream succeeded.
    Success,
    /// Execute even if upstream failed (best-effort).
    Always,
    /// Execute only if upstream failed.
    OnFailure,
}

/// Lifecycle status of a plan.
#[derive(Debug, Clone, Copy, PartialEq, Eq, Structural)]
pub enum PlanStatus {
    /// Awaiting user approval before execution.
    PendingApproval,
    /// Approved and queued for execution.
    Approved,
    /// Nodes are actively executing.
    Running,
    /// All nodes completed successfully.
    Completed,
    /// One or more nodes failed (partial or full).
    Failed,
    /// User cancelled the plan.
    Cancelled,
    /// Rolling back completed nodes.
    RollingBack,
    /// All rollbacks completed.
    RolledBack,
}

pub open spec fn spec_plan_status_name(s: PlanStatus) -> Seq<char> {
    match s {
        PlanStatus::PendingApproval => "PendingApproval"@,
        PlanStatus::Approved => "Approved"@,
        PlanStatus::Running => "Running"@,
        PlanStatus::Completed => "Completed"@,
        PlanStatus::Failed => "Failed"@,
        PlanStatus::Cancelled => "Cancelled"@,
        PlanStatus::RollingBack => "RollingBack"@,
        PlanStatus::RolledBack => "RolledBack"@,
    }
}

impl PlanStatus {
    /// The status's name as events and snapshots carry it.
    pub fn name(&self) -> (r: &'static str)
        ensures
            r@ == spec_plan_status_name(*self),
    {
        match self {
            PlanStatus::PendingApproval => "PendingApproval",
            PlanStatus::Approved => "Approved",
            PlanStatus::Running => "Running",
            PlanStatus::Completed => "Completed",
            PlanStatus::Failed => "Failed",
            PlanStatus::Cancelled => "Cancelled",
            PlanStatus::RollingBack => "RollingBack",
            PlanStatus::RolledBack => "RolledBack",
        }
    }
}

/// Status of a single plan node.
#[derive(Debug, Clone, Copy, PartialEq, Eq, Structural)]
pub enum NodeStatus {
    Pending,
    Running,
    Completed,
    Failed,
    Skipped,
    Cancelled,
}

pub open spec fn spec_node_status_name(s: NodeStatus) -> Seq<char> {
    match s {
        NodeStatus::Pending => "Pending"@,
        NodeStatus::Running => "Running"@,
        NodeStatus::Completed => "Completed"@,
        NodeStatus::Failed => "Failed"@,
        NodeStatus::Skipped => "Skipped"@,
        NodeStatus::Cancelled => "Cancelled"@,
    }
}

impl NodeStatus {
    /// The status's name as node events carry it.
    pub fn name(&self) -> (r: &'static str)
        ensures
            r@ == spec_node_status_name(*self),
    {
        match self {
            NodeStatus::Pending => "Pending",
            NodeStatus::Running => "Running",
            NodeStatus::Completed => "Completed",
            NodeStatus::Failed => "Failed",
            NodeStatus::Skipped => "Skipped",
            NodeStatus::Cancelled => "Cancelled",
        }
    }
}

/// A single step within an execution plan.
#[derive(Debug, Clone)]
pub struct PlanNode {
    pub id: u128,
    pub label: String,
    pub action: ActionType,
    pub status: NodeStatus,
    pub retry_count: u32,
    pub max_retries: u32,
    pub error: Option<String>,
    pub result: Option<String>,
    pub rollback_action: Option<ActionType>,
    pub requires_approval: bool,
    /// Nanoseconds after the Unix epoch.
    pub started_at: Option<i128>,
    /// Nanoseconds after the Unix epoch.
    pub completed_at: Option<i128>,
}

/// Dependency edge between two plan nodes: `to` depends on `from`.
#[derive(Debug, Clone, Copy)]
pub struct PlanEdge {
    pub from: u128,
    pub to: u128,
    pub condition: EdgeCondition,
}

/// Top-level execution plan — a structured multi-step intent.
#[derive(Debug, Clone)]
pub struct ExecutionPlan {
    pub id: u128,
    pub title: String,
    pub description: String,
    pub nodes: Vec<PlanNode>,
    pub edges: Vec<PlanEdge>,
    pub status: PlanStatus,
    /// Nanoseconds after the Unix epoch, as are the other times.
    pub created_at: i128,
    pub approved_at: Option<i128>,
    pub completed_at: Option<i128>,
}

// ── Specifications over node sequences ────────────────────────

/// Number of nodes whose status satisfies `f`.
pub open spec fn count_nodes(nodes: Seq<PlanNode>, f: spec_fn(NodeStatus) -> bool) -> nat
    decreases nodes.len(),
{
    if nodes.len() == 0 {
        0
    } else {
        count_nodes(nodes.drop_last(), f) + if f(nodes.last().status) {
            1nat
        } else {
            0nat
        }
    }
}

pub open spec fn is_completed(s: NodeStatus) -> bool {
    s == NodeStatus::Completed
}

pub open spec fn is_failed(s: NodeStatus) -> bool {
    s == NodeStatus::Failed
}

/// A node status from which the node will not run again.
pub open spec fn is_finished(s: NodeStatus) -> bool {
    s == NodeStatus::Completed || s == NodeStatus::Failed || s == NodeStatus::Skipped || s
        == NodeStatus::Cancelled
}

/// Completed or skipped: what a plan needs of every node to count as completed.
pub open spec fn is_done_ok(s: NodeStatus) -> bool {
    s == NodeStatus::Completed || s == NodeStatus::Skipped
}

pub open spec fn has_node(nodes: Seq<PlanNode>, id: u128) -> bool {
    exists|k: int| 0 <= k < nodes.len() && nodes[k].id == id
}

/// Whether an upstream node in status `s` lets a downstream node run over an
/// edge with condition `c`: `Success` needs it completed, `Always` needs it
/// finished in any way, `OnFailure` needs it failed.
pub open spec fn edge_satisfied(c: EdgeCondition, s: NodeStatus) -> bool {
    match c {
        EdgeCondition::Success => s == NodeStatus::Completed,
        EdgeCondition::Always => is_finished(s),
        EdgeCondition::OnFailure => s == NodeStatus::Failed,
    }
}

/// Every edge that points at `id` comes from a node whose status satisfies
/// the edge's condition.
pub open spec fn spec_dependencies_met(id: u128, nodes: Seq<PlanNode>, edges: Seq<PlanEdge>) -> bool {
    forall|j: int|
        0 <= j < edges.len() && #[trigger] edges[j].to == id ==> exists|k: int|
            0 <= k < nodes.len() && nodes[k].id == edges[j].from && edge_satisfied(
                edges[j].condition,
                nodes[k].status,
            )
}

fn edge_satisfied_exec(c: EdgeCondition, s: NodeStatus) -> (r: bool)
    ensures
        r == edge_satisfied(c, s),
{
    match c {
        EdgeCondition::Success => s == NodeStatus::Completed,
        EdgeCondition::Always => s == NodeStatus::Completed || s == NodeStatus::Failed || s == NodeStatus::Skipped
            || s == NodeStatus::Cancelled,
        EdgeCondition::OnFailure => s == NodeStatus::Failed,
    }
}

/// There is an edge from `a` to `b`.
pub open spec fn has_edge(edges: Seq<PlanEdge>, a: u128, b: u128) -> bool {
    exists|j: int| 0 <= j < edges.len() && edges[j].from == a && edges[j].to == b
}

/// `w` follows edges forward, from an edge's source to its target, at every step.
pub open spec fn is_walk(edges: Seq<PlanEdge>, w: Seq<u128>) -> bool {
    &&& w.len() >= 1
    &&& forall|k: int| 0 <= k < w.len() - 1 ==> has_edge(edges, #[trigger] w[k], w[k + 1])
}

/// No walk of one step or more returns to where it started.
pub open spec fn acyclic(edges: Seq<PlanEdge>) -> bool {
    forall|w: Seq<u128>| #[trigger] is_walk(edges, w) && w.len() >= 2 ==> w[0] != w.last()
}

/// The ids of the nodes, in order.
pub open spec fn node_ids(nodes: Seq<PlanNode>) -> Seq<u128> {
    nodes.map_values(|n: PlanNode| n.id)
}

/// The ids a topological order can mention: node ids and edge sources.
pub open spec fn id_universe(nodes: Seq<PlanNode>, edges: Seq<PlanEdge>) -> Set<u128> {
    node_ids(nodes).to_set().union(edges.map_values(|e: PlanEdge| e.from).to_set())
}

/// For every edge into `order[i]`, its source is placed earlier, or the source
/// can be reached from `order[i]` by following edges (the edge closes a cycle).
pub open spec fn order_respects_edges(edges: Seq<PlanEdge>, order: Seq<u128>) -> bool {
    forall|i: int, j: int|
        #![trigger order[i], edges[j]]
        0 <= i < order.len() && 0 <= j < edges.len() && edges[j].to == order[i] ==> order.take(
            i,
        ).contains(edges[j].from) || exists|w: Seq<u128>|
            is_walk(edges, w) && w[0] == order[i] && w.last() == edges[j].from
}

/// Every dependency of `order[i]` is placed before it.
pub open spec fn dependencies_first(edges: Seq<PlanEdge>, order: Seq<u128>) -> bool {
    forall|i: int, j: int|
        #![trigger order[i], edges[j]]
        0 <= i < order.len() && 0 <= j < edges.len() && edges[j].to == order[i] ==> order.take(
            i,
        ).contains(edges[j].from)
}

impl PlanNode {
    /// A pending node with a fresh id, two retries and no rollback.
    pub fn new(label: &str, action: ActionType) -> (n: Self)
        ensures
            n.label@ == label@,
            n.action@ == action@,
            n.status == NodeStatus::Pending,
            n.retry_count == 0,
            n.max_retries == 2,
            n.error.is_none(),
            n.result.is_none(),
            n.rollback_action.is_none(),
            !n.requires_approval,
            n.started_at.is_none(),
            n.completed_at.is_none(),
    {
        PlanNode {
            id: new_id(),
            label: String::from_str(label),
            action,
            status: NodeStatus::Pending,
            retry_count: 0,
            max_retries: 2,
            error: None,
            result: None,
            rollback_action: None,
            requires_approval: false,
            started_at: None,
            completed_at: None,
        }
    }

    pub fn with_retries(self, max: u32) -> (n: Self)
        ensures
            n == (PlanNode { max_retries: max, ..self }),
    {
        let mut s = self;
        s.max_retries = max;
        s
    }

    pub fn with_rollback(self, action: ActionType) -> (n: Self)
        ensures
            n == (PlanNode { rollback_action: Some(action), ..self }),
    {
        let mut s = self;
        s.rollback_action = Some(action);
        s
    }

    pub fn requires_approval(self) -> (n: Self)
        ensures
            n == (PlanNode { requires_approval: true, ..self }),
    {
        let mut s = self;
        s.requires_approval = true;
        s
    }

    pub fn can_retry(&self) -> (r: bool)
        ensures
            r == (self.retry_count < self.max_retries),
    {
        self.retry_count < self.max_retries
    }
}

impl ExecutionPlan {
    /// A plan awaiting approval, with a fresh id, created now.
    pub fn new(title: &str, description: &str, nodes: Vec<PlanNode>, edges: Vec<PlanEdge>) -> (p:
        Self)
        ensures
            p.title@ == title@,
            p.description@ == description@,
            p.nodes == nodes,
            p.edges == edges,
            p.status == PlanStatus::PendingApproval,
            p.approved_at.is_none(),
            p.completed_at.is_none(),
    {
        ExecutionPlan {
            id: new_id(),
            title: String::from_str(title),
            description: String::from_str(description),
            nodes,
            edges,
            status: PlanStatus::PendingApproval,
            created_at: now_nanos(),
            approved_at: None,
            completed_at: None,
        }
    }

    /// Whether any node asks for approval.
    pub fn requires_approval(&self) -> (r: bool)
        ensures
            r == exists|k: int| 0 <= k < self.nodes@.len() && self.nodes@[k].requires_approval,
    {
        let mut i: usize = 0;
        while i < self.nodes.len()
            invariant
                i <= self.nodes@.len(),
                forall|k: int| 0 <= k < i ==> !self.nodes@[k].requires_approval,
            decreases self.nodes@.len() - i,
        {
            if self.nodes[i].requires_approval {
                return true;
            }
            i += 1;
        }
        false
    }

    /// Index of the first node with this id.
    pub fn find_node_index(&self, node_id: u128) -> (r: Option<usize>)
        ensures
            match r {
                Some(i) => i < self.nodes@.len() && self.nodes@[i as int].id == node_id && forall|
                    k: int,
                | 0 <= k < i ==> self.nodes@[k].id != node_id,
                None => !has_node(self.nodes@, node_id),
            },
    {
        let mut i: usize = 0;
        while i < self.nodes.len()
            invariant
                i <= self.nodes@.len(),
                forall|k: int| 0 <= k < i ==> self.nodes@[k].id != node_id,
            decreases self.nodes@.len() - i,
        {
            if self.nodes[i].id == node_id {
                return Some(i);
            }
            i += 1;
        }
        None
    }

    /// The first node with this id.
    pub fn find_node(&self, node_id: u128) -> (r: Option<&PlanNode>)
        ensures
            match r {
                Some(n) => exists|i: int|
                    0 <= i < self.nodes@.len() && self.nodes@[i] == *n && n.id == node_id
                        && forall|k: int| 0 <= k < i ==> self.nodes@[k].id != node_id,
                None => !has_node(self.nodes@, node_id),
            },
    {
        match self.find_node_index(node_id) {
            Some(i) => Some(&self.nodes[i]),
            None => None,
        }
    }

    fn count_by(&self, which: u8) -> (c: usize)
        requires
            which < 3,
        ensures
            which == 0 ==> c == count_nodes(self.nodes@, |s: NodeStatus| is_completed(s)),
            which == 1 ==> c == count_nodes(self.nodes@, |s: NodeStatus| is_failed(s)),
            which == 2 ==> c == count_nodes(self.nodes@, |s: NodeStatus| is_finished(s)),
    {
        let ghost f: spec_fn(NodeStatus) -> bool = if which == 0 {
            |s: NodeStatus| is_completed(s)
        } else if which == 1 {
            |s: NodeStatus| is_failed(s)
        } else {
            |s: NodeStatus| is_finished(s)
        };
        let mut c: usize = 0;
        let mut i: usize = 0;
        while i < self.nodes.len()
            invariant
                i <= self.nodes@.len(),
                c == count_nodes(self.nodes@.take(i as int), f),
                c <= i,
                which < 3,
                f == (if which == 0 {
                    |s: NodeStatus| is_completed(s)
                } else if which == 1 {
                    |s: NodeStatus| is_failed(s)
                } else {
                    |s: NodeStatus| is_finished(s)
                }),
            decreases self.nodes@.len() - i,
        {
            let st = self.nodes[i].status;
            let hit = if which == 0 {
                st == NodeStatus::Completed
            } else if which == 1 {
                st == NodeStatus::Failed
            } else {
                st == NodeStatus::Completed || st == NodeStatus::Failed || st == NodeStatus::Skipped
                    || st == NodeStatus::Cancelled
            };
            assert(self.nodes@.take(i + 1).drop_last() =~= self.nodes@.take(i as int));
            if hit {
                c += 1;
            }
            i += 1;
        }
        assert(self.nodes@.take(self.nodes@.len() as int) =~= self.nodes@);
        c
    }

    /// Number of completed nodes.
    pub fn completed_count(&self) -> (c: usize)
        ensures
            c == count_nodes(self.nodes@, |s: NodeStatus| is_completed(s)),
    {
        self.count_by(0)
    }

    /// Number of failed nodes.
    pub fn failed_count(&self) -> (c: usize)
        ensures
            c == count_nodes(self.nodes@, |s: NodeStatus| is_failed(s)),
    {
        self.count_by(1)
    }

    /// (finished nodes, all nodes), where completed, failed, skipped and
    /// cancelled nodes count as finished.
    pub fn progress(&self) -> (r: (usize, usize))
        ensures
            r.0 == count_nodes(self.nodes@, |s: NodeStatus| is_finished(s)),
            r.1 == self.nodes@.len(),
    {
        (self.count_by(2), self.nodes.len())
    }
}

/// Whether every edge into `node_id` is satisfied: its upstream node's
/// status meets the edge's condition.
pub fn dependencies_met(node_id: u128, plan: &ExecutionPlan) -> (r: bool)
    ensures
        r == spec_dependencies_met(node_id, plan.nodes@, plan.edges@),
{
    let mut j: usize = 0;
    while j < plan.edges.len()
        invariant
            j <= plan.edges@.len(),
            forall|jj: int|
                0 <= jj < j && #[trigger] plan.edges@[jj].to == node_id ==> exists|k: int|
                    0 <= k < plan.nodes@.len() && plan.nodes@[k].id == plan.edges@[jj].from
                        && edge_satisfied(plan.edges@[jj].condition, plan.nodes@[k].status),
        decreases plan.edges@.len() - j,
    {
        if plan.edges[j].to == node_id {
            let dep = plan.edges[j].from;
            let cond = plan.edges[j].condition;
            let mut found = false;
            let mut k: usize = 0;
            while k < plan.nodes.len()
                invariant
                    k <= plan.nodes@.len(),
                    found ==> exists|kk: int|
                        0 <= kk < plan.nodes@.len() && plan.nodes@[kk].id == dep
                            && edge_satisfied(cond, plan.nodes@[kk].status),
                    !found ==> forall|kk: int|
                        0 <= kk < k ==> !(plan.nodes@[kk].id == dep && edge_satisfied(cond, plan.nodes@[kk].status)),
                decreases plan.nodes@.len() - k,
            {
                if plan.nodes[k].id == dep && edge_satisfied_exec(cond, plan.nodes[k].status) {
                    found = true;
                }
                k += 1;
            }
            if !found {
                assert(plan.edges@[j as int].to == node_id);
                return false;
            }
        }
        j += 1;
    }
    true
}

/// What an edge into a node asks of its upstream node before the node may
/// run: a `Success` edge a completed upstream node, an `Always` edge one that
/// has finished (completed, failed, skipped or cancelled), an `OnFailure`
/// edge a failed one. An edge whose upstream node is missing, or in no such
/// status, keeps the node from running; the node may run once every edge
/// into it is met.
pub proof fn law_dependencies_follow_edge_conditions(id: u128, nodes: Seq<PlanNode>, edges: Seq<PlanEdge>)
    ensures
        forall|j: int|
            0 <= j < edges.len() && #[trigger] edges[j].to == id && edges[j].condition == EdgeCondition::Success
                && (forall|k: int| 0 <= k < nodes.len() && nodes[k].id == edges[j].from ==> nodes[k].status
                != NodeStatus::Completed) ==> !spec_dependencies_met(id, nodes, edges),
        forall|j: int|
            0 <= j < edges.len() && #[trigger] edges[j].to == id && edges[j].condition == EdgeCondition::Always
                && (forall|k: int|
                0 <= k < nodes.len() && nodes[k].id == edges[j].from ==> nodes[k].status == NodeStatus::Pending
                    || nodes[k].status == NodeStatus::Running) ==> !spec_dependencies_met(id, nodes, edges),
        forall|j: int|
            0 <= j < edges.len() && #[trigger] edges[j].to == id && edges[j].condition == EdgeCondition::OnFailure
                && (forall|k: int| 0 <= k < nodes.len() && nodes[k].id == edges[j].from ==> nodes[k].status
                != NodeStatus::Failed) ==> !spec_dependencies_met(id, nodes, edges),
        (forall|j: int|
            0 <= j < edges.len() && #[trigger] edges[j].to == id ==> exists|k: int|
                0 <= k < nodes.len() && nodes[k].id == edges[j].from && match edges[j].condition {
                    EdgeCondition::Success => nodes[k].status == NodeStatus::Completed,
                    EdgeCondition::Always => nodes[k].status == NodeStatus::Completed || nodes[k].status
                        == NodeStatus::Failed || nodes[k].status == NodeStatus::Skipped || nodes[k].status
                        == NodeStatus::Cancelled,
                    EdgeCondition::OnFailure => nodes[k].status == NodeStatus::Failed,
                }) ==> spec_dependencies_met(id, nodes, edges),
{
}

// ── Topological order ─────────────────────────────────────────

fn vec_contains(v: &Vec<u128>, x: u128) -> (r: bool)
    ensures
        r == v@.contains(x),
{
    let mut i: usize = 0;
    while i < v.len()
        invariant
            i <= v@.len(),
            forall|k: int| 0 <= k < i ==> v@[k] != x,
        decreases v@.len() - i,
    {
        if v[i] == x {
            assert(v@[i as int] == x);
            return true;
        }
        i += 1;
    }
    false
}

/// The stack of open visits forms a chain of edges ending at `n`.
pub open spec fn stack_chain(edges: Seq<PlanEdge>, stack: Seq<u128>, n: u128) -> bool {
    &&& forall|k: int|
        0 <= k < stack.len() - 1 ==> has_edge(edges, #[trigger] stack[k + 1], stack[k])
    &&& stack.len() > 0 ==> has_edge(edges, n, stack.last())
}

/// From a node pushed while `stack` is open, a walk leads to every stack entry.
proof fn lemma_walk_to_stack(edges: Seq<PlanEdge>, stack: Seq<u128>, n: u128, m: int)
    requires
        stack_chain(edges, stack, n),
        0 <= m < stack.len(),
    ensures
        exists|w: Seq<u128>| is_walk(edges, w) && w[0] == n && w.last() == stack[m],
{
    let len = stack.len() as int;
    let w = Seq::new((len - m + 1) as nat, |k: int| if k == 0 { n } else { stack[len - k] });
    assert forall|k: int| 0 <= k < w.len() - 1 implies has_edge(edges, #[trigger] w[k], w[k + 1]) by {
        if k == 0 {
            assert(w[1] == stack.last());
        } else {
            assert(w[k] == stack[len - k]);
            assert(w[k + 1] == stack[len - k - 1]);
            assert(has_edge(edges, stack[(len - k - 1) + 1], stack[len - k - 1]));
        }
    }
    assert(is_walk(edges, w));
    assert(w.last() == stack[m]);
}

proof fn lemma_visited_bound(visited: Seq<u128>, u: Set<u128>)
    requires
        u.finite(),
        visited.no_duplicates(),
        forall|i: int| 0 <= i < visited.len() ==> u.contains(visited[i]),
    ensures
        visited.len() <= u.len(),
{
    visited.unique_seq_to_set();
    assert(visited.to_set().subset_of(u)) by {
        assert forall|x: u128| visited.to_set().contains(x) implies u.contains(x) by {
            let i = visited.index_of(x);
        }
    }
    vstd::set_lib::lemma_len_subset(visited.to_set(), u);
}

pub open spec fn sources_in(edges: Seq<PlanEdge>, u: Set<u128>) -> bool {
    forall|j: int| 0 <= j < edges.len() ==> u.contains(#[trigger] edges[j].from)
}

/// Depth-first visit: places every not yet visited dependency of `n` before `n`.
fn visit(
    n: u128,
    sorted: &mut Vec<u128>,
    visited: &mut Vec<u128>,
    edges: &Vec<PlanEdge>,
    Ghost(u): Ghost<Set<u128>>,
    Ghost(stack): Ghost<Seq<u128>>,
)
    requires
        u.finite(),
        u.contains(n),
        sources_in(edges@, u),
        old(visited)@.no_duplicates(),
        forall|i: int| 0 <= i < old(visited)@.len() ==> u.contains(old(visited)@[i]),
        old(sorted)@.no_duplicates(),
        forall|i: int| 0 <= i < old(sorted)@.len() ==> old(visited)@.contains(old(sorted)@[i]),
        forall|x: u128|
            (old(visited)@.contains(x) && !old(sorted)@.contains(x)) <==> stack.contains(x),
        stack_chain(edges@, stack, n),
        order_respects_edges(edges@, old(sorted)@),
    ensures
        final(visited)@.no_duplicates(),
        forall|i: int| 0 <= i < final(visited)@.len() ==> u.contains(final(visited)@[i]),
        forall|x: u128| old(visited)@.contains(x) ==> final(visited)@.contains(x),
        final(visited)@.contains(n),
        final(visited)@.len() >= old(visited)@.len(),
        final(sorted)@.no_duplicates(),
        final(sorted)@.len() >= old(sorted)@.len(),
        final(sorted)@.take(old(sorted)@.len() as int) == old(sorted)@,
        forall|i: int|
            0 <= i < final(sorted)@.len() ==> final(visited)@.contains(final(sorted)@[i]),
        forall|x: u128|
            (final(visited)@.contains(x) && !final(sorted)@.contains(x)) <==> stack.contains(x),
        order_respects_edges(edges@, final(sorted)@),
    decreases u.len() - old(visited)@.len(),
{
    if vec_contains(visited, n) {
        return;
    }
    proof {
        lemma_visited_bound(visited@, u);
        assert(!stack.contains(n));
    }
    let ghost v0 = visited@;
    let ghost s0 = sorted@;
    visited.push(n);
    proof {
        assert(visited@.no_duplicates()) by {
            assert forall|a: int, b: int|
                0 <= a < visited@.len() && 0 <= b < visited@.len() && a != b implies visited@[a]
                != visited@[b] by {
                if a < v0.len() && b < v0.len() {
                } else if a == v0.len() {
                    assert(v0.contains(visited@[b]) || b == v0.len());
                } else {
                    assert(v0.contains(visited@[a]));
                }
            }
        }
        assert forall|x: u128| v0.contains(x) implies visited@.contains(x) by {
            let i = v0.index_of(x);
            assert(visited@[i] == x);
        }
        assert(visited@[v0.len() as int] == n);
    }
    let ghost inner_stack = stack.push(n);
    proof {
        lemma_visited_bound(visited@, u);
        assert(inner_stack[stack.len() as int] == n);
        assert forall|x: u128|
            (visited@.contains(x) && !sorted@.contains(x)) <==> inner_stack.contains(x) by {
            if x == n {
                assert(!s0.contains(n));
            } else {
                if visited@.contains(x) {
                    let i = visited@.index_of(x);
                    assert(i < v0.len());
                    assert(v0[i] == x);
                }
                if inner_stack.contains(x) {
                    let i = inner_stack.index_of(x);
                    assert(i < stack.len());
                    assert(stack[i] == x);
                }
                if stack.contains(x) {
                    let i = stack.index_of(x);
                    assert(inner_stack[i] == x);
                }
            }
        }
    }
    let mut j: usize = 0;
    while j < edges.len()
        invariant
            u.finite(),
            u.contains(n),
            sources_in(edges@, u),
            visited@.no_duplicates(),
            forall|i: int| 0 <= i < visited@.len() ==> u.contains(visited@[i]),
            forall|x: u128| v0.contains(x) ==> visited@.contains(x),
            visited@.contains(n),
            visited@.len() > v0.len(),
            sorted@.no_duplicates(),
            sorted@.len() >= s0.len(),
            sorted@.take(s0.len() as int) == s0,
            forall|i: int| 0 <= i < sorted@.len() ==> visited@.contains(sorted@[i]),
            forall|x: u128| (visited@.contains(x) && !sorted@.contains(x)) <==> inner_stack.contains(x),
            stack_chain(edges@, stack, n),
            inner_stack == stack.push(n),
            order_respects_edges(edges@, sorted@),
            forall|jj: int|
                0 <= jj < j && #[trigger] edges@[jj].to == n ==> visited@.contains(edges@[jj].from),
            j <= edges@.len(),
            v0 == old(visited)@,
            visited@.len() <= u.len(),
        decreases edges@.len() - j,
    {
        if edges[j].to == n {
            let from = edges[j].from;
            proof {
                assert(u.contains(edges@[j as int].from));
                assert(has_edge(edges@, from, n)) by {
                    assert(edges@[j as int].from == from && edges@[j as int].to == n);
                }
                assert forall|k: int|
                    0 <= k < inner_stack.len() - 1 implies has_edge(
                    edges@,
                    #[trigger] inner_stack[k + 1],
                    inner_stack[k],
                ) by {
                    if k + 1 < stack.len() {
                        assert(inner_stack[k + 1] == stack[k + 1]);
                        assert(inner_stack[k] == stack[k]);
                    } else {
                        assert(inner_stack[k + 1] == n);
                        assert(inner_stack[k] == stack.last());
                    }
                }
                assert(stack_chain(edges@, inner_stack, from));
            }
            let ghost vb = visited@;
            let ghost sb = sorted@;
            proof {
                lemma_visited_bound(visited@, u);
            }
            visit(from, sorted, visited, edges, Ghost(u), Ghost(inner_stack));
            proof {
                lemma_visited_bound(visited@, u);
                assert forall|x: u128| v0.contains(x) implies visited@.contains(x) by {
                    assert(vb.contains(x));
                }
                assert(sorted@.take(s0.len() as int) =~= s0) by {
                    assert forall|k: int| 0 <= k < s0.len() implies sorted@[k] == s0[k] by {
                        assert(sorted@.take(sb.len() as int)[k] == sb[k]);
                        assert(sb.take(s0.len() as int)[k] == s0[k]);
                    }
                }
                assert forall|jj: int|
                    0 <= jj < j + 1 && #[trigger] edges@[jj].to == n implies visited@.contains(
                    edges@[jj].from,
                ) by {
                    if jj < j {
                        assert(vb.contains(edges@[jj].from));
                    }
                }
            }
        }
        j += 1;
    }
    let ghost sp = sorted@;
    proof {
        assert(inner_stack[stack.len() as int] == n);
        assert(inner_stack.contains(n));
        assert(!sorted@.contains(n));
    }
    sorted.push(n);
    proof {
        assert(sorted@.no_duplicates()) by {
            assert forall|a: int, b: int|
                0 <= a < sorted@.len() && 0 <= b < sorted@.len() && a != b implies sorted@[a]
                != sorted@[b] by {
                if a < sp.len() && b < sp.len() {
                } else if a == sp.len() {
                    assert(sp.contains(sorted@[b]));
                } else {
                    assert(sp.contains(sorted@[a]));
                }
            }
        }
        assert(sorted@.take(s0.len() as int) =~= s0) by {
            assert forall|k: int| 0 <= k < s0.len() implies sorted@[k] == s0[k] by {
                assert(sp.take(s0.len() as int)[k] == s0[k]);
            }
        }
        assert forall|x: u128| sp.contains(x) implies sorted@.contains(x) by {
            let i = sp.index_of(x);
            assert(sorted@[i] == x);
        }
        assert(sorted@[sp.len() as int] == n);
        assert forall|x: u128|
            (visited@.contains(x) && !sorted@.contains(x)) <==> stack.contains(x) by {
            if x == n {
                assert(sorted@.contains(n));
            } else {
                if sorted@.contains(x) {
                    let i = sorted@.index_of(x);
                    assert(i < sp.len());
                    assert(sp[i] == x);
                }
                assert(inner_stack.contains(x) <==> stack.contains(x)) by {
                    if inner_stack.contains(x) {
                        let i = inner_stack.index_of(x);
                        assert(i < stack.len());
                        assert(stack[i] == x);
                    }
                    if stack.contains(x) {
                        let i = stack.index_of(x);
                        assert(inner_stack[i] == x);
                    }
                }
            }
        }
        assert forall|i: int| 0 <= i < sorted@.len() implies visited@.contains(sorted@[i]) by {
            if i < sp.len() {
                assert(sorted@[i] == sp[i]);
            }
        }
        assert forall|i: int, jj: int|
            #![trigger sorted@[i], edges@[jj]]
            0 <= i < sorted@.len() && 0 <= jj < edges@.len() && edges@[jj].to == sorted@[i]
                implies sorted@.take(i).contains(edges@[jj].from) || exists|w: Seq<u128>|
            is_walk(edges@, w) && w[0] == sorted@[i] && w.last() == edges@[jj].from by {
            if i < sp.len() {
                assert(sorted@[i] == sp[i]);
                assert(sorted@.take(i) =~= sp.take(i));
                assert(edges@[jj].to == sp[i]);
            } else {
                assert(sorted@[i] == n);
                assert(sorted@.take(i) =~= sp);
                let f = edges@[jj].from;
                assert(edges@[jj].to == n);
                assert(visited@.contains(f));
                if sp.contains(f) {
                    assert(sorted@.take(i).contains(f));
                } else if f == n {
                    let w = seq![n];
                    assert(is_walk(edges@, w));
                    assert(w[0] == sorted@[i] && w.last() == f);
                } else {
                    assert(inner_stack.contains(f));
                    let m = inner_stack.index_of(f);
                    assert(m < stack.len());
                    assert(stack[m] == f);
                    lemma_walk_to_stack(edges@, stack, n, m);
                }
            }
        }
    }
}

/// Order node ids so that each node follows its dependencies (depth-first
/// over incoming edges). Edge sources that are not nodes are placed too.
pub fn topological_sort(plan: &ExecutionPlan) -> (order: Vec<u128>)
    ensures
        order@.no_duplicates(),
        forall|k: int| 0 <= k < plan.nodes@.len() ==> order@.contains(#[trigger] plan.nodes@[k].id),
        forall|i: int|
            0 <= i < order@.len() ==> id_universe(plan.nodes@, plan.edges@).contains(
                #[trigger] order@[i],
            ),
        order_respects_edges(plan.edges@, order@),
{
    let ghost u = id_universe(plan.nodes@, plan.edges@);
    proof {
        vstd::seq_lib::seq_to_set_is_finite(node_ids(plan.nodes@));
        vstd::seq_lib::seq_to_set_is_finite(plan.edges@.map_values(|e: PlanEdge| e.from));
        assert(u.finite());
        assert forall|j: int| 0 <= j < plan.edges@.len() implies u.contains(
            #[trigger] plan.edges@[j].from,
        ) by {
            let s = plan.edges@.map_values(|e: PlanEdge| e.from);
            assert(s[j] == plan.edges@[j].from);
            assert(s.contains(plan.edges@[j].from));
        }
    }
    let mut sorted: Vec<u128> = Vec::new();
    let mut visited: Vec<u128> = Vec::new();
    let mut i: usize = 0;
    while i < plan.nodes.len()
        invariant
            u == id_universe(plan.nodes@, plan.edges@),
            u.finite(),
            sources_in(plan.edges@, u),
            i <= plan.nodes@.len(),
            visited@.no_duplicates(),
            forall|k: int| 0 <= k < visited@.len() ==> u.contains(visited@[k]),
            sorted@.no_duplicates(),
            forall|k: int| 0 <= k < sorted@.len() ==> visited@.contains(sorted@[k]),
            forall|x: u128| visited@.contains(x) ==> sorted@.contains(x),
            forall|k: int| 0 <= k < i ==> visited@.contains(#[trigger] plan.nodes@[k].id),
            order_respects_edges(plan.edges@, sorted@),
        decreases plan.nodes@.len() - i,
    {
        let id = plan.nodes[i].id;
        proof {
            let s = node_ids(plan.nodes@);
            assert(s[i as int] == id);
            assert(s.contains(id));
            assert(u.contains(id));
            assert forall|x: u128|
                (visited@.contains(x) && !sorted@.contains(x)) <==> Seq::<u128>::empty().contains(
                    x,
                ) by {}
        }
        let ghost vb = visited@;
        visit(id, &mut sorted, &mut visited, &plan.edges, Ghost(u), Ghost(Seq::empty()));
        proof {
            assert forall|k: int| 0 <= k < i + 1 implies visited@.contains(
                #[trigger] plan.nodes@[k].id,
            ) by {
                if k < i {
                    assert(vb.contains(plan.nodes@[k].id));
                }
            }
            assert forall|x: u128| visited@.contains(x) implies sorted@.contains(x) by {
                assert(!Seq::<u128>::empty().contains(x));
            }
        }
        i += 1;
    }
    proof {
        assert forall|k: int| 0 <= k < plan.nodes@.len() implies sorted@.contains(
            #[trigger] plan.nodes@[k].id,
        ) by {
            assert(visited@.contains(plan.nodes@[k].id));
        }
        assert forall|k: int| 0 <= k < sorted@.len() implies u.contains(#[trigger] sorted@[k]) by {
            let x = sorted@[k];
            assert(visited@.contains(x));
            let m = visited@.index_of(x);
        }
    }
    sorted
}

/// On an acyclic plan, every dependency comes before the nodes that need it.
pub proof fn lemma_acyclic_order_puts_dependencies_first(edges: Seq<PlanEdge>, order: Seq<u128>)
    requires
        acyclic(edges),
        order_respects_edges(edges, order),
    ensures
        dependencies_first(edges, order),
{
    assert forall|i: int, j: int|
        #![trigger order[i], edges[j]]
        0 <= i < order.len() && 0 <= j < edges.len() && edges[j].to == order[i] implies order.take(
            i,
        ).contains(edges[j].from) by {
        if !order.take(i).contains(edges[j].from) {
            let w = choose|w: Seq<u128>|
                is_walk(edges, w) && w[0] == order[i] && w.last() == edges[j].from;
            let w2 = w.push(order[i]);
            assert forall|k: int| 0 <= k < w2.len() - 1 implies has_edge(
                edges,
                #[trigger] w2[k],
                w2[k + 1],
            ) by {
                if k < w.len() - 1 {
                    assert(w2[k] == w[k] && w2[k + 1] == w[k + 1]);
                } else {
                    assert(w2[k] == edges[j].from);
                    assert(w2[k + 1] == order[i]);
                }
            }
            assert(is_walk(edges, w2));
            assert(w2[0] == w2.last());
        }
    }
}

} // verus!

//! The orchestration engine's bookkeeping: which plans await approval,
//! which are active, and the step-by-step decisions of running a plan.
//! The caller performs the actions, sleeps and event publication that the
//! returned steps and events ask for.
use vstd::prelude::*;
use vstd::string::*;

use crate::actions::{clone_opt_string, opt_view, ActionType};
use crate::ids::{format_id, uuid_text};
use crate::orchestration::{
    dependencies_met, has_node, is_done_ok, order_respects_edges, spec_dependencies_met,
    topological_sort, ExecutionPlan, NodeStatus, PlanEdge, PlanNode, PlanStatus,
};

verus! {

/// A plan-level lifecycle event to publish.
pub struct PlanEvent {
    pub plan_id: u128,
    pub status: PlanStatus,
    pub message: String,
}

pub open spec fn opt_action_view(o: Option<ActionType>) -> Option<crate::actions::ActionSpec> {
    match o {
        Some(a) => Some(a@),
        None => None,
    }
}

/// Two nodes hold the same content.
pub open spec fn same_node(a: PlanNode, b: PlanNode) -> bool {
    &&& a.id == b.id
    &&& a.label@ == b.label@
    &&& a.action@ == b.action@
    &&& a.status == b.status
    &&& a.retry_count == b.retry_count
    &&& a.max_retries == b.max_retries
    &&& opt_view(a.error) == opt_view(b.error)
    &&& opt_view(a.result) == opt_view(b.result)
    &&& opt_action_view(a.rollback_action) == opt_action_view(b.rollback_action)
    &&& a.requires_approval == b.requires_approval
    &&& a.started_at == b.started_at
    &&& a.completed_at == b.completed_at
}

/// Two plans hold the same content.
pub open spec fn same_plan(a: ExecutionPlan, b: ExecutionPlan) -> bool {
    &&& a.id == b.id
    &&& a.title@ == b.title@
    &&& a.description@ == b.description@
    &&& a.nodes@.len() == b.nodes@.len()
    &&& forall|k: int| 0 <= k < a.nodes@.len() ==> same_node(#[trigger] a.nodes@[k], b.nodes@[k])
    &&& a.edges@ == b.edges@
    &&& a.status == b.status
    &&& a.created_at == b.created_at
    &&& a.approved_at == b.approved_at
    &&& a.completed_at == b.completed_at
}

pub fn duplicate_node(n: &PlanNode) -> (r: PlanNode)
    ensures
        same_node(r, *n),
{
    PlanNode {
        id: n.id,
        label: n.label.clone(),
        action: n.action.duplicate(),
        status: n.status,
        retry_count: n.retry_count,
        max_retries: n.max_retries,
        error: clone_opt_string(&n.error),
        result: clone_opt_string(&n.result),
        rollback_action: match &n.rollback_action {
            Some(a) => Some(a.duplicate()),
            None => None,
        },
        requires_approval: n.requires_approval,
        started_at: n.started_at,
        completed_at: n.completed_at,
    }
}

pub fn duplicate_plan(p: &ExecutionPlan) -> (r: ExecutionPlan)
    ensures
        same_plan(r, *p),
{
    let mut nodes: Vec<PlanNode> = Vec::new();
    let mut i: usize = 0;
    while i < p.nodes.len()
        invariant
            i <= p.nodes@.len(),
            nodes@.len() == i,
            forall|k: int| 0 <= k < i ==> same_node(#[trigger] nodes@[k], p.nodes@[k]),
        decreases p.nodes@.len() - i,
    {
        nodes.push(duplicate_node(&p.nodes[i]));
        i += 1;
    }
    let mut edges: Vec<PlanEdge> = Vec::new();
    let mut j: usize = 0;
    while j < p.edges.len()
        invariant
            j <= p.edges@.len(),
            edges@ == p.edges@.take(j as int),
        decreases p.edges@.len() - j,
    {
        edges.push(p.edges[j]);
        j += 1;
        assert(edges@ =~= p.edges@.take(j as int));
    }
    assert(p.edges@.take(p.edges@.len() as int) =~= p.edges@);
    ExecutionPlan {
        id: p.id,
        title: p.title.clone(),
        description: p.description.clone(),
        nodes,
        edges,
        status: p.status,
        created_at: p.created_at,
        approved_at: p.approved_at,
        completed_at: p.completed_at,
    }
}

fn plan_event(plan_id: u128, status: PlanStatus, message: &str) -> (e: PlanEvent)
    ensures
        e.plan_id == plan_id,
        e.status == status,
        e.message@ == message@,
{
    PlanEvent { plan_id, status, message: String::from_str(message) }
}

/// An active plan and whether a cancellation is waiting to be observed.
pub struct PlanHandle {
    pub plan: ExecutionPlan,
    pub cancel_requested: bool,
}

/// Plans awaiting approval and plans that are active.
pub struct EngineState {
    pub active_plans: Vec<PlanHandle>,
    pub pending_approval: Vec<ExecutionPlan>,
}

pub open spec fn active_ids(s: Seq<PlanHandle>) -> Seq<u128> {
    s.map_values(|h: PlanHandle| h.plan.id)
}

pub open spec fn pending_ids(s: Seq<ExecutionPlan>) -> Seq<u128> {
    s.map_values(|p: ExecutionPlan| p.id)
}

/// Index of the first pending plan with this id, if any.
pub open spec fn first_pending(s: Seq<ExecutionPlan>, id: u128) -> Option<int> {
    if exists|i: int| 0 <= i < s.len() && s[i].id == id && forall|k: int| 0 <= k < i ==> s[k].id != id {
        Some(choose|i: int| 0 <= i < s.len() && s[i].id == id && forall|k: int| 0 <= k < i ==> s[k].id != id)
    } else {
        None
    }
}

proof fn lemma_first_pending_at(s: Seq<ExecutionPlan>, id: u128, i: int)
    requires
        0 <= i < s.len(),
        s[i].id == id,
        forall|k: int| 0 <= k < i ==> s[k].id != id,
    ensures
        first_pending(s, id) == Some(i),
{
    let c = choose|c: int| 0 <= c < s.len() && s[c].id == id && forall|k: int| 0 <= k < c ==> s[k].id != id;
    assert(0 <= c < s.len() && s[c].id == id && forall|k: int| 0 <= k < c ==> s[k].id != id);
    if c < i {
        assert(s[c].id != id);
    } else if c > i {
        assert(s[i].id != id);
    }
}

impl EngineState {
    /// Active plans are keyed by id: no two share one.
    pub open spec fn wf(&self) -> bool {
        active_ids(self.active_plans@).no_duplicates()
    }

    pub open spec fn is_active(&self, id: u128) -> bool {
        active_ids(self.active_plans@).contains(id)
    }

    pub open spec fn is_pending(&self, id: u128) -> bool {
        pending_ids(self.pending_approval@).contains(id)
    }

    pub fn new() -> (s: Self)
        ensures
            s.wf(),
            s.active_plans@.len() == 0,
            s.pending_approval@.len() == 0,
    {
        let s = EngineState { active_plans: Vec::new(), pending_approval: Vec::new() };
        assert(active_ids(s.active_plans@) =~= Seq::empty());
        s
    }

    fn find_active(&self, id: u128) -> (r: Option<usize>)
        ensures
            match r {
                Some(i) => i < self.active_plans@.len() && self.active_plans@[i as int].plan.id == id
                    && self.is_active(id),
                None => !self.is_active(id),
            },
    {
        let mut i: usize = 0;
        while i < self.active_plans.len()
            invariant
                i <= self.active_plans@.len(),
                forall|k: int| 0 <= k < i ==> self.active_plans@[k].plan.id != id,
            decreases self.active_plans@.len() - i,
        {
            if self.active_plans[i].plan.id == id {
                assert(active_ids(self.active_plans@)[i as int] == id);
                return Some(i);
            }
            i += 1;
        }
        proof {
            if self.is_active(id) {
                let k = active_ids(self.active_plans@).index_of(id);
                assert(self.active_plans@[k].plan.id == id);
            }
        }
        None
    }

    fn find_pending(&self, id: u128) -> (r: Option<usize>)
        ensures
            match first_pending(self.pending_approval@, id) {
                Some(i) => r == Some(i as usize),
                None => r is None,
            },
            match r {
                Some(i) => i < self.pending_approval@.len() && self.pending_approval@[i as int].id == id,
                None => !self.is_pending(id),
            },
    {
        let mut i: usize = 0;
        while i < self.pending_approval.len()
            invariant
                i <= self.pending_approval@.len(),
                forall|k: int| 0 <= k < i ==> self.pending_approval@[k].id != id,
            decreases self.pending_approval@.len() - i,
        {
            if self.pending_approval[i].id == id {
                proof {
                    lemma_first_pending_at(self.pending_approval@, id, i as int);
                }
                return Some(i);
            }
            i += 1;
        }
        proof {
            if self.is_pending(id) {
                let k = pending_ids(self.pending_approval@).index_of(id);
                assert(self.pending_approval@[k].id == id);
            }
        }
        None
    }

    /// Put a plan among the active ones, replacing one with the same id.
    fn insert_active(&mut self, plan: ExecutionPlan)
        requires
            old(self).wf(),
        ensures
            final(self).wf(),
            final(self).pending_approval == old(self).pending_approval,
            final(self).is_active(plan.id),
            forall|x: u128| #[trigger] final(self).is_active(x) <==> (old(self).is_active(x) || x == plan.id),
            exists|i: int|
                0 <= i < final(self).active_plans@.len() && final(self).active_plans@[i].plan == plan
                    && !final(self).active_plans@[i].cancel_requested,
            forall|i: int|
                0 <= i < final(self).active_plans@.len() && final(self).active_plans@[i].plan.id != plan.id
                    ==> old(self).active_plans@.contains(#[trigger] final(self).active_plans@[i]),
    {
        let id = plan.id;
        match self.find_active(id) {
            Some(i) => {
                let ghost before = self.active_plans@;
                self.active_plans.set(i, PlanHandle { plan, cancel_requested: false });
                proof {
                    let after = self.active_plans@;
                    assert(active_ids(after) =~= active_ids(before));
                    assert(after[i as int].plan.id == id);
                    assert(active_ids(before)[i as int] == id);
                    assert forall|x: u128| #[trigger] self.is_active(x) <==> (old(self).is_active(x) || x == id) by {
                        assert(active_ids(after) =~= active_ids(before));
                        assert(active_ids(before).contains(id));
                    }
                    assert forall|k: int|
                        0 <= k < after.len() && after[k].plan.id != id implies before.contains(#[trigger] after[k]) by {
                        assert(k != i);
                        assert(after[k] == before[k]);
                    }
                }
            },
            None => {
                let ghost before = self.active_plans@;
                self.active_plans.push(PlanHandle { plan, cancel_requested: false });
                proof {
                    let after = self.active_plans@;
                    assert(active_ids(after) =~= active_ids(before).push(id));
                    assert(active_ids(after).no_duplicates()) by {
                        assert forall|a: int, b: int| 0 <= a < after.len() && 0 <= b < after.len() && a != b
                            implies active_ids(after)[a] != active_ids(after)[b] by {
                            if a == before.len() {
                                assert(active_ids(before)[b] == active_ids(after)[b]);
                            } else if b == before.len() {
                                assert(active_ids(before)[a] == active_ids(after)[a]);
                            }
                        }
                    }
                    assert(after[before.len() as int].plan.id == id);
                    assert(active_ids(after)[before.len() as int] == id);
                    assert forall|x: u128| #[trigger] self.is_active(x) <==> (old(self).is_active(x) || x == id) by {
                        assert(active_ids(after).contains(id));
                        if active_ids(after).contains(x) {
                            let k = active_ids(after).index_of(x);
                            if k < before.len() {
                                assert(active_ids(before)[k] == x);
                            }
                        }
                        if active_ids(before).contains(x) {
                            let k = active_ids(before).index_of(x);
                            assert(active_ids(after)[k] == x);
                        }
                    }
                    assert forall|k: int|
                        0 <= k < after.len() && after[k].plan.id != id implies before.contains(#[trigger] after[k]) by {
                        assert(k < before.len());
                        assert(after[k] == before[k]);
                    }
                }
            },
        }
    }

    /// Submit a plan: it waits for approval if any node asks for it, and is
    /// made active as approved otherwise. Returns the plan id and the event.
    pub fn submit_plan(&mut self, plan: ExecutionPlan) -> (r: (u128, PlanEvent))
        requires
            old(self).wf(),
        ensures
            final(self).wf(),
            r.0 == plan.id,
            r.1.plan_id == plan.id,
            (exists|k: int| 0 <= k < plan.nodes@.len() && plan.nodes@[k].requires_approval) ==> {
                &&& final(self).pending_approval@ == old(self).pending_approval@.push(
                    ExecutionPlan { status: PlanStatus::PendingApproval, ..plan },
                )
                &&& final(self).active_plans == old(self).active_plans
                &&& r.1.status == PlanStatus::PendingApproval
                &&& r.1.message@ == "Plan requires approval"@
            },
            !(exists|k: int| 0 <= k < plan.nodes@.len() && plan.nodes@[k].requires_approval) ==> {
                &&& final(self).pending_approval == old(self).pending_approval
                &&& final(self).is_active(plan.id)
                &&& forall|x: u128| #[trigger] final(self).is_active(x) <==> (old(self).is_active(x) || x == plan.id)
                &&& exists|i: int|
                    0 <= i < final(self).active_plans@.len() && final(self).active_plans@[i].plan
                        == (ExecutionPlan { status: PlanStatus::Approved, ..plan })
                &&& r.1.status == PlanStatus::Approved
                &&& r.1.message@ == "Plan auto-approved"@
            },
    {
        let plan_id = plan.id;
        let mut plan = plan;
        if plan.requires_approval() {
            plan.status = PlanStatus::PendingApproval;
            self.pending_approval.push(plan);
            (plan_id, plan_event(plan_id, PlanStatus::PendingApproval, "Plan requires approval"))
        } else {
            plan.status = PlanStatus::Approved;
            self.insert_active(plan);
            (plan_id, plan_event(plan_id, PlanStatus::Approved, "Plan auto-approved"))
        }
    }

    /// Approve a pending plan: the first pending plan with this id leaves the
    /// pending list and becomes active. The caller then runs it.
    pub fn approve_plan(&mut self, plan_id: u128) -> (r: Result<PlanEvent, String>)
        requires
            old(self).wf(),
        ensures
            final(self).wf(),
            match first_pending(old(self).pending_approval@, plan_id) {
                Some(i) => {
                    &&& r matches Ok(e) && e.plan_id == plan_id && e.status == PlanStatus::Approved
                        && e.message@ == "Plan approved by user"@
                    &&& final(self).pending_approval@ == old(self).pending_approval@.remove(i)
                    &&& final(self).is_active(plan_id)
                    &&& forall|x: u128| #[trigger] final(self).is_active(x) <==> (old(self).is_active(x) || x == plan_id)
                    &&& exists|k: int|
                        0 <= k < final(self).active_plans@.len() && final(self).active_plans@[k].plan
                            == old(self).pending_approval@[i]
                },
                None => {
                    &&& r matches Err(m) && m@ == "No pending plan with id "@ + uuid_text(plan_id)
                    &&& *final(self) == *old(self)
                },
            },
    {
        match self.find_pending(plan_id) {
            Some(i) => {
                let plan = self.pending_approval.remove(i);
                self.insert_active(plan);
                Ok(plan_event(plan_id, PlanStatus::Approved, "Plan approved by user"))
            },
            None => Err(String::from_str("No pending plan with id ").concat(
                format_id(plan_id).as_str(),
            )),
        }
    }

    /// Reject a pending plan: it leaves the pending list.
    pub fn reject_plan(&mut self, plan_id: u128) -> (r: Result<PlanEvent, String>)
        requires
            old(self).wf(),
        ensures
            final(self).wf(),
            final(self).active_plans == old(self).active_plans,
            match first_pending(old(self).pending_approval@, plan_id) {
                Some(i) => {
                    &&& r matches Ok(e) && e.plan_id == plan_id && e.status == PlanStatus::Cancelled
                        && e.message@ == "Plan rejected by user"@
                    &&& final(self).pending_approval@ == old(self).pending_approval@.remove(i)
                },
                None => {
                    &&& r matches Err(m) && m@ == "No pending plan with id "@ + uuid_text(plan_id)
                    &&& final(self).pending_approval == old(self).pending_approval
                },
            },
    {
        match self.find_pending(plan_id) {
            Some(i) => {
                self.pending_approval.remove(i);
                Ok(plan_event(plan_id, PlanStatus::Cancelled, "Plan rejected by user"))
            },
            None => Err(String::from_str("No pending plan with id ").concat(
                format_id(plan_id).as_str(),
            )),
        }
    }

    /// Ask an active plan to stop after its current node.
    pub fn cancel_plan(&mut self, plan_id: u128) -> (r: Result<PlanEvent, String>)
        requires
            old(self).wf(),
        ensures
            final(self).wf(),
            final(self).pending_approval == old(self).pending_approval,
            old(self).is_active(plan_id) ==> {
                &&& r matches Ok(e) && e.plan_id == plan_id && e.status == PlanStatus::Cancelled
                    && e.message@ == "Plan cancelled by user"@
                &&& final(self).active_plans@.len() == old(self).active_plans@.len()
                &&& forall|k: int| 0 <= k < final(self).active_plans@.len() ==> {
                    &&& (#[trigger] final(self).active_plans@[k]).plan == old(self).active_plans@[k].plan
                    &&& final(self).active_plans@[k].cancel_requested == (old(self).active_plans@[k].cancel_requested
                        || old(self).active_plans@[k].plan.id == plan_id)
                }
            },
            !old(self).is_active(plan_id) ==> {
                &&& r matches Err(m) && m@ == "No active plan with id "@ + uuid_text(plan_id)
                &&& *final(self) == *old(self)
            },
    {
        match self.find_active(plan_id) {
            Some(i) => {
                let ghost before = self.active_plans@;
                let plan_i = self.active_plans[i].plan.id;
                let mut handle = self.active_plans.remove(i);
                handle.cancel_requested = true;
                self.active_plans.insert(i, handle);
                proof {
                    let after = self.active_plans@;
                    assert forall|k: int| 0 <= k < after.len() implies {
                        &&& (#[trigger] after[k]).plan == before[k].plan
                        &&& after[k].cancel_requested == (before[k].cancel_requested || before[k].plan.id == plan_id)
                    } by {
                        if k != i {
                            assert(before[k].plan.id != plan_id) by {
                                assert(active_ids(before)[k] == before[k].plan.id);
                                assert(active_ids(before)[i as int] == plan_id);
                            }
                        }
                    }
                    assert(active_ids(after) =~= active_ids(before));
                }
                Ok(plan_event(plan_id, PlanStatus::Cancelled, "Plan cancelled by user"))
            },
            None => Err(String::from_str("No active plan with id ").concat(
                format_id(plan_id).as_str(),
            )),
        }
    }

    /// Whether a cancellation of this active plan is waiting; observing it
    /// consumes it, as a notification permit is consumed.
    pub fn take_cancellation(&mut self, plan_id: u128) -> (r: bool)
        requires
            old(self).wf(),
        ensures
            final(self).wf(),
            final(self).pending_approval == old(self).pending_approval,
            final(self).active_plans@.len() == old(self).active_plans@.len(),
            r == exists|k: int| 0 <= k < old(self).active_plans@.len() && old(self).active_plans@[k].plan.id
                == plan_id && old(self).active_plans@[k].cancel_requested,
            forall|k: int| 0 <= k < final(self).active_plans@.len() ==> {
                &&& (#[trigger] final(self).active_plans@[k]).plan == old(self).active_plans@[k].plan
                &&& final(self).active_plans@[k].cancel_requested == (old(self).active_plans@[k].cancel_requested
                    && old(self).active_plans@[k].plan.id != plan_id)
            },
    {
        match self.find_active(plan_id) {
            Some(i) => {
                let ghost before = self.active_plans@;
                let mut handle = self.active_plans.remove(i);
                let was = handle.cancel_requested;
                handle.cancel_requested = false;
                self.active_plans.insert(i, handle);
                proof {
                    let after = self.active_plans@;
                    assert forall|k: int| 0 <= k < after.len() implies {
                        &&& (#[trigger] after[k]).plan == before[k].plan
                        &&& after[k].cancel_requested == (before[k].cancel_requested && before[k].plan.id != plan_id)
                    } by {
                        if k != i {
                            assert(before[k].plan.id != plan_id) by {
                                assert(active_ids(before)[k] == before[k].plan.id);
                                assert(active_ids(before)[i as int] == plan_id);
                            }
                        }
                    }
                    assert(active_ids(after) =~= active_ids(before));
                    if was {
                        assert(before[i as int].plan.id == plan_id && before[i as int].cancel_requested);
                    } else {
                        assert forall|k: int| 0 <= k < before.len() && before[k].plan.id == plan_id
                            implies !before[k].cancel_requested by {
                            assert(active_ids(before)[k] == active_ids(before)[i as int]);
                        }
                    }
                }
                was
            },
            None => {
                proof {
                    assert forall|k: int| 0 <= k < self.active_plans@.len() implies self.active_plans@[k].plan.id
                        != plan_id by {
                        assert(active_ids(self.active_plans@)[k] == self.active_plans@[k].plan.id);
                    }
                }
                false
            },
        }
    }

    /// Store the latest state of an active plan (no effect if not active).
    pub fn save_plan_state(&mut self, plan: &ExecutionPlan)
        requires
            old(self).wf(),
        ensures
            final(self).wf(),
            final(self).pending_approval == old(self).pending_approval,
            final(self).active_plans@.len() == old(self).active_plans@.len(),
            forall|k: int| 0 <= k < final(self).active_plans@.len() ==> {
                &&& (#[trigger] final(self).active_plans@[k]).cancel_requested == old(self).active_plans@[k].cancel_requested
                &&& if old(self).active_plans@[k].plan.id == plan.id {
                    same_plan(final(self).active_plans@[k].plan, *plan)
                } else {
                    final(self).active_plans@[k].plan == old(self).active_plans@[k].plan
                }
            },
    {
        match self.find_active(plan.id) {
            Some(i) => {
                let ghost before = self.active_plans@;
                let mut handle = self.active_plans.remove(i);
                handle.plan = duplicate_plan(plan);
                self.active_plans.insert(i, handle);
                proof {
                    let after = self.active_plans@;
                    assert forall|k: int| 0 <= k < after.len() && k != i implies before[k].plan.id != plan.id by {
                        assert(active_ids(before)[k] == before[k].plan.id);
                        assert(active_ids(before)[i as int] == plan.id);
                    }
                    assert(active_ids(after) =~= active_ids(before));
                }
            },
            None => {
                proof {
                    assert forall|k: int| 0 <= k < self.active_plans@.len() implies self.active_plans@[k].plan.id
                        != plan.id by {
                        assert(active_ids(self.active_plans@)[k] == self.active_plans@[k].plan.id);
                    }
                }
            },
        }
    }

    /// Copies of all plans: the active ones, then those awaiting approval.
    pub fn list_plans(&self) -> (r: Vec<ExecutionPlan>)
        ensures
            r@.len() == self.active_plans@.len() + self.pending_approval@.len(),
            forall|k: int| 0 <= k < self.active_plans@.len() ==> same_plan(#[trigger] r@[k], self.active_plans@[k].plan),
            forall|k: int| 0 <= k < self.pending_approval@.len() ==> same_plan(
                #[trigger] r@[self.active_plans@.len() + k],
                self.pending_approval@[k],
            ),
    {
        let mut r: Vec<ExecutionPlan> = Vec::new();
        let mut i: usize = 0;
        while i < self.active_plans.len()
            invariant
                i <= self.active_plans@.len(),
                r@.len() == i,
                forall|k: int| 0 <= k < i ==> same_plan(#[trigger] r@[k], self.active_plans@[k].plan),
            decreases self.active_plans@.len() - i,
        {
            r.push(duplicate_plan(&self.active_plans[i].plan));
            i += 1;
        }
        let mut j: usize = 0;
        while j < self.pending_approval.len()
            invariant
                j <= self.pending_approval@.len(),
                r@.len() == self.active_plans@.len() + j,
                forall|k: int| 0 <= k < self.active_plans@.len() ==> same_plan(#[trigger] r@[k], self.active_plans@[k].plan),
                forall|k: int| 0 <= k < j ==> same_plan(
                    #[trigger] r@[self.active_plans@.len() + k],
                    self.pending_approval@[k],
                ),
            decreases self.pending_approval@.len() - j,
        {
            r.push(duplicate_plan(&self.pending_approval[j]));
            j += 1;
        }
        r
    }

    /// A copy of the plan with this id: an active one first, then the first
    /// pending one.
    pub fn get_plan(&self, plan_id: u128) -> (r: Option<ExecutionPlan>)
        requires
            self.wf(),
        ensures
            self.is_active(plan_id) ==> (r matches Some(p) && exists|k: int|
                0 <= k < self.active_plans@.len() && self.active_plans@[k].plan.id == plan_id
                    && same_plan(p, self.active_plans@[k].plan)),
            !self.is_active(plan_id) ==> match first_pending(self.pending_approval@, plan_id) {
                Some(i) => (r matches Some(p) && same_plan(p, self.pending_approval@[i])),
                None => r is None,
            },
    {
        match self.find_active(plan_id) {
            Some(i) => Some(duplicate_plan(&self.active_plans[i].plan)),
            None => match self.find_pending(plan_id) {
                Some(i) => Some(duplicate_plan(&self.pending_approval[i])),
                None => None,
            },
        }
    }
}

// ── Running a plan ────────────────────────────────────────────

/// What the runner should do next.
pub enum RunStep {
    /// Stop stepping through nodes: cancelled, or every id visited.
    Stop,
    /// The order named an id that is not a node; nothing to do.
    Missing,
    /// The node at this index was marked skipped: a dependency did not complete.
    Skipped { node_index: usize },
    /// The node at this index was marked running: execute its action.
    Execute { node_index: usize },
}

/// The state of a plan being executed node by node.
pub struct PlanRun {
    pub plan: ExecutionPlan,
    /// Node ids in dependency order.
    pub order: Vec<u128>,
    /// How many ids of `order` have been taken.
    pub cursor: usize,
    /// Rollback actions of completed nodes, in completion order.
    pub rollbacks: Vec<(u128, ActionType)>,
}

pub open spec fn all_done_ok(nodes: Seq<PlanNode>) -> bool {
    forall|k: int| 0 <= k < nodes.len() ==> is_done_ok(#[trigger] nodes[k].status)
}

/// Whether another attempt follows a failed one: a node is tried once and
/// then retried while the count of failed attempts stays within `max_retries`.
pub fn should_retry(failed_attempts: u32, max_retries: u32) -> (r: bool)
    ensures
        r == (failed_attempts <= max_retries),
{
    failed_attempts <= max_retries
}

/// The two events that bracket executing rollbacks.
pub fn rollback_events(plan_id: u128) -> (r: (PlanEvent, PlanEvent))
    ensures
        r.0.plan_id == plan_id && r.0.status == PlanStatus::RollingBack
            && r.0.message@ == "Rolling back completed actions"@,
        r.1.plan_id == plan_id && r.1.status == PlanStatus::RolledBack
            && r.1.message@ == "Rollback completed"@,
{
    (
        plan_event(plan_id, PlanStatus::RollingBack, "Rolling back completed actions"),
        plan_event(plan_id, PlanStatus::RolledBack, "Rollback completed"),
    )
}

/// Begin running a plan: it is marked running and its nodes are ordered.
pub fn start_run(plan: ExecutionPlan) -> (r: (PlanRun, PlanEvent))
    ensures
        r.0.plan == (ExecutionPlan { status: PlanStatus::Running, ..plan }),
        r.0.order@.no_duplicates(),
        forall|k: int| 0 <= k < plan.nodes@.len() ==> r.0.order@.contains(#[trigger] plan.nodes@[k].id),
        order_respects_edges(plan.edges@, r.0.order@),
        r.0.cursor == 0,
        r.0.rollbacks@.len() == 0,
        r.1.plan_id == plan.id && r.1.status == PlanStatus::Running
            && r.1.message@ == "Plan execution started"@,
{
    let mut plan = plan;
    plan.status = PlanStatus::Running;
    let order = topological_sort(&plan);
    let id = plan.id;
    (
        PlanRun { plan, order, cursor: 0, rollbacks: Vec::new() },
        plan_event(id, PlanStatus::Running, "Plan execution started"),
    )
}

impl PlanRun {
    pub open spec fn wf(&self) -> bool {
        self.cursor <= self.order@.len()
    }

    /// Take the next id of the order and decide what to do with its node.
    pub fn next_step(&mut self, cancelled: bool, now: i128) -> (step: RunStep)
        requires
            old(self).wf(),
        ensures
            final(self).wf(),
            final(self).order == old(self).order,
            final(self).rollbacks == old(self).rollbacks,
            final(self).plan.id == old(self).plan.id,
            final(self).plan.edges == old(self).plan.edges,
            final(self).plan.status == old(self).plan.status,
            final(self).plan.nodes@.len() == old(self).plan.nodes@.len(),
            (cancelled || old(self).cursor == old(self).order@.len()) ==> step is Stop
                && *final(self) == *old(self),
            !(cancelled || old(self).cursor == old(self).order@.len()) ==> {
                let id = old(self).order@[old(self).cursor as int];
                &&& final(self).cursor == old(self).cursor + 1
                &&& match step {
                    RunStep::Stop => false,
                    RunStep::Missing => !has_node(old(self).plan.nodes@, id)
                        && final(self).plan.nodes == old(self).plan.nodes,
                    RunStep::Skipped { node_index } => {
                        &&& node_index < old(self).plan.nodes@.len()
                        &&& old(self).plan.nodes@[node_index as int].id == id
                        &&& !spec_dependencies_met(id, old(self).plan.nodes@, old(self).plan.edges@)
                        &&& final(self).plan.nodes@ == old(self).plan.nodes@.update(
                            node_index as int,
                            PlanNode { status: NodeStatus::Skipped, ..old(self).plan.nodes@[node_index as int] },
                        )
                    },
                    RunStep::Execute { node_index } => {
                        &&& node_index < old(self).plan.nodes@.len()
                        &&& old(self).plan.nodes@[node_index as int].id == id
                        &&& spec_dependencies_met(id, old(self).plan.nodes@, old(self).plan.edges@)
                        &&& final(self).plan.nodes@ == old(self).plan.nodes@.update(
                            node_index as int,
                            PlanNode {
                                status: NodeStatus::Running,
                                started_at: Some(now),
                                ..old(self).plan.nodes@[node_index as int]
                            },
                        )
                    },
                }
            },
    {
        if cancelled || self.cursor >= self.order.len() {
            return RunStep::Stop;
        }
        let id = self.order[self.cursor];
        self.cursor = self.cursor + 1;
        match self.plan.find_node_index(id) {
            None => RunStep::Missing,
            Some(idx) => {
                if !dependencies_met(id, &self.plan) {
                    let mut node = self.plan.nodes.remove(idx);
                    node.status = NodeStatus::Skipped;
                    self.plan.nodes.insert(idx, node);
                    RunStep::Skipped { node_index: idx }
                } else {
                    let mut node = self.plan.nodes.remove(idx);
                    node.status = NodeStatus::Running;
                    node.started_at = Some(now);
                    self.plan.nodes.insert(idx, node);
                    RunStep::Execute { node_index: idx }
                }
            },
        }
    }

    /// Record that the node's action succeeded; its rollback, if any, is kept.
    pub fn node_succeeded(&mut self, node_index: usize, now: i128)
        requires
            node_index < old(self).plan.nodes@.len(),
        ensures
            final(self).order == old(self).order,
            final(self).cursor == old(self).cursor,
            final(self).plan.id == old(self).plan.id,
            final(self).plan.edges == old(self).plan.edges,
            final(self).plan.status == old(self).plan.status,
            final(self).plan.nodes@.len() == old(self).plan.nodes@.len(),
            forall|k: int| 0 <= k < final(self).plan.nodes@.len() && k != node_index ==>
                #[trigger] final(self).plan.nodes@[k] == old(self).plan.nodes@[k],
            ({
                let o = old(self).plan.nodes@[node_index as int];
                let n = final(self).plan.nodes@[node_index as int];
                &&& n.status == NodeStatus::Completed
                &&& n.result matches Some(s) && s@.len() == 0
                &&& n.completed_at == Some(now)
                &&& n.id == o.id && n.label == o.label && n.action == o.action
                &&& n.rollback_action == o.rollback_action && n.error == o.error
                &&& n.started_at == o.started_at && n.requires_approval == o.requires_approval
                &&& n.retry_count == o.retry_count && n.max_retries == o.max_retries
            }),
            match old(self).plan.nodes@[node_index as int].rollback_action {
                Some(a) => final(self).rollbacks@.len() == old(self).rollbacks@.len() + 1
                    && final(self).rollbacks@.take(old(self).rollbacks@.len() as int) == old(self).rollbacks@
                    && final(self).rollbacks@.last().0 == old(self).plan.nodes@[node_index as int].id
                    && final(self).rollbacks@.last().1@ == a@,
                None => final(self).rollbacks == old(self).rollbacks,
            },
    {
        let mut node = self.plan.nodes.remove(node_index);
        node.status = NodeStatus::Completed;
        node.result = Some(String::new());
        node.completed_at = Some(now);
        let ghost rb0 = self.rollbacks@;
        match &node.rollback_action {
            Some(a) => {
                self.rollbacks.push((node.id, a.duplicate()));
                assert(self.rollbacks@.take(rb0.len() as int) =~= rb0);
            },
            None => {},
        }
        self.plan.nodes.insert(node_index, node);
    }

    /// Record that the node's action failed for good: the node and the plan
    /// are marked failed. Returns the rollback actions to run, last completed
    /// first, and the plan's failure event.
    pub fn node_failed(&mut self, node_index: usize, error: String, now: i128) -> (r: (
        Vec<ActionType>,
        PlanEvent,
    ))
        requires
            node_index < old(self).plan.nodes@.len(),
        ensures
            final(self).order == old(self).order,
            final(self).cursor == old(self).cursor,
            final(self).rollbacks == old(self).rollbacks,
            final(self).plan.id == old(self).plan.id,
            final(self).plan.edges == old(self).plan.edges,
            final(self).plan.status == PlanStatus::Failed,
            final(self).plan.nodes@.len() == old(self).plan.nodes@.len(),
            forall|k: int| 0 <= k < final(self).plan.nodes@.len() && k != node_index ==>
                #[trigger] final(self).plan.nodes@[k] == old(self).plan.nodes@[k],
            ({
                let o = old(self).plan.nodes@[node_index as int];
                let n = final(self).plan.nodes@[node_index as int];
                &&& n.status == NodeStatus::Failed
                &&& n.error matches Some(s) && s@ == error@
                &&& n.completed_at == Some(now)
                &&& n.id == o.id && n.label == o.label && n.action == o.action
                &&& n.rollback_action == o.rollback_action && n.result == o.result
                &&& n.started_at == o.started_at
            }),
            r.0@.len() == old(self).rollbacks@.len(),
            forall|k: int| 0 <= k < r.0@.len() ==> (#[trigger] r.0@[k])@ == old(self).rollbacks@[old(
                self,
            ).rollbacks@.len() - 1 - k].1@,
            r.1.plan_id == old(self).plan.id && r.1.status == PlanStatus::Failed
                && r.1.message@ == "Node failed: "@ + error@,
    {
        let message = String::from_str("Node failed: ").concat(error.as_str());
        let mut node = self.plan.nodes.remove(node_index);
        node.status = NodeStatus::Failed;
        node.error = Some(error);
        node.completed_at = Some(now);
        self.plan.nodes.insert(node_index, node);
        self.plan.status = PlanStatus::Failed;
        let mut actions: Vec<ActionType> = Vec::new();
        let n = self.rollbacks.len();
        let mut i: usize = 0;
        while i < n
            invariant
                n == self.rollbacks@.len(),
                i <= n,
                actions@.len() == i,
                forall|k: int| 0 <= k < i ==> (#[trigger] actions@[k])@ == self.rollbacks@[n - 1 - k].1@,
            decreases n - i,
        {
            actions.push(self.rollbacks[n - 1 - i].1.duplicate());
            i += 1;
        }
        (actions, PlanEvent { plan_id: self.plan.id, status: PlanStatus::Failed, message })
    }

    /// After the last step: a run stopped by cancellation ends cancelled;
    /// otherwise the plan completes when every node completed or was
    /// skipped, and fails otherwise.
    pub fn finish(&mut self, cancelled: bool, now: i128) -> (e: PlanEvent)
        ensures
            final(self).order == old(self).order,
            final(self).cursor == old(self).cursor,
            final(self).rollbacks == old(self).rollbacks,
            final(self).plan == (ExecutionPlan {
                status: final(self).plan.status,
                completed_at: Some(now),
                ..old(self).plan
            }),
            cancelled ==> final(self).plan.status == PlanStatus::Cancelled && e.message@ == "Plan cancelled"@,
            !cancelled && all_done_ok(old(self).plan.nodes@) ==> final(self).plan.status == PlanStatus::Completed
                && e.message@ == "Plan completed"@,
            !cancelled && !all_done_ok(old(self).plan.nodes@) ==> final(self).plan.status == PlanStatus::Failed
                && e.message@ == "Plan completed with failures"@,
            e.plan_id == old(self).plan.id,
            e.status == final(self).plan.status,
    {
        self.plan.completed_at = Some(now);
        if cancelled {
            self.plan.status = PlanStatus::Cancelled;
            return plan_event(self.plan.id, PlanStatus::Cancelled, "Plan cancelled");
        }
        let mut all_done = true;
        let mut i: usize = 0;
        while i < self.plan.nodes.len()
            invariant
                i <= self.plan.nodes@.len(),
                all_done == forall|k: int| 0 <= k < i ==> is_done_ok(#[trigger] self.plan.nodes@[k].status),
            decreases self.plan.nodes@.len() - i,
        {
            let st = self.plan.nodes[i].status;
            if !(st == NodeStatus::Completed || st == NodeStatus::Skipped) {
                all_done = false;
            }
            i += 1;
        }
        if all_done {
            self.plan.status = PlanStatus::Completed;
            plan_event(self.plan.id, PlanStatus::Completed, "Plan completed")
        } else {
            self.plan.status = PlanStatus::Failed;
            plan_event(self.plan.id, PlanStatus::Failed, "Plan completed with failures")
        }
    }
}


// ── Laws ─────────────────────────────────────────────────────

proof fn lemma_least_index(s: Seq<ExecutionPlan>, id: u128, w: int) -> (m: int)
    requires
        0 <= w < s.len(),
        s[w].id == id,
    ensures
        0 <= m <= w,
        s[m].id == id,
        forall|k: int| 0 <= k < m ==> s[k].id != id,
    decreases w,
{
    if exists|k: int| 0 <= k < w && s[k].id == id {
        let k = choose|k: int| 0 <= k < w && s[k].id == id;
        lemma_least_index(s, id, k)
    } else {
        w
    }
}

/// A plan that was just put on the approval list can be found there again:
/// approving or rejecting it right after it was submitted succeeds. (When
/// an earlier pending plan shares its id, that one is found first.)
pub proof fn law_submitted_plan_is_found(pending: Seq<ExecutionPlan>, plan: ExecutionPlan)
    ensures
        first_pending(pending.push(plan), plan.id) is Some,
        (forall|k: int| 0 <= k < pending.len() ==> pending[k].id != plan.id) ==> first_pending(
            pending.push(plan),
            plan.id,
        ) == Some(pending.len() as int),
{
    let s = pending.push(plan);
    if exists|i: int| 0 <= i < pending.len() && pending[i].id == plan.id {
        let w = choose|i: int| 0 <= i < pending.len() && pending[i].id == plan.id;
        let m = lemma_least_index(pending, plan.id, w);
        assert forall|k: int| 0 <= k < m implies s[k].id != plan.id by {
            assert(s[k] == pending[k]);
        }
        lemma_first_pending_at(s, plan.id, m);
    } else {
        assert forall|k: int| 0 <= k < pending.len() implies s[k].id != plan.id by {
            assert(s[k] == pending[k]);
        }
        lemma_first_pending_at(s, plan.id, pending.len() as int);
    }
}

} // verus!

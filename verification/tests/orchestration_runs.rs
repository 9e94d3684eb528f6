use enaos::actions::ActionType;
use enaos::engine::{should_retry, start_run, RunStep};
use enaos::orchestration::{
    dependencies_met, topological_sort, EdgeCondition, ExecutionPlan, NodeStatus, PlanEdge, PlanNode, PlanStatus,
};

fn node(label: &str) -> PlanNode {
    PlanNode::new(label, ActionType::Notify { title: label.into(), body: String::new() })
}

fn chain_plan() -> ExecutionPlan {
    let a = node("a");
    let b = node("b");
    let c = node("c");
    let edges = vec![
        PlanEdge { from: b.id, to: c.id, condition: EdgeCondition::Success },
        PlanEdge { from: a.id, to: b.id, condition: EdgeCondition::Success },
    ];
    ExecutionPlan::new("chain", "three steps", vec![c, b, a], edges)
}

#[test]
fn topological_sort_puts_dependencies_first() {
    let plan = chain_plan();
    let ids: Vec<u128> = plan.nodes.iter().map(|n| n.id).collect();
    let (c, b, a) = (ids[0], ids[1], ids[2]);
    let order = topological_sort(&plan);
    assert_eq!(order.len(), 3);
    let pos = |x: u128| order.iter().position(|y| *y == x).unwrap();
    assert!(pos(a) < pos(b));
    assert!(pos(b) < pos(c));
}

#[test]
fn new_plan_and_node_defaults() {
    let plan = chain_plan();
    assert_eq!(plan.status, PlanStatus::PendingApproval);
    assert!(!plan.requires_approval());
    let n = node("x").with_retries(5);
    assert_eq!(n.max_retries, 5);
    assert_eq!(n.status, NodeStatus::Pending);
    assert!(n.can_retry());
    let n = n.requires_approval();
    assert!(n.requires_approval);
    assert_eq!(plan.progress(), (0, 3));
}

#[test]
fn dependencies_met_waits_for_upstream() {
    let mut plan = chain_plan();
    let b = plan.nodes[1].id;
    assert!(!dependencies_met(b, &plan));
    plan.nodes[2].status = NodeStatus::Completed;
    assert!(dependencies_met(b, &plan));
}

#[test]
fn dependencies_follow_edge_conditions() {
    let a = node("a");
    let b = node("b");
    let (ida, idb) = (a.id, b.id);
    let always = ExecutionPlan::new("p", "", vec![a.clone(), b.clone()], vec![PlanEdge { from: ida, to: idb, condition: EdgeCondition::Always }]);
    let on_failure = ExecutionPlan::new("p", "", vec![a, b], vec![PlanEdge { from: ida, to: idb, condition: EdgeCondition::OnFailure }]);
    for (status, runs_always, runs_on_failure) in [
        (NodeStatus::Pending, false, false),
        (NodeStatus::Running, false, false),
        (NodeStatus::Completed, true, false),
        (NodeStatus::Failed, true, true),
        (NodeStatus::Skipped, true, false),
        (NodeStatus::Cancelled, true, false),
    ] {
        let mut p = always.clone();
        p.nodes[0].status = status;
        assert_eq!(dependencies_met(idb, &p), runs_always);
        let mut q = on_failure.clone();
        q.nodes[0].status = status;
        assert_eq!(dependencies_met(idb, &q), runs_on_failure);
    }
}

#[test]
fn retry_policy_counts_failed_attempts() {
    assert!(should_retry(1, 2));
    assert!(should_retry(2, 2));
    assert!(!should_retry(3, 2));
}

#[test]
fn run_completes_when_every_node_succeeds() {
    let (mut run, started) = start_run(chain_plan());
    assert_eq!(started.status, PlanStatus::Running);
    let mut executed = 0;
    loop {
        match run.next_step(false, 100) {
            RunStep::Stop => break,
            RunStep::Execute { node_index } => {
                run.node_succeeded(node_index, 101);
                executed += 1;
            }
            RunStep::Skipped { .. } | RunStep::Missing => panic!("unexpected step"),
        }
    }
    assert_eq!(executed, 3);
    let done = run.finish(false, 102);
    assert_eq!(done.status, PlanStatus::Completed);
    assert_eq!(run.plan.completed_at, Some(102));
}

#[test]
fn cancelled_run_ends_cancelled() {
    let (mut run, _) = start_run(chain_plan());
    assert!(matches!(run.next_step(true, 1), RunStep::Stop));
    let done = run.finish(true, 2);
    assert_eq!(done.status, PlanStatus::Cancelled);
    assert_eq!(done.message, "Plan cancelled");
    assert_eq!(run.plan.status, PlanStatus::Cancelled);
    assert_eq!(run.plan.completed_at, Some(2));
}

#[test]
fn run_fails_and_skips_dependents() {
    let (mut run, _) = start_run(chain_plan());
    match run.next_step(false, 1) {
        RunStep::Execute { node_index } => {
            let (rollbacks, event) = run.node_failed(node_index, "boom".into(), 2);
            assert!(rollbacks.is_empty());
            assert_eq!(event.status, PlanStatus::Failed);
        }
        _ => panic!("first node should execute"),
    }
    assert_eq!(run.plan.failed_count(), 1);
    let done = run.finish(false, 3);
    assert_eq!(done.status, PlanStatus::Failed);
}

#[test]
fn cancelled_run_stops() {
    let (mut run, _) = start_run(chain_plan());
    assert!(matches!(run.next_step(true, 1), RunStep::Stop));
    assert_eq!(run.cursor, 0);
}

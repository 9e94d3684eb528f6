//! The bar's timeline of a running plan: what it shows for each plan and
//! node status, and how plan and node events update it.
use vstd::prelude::*;
use vstd::string::*;

use crate::text::{decimal, decimal_text, text_eq};

verus! {

/// Display state for a single orchestration node.
#[derive(Debug, Clone)]
pub struct NodeDisplay {
    pub id: String,
    pub label: String,
    /// Pending, Running, Completed, Failed, Skipped, Cancelled.
    pub status: String,
    pub error: Option<String>,
}

/// Overall orchestration display state.
#[derive(Debug, Clone)]
pub struct OrchestrationDisplay {
    pub plan_id: Option<String>,
    pub plan_title: String,
    /// Hidden, PendingApproval, Running, Completed, Failed, etc.
    pub status: String,
    pub message: String,
    pub nodes: Vec<NodeDisplay>,
}

impl OrchestrationDisplay {
    /// Nothing to show.
    pub fn empty() -> (d: Self)
        ensures
            d.plan_id is None,
            d.plan_title@.len() == 0,
            d.status@.len() == 0,
            d.message@.len() == 0,
            d.nodes@.len() == 0,
    {
        OrchestrationDisplay {
            plan_id: None,
            plan_title: String::new(),
            status: String::new(),
            message: String::new(),
            nodes: Vec::new(),
        }
    }
}

/// Which part of the timeline a plan status shows.
#[derive(Debug, Clone, Copy, PartialEq, Eq, Structural)]
pub enum TimelineMode {
    /// The approval prompt.
    Approval,
    /// The live list of nodes.
    Active,
    /// The list and a summary line, hidden again after six seconds.
    Summary,
    Hidden,
}

pub open spec fn spec_timeline_mode(status: Seq<char>) -> TimelineMode {
    if status == "PendingApproval"@ {
        TimelineMode::Approval
    } else if status == "Running"@ || status == "Approved"@ || status == "RollingBack"@ {
        TimelineMode::Active
    } else if status == "Completed"@ || status == "Failed"@ || status == "Cancelled"@ || status == "RolledBack"@ {
        TimelineMode::Summary
    } else {
        TimelineMode::Hidden
    }
}

pub fn timeline_mode(status: &str) -> (m: TimelineMode)
    ensures
        m == spec_timeline_mode(status@),
{
    if text_eq(status, "PendingApproval") {
        TimelineMode::Approval
    } else if text_eq(status, "Running") || text_eq(status, "Approved") || text_eq(status, "RollingBack") {
        TimelineMode::Active
    } else if text_eq(status, "Completed") || text_eq(status, "Failed") || text_eq(status, "Cancelled")
        || text_eq(status, "RolledBack") {
        TimelineMode::Summary
    } else {
        TimelineMode::Hidden
    }
}

/// How many nodes are in a status.
pub open spec fn count_status(nodes: Seq<NodeDisplay>, status: Seq<char>) -> nat
    decreases nodes.len(),
{
    if nodes.len() == 0 {
        0
    } else {
        count_status(nodes.drop_last(), status) + if nodes.last().status@ == status {
            1nat
        } else {
            0nat
        }
    }
}

proof fn lemma_count_le(nodes: Seq<NodeDisplay>, status: Seq<char>)
    ensures
        count_status(nodes, status) <= nodes.len(),
    decreases nodes.len(),
{
    if nodes.len() > 0 {
        lemma_count_le(nodes.drop_last(), status);
    }
}

pub fn count_in_status(nodes: &Vec<NodeDisplay>, status: &str) -> (c: usize)
    ensures
        c == count_status(nodes@, status@),
{
    let mut c: usize = 0;
    let mut i: usize = 0;
    while i < nodes.len()
        invariant
            i <= nodes@.len(),
            c == count_status(nodes@.take(i as int), status@),
            c <= i,
        decreases nodes@.len() - i,
    {
        assert(nodes@.take(i + 1).drop_last() =~= nodes@.take(i as int));
        if text_eq(nodes[i].status.as_str(), status) {
            c += 1;
        }
        i += 1;
    }
    assert(nodes@.take(i as int) =~= nodes@);
    c
}

/// The labels of the nodes still pending, joined with ", ".
pub open spec fn pending_labels(nodes: Seq<NodeDisplay>) -> Seq<Seq<char>>
    decreases nodes.len(),
{
    if nodes.len() == 0 {
        Seq::empty()
    } else {
        pending_labels(nodes.drop_last()) + if nodes.last().status@ == "Pending"@ {
            seq![nodes.last().label@]
        } else {
            Seq::empty()
        }
    }
}

pub open spec fn join_comma(parts: Seq<Seq<char>>) -> Seq<char>
    decreases parts.len(),
{
    if parts.len() == 0 {
        Seq::empty()
    } else if parts.len() == 1 {
        parts[0]
    } else {
        join_comma(parts.drop_last()) + ", "@ + parts.last()
    }
}

/// The approval prompt: "Plan: <title> — requires approval", then the
/// pending actions on a line of their own when there are any.
pub open spec fn spec_approval_text(d: OrchestrationDisplay) -> Seq<char> {
    let text = "Plan: "@ + d.plan_title@ + " — requires approval"@;
    let risky = pending_labels(d.nodes@);
    if risky.len() > 0 {
        text + "\nActions: "@ + join_comma(risky)
    } else {
        text
    }
}

pub fn approval_text(d: &OrchestrationDisplay) -> (r: String)
    ensures
        r@ == spec_approval_text(*d),
{
    let text = String::from_str("Plan: ").concat(d.plan_title.as_str()).concat(" — requires approval");
    let mut joined = String::new();
    let mut count: usize = 0;
    let mut i: usize = 0;
    while i < d.nodes.len()
        invariant
            i <= d.nodes@.len(),
            count == pending_labels(d.nodes@.take(i as int)).len(),
            joined@ == join_comma(pending_labels(d.nodes@.take(i as int))),
            count <= i,
        decreases d.nodes@.len() - i,
    {
        let ghost before = pending_labels(d.nodes@.take(i as int));
        assert(d.nodes@.take(i + 1).drop_last() =~= d.nodes@.take(i as int));
        if text_eq(d.nodes[i].status.as_str(), "Pending") {
            if count > 0 {
                joined.append(", ");
            }
            joined.append(d.nodes[i].label.as_str());
            count += 1;
            proof {
                let after = before + seq![d.nodes@[i as int].label@];
                assert(after.drop_last() =~= before);
                if before.len() == 0 {
                    assert(joined@ =~= join_comma(after));
                }
            }
        } else {
            assert(before + Seq::<Seq<char>>::empty() =~= before);
        }
        i += 1;
    }
    assert(d.nodes@.take(i as int) =~= d.nodes@);
    if count > 0 {
        text.concat("\nActions: ").concat(joined.as_str())
    } else {
        text
    }
}

/// The header of the node list: "<title>  —  <done>/<total> steps", none
/// without a title.
pub fn header_text(d: &OrchestrationDisplay) -> (r: Option<String>)
    ensures
        d.plan_title@.len() == 0 ==> r is None,
        d.plan_title@.len() > 0 ==> (r matches Some(h) && h@ == d.plan_title@ + "  —  "@ + decimal(
            count_status(d.nodes@, "Completed"@),
        ) + "/"@ + decimal(d.nodes@.len()) + " steps"@),
{
    if d.plan_title.unicode_len() == 0 {
        return None;
    }
    let completed = count_in_status(&d.nodes, "Completed");
    Some(
        d.plan_title.clone().concat("  —  ").concat(decimal_text(completed as u64).as_str()).concat("/").concat(
            decimal_text(d.nodes.len() as u64).as_str(),
        ).concat(" steps"),
    )
}

/// The icon and style class of a node status.
pub open spec fn spec_node_icon(status: Seq<char>) -> (Seq<char>, Seq<char>) {
    if status == "Pending"@ {
        ("○"@, "ena-orch-pending"@)
    } else if status == "Running"@ {
        ("●"@, "ena-orch-running"@)
    } else if status == "Completed"@ {
        ("✓"@, "ena-orch-done"@)
    } else if status == "Failed"@ {
        ("✗"@, "ena-orch-failed"@)
    } else if status == "Skipped"@ {
        ("—"@, "ena-orch-skipped"@)
    } else if status == "Cancelled"@ {
        ("⊘"@, "ena-orch-cancelled"@)
    } else {
        ("○"@, "ena-orch-pending"@)
    }
}

pub fn node_icon(status: &str) -> (r: (&'static str, &'static str))
    ensures
        (r.0@, r.1@) == spec_node_icon(status@),
{
    if text_eq(status, "Pending") {
        ("○", "ena-orch-pending")
    } else if text_eq(status, "Running") {
        ("●", "ena-orch-running")
    } else if text_eq(status, "Completed") {
        ("✓", "ena-orch-done")
    } else if text_eq(status, "Failed") {
        ("✗", "ena-orch-failed")
    } else if text_eq(status, "Skipped") {
        ("—", "ena-orch-skipped")
    } else if text_eq(status, "Cancelled") {
        ("⊘", "ena-orch-cancelled")
    } else {
        ("○", "ena-orch-pending")
    }
}

/// The text of a node row: a failed node with its error ("error" when
/// none), a running one with an ellipsis.
pub open spec fn spec_node_text(n: NodeDisplay) -> Seq<char> {
    if n.status@ == "Failed"@ {
        n.label@ + "  —  "@ + match n.error {
            Some(e) => e@,
            None => "error"@,
        }
    } else if n.status@ == "Running"@ {
        n.label@ + "…"@
    } else {
        n.label@
    }
}

pub fn node_text(n: &NodeDisplay) -> (r: String)
    ensures
        r@ == spec_node_text(*n),
{
    if text_eq(n.status.as_str(), "Failed") {
        let err = match &n.error {
            Some(e) => e.as_str(),
            None => "error",
        };
        n.label.clone().concat("  —  ").concat(err)
    } else if text_eq(n.status.as_str(), "Running") {
        n.label.clone().concat("…")
    } else {
        n.label.clone()
    }
}

/// The summary line once a plan is over.
pub open spec fn spec_summary_text(d: OrchestrationDisplay) -> Seq<char> {
    let total = decimal(d.nodes@.len());
    let completed = decimal(count_status(d.nodes@, "Completed"@));
    let failed = decimal(count_status(d.nodes@, "Failed"@));
    let skipped = decimal(count_status(d.nodes@, "Skipped"@));
    let s = d.status@;
    let text = if s == "Completed"@ {
        "✓ Plan completed — "@ + completed + "/"@ + total + " steps"@
    } else if s == "Failed"@ {
        "✗ Plan failed — "@ + completed + "/"@ + total + " steps, "@ + failed + " failed"@
    } else if s == "Cancelled"@ {
        "⊘ Plan cancelled — "@ + completed + "/"@ + total + " completed"@
    } else if s == "RolledBack"@ {
        "⟳ Rolled back — "@ + skipped + " skipped"@
    } else {
        completed + "/"@ + total + " steps"@
    };
    if d.message@.len() > 0 {
        text + "  ("@ + d.message@ + ")"@
    } else {
        text
    }
}

pub fn summary_text(d: &OrchestrationDisplay) -> (r: String)
    ensures
        r@ == spec_summary_text(*d),
{
    let total = decimal_text(d.nodes.len() as u64);
    let completed = decimal_text(count_in_status(&d.nodes, "Completed") as u64);
    let failed = decimal_text(count_in_status(&d.nodes, "Failed") as u64);
    let skipped = decimal_text(count_in_status(&d.nodes, "Skipped") as u64);
    let s = d.status.as_str();
    let text = if text_eq(s, "Completed") {
        String::from_str("✓ Plan completed — ").concat(completed.as_str()).concat("/").concat(total.as_str()).concat(
            " steps",
        )
    } else if text_eq(s, "Failed") {
        String::from_str("✗ Plan failed — ").concat(completed.as_str()).concat("/").concat(total.as_str()).concat(
            " steps, ",
        ).concat(failed.as_str()).concat(" failed")
    } else if text_eq(s, "Cancelled") {
        String::from_str("⊘ Plan cancelled — ").concat(completed.as_str()).concat("/").concat(total.as_str()).concat(
            " completed",
        )
    } else if text_eq(s, "RolledBack") {
        String::from_str("⟳ Rolled back — ").concat(skipped.as_str()).concat(" skipped")
    } else {
        completed.concat("/").concat(total.as_str()).concat(" steps")
    };
    if d.message.unicode_len() > 0 {
        text.concat("  (").concat(d.message.as_str()).concat(")")
    } else {
        text
    }
}

/// Update the node with this id (the first one, if several share it): its
/// status, label and error; the other nodes stay.
pub fn update_node(d: &mut OrchestrationDisplay, node_id: &str, status: &str, label: &str, error: Option<String>)
    ensures
        final(d).plan_id == old(d).plan_id,
        final(d).plan_title == old(d).plan_title,
        final(d).status == old(d).status,
        final(d).message == old(d).message,
        final(d).nodes@.len() == old(d).nodes@.len(),
        forall|k: int| 0 <= k < old(d).nodes@.len() ==> {
            let n = #[trigger] old(d).nodes@[k];
            let first = n.id@ == node_id@ && forall|j: int| 0 <= j < k ==> old(d).nodes@[j].id@ != node_id@;
            if first {
                &&& final(d).nodes@[k].id@ == n.id@
                &&& final(d).nodes@[k].status@ == status@
                &&& final(d).nodes@[k].label@ == label@
                &&& final(d).nodes@[k].error == error
            } else {
                final(d).nodes@[k] == n
            }
        },
{
    let mut i: usize = 0;
    while i < d.nodes.len()
        invariant
            i <= d.nodes@.len(),
            d.nodes@ == old(d).nodes@,
            d.plan_id == old(d).plan_id,
            d.plan_title == old(d).plan_title,
            d.status == old(d).status,
            d.message == old(d).message,
            forall|j: int| 0 <= j < i ==> d.nodes@[j].id@ != node_id@,
        decreases d.nodes@.len() - i,
    {
        if text_eq(d.nodes[i].id.as_str(), node_id) {
            let ghost before = d.nodes@;
            let mut node = d.nodes.remove(i);
            node.status = String::from_str(status);
            node.label = String::from_str(label);
            node.error = error;
            d.nodes.insert(i, node);
            assert forall|k: int| 0 <= k < before.len() && k != i implies d.nodes@[k] == before[k] by {
            }
            return;
        }
        i += 1;
    }
}

} // verus!

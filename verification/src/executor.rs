//! The action executor's bookkeeping: which actions are running, the
//! permission a request runs under, and the lifecycle events it publishes
//! (requested, started, completed, failed, cancelled). Running the action's
//! handler is left to the caller, between `begin` and `complete`.
use vstd::prelude::*;
use vstd::string::*;

use crate::actions::{
    ActionRequest, ActionStatus, PermissionLevel, action_label, effective_permission,
    needs_confirmation_notice, spec_action_label, spec_default_permission, spec_effective_permission,
};
use crate::ids::{format_id, uuid_text};

verus! {

/// An action lifecycle event, as the executor publishes it.
#[derive(Debug, Clone)]
pub enum ActionEvent {
    Requested { action_id: u128, action_type: String, message: String },
    Started { action_id: u128, message: String },
    Completed { action_id: u128, result: String },
    Failed { action_id: u128, error: String },
    Cancelled { action_id: u128 },
}

/// The event announcing that action `action_id` reached `status`. A request
/// carries the status name "pending" as its type; a failure carries the
/// status's own error, whatever the message.
pub fn lifecycle_event(action_id: u128, status: &ActionStatus, message: &str) -> (e: ActionEvent)
    ensures
        match *status {
            ActionStatus::Pending => e matches ActionEvent::Requested { action_id: a, action_type, message: m }
                && a == action_id && action_type@ == "pending"@ && m@ == message@,
            ActionStatus::Running => e matches ActionEvent::Started { action_id: a, message: m }
                && a == action_id && m@ == message@,
            ActionStatus::Completed => e matches ActionEvent::Completed { action_id: a, result }
                && a == action_id && result@ == message@,
            ActionStatus::Failed { error } => e matches ActionEvent::Failed { action_id: a, error: f }
                && a == action_id && f@ == error@,
            ActionStatus::Cancelled => e matches ActionEvent::Cancelled { action_id: a } && a == action_id,
        },
{
    match status {
        ActionStatus::Pending => ActionEvent::Requested {
            action_id,
            action_type: crate::actions::action_type_string(status),
            message: String::from_str(message),
        },
        ActionStatus::Running => ActionEvent::Started { action_id, message: String::from_str(message) },
        ActionStatus::Completed => ActionEvent::Completed { action_id, result: String::from_str(message) },
        ActionStatus::Failed { error } => ActionEvent::Failed { action_id, error: error.clone() },
        ActionStatus::Cancelled => ActionEvent::Cancelled { action_id },
    }
}

/// What starting a request yields.
pub struct Begun {
    /// The request, under the permission it runs with.
    pub request: ActionRequest,
    /// Whether the request asked for a confirmation that is granted automatically.
    pub auto_approved: bool,
    /// "Action requested", published first.
    pub requested: ActionEvent,
    /// "Starting: <label>", published once the action is tracked.
    pub started: ActionEvent,
}

/// Tracks the actions that are running, so that they can be cancelled.
pub struct ActionExecutor {
    running: Vec<u128>,
}

impl View for ActionExecutor {
    type V = Set<u128>;

    closed spec fn view(&self) -> Set<u128> {
        Set::new(|id: u128| self.running@.contains(id))
    }
}

impl ActionExecutor {
    /// Each running action is tracked once.
    pub closed spec fn wf(&self) -> bool {
        self.running@.no_duplicates()
    }

    pub fn new() -> (r: Self)
        ensures
            r.wf(),
            r@ == Set::<u128>::empty(),
    {
        let r = ActionExecutor { running: Vec::new() };
        assert(r@ =~= Set::<u128>::empty());
        r
    }

    fn position(&self, action_id: u128) -> (r: Option<usize>)
        ensures
            match r {
                Some(i) => i < self.running@.len() && self.running@[i as int] == action_id,
                None => !self.running@.contains(action_id),
            },
    {
        let mut i: usize = 0;
        while i < self.running.len()
            invariant
                i <= self.running@.len(),
                forall|k: int| 0 <= k < i ==> self.running@[k] != action_id,
            decreases self.running@.len() - i,
        {
            if self.running[i] == action_id {
                return Some(i);
            }
            i += 1;
        }
        None
    }

    fn track(&mut self, action_id: u128)
        requires
            old(self).wf(),
        ensures
            final(self).wf(),
            final(self)@ == old(self)@.insert(action_id),
    {
        let ghost before = self.running@;
        if self.position(action_id).is_none() {
            self.running.push(action_id);
            proof {
                assert forall|a: int, b: int| 0 <= a < b < self.running@.len() implies self.running@[a]
                    != self.running@[b] by {
                    if b == before.len() {
                        assert(before.contains(before[a]));
                    }
                }
                assert forall|x: u128| self.running@.contains(x) <==> before.contains(x) || x == action_id by {
                    if self.running@.contains(x) && x != action_id {
                        let j = choose|j: int| 0 <= j < self.running@.len() && self.running@[j] == x;
                        assert(before[j] == x);
                    }
                    if before.contains(x) {
                        let j = choose|j: int| 0 <= j < before.len() && before[j] == x;
                        assert(self.running@[j] == x);
                    }
                    if x == action_id {
                        assert(self.running@[before.len() as int] == x);
                    }
                }
            }
        }
        assert(self@ =~= old(self)@.insert(action_id));
    }

    /// Stop tracking an action; whether it was tracked.
    fn untrack(&mut self, action_id: u128) -> (found: bool)
        requires
            old(self).wf(),
        ensures
            final(self).wf(),
            found == old(self)@.contains(action_id),
            final(self)@ == old(self)@.remove(action_id),
    {
        let ghost before = self.running@;
        match self.position(action_id) {
            Some(i) => {
                self.running.remove(i);
                proof {
                    assert(self.running@ =~= before.subrange(0, i as int) + before.subrange(i + 1, before.len() as int));
                    assert forall|x: u128| self.running@.contains(x) <==> before.contains(x) && x != action_id by {
                        if self.running@.contains(x) {
                            let j = choose|j: int| 0 <= j < self.running@.len() && self.running@[j] == x;
                            if j < i {
                                assert(before[j] == x);
                                assert(j != i);
                            } else {
                                assert(before[j + 1] == x);
                            }
                        }
                        if before.contains(x) && x != action_id {
                            let j = choose|j: int| 0 <= j < before.len() && before[j] == x;
                            assert(j != i);
                            if j < i {
                                assert(self.running@[j] == x);
                            } else {
                                assert(self.running@[j - 1] == x);
                            }
                        }
                    }
                    assert(before.contains(action_id)) by {
                        assert(before[i as int] == action_id);
                    }
                }
                assert(self@ =~= old(self)@.remove(action_id));
                true
            },
            None => {
                assert(self@ =~= old(self)@.remove(action_id));
                false
            },
        }
    }

    /// Start executing a request: a terminal command marked `Safe` is raised
    /// to `ConfirmationRequired`; the request is announced, tracked as
    /// running, and announced as starting.
    pub fn begin(&mut self, request: ActionRequest) -> (r: Begun)
        requires
            old(self).wf(),
        ensures
            final(self).wf(),
            final(self)@ == old(self)@.insert(request.id),
            r.request.id == request.id,
            r.request.action@ == request.action@,
            r.request.permission == spec_effective_permission(request.permission, request.action@),
            r.auto_approved == (r.request.permission == PermissionLevel::ConfirmationRequired
                && spec_default_permission(request.action@) != PermissionLevel::ConfirmationRequired),
            r.requested matches ActionEvent::Requested { action_id, action_type, message }
                && action_id == request.id && action_type@ == "pending"@ && message@ == "Action requested"@,
            r.started matches ActionEvent::Started { action_id, message } && action_id == request.id
                && message@ == "Starting: "@ + spec_action_label(request.action@),
    {
        let mut request = request;
        request.permission = effective_permission(request.permission, &request.action);
        let auto_approved = needs_confirmation_notice(request.permission, &request.action);
        let requested = lifecycle_event(request.id, &ActionStatus::Pending, "Action requested");
        self.track(request.id);
        let label = action_label(&request.action);
        let started = lifecycle_event(
            request.id,
            &ActionStatus::Running,
            String::from_str("Starting: ").concat(label.as_str()).as_str(),
        );
        Begun { request, auto_approved, requested, started }
    }

    /// Finish an execution with its handler's outcome: the action stops
    /// running, and its completion or failure is announced and returned.
    pub fn complete(&mut self, action_id: u128, outcome: Result<String, String>) -> (r: (
        ActionEvent,
        Result<u128, String>,
    ))
        requires
            old(self).wf(),
        ensures
            final(self).wf(),
            final(self)@ == old(self)@.remove(action_id),
            match outcome {
                Ok(m) => (r.0 matches ActionEvent::Completed { action_id: a, result } && a == action_id
                    && result@ == m@) && r.1 == Ok::<u128, String>(action_id),
                Err(e) => (r.0 matches ActionEvent::Failed { action_id: a, error } && a == action_id
                    && error@ == e@) && (r.1 matches Err(f) && f@ == e@),
            },
    {
        self.untrack(action_id);
        match outcome {
            Ok(message) => {
                let e = lifecycle_event(action_id, &ActionStatus::Completed, message.as_str());
                (e, Ok(action_id))
            },
            Err(error) => {
                let e = lifecycle_event(
                    action_id,
                    &ActionStatus::Failed { error: error.clone() },
                    error.as_str(),
                );
                (e, Err(error))
            },
        }
    }

    /// Cancel a running action: it stops running and its cancellation is
    /// announced; an action that is not running cannot be cancelled.
    pub fn cancel(&mut self, action_id: u128) -> (r: Result<ActionEvent, String>)
        requires
            old(self).wf(),
        ensures
            final(self).wf(),
            final(self)@ == old(self)@.remove(action_id),
            old(self)@.contains(action_id) ==> (r matches Ok(ActionEvent::Cancelled { action_id: a })
                && a == action_id),
            !old(self)@.contains(action_id) ==> (r matches Err(m) && m@ == "No running action with id "@
                + uuid_text(action_id)),
    {
        if self.untrack(action_id) {
            Ok(lifecycle_event(action_id, &ActionStatus::Cancelled, "Action cancelled"))
        } else {
            Err(String::from_str("No running action with id ").concat(format_id(action_id).as_str()))
        }
    }

    /// The running actions, each once.
    pub fn list_running(&self) -> (r: Vec<u128>)
        requires
            self.wf(),
        ensures
            r@.no_duplicates(),
            forall|id: u128| r@.contains(id) <==> self@.contains(id),
    {
        let mut r: Vec<u128> = Vec::new();
        let mut i: usize = 0;
        while i < self.running.len()
            invariant
                i <= self.running@.len(),
                self.running@.no_duplicates(),
                r@ == self.running@.take(i as int),
            decreases self.running@.len() - i,
        {
            r.push(self.running[i]);
            i += 1;
            assert(r@ =~= self.running@.take(i as int));
        }
        assert(r@ =~= self.running@);
        r
    }
}

/// An action can be cancelled exactly while it runs: right after `begin`
/// it is running, so `cancel` succeeds; once `complete` or `cancel` ended it,
/// it is not, so a later `cancel` fails and changes nothing.
pub proof fn law_cancel_only_while_running(running: Set<u128>, id: u128)
    ensures
        running.insert(id).contains(id),
        !running.insert(id).remove(id).contains(id),
        !running.remove(id).contains(id),
        running.remove(id).remove(id) == running.remove(id),
{
    assert(running.remove(id).remove(id) =~= running.remove(id));
}

} // verus!

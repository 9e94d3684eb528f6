use enaos::actions::{
    action_label, action_type_string, effective_permission, needs_confirmation_notice, ActionRequest, ActionStatus,
    ActionType, PermissionLevel,
};
use enaos::engine::EngineState;
use enaos::events::{EventKind, Subscription};
use enaos::orchestration::{ExecutionPlan, PlanNode, PlanStatus};
use enaos::server::{
    action_request, action_started_reply, cancel_action_reply, delete_snapshot_reply, get_snapshot_reply,
    limit_or, parse_action_type, plan_command, snapshot_label, subscribe_reply, take_snapshot_reply,
    terminate_reply, ActionParams, Payload, PlanCommand, Reply, DEFAULT_SNAPSHOT_LIMIT,
};

fn params() -> ActionParams {
    ActionParams {
        app: None,
        url: None,
        title: None,
        command: None,
        args: Vec::new(),
        workspace: None,
        query: None,
        path: None,
        action: None,
        text: None,
        body: None,
    }
}

fn error_of(r: &Reply) -> (String, String) {
    match r {
        Reply::Error { code, message } => (code.clone(), message.clone()),
        _ => panic!("expected an error reply"),
    }
}

fn note_of(r: &Reply) -> String {
    match r {
        Reply::Done { message: Some(m) } => m.clone(),
        _ => panic!("expected a note"),
    }
}

#[test]
fn parse_open_app_reads_app_param() {
    let mut p = params();
    p.app = Some("Firefox".to_string());
    match parse_action_type("open_app", &p) {
        Ok(ActionType::OpenApp { app }) => assert_eq!(app, "Firefox"),
        _ => panic!("expected OpenApp"),
    }
}

#[test]
fn parse_missing_text_param_reads_empty() {
    let p = params();
    match parse_action_type("open_url", &p) {
        Ok(ActionType::OpenUrl { url }) => assert_eq!(url, ""),
        _ => panic!("expected OpenUrl"),
    }
}

#[test]
fn parse_launch_command_keeps_args() {
    let mut p = params();
    p.command = Some("ls".to_string());
    p.args = vec!["-la".to_string(), "/tmp".to_string()];
    match parse_action_type("launch_command", &p) {
        Ok(ActionType::LaunchCommand { command, args }) => {
            assert_eq!(command, "ls");
            assert_eq!(args, vec!["-la".to_string(), "/tmp".to_string()]);
        }
        _ => panic!("expected LaunchCommand"),
    }
}

#[test]
fn parse_unknown_action_is_error() {
    match parse_action_type("fly", &params()) {
        Err(m) => assert_eq!(m, "Unknown action: fly"),
        _ => panic!("expected an error"),
    }
}

#[test]
fn action_request_uses_default_permission() {
    let mut p = params();
    p.workspace = Some("2".to_string());
    match action_request("switch_workspace", &p) {
        Ok(req) => assert_eq!(req.permission, PermissionLevel::Privileged),
        Err(_) => panic!("expected a request"),
    }
    let r = action_request("nope", &p);
    match r {
        Err(e) => {
            let (code, message) = error_of(&e);
            assert_eq!(code, "INVALID_ACTION");
            assert_eq!(message, "Unknown action: nope");
        }
        Ok(_) => panic!("expected INVALID_ACTION"),
    }
}

#[test]
fn default_permissions_by_kind() {
    assert_eq!(ActionRequest::default_permission(&ActionType::ReadWindowTitle), PermissionLevel::Safe);
    assert_eq!(
        ActionRequest::default_permission(&ActionType::LaunchCommand { command: "x".into(), args: vec![] }),
        PermissionLevel::ConfirmationRequired
    );
    assert_eq!(
        ActionRequest::default_permission(&ActionType::ClipboardSet { text: "x".into() }),
        PermissionLevel::Privileged
    );
}

#[test]
fn safe_launch_command_is_raised_to_confirmation() {
    let cmd = ActionType::LaunchCommand { command: "rm".into(), args: vec![] };
    assert_eq!(effective_permission(PermissionLevel::Safe, &cmd), PermissionLevel::ConfirmationRequired);
    assert_eq!(effective_permission(PermissionLevel::Privileged, &cmd), PermissionLevel::Privileged);
    let open = ActionType::OpenApp { app: "a".into() };
    assert!(needs_confirmation_notice(PermissionLevel::ConfirmationRequired, &open));
    assert!(!needs_confirmation_notice(PermissionLevel::ConfirmationRequired, &cmd));
}

#[test]
fn action_labels_and_status_names() {
    assert_eq!(action_label(&ActionType::OpenApp { app: "Files".into() }), "Open Files");
    assert_eq!(action_label(&ActionType::FocusWindow { app: None, title: Some("Docs".into()) }), "Focus Docs");
    assert_eq!(action_label(&ActionType::FocusWindow { app: None, title: None }), "Focus window");
    assert_eq!(action_label(&ActionType::SearchFiles { query: "cv".into(), path: None }), "Search 'cv'");
    assert_eq!(action_type_string(&ActionStatus::Failed { error: "e".into() }), "failed");
    assert_eq!(action_type_string(&ActionStatus::Cancelled), "cancelled");
}

#[test]
fn action_replies() {
    match action_started_reply(Ok(7)) {
        Reply::Data { payload: Payload::ActionStarted { action_id } } => assert_eq!(action_id, 7),
        _ => panic!("expected ActionStarted"),
    }
    let (code, message) = error_of(&action_started_reply(Err("busy".into())));
    assert_eq!(code, "ACTION_FAILED");
    assert_eq!(message, "busy");
    let id = 0x67e55044_10b1_426f_9247_bb680e5fe0c8u128;
    assert_eq!(
        note_of(&cancel_action_reply(id, Ok(()))),
        "Action 67e55044-10b1-426f-9247-bb680e5fe0c8 cancelled"
    );
    assert_eq!(error_of(&cancel_action_reply(id, Err("gone".into()))).0, "CANCEL_FAILED");
    assert_eq!(
        note_of(&terminate_reply(id)),
        "Terminate request for 67e55044-10b1-426f-9247-bb680e5fe0c8 (not yet implemented)"
    );
}

#[test]
fn subscribe_reply_counts_kinds() {
    let sub = Subscription { kinds: vec![EventKind::System, EventKind::Window] };
    assert_eq!(note_of(&subscribe_reply(&sub)), "Subscribed to 2 event kind(s)");
    assert_eq!(note_of(&subscribe_reply(&Subscription { kinds: vec![] })), "Subscribed to 0 event kind(s)");
}

fn approval_plan() -> ExecutionPlan {
    let node = PlanNode::new("Run build", ActionType::LaunchCommand { command: "make".into(), args: vec![] })
        .requires_approval();
    ExecutionPlan::new("Build", "build it", vec![node], vec![])
}

#[test]
fn plan_commands_submit_approve_list() {
    let mut engine = EngineState::new();
    let plan = approval_plan();
    let id = plan.id;
    let (reply, event) = plan_command(&mut engine, PlanCommand::Submit { plan: Ok(plan) });
    match reply {
        Reply::Data { payload: Payload::PlanSubmitted { plan_id } } => assert_eq!(plan_id, id),
        _ => panic!("expected PlanSubmitted"),
    }
    assert_eq!(event.unwrap().status, PlanStatus::PendingApproval);
    assert_eq!(engine.pending_approval.len(), 1);
    let (reply, event) = plan_command(&mut engine, PlanCommand::Approve { plan_id: id });
    assert!(note_of(&reply).ends_with(" approved"));
    assert_eq!(event.unwrap().status, PlanStatus::Approved);
    assert_eq!(engine.pending_approval.len(), 0);
    assert_eq!(engine.active_plans.len(), 1);
    let (reply, _) = plan_command(&mut engine, PlanCommand::List);
    match reply {
        Reply::Data { payload: Payload::Plans { plans } } => assert_eq!(plans.len(), 1),
        _ => panic!("expected Plans"),
    }
}

#[test]
fn plan_commands_errors() {
    let mut engine = EngineState::new();
    let id = 0x1234u128;
    let (reply, event) = plan_command(&mut engine, PlanCommand::Approve { plan_id: id });
    let (code, message) = error_of(&reply);
    assert_eq!(code, "APPROVE_FAILED");
    assert_eq!(message, "No pending plan with id 00000000-0000-0000-0000-000000001234");
    assert!(event.is_none());
    assert_eq!(error_of(&plan_command(&mut engine, PlanCommand::Reject { plan_id: id }).0).0, "REJECT_FAILED");
    let (code, message) = error_of(&plan_command(&mut engine, PlanCommand::Cancel { plan_id: id }).0);
    assert_eq!(code, "CANCEL_FAILED");
    assert_eq!(message, "No active plan with id 00000000-0000-0000-0000-000000001234");
    let (code, message) =
        error_of(&plan_command(&mut engine, PlanCommand::Submit { plan: Err("missing field".into()) }).0);
    assert_eq!(code, "INVALID_PLAN");
    assert_eq!(message, "Invalid plan: missing field");
}

#[test]
fn reject_removes_pending_plan() {
    let mut engine = EngineState::new();
    let plan = approval_plan();
    let id = plan.id;
    plan_command(&mut engine, PlanCommand::Submit { plan: Ok(plan) });
    let (reply, event) = plan_command(&mut engine, PlanCommand::Reject { plan_id: id });
    assert!(note_of(&reply).ends_with(" rejected"));
    assert_eq!(event.unwrap().status, PlanStatus::Cancelled);
    assert_eq!(engine.pending_approval.len(), 0);
    assert_eq!(engine.active_plans.len(), 0);
}

#[test]
fn snapshot_replies() {
    assert_eq!(limit_or(None, DEFAULT_SNAPSHOT_LIMIT), 20);
    assert_eq!(limit_or(Some(3), DEFAULT_SNAPSHOT_LIMIT), 3);
    assert_eq!(snapshot_label(None), "Manual snapshot");
    assert_eq!(snapshot_label(Some("Work".into())), "Work");
    match take_snapshot_reply(Ok(5)) {
        Reply::Data { payload: Payload::SnapshotTaken { snapshot_id } } => assert_eq!(snapshot_id, 5),
        _ => panic!("expected SnapshotTaken"),
    }
    assert_eq!(error_of(&take_snapshot_reply(Err("disk".into()))).0, "SNAPSHOT_FAILED");
    let (code, message) = error_of(&get_snapshot_reply(0xab, Ok(None)));
    assert_eq!(code, "NOT_FOUND");
    assert_eq!(message, "Snapshot 00000000-0000-0000-0000-0000000000ab not found");
    assert_eq!(error_of(&get_snapshot_reply(1, Err("io".into()))).0, "SNAPSHOT_GET");
    assert_eq!(note_of(&delete_snapshot_reply(0xab, Ok(true))), "Snapshot 00000000-0000-0000-0000-0000000000ab deleted");
    assert_eq!(error_of(&delete_snapshot_reply(0xab, Ok(false))).0, "NOT_FOUND");
    assert_eq!(error_of(&delete_snapshot_reply(0xab, Err("x".into()))).0, "SNAPSHOT_DELETE");
}

use enaos::bar::{
    action_display, apply_context, apply_timeline, context_line, keeps_polling, on_connected, on_disconnected,
    on_pong, plan_reaction, result_reaction, shows_welcome, BarState, DotColor, EventData, RestorationStep,
    ResultReaction, SystemContext, TimelineOp,
};
use enaos::command_palette::{icon_for, preview_text, update_suggestions, KeyOutcome, PaletteEntry, PaletteKey, PaletteModel};
use enaos::ipc::{classify_incoming, Incoming, WireFields};
use enaos::orchestration_ui::{
    approval_text, header_text, node_icon, node_text, summary_text, timeline_mode, update_node, NodeDisplay,
    OrchestrationDisplay, TimelineMode,
};
use enaos::restoration_ui::{
    age_text, preview_action, preview_title, relative_time_at, selected_ids, show_preview, snapshot_card,
    suggestion_text, RestorationState,
};

fn data() -> EventData {
    EventData {
        app: None,
        title: None,
        workspace: None,
        state: None,
        connected: None,
        ssid: None,
        muted: None,
        player: None,
        message: None,
        result: None,
        error: None,
    }
}

#[test]
fn connection_reactions() {
    let mut checked = false;
    let r = on_connected(&mut checked);
    assert_eq!(r.status_text, "enad: connected");
    assert!(r.check_first_run);
    assert!(checked);
    let again = on_connected(&mut checked);
    assert!(!again.check_first_run);
    let d = on_disconnected();
    assert_eq!(d.status_text, "enad: disconnected — reconnecting...");
    assert_eq!(d.dot, DotColor::Grey);
    assert!(matches!(d.state, BarState::Collapsed));
    assert_eq!(on_pong(12).status_text, "enad: connected (12ms)");
}

#[test]
fn result_reactions() {
    match result_reaction("command_result", &None, &None, &None) {
        ResultReaction::SetState { state: BarState::Result { text } } => assert_eq!(text, "No output"),
        _ => panic!("expected a result"),
    }
    match result_reaction("agent_error", &None, &Some("bad".into()), &None) {
        ResultReaction::SetState { state: BarState::Result { text } } => assert_eq!(text, "Error: bad"),
        _ => panic!("expected an error result"),
    }
    assert!(matches!(
        result_reaction("command_start", &None, &None, &None),
        ResultReaction::SetState { state: BarState::Thinking }
    ));
    match result_reaction("system_info", &None, &None, &Some("box".into())) {
        ResultReaction::StatusText { text } => assert_eq!(text, "enad: box"),
        _ => panic!("expected a status"),
    }
    assert!(matches!(result_reaction("other", &None, &None, &None), ResultReaction::Nothing));
}

#[test]
fn context_line_parts() {
    let mut c = SystemContext::new();
    assert_eq!(context_line(&c, None), Some("Network: disconnected".to_string()));
    let mut d = data();
    d.app = Some("kitty".into());
    apply_context(&mut c, "Window", "WindowFocused", &d);
    let mut n = data();
    n.connected = Some(true);
    n.ssid = Some("home".into());
    apply_context(&mut c, "System", "NetworkStatus", &n);
    let mut b = data();
    b.state = Some("discharging".into());
    apply_context(&mut c, "System", "BatteryStatus", &b);
    assert_eq!(
        context_line(&c, Some("80%".into())),
        Some("Focused: kitty  |  80%  |  WiFi: home".to_string())
    );
    b.state = Some("fully-charged".into());
    apply_context(&mut c, "System", "BatteryStatus", &b);
    assert_eq!(context_line(&c, Some("100%".into())), Some("Focused: kitty  |  WiFi: home".to_string()));
}

#[test]
fn action_indicator() {
    let mut d = data();
    d.result = Some("done".into());
    let a = action_display("System", "ActionCompleted", &d).unwrap();
    assert_eq!(a.text, "✓ done");
    assert_eq!(a.hide_after, Some(3));
    let s = action_display("System", "ActionStarted", &data()).unwrap();
    assert_eq!(s.text, "Executing action...");
    assert!(s.reveal);
    assert!(action_display("Window", "ActionStarted", &data()).is_none());
}

#[test]
fn plan_reactions_end_restorations() {
    let mut restoring = true;
    let r = plan_reaction(&mut restoring, "p1", "Running", "step 1");
    assert!(restoring);
    assert_eq!(r.dot, Some(DotColor::Amber));
    let r = plan_reaction(&mut restoring, "p1", "Completed", "all good");
    assert!(!restoring);
    assert_eq!(r.restoration, RestorationStep::Completed);
    let r = plan_reaction(&mut restoring, "p1", "Failed", "x");
    assert_eq!(r.restoration, RestorationStep::Unchanged);
    let mut restoring = false;
    let r = plan_reaction(&mut restoring, "p9", "PendingApproval", "Plan requires approval  Deploy ");
    match &r.timeline {
        TimelineOp::Show { display } => {
            assert_eq!(display.plan_title, "Deploy");
            assert_eq!(display.message, "Requires approval");
        }
        _ => panic!("expected a new display"),
    }
    let mut disp = OrchestrationDisplay::empty();
    apply_timeline(&mut disp, r.timeline);
    assert_eq!(disp.status, "PendingApproval");
}

#[test]
fn onboarding_decision() {
    assert!(shows_welcome(Some(true), Some(false)));
    assert!(!shows_welcome(Some(true), None));
    assert!(!shows_welcome(None, Some(false)));
    assert!(keeps_polling(30));
    assert!(!keeps_polling(31));
}

fn entry(id: &str) -> PaletteEntry {
    PaletteEntry { id: id.into(), action: "open_app".into(), source: "action".into() }
}

#[test]
fn palette_navigation() {
    let mut m = PaletteModel::new();
    update_suggestions(&mut m, vec![entry("a"), entry("b"), entry("c")]);
    assert!(m.visible);
    assert_eq!(m.selected, Some(0));
    assert_eq!(m.handle_key(PaletteKey::Down), KeyOutcome { consumed: true, chosen: None });
    m.handle_key(PaletteKey::Down);
    m.handle_key(PaletteKey::Down);
    assert_eq!(m.selected, Some(2));
    m.handle_key(PaletteKey::Up);
    assert_eq!(m.selected, Some(1));
    assert_eq!(preview_text(&m), Some("↳ open_app — action".to_string()));
    assert_eq!(m.handle_key(PaletteKey::Enter), KeyOutcome { consumed: true, chosen: Some(1) });
    assert!(!m.visible);
    assert_eq!(m.handle_key(PaletteKey::Down), KeyOutcome { consumed: false, chosen: None });
}

#[test]
fn palette_keeps_selection_on_narrowing() {
    let mut m = PaletteModel::new();
    let many: Vec<PaletteEntry> = (0..8).map(|i| entry(&format!("s{i}"))).collect();
    update_suggestions(&mut m, many);
    assert_eq!(m.rows.len(), 6);
    m.handle_key(PaletteKey::Down);
    update_suggestions(&mut m, vec![entry("s0"), entry("s1"), entry("s2")]);
    assert_eq!(m.selected, Some(1));
    update_suggestions(&mut m, vec![entry("zz")]);
    assert_eq!(m.selected, Some(0));
    update_suggestions(&mut m, vec![]);
    assert!(!m.visible);
    assert_eq!(icon_for("workflow"), "\u{2699}");
    assert_eq!(icon_for("nothing"), "\u{25B6}");
}

fn node(id: &str, status: &str) -> NodeDisplay {
    NodeDisplay { id: id.into(), label: format!("step {id}"), status: status.into(), error: None }
}

#[test]
fn timeline_texts() {
    assert_eq!(timeline_mode("PendingApproval"), TimelineMode::Approval);
    assert_eq!(timeline_mode("RollingBack"), TimelineMode::Active);
    assert_eq!(timeline_mode("RolledBack"), TimelineMode::Summary);
    assert_eq!(timeline_mode("Hidden"), TimelineMode::Hidden);
    let mut d = OrchestrationDisplay::empty();
    d.plan_title = "Setup".into();
    d.status = "Failed".into();
    d.nodes = vec![node("1", "Completed"), node("2", "Failed"), node("3", "Pending")];
    assert_eq!(header_text(&d), Some("Setup  —  1/3 steps".to_string()));
    assert_eq!(summary_text(&d), "✗ Plan failed — 1/3 steps, 1 failed");
    d.message = "disk full".into();
    assert_eq!(summary_text(&d), "✗ Plan failed — 1/3 steps, 1 failed  (disk full)");
    assert_eq!(approval_text(&d), "Plan: Setup — requires approval\nActions: step 3");
    assert_eq!(node_icon("Completed"), ("✓", "ena-orch-done"));
    assert_eq!(node_text(&node("4", "Running")), "step 4…");
    assert_eq!(node_text(&node("5", "Failed")), "step 5  —  error");
    update_node(&mut d, "3", "Running", "go", None);
    assert_eq!(d.nodes[2].status, "Running");
    assert_eq!(d.nodes[2].label, "go");
}

#[test]
fn relative_times() {
    let now = 1_718_447_400; // 2024-06-15T10:30:00Z
    assert_eq!(relative_time_at("2024-06-15T10:29:30Z", now), "just now");
    assert_eq!(relative_time_at("2024-06-15T10:25:00Z", now), "5m ago");
    assert_eq!(relative_time_at("2024-06-15T07:30:00.123456Z", now), "3h ago");
    assert_eq!(relative_time_at("2024-06-13T10:30:00+00:00", now), "2d ago");
    assert_eq!(relative_time_at("short", now), "");
    assert_eq!(relative_time_at("xxxx-06-15T10:30:00Z", now), "");
    assert_eq!(age_text(7200), "2h ago");
}

#[test]
fn restoration_cards() {
    let card = snapshot_card(&Some("id1".into()), &None, &None, Some(3), None);
    assert_eq!(card.label, "Workspace");
    assert_eq!(suggestion_text(&card), "Continue: Workspace  ·  3 windows, 0 terminals");
    assert_eq!(preview_title(&card, 4), "Restore: Workspace  ·  4 actions");
    let a = preview_action(&Some("open_app".into()), &None, &Some("Open: code".into()), Some(true));
    assert_eq!(a.id, "open_app-unknown");
    assert!(!a.safe);
    let b = preview_action(&None, &Some("x".into()), &None, None);
    assert_eq!(b.id, "action-x");
    assert_eq!(b.action_type, "Action");
    assert!(b.safe);
    let state = show_preview(RestorationState::Suggesting { card }, vec![a, b]);
    assert_eq!(selected_ids(&state, &vec![false, true]), vec!["action-x".to_string()]);
    assert!(selected_ids(&RestorationState::Hidden, &vec![true]).is_empty());
}

#[test]
fn incoming_messages() {
    let pong = WireFields {
        message_type: Some("Response".into()),
        has_body: true,
        event_kind: None,
        response_code: Some("PONG".into()),
        latency_ms: Some(4),
    };
    assert!(matches!(classify_incoming(&pong), Incoming::Pong { latency_ms: 4 }));
    let ev = WireFields {
        message_type: Some("Event".into()),
        has_body: true,
        event_kind: None,
        response_code: None,
        latency_ms: None,
    };
    match classify_incoming(&ev) {
        Incoming::SystemEvent { kind } => assert_eq!(kind, "unknown"),
        _ => panic!("expected an event"),
    }
    let other = WireFields { message_type: Some("Response".into()), response_code: Some("OK".into()), ..pong };
    assert!(matches!(classify_incoming(&other), Incoming::Raw));
}

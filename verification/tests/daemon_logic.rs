use enaos::actions::{ActionRequest, ActionType, PermissionLevel};
use enaos::context::{bias_for, compute_biases, AggregatedContext, IntentType};
use enaos::events::{PayloadKind, StateTarget};
use enaos::executor::{ActionEvent, ActionExecutor};
use enaos::memory::MemoryEntry;
use enaos::process::{terminated_event, PollResult, ProcessEvent, ProcessManager};
use enaos::queries::{
    context_commands_reply, dismiss_reply, dismissal_for, execute_reply, host_context_reply, incoming_line,
    memory_reply, parse_error_reply, pong_reply, state_query, summary_reply, suggestions_reply,
    unexpected_kind_reply, StateQuery,
};
use enaos::resolver::{CommandSuggestion, Score};
use enaos::server::{Payload, Reply};
use enaos::snapshot::{compute_checksum, gather_snapshot, gathered_label, AppInfo, AutoSnapshotGate, WorkspaceSnapshot};
use enaos::suggestion::{ContextEvent, DismissalRecord, SuggestionKind};
use enaos::suggestion_engine::{fresh_suggestions, trigger_for, SuggestionEngine};

fn error_of(r: &Reply) -> (String, String) {
    match r {
        Reply::Error { code, message } => (code.clone(), message.clone()),
        _ => panic!("expected an error reply"),
    }
}

fn note_of(r: &Reply) -> String {
    match r {
        Reply::Done { message: Some(m) } => m.clone(),
        _ => panic!("expected a note"),
    }
}

#[test]
fn raw_commands_are_acknowledged_with_their_arguments() {
    let r = execute_reply("open", &vec!["brave-browser".to_string()]);
    assert_eq!(note_of(&r), "Executing: open [\"brave-browser\"]");
    let r = execute_reply("ls", &vec![]);
    assert_eq!(note_of(&r), "Executing: ls []");
    let r = execute_reply("echo", &vec!["a\"b".to_string(), "c".to_string()]);
    assert_eq!(note_of(&r), "Executing: echo [\"a\\\"b\", \"c\"]");
}

#[test]
fn heartbeat_and_protocol_errors() {
    assert!(matches!(pong_reply(42), Reply::Data { payload: Payload::Pong { latency_ms: 42 } }));
    assert_eq!(
        error_of(&unexpected_kind_reply()),
        ("UNEXPECTED".to_string(), "Unexpected message kind from client".to_string())
    );
    assert_eq!(
        error_of(&parse_error_reply("expected value at line 1")),
        ("PARSE_ERROR".to_string(), "Invalid JSON: expected value at line 1".to_string())
    );
    assert_eq!(incoming_line("   \n"), None);
    assert_eq!(incoming_line("  {\"id\":1}\r\n"), Some("{\"id\":1}".to_string()));
    assert_eq!(incoming_line("\u{3000}\tping \u{2003}\n"), Some("ping".to_string()));
    assert_eq!(incoming_line("a b"), Some("a b".to_string()));
}

#[test]
fn state_queries_are_answered_by_target() {
    match state_query(&StateTarget::ActiveWindows) {
        StateQuery::Answer { reply: Reply::Data { payload: Payload::Windows { message } } } => {
            assert_eq!(message, "Window tracking active via system module")
        }
        _ => panic!("windows"),
    }
    assert!(matches!(
        state_query(&StateTarget::RunningAgents),
        StateQuery::Answer { reply: Reply::Data { payload: Payload::Agents } }
    ));
    assert!(matches!(
        state_query(&StateTarget::ProcessList),
        StateQuery::Answer { reply: Reply::Data { payload: Payload::Processes } }
    ));
    match state_query(&StateTarget::DesktopContext) {
        StateQuery::Answer { reply: Reply::Data { payload: Payload::Desktop { subsystems } } } => {
            assert_eq!(
                subsystems,
                vec![
                    "upower",
                    "networkmanager",
                    "window-tracker",
                    "workspace",
                    "clipboard",
                    "notifications",
                    "audio",
                    "mpris"
                ]
            )
        }
        _ => panic!("desktop"),
    }
    assert!(matches!(state_query(&StateTarget::SystemInfo), StateQuery::HostFacts));
    assert!(matches!(state_query(&StateTarget::MemorySummary), StateQuery::Summary));
    match state_query(&StateTarget::MemoryRecent) {
        StateQuery::Memory { query, error_code } => {
            assert_eq!(query.limit, 20);
            assert!(query.entry_types.is_empty() && query.search.is_none());
            assert_eq!(error_code, "MEMORY_QUERY");
        }
        _ => panic!("recent"),
    }
    match state_query(&StateTarget::MemorySearch { query: "rust".to_string() }) {
        StateQuery::Memory { query, error_code } => {
            assert_eq!(query.limit, 15);
            assert_eq!(query.search, Some("rust".to_string()));
            assert_eq!(error_code, "MEMORY_SEARCH");
        }
        _ => panic!("search"),
    }
}

#[test]
fn memory_and_host_replies() {
    let r = memory_reply("MEMORY_SEARCH", Err("disk gone".to_string()));
    assert_eq!(error_of(&r), ("MEMORY_SEARCH".to_string(), "disk gone".to_string()));
    let r = memory_reply("MEMORY_QUERY", Ok(Vec::<MemoryEntry>::new()));
    assert!(matches!(r, Reply::Data { payload: Payload::Memories { entries } } if entries.is_empty()));
    assert!(matches!(summary_reply(Ok("{}".to_string())), Reply::Data { payload: Payload::Json { text } } if text == "{}"));
    assert_eq!(error_of(&summary_reply(Err("x".to_string()))).0, "MEMORY_SUMMARY");
    match host_context_reply("linux".into(), "x86_64".into(), "box".into(), "0.1.0".into()) {
        Reply::Data { payload: Payload::HostContext { os, arch, hostname, desktop, version } } => {
            assert_eq!((os.as_str(), arch.as_str(), hostname.as_str()), ("linux", "x86_64", "box"));
            assert_eq!(desktop, "EnaOS");
            assert_eq!(version, "0.1.0");
        }
        _ => panic!("context"),
    }
}

#[test]
fn suggestion_replies_and_dismissals() {
    assert_eq!(error_of(&suggestions_reply(Err("locked".into()))).0, "SUGGESTION_LIST_FAILED");
    assert_eq!(note_of(&dismiss_reply(Ok(()))), "Suggestion dismissed");
    assert_eq!(error_of(&dismiss_reply(Err("busy".into()))), ("DISMISS_FAILED".to_string(), "busy".to_string()));

    let gone = dismissal_for(9, None, None, 1_000 * SEC);
    assert_eq!(gone.kind, SuggestionKind::ContextHint);
    assert_eq!(gone.context_hash, "");
    assert!(!gone.permanent);
    assert_eq!(gone.cooldown_until, (1_000 + 10 * 60) * SEC);

    let kept = dismissal_for(9, Some((SuggestionKind::TimeBased, "time:morning:weekday".into())), Some(true), 1_000 * SEC);
    assert_eq!(kept.kind, SuggestionKind::TimeBased);
    assert_eq!(kept.context_hash, "time:morning:weekday");
    assert!(kept.permanent);
    assert_eq!(kept.cooldown_until, (1_000 + 315_360_000) * SEC);
}

fn command(n: u32) -> CommandSuggestion {
    CommandSuggestion {
        id: format!("c{n}"),
        label: format!("Command {n}"),
        subtitle: String::new(),
        icon: "system-run".into(),
        action: "open_app".into(),
        param_key: "app".into(),
        param_value: format!("app{n}"),
        score: Score { num: 1, den: 2 },
        source: "action".into(),
    }
}

#[test]
fn context_commands_are_cut_to_the_limit() {
    let all: Vec<CommandSuggestion> = (0..8).map(command).collect();
    match context_commands_reply(all, None, AggregatedContext::new()) {
        Reply::Data { payload: Payload::ContextCommands { commands, .. } } => {
            assert_eq!(commands.len(), 6);
            assert_eq!(commands[5].id, "c5");
        }
        _ => panic!("commands"),
    }
    let few: Vec<CommandSuggestion> = (0..3).map(command).collect();
    match context_commands_reply(few, Some(2), AggregatedContext::new()) {
        Reply::Data { payload: Payload::ContextCommands { commands, .. } } => {
            assert_eq!(commands.iter().map(|c| c.id.clone()).collect::<Vec<_>>(), vec!["c0", "c1"]);
        }
        _ => panic!("commands"),
    }
}

#[test]
fn executor_runs_cancels_and_reports() {
    let mut ex = ActionExecutor::new();
    let req = ActionRequest {
        id: 7,
        action: ActionType::LaunchCommand { command: "ls".into(), args: vec![] },
        permission: PermissionLevel::Safe,
    };
    let begun = ex.begin(req);
    assert_eq!(begun.request.permission, PermissionLevel::ConfirmationRequired);
    assert!(!begun.auto_approved);
    match &begun.requested {
        ActionEvent::Requested { action_id, action_type, message } => {
            assert_eq!(*action_id, 7);
            assert_eq!(action_type, "pending");
            assert_eq!(message, "Action requested");
        }
        _ => panic!("requested"),
    }
    match &begun.started {
        ActionEvent::Started { action_id, message } => {
            assert_eq!(*action_id, 7);
            assert_eq!(message, "Starting: Run ls");
        }
        _ => panic!("started"),
    }
    assert_eq!(ex.list_running(), vec![7]);

    match ex.cancel(7) {
        Ok(ActionEvent::Cancelled { action_id }) => assert_eq!(action_id, 7),
        _ => panic!("cancel"),
    }
    assert!(ex.list_running().is_empty());
    match ex.cancel(7) {
        Err(m) => assert_eq!(m, "No running action with id 00000000-0000-0000-0000-000000000007"),
        Ok(_) => panic!("second cancel"),
    }

    let req = ActionRequest {
        id: 8,
        action: ActionType::OpenApp { app: "Firefox".into() },
        permission: PermissionLevel::ConfirmationRequired,
    };
    let begun = ex.begin(req);
    assert!(begun.auto_approved);
    match ex.complete(8, Err("gio: not found".into())) {
        (ActionEvent::Failed { action_id, error }, Err(e)) => {
            assert_eq!(action_id, 8);
            assert_eq!(error, "gio: not found");
            assert_eq!(e, "gio: not found");
        }
        _ => panic!("failed"),
    }
    let _ = ex.begin(ActionRequest { id: 9, action: ActionType::ReadWindowTitle, permission: PermissionLevel::Safe });
    match ex.complete(9, Ok("Firefox — Inbox".into())) {
        (ActionEvent::Completed { action_id, result }, Ok(id)) => {
            assert_eq!((action_id, id), (9, 9));
            assert_eq!(result, "Firefox — Inbox");
        }
        _ => panic!("completed"),
    }
    assert!(ex.list_running().is_empty());
}

fn focus_event(app: &str, title: &str) -> ContextEvent {
    ContextEvent {
        timestamp: 0,
        kind: "Window".into(),
        app: Some(app.into()),
        title: Some(title.into()),
        workspace: None,
    }
}

/// One second, in nanoseconds.
const SEC: i128 = 1_000_000_000;

const MONDAY_9AM: i128 = 1_718_010_000 * SEC;

#[test]
fn engine_triggers_rules_once_per_cooldown() {
    assert_eq!(trigger_for(PayloadKind::SystemIdle), Some("system_idle"));
    assert_eq!(trigger_for(PayloadKind::BatteryStatus), None);

    let mut engine = SuggestionEngine::new();
    let out = engine.on_event_at(focus_event("code", "main.rs"), PayloadKind::WindowFocused, MONDAY_9AM, 9, 1);
    let kinds: Vec<SuggestionKind> = out.generated.iter().map(|s| s.kind).collect();
    assert_eq!(kinds, vec![SuggestionKind::TimeBased, SuggestionKind::ContextHint]);
    assert_eq!(out.generated[1].context_hash, "app:code");
    assert_eq!(out.window.as_ref().map(|w| w.focused_app.clone()), Some("code".to_string()));
    assert!(out.onboarding.is_empty());

    let again = engine.on_event_at(focus_event("code", "lib.rs"), PayloadKind::WindowFocused, MONDAY_9AM + 10 * SEC, 9, 1);
    assert!(again.generated.is_empty() && again.window.is_none());
    let later = engine.on_event_at(focus_event("code", "lib.rs"), PayloadKind::WindowFocused, MONDAY_9AM + 30 * SEC, 9, 1);
    assert_eq!(later.generated.len(), 2);

    let active = engine.on_event_at(focus_event("code", "x"), PayloadKind::SystemActive, MONDAY_9AM + 40 * SEC, 14, 1);
    assert_eq!(active.generated.len(), 1);
    assert_eq!(active.onboarding.len(), 3);
    assert_eq!(active.onboarding[0].context_hash, "onboarding:intro");
    let active2 = engine.on_event_at(focus_event("code", "x"), PayloadKind::SystemActive, MONDAY_9AM + 100 * SEC, 14, 1);
    assert!(active2.onboarding.is_empty());
    assert_eq!(engine.recent_events.len(), 5);
}

#[test]
fn engine_keeps_only_the_newest_events() {
    let mut engine = SuggestionEngine::new();
    for k in 0..70 {
        let _ = engine.on_event_at(focus_event(&format!("app{k}"), ""), PayloadKind::Log, MONDAY_9AM + k * SEC, 9, 1);
    }
    assert_eq!(engine.recent_events.len(), 64);
    assert_eq!(engine.recent_events[0].app, Some("app6".to_string()));
}

#[test]
fn engine_reads_the_clock_for_live_events() {
    let mut engine = SuggestionEngine::new();
    let out = engine.on_event(focus_event("code", "main.rs"), PayloadKind::Log);
    assert!(out.window.is_none() && out.generated.is_empty() && out.onboarding.is_empty());
    assert_eq!(engine.recent_events.len(), 1);
    let active = engine.on_event(focus_event("code", "x"), PayloadKind::SystemActive);
    assert_eq!(active.onboarding.len(), 3);
    assert!(engine.onboarding_generated);
}

#[test]
fn dismissed_contexts_are_not_published() {
    let mut engine = SuggestionEngine::new();
    let out = engine.on_event_at(focus_event("code", "main.rs"), PayloadKind::WindowFocused, MONDAY_9AM, 15, 6);
    assert_eq!(out.generated.len(), 1);
    let block = DismissalRecord {
        suggestion_id: 1,
        kind: SuggestionKind::ContextHint,
        context_hash: "app:code".into(),
        dismissed_at: MONDAY_9AM - 60 * SEC,
        cooldown_until: MONDAY_9AM + 540 * SEC,
        permanent: false,
    };
    assert!(fresh_suggestions(out.generated.clone(), &vec![block.clone()], MONDAY_9AM).is_empty());
    assert_eq!(fresh_suggestions(out.generated, &vec![block], MONDAY_9AM + 540 * SEC).len(), 1);
}

#[test]
fn processes_are_followed_until_they_exit() {
    let mut pm = ProcessManager::new();
    let (a, started) = pm.spawned(4242, "sleep");
    assert!(matches!(started, ProcessEvent::Started { pid: 4242, ref command } if command == "sleep"));
    let (b, _) = pm.spawned(4343, "top");
    assert_eq!(pm.list(), vec![(a, 4242, "sleep".to_string()), (b, 4343, "top".to_string())]);

    let p = pm.terminate(a).expect("followed");
    assert_eq!(p.pid, 4242);
    assert!(matches!(terminated_event(p.pid), ProcessEvent::Exited { pid: 4242, exit_code: -1 }));
    match pm.terminate(a) {
        Err(m) => assert!(m.starts_with("No tracked process with id ") && m.len() == 27 + 36),
        Ok(_) => panic!("terminated twice"),
    }

    assert!(pm.polled(b, PollResult::Running).is_none());
    assert_eq!(pm.list().len(), 1);
    assert!(matches!(pm.polled(b, PollResult::Exited { code: None }), Some(ProcessEvent::Exited { pid: 4343, exit_code: -1 })));
    assert!(pm.list().is_empty());
    let (c, _) = pm.spawned(1, "x");
    assert!(pm.polled(c, PollResult::Unreadable).is_none());
    assert!(pm.list().is_empty());
}

fn app(name: &str) -> AppInfo {
    AppInfo { name: name.into(), title: String::new(), pid: None, is_focused: false }
}

#[test]
fn checksums_follow_application_names() {
    let mut s1 = WorkspaceSnapshot::new("a");
    s1.applications = vec![app("firefox"), app("code")];
    let mut s2 = WorkspaceSnapshot::new("b");
    s2.applications = vec![app("firefox"), app("code")];
    let mut s3 = WorkspaceSnapshot::new("c");
    s3.applications = vec![app("firefox")];
    let c1 = compute_checksum(&s1);
    assert_eq!(c1, compute_checksum(&s2));
    assert_ne!(c1, compute_checksum(&s3));
    assert!(!c1.is_empty() && c1.chars().all(|c| c.is_ascii_hexdigit()));

    let mut gate = AutoSnapshotGate::new();
    assert!(gate.keeps(&c1));
    assert!(!gate.keeps(&c1));
    assert!(gate.keeps(&compute_checksum(&s3)));

    let g = gather_snapshot(false, &vec![], &vec![]);
    assert_eq!(g.env_checksum, compute_checksum(&WorkspaceSnapshot::new("x")));
    assert_eq!(g.active_project, None);
    assert_eq!(g.label, "Manual snapshot");
    assert!(!g.is_auto);
    let a = gather_snapshot(true, &vec![], &vec![]);
    assert_eq!(a.label, gathered_label(true, a.created_at));
    assert!(a.label.starts_with("Auto-snapshot ") && a.is_auto);
}

#[test]
fn intents_weigh_sources() {
    let b = compute_biases(IntentType::Restore);
    assert_eq!(b[0], ("snapshot", 50));
    assert_eq!(bias_for(&b, "workflow"), 20);
    assert_eq!(bias_for(&b, "semantic"), 5);
    assert_eq!(bias_for(&b, "elsewhere"), 10);
    assert_eq!(bias_for(&compute_biases(IntentType::Switch), "context"), 45);
}

use enaos::memory::{
    ai_response_record, context_snapshot_record, intent_record, memory_record, query_statement, CapturedEvent,
    EntryDetails, MemoryEntry, MemoryQuery, MemoryType, SqlValue,
};
use enaos::orchestration::{ExecutionPlan, PlanStatus};
use enaos::snapshot::{assemble_snapshot, clock_text, detect_active_project, gathered_label, snapshot_expiry_cutoff, AppInfo, WorkspaceSnapshot};

#[test]
fn memory_type_names_round_trip() {
    for t in [
        MemoryType::Event,
        MemoryType::Action,
        MemoryType::ContextSnapshot,
        MemoryType::WorkspaceSnapshot,
        MemoryType::Intent,
        MemoryType::AiResponse,
        MemoryType::Summary,
    ] {
        assert_eq!(MemoryType::from_name(t.name()), Ok(t));
    }
    assert_eq!(MemoryType::from_name("dream"), Err("Unknown memory type: dream".to_string()));
    assert_eq!(MemoryType::stored("dream"), MemoryType::Event);
    assert_eq!(MemoryType::AiResponse.name(), "ai_response");
}

#[test]
fn query_constructors() {
    assert_eq!(MemoryQuery::new().limit, 20);
    assert_eq!(MemoryQuery::intents().entry_types, vec![MemoryType::Intent, MemoryType::AiResponse]);
    assert_eq!(MemoryQuery::recent_context().limit, 5);
    assert_eq!(MemoryQuery::for_workspace("dev").workspace, Some("dev".to_string()));
    assert_eq!(MemoryQuery::search("rust").limit, 15);
}

fn texts(params: &[SqlValue]) -> Vec<String> {
    params
        .iter()
        .map(|p| match p {
            SqlValue::Text(t) => t.clone(),
            SqlValue::Int(n) => format!("#{n}"),
        })
        .collect()
}

#[test]
fn statement_for_recent_actions() {
    let mut q = MemoryQuery::actions();
    q.workspace = Some("dev".into());
    let st = query_statement(&q).unwrap();
    assert!(st.sql.ends_with(
        "FROM memory_entries WHERE 1=1 AND entry_type IN (?) AND workspace = ? ORDER BY timestamp DESC LIMIT ?"
    ));
    assert_eq!(texts(&st.params), vec!["action", "dev", "#20"]);
}

#[test]
fn statement_for_two_types_and_since() {
    let mut q = MemoryQuery::intents();
    q.since = Some(0);
    let st = query_statement(&q).unwrap();
    assert!(st.sql.contains("entry_type IN (?,?) AND timestamp > ?"));
    assert_eq!(texts(&st.params), vec!["intent", "ai_response", "1970-01-01T00:00:00+00:00", "#10"]);
    q.since = Some(1_500_000_000);
    let st = query_statement(&q).unwrap();
    assert_eq!(texts(&st.params)[2], "1970-01-01T00:00:01.500+00:00");
}

#[test]
fn statement_for_search() {
    let st = query_statement(&MemoryQuery::search("rust")).unwrap();
    assert!(st.sql.contains("JOIN memory_fts f ON m.id = f.rowid"));
    assert!(st.sql.ends_with("WHERE memory_fts MATCH ? AND 1=1 ORDER BY rank DESC, m.timestamp DESC LIMIT ?"));
    assert_eq!(texts(&st.params), vec!["rust", "#15"]);
}

#[test]
fn search_with_filters_binds_each_value_once() {
    let mut q = MemoryQuery::search("rust");
    q.workspace = Some("dev".into());
    q.since = Some(86_400_000_000_000);
    let st = query_statement(&q).unwrap();
    assert!(st.sql.ends_with("AND 1=1 AND m.workspace = ? AND m.timestamp > ? ORDER BY rank DESC, m.timestamp DESC LIMIT ?"));
    assert_eq!(texts(&st.params), vec!["rust", "dev", "1970-01-02T00:00:00+00:00", "#15"]);
    assert_eq!(st.sql.matches('?').count(), st.params.len());
}

#[test]
fn captured_event_summaries() {
    let r = memory_record(&CapturedEvent::WindowFocused { app: "kitty".into(), title: "~".into() });
    assert_eq!(r.entry_type, MemoryType::Event);
    assert_eq!(r.summary, "Focused: kitty — ~");
    let r = memory_record(&CapturedEvent::WindowOpened { app: "code".into(), pid: 4242 });
    assert_eq!(r.summary, "Opened: code (pid 4242)");
    let r = memory_record(&CapturedEvent::WorkspaceChanged { workspace: "2".into() });
    assert_eq!(r.entry_type, MemoryType::WorkspaceSnapshot);
    assert_eq!(r.workspace, Some("2".to_string()));
    assert_eq!(r.summary, "Switched to: 2");
    let r = memory_record(&CapturedEvent::NetworkStatus { connected: true, ssid: Some("home".into()) });
    assert_eq!(r.summary, "Network: connected to home");
    let r = memory_record(&CapturedEvent::NetworkStatus { connected: false, ssid: Some("home".into()) });
    assert_eq!(r.summary, "Network: disconnected");
    let r = memory_record(&CapturedEvent::MediaPlayback {
        player: "spotify".into(),
        state: "Playing".into(),
        title: Some("Song".into()),
        artist: Some("Band".into()),
    });
    assert_eq!(r.summary, "Media Playing: spotify: Song by Band");
    let r = memory_record(&CapturedEvent::BatteryStatus { percentage_text: "73".into(), state: "charging".into() });
    assert_eq!(r.summary, "Battery: 73% (charging)");
    let r = memory_record(&CapturedEvent::ActionFailed { error: "nope".into() });
    assert_eq!(r.entry_type, MemoryType::Action);
    assert_eq!(r.summary, "Failed: nope");
    assert_eq!(intent_record("open docs").summary, "open docs");
    assert_eq!(ai_response_record("why").summary, "Q: why");
    assert_eq!(context_snapshot_record().entry_type, MemoryType::ContextSnapshot);
}

fn entry(t: MemoryType, summary: &str, app: Option<&str>, query: Option<&str>) -> MemoryEntry {
    MemoryEntry {
        id: 1,
        timestamp: 50,
        entry_type: t,
        workspace: None,
        summary: summary.into(),
        details: EntryDetails {
            app: app.map(|s| s.to_string()),
            title: Some("T".into()),
            pid: Some(0x1_0000_0007),
            query: query.map(|s| s.to_string()),
        },
    }
}

#[test]
fn assembled_snapshot_reads_memory() {
    let entries = vec![
        entry(MemoryType::Event, "Focused", Some("kitty"), None),
        entry(MemoryType::Event, "Focused again", Some("kitty"), None),
        entry(MemoryType::Action, "Opened docs", None, None),
        entry(MemoryType::Intent, "asked", None, Some("what now")),
        entry(MemoryType::AiResponse, "answered", None, Some("what now")),
        entry(MemoryType::AiResponse, "other", None, Some("why")),
    ];
    let plan = ExecutionPlan::new("Restore: x", "d", vec![], vec![]);
    let s = assemble_snapshot("Manual snapshot", false, &entries, &vec![plan]);
    assert_eq!(s.applications.len(), 1);
    assert_eq!(s.applications[0].name, "kitty");
    assert_eq!(s.applications[0].pid, Some(7));
    assert_eq!(s.recent_actions.len(), 1);
    assert_eq!(s.recent_actions[0].summary, "Opened docs");
    assert_eq!(s.ai_conversations.len(), 2);
    assert_eq!(s.ai_conversations[1].query, "why");
    assert_eq!(s.orchestration_plans.len(), 1);
    assert_eq!(s.orchestration_plans[0].status, "PendingApproval");
    assert!(!s.is_auto);
    assert_eq!(PlanStatus::RollingBack.name(), "RollingBack");
}

#[test]
fn clock_and_labels() {
    let sec: i128 = 1_000_000_000;
    assert_eq!(clock_text(0), "00:00");
    assert_eq!(clock_text((3600 * 13 + 60 * 5) * sec + 999), "13:05");
    assert_eq!(clock_text(-60 * sec), "23:59");
    assert_eq!(clock_text(-1), "23:59");
    assert_eq!(gathered_label(true, (3600 * 9 + 60 * 30) * sec), "Auto-snapshot 09:30");
    assert_eq!(gathered_label(false, 0), "Manual snapshot");
}

fn app(name: &str, title: &str, focused: bool) -> AppInfo {
    AppInfo { name: name.into(), title: title.into(), pid: None, is_focused: focused }
}

#[test]
fn active_project_from_titles() {
    let mut s = WorkspaceSnapshot::new("x");
    s.applications = vec![app("Code", "enaos — Visual Studio Code", true)];
    assert_eq!(detect_active_project(&s), Some("enaos".to_string()));
    s.applications = vec![app("Obsidian", "notes • vault", true)];
    assert_eq!(detect_active_project(&s), Some("vault".to_string()));
    s.applications = vec![app("kitty", " build server ", true)];
    assert_eq!(detect_active_project(&s), Some("build server".to_string()));
    s.applications = vec![app("kitty", "~/home", true)];
    assert_eq!(detect_active_project(&s), None);
    s.applications = vec![app("Firefox", "x", true), app("neovim", "proj — nvim", false)];
    assert_eq!(detect_active_project(&s), Some("proj".to_string()));
}

#[test]
fn snapshot_expiry_only_past_twenty() {
    let now: i128 = 1_000_000 * 1_000_000_000;
    assert_eq!(snapshot_expiry_cutoff(20, now), None);
    assert_eq!(snapshot_expiry_cutoff(21, now), Some(now - 172_800 * 1_000_000_000));
}

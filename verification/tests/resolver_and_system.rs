use enaos::audio::{init, start_capture, stop_capture, AudioState};
use enaos::clipboard::{detect_clipboard_tool, detect_content_type, simple_hash, truncate as clip_truncate, ClipboardTool};
use enaos::config::{Args, PingResult};
use enaos::context::{compute_biases, ActivePlan, AggregatedContext, IntentType, RecentSnapshot};
use enaos::ranker::{distinct_positions, rank_factors, RankFactors, MAX_SUGGESTIONS};
use enaos::events::{snapshots_on, EventKind, PayloadKind};
use enaos::network::{decode_ssid, state_label as network_state};
use enaos::notifications::urgency_label;
use enaos::resolver::{format_timestamp, fuzzy_score, resolve, truncate, CommandSuggestion, Score};
use enaos::timing::{mark_debounce_end, mark_ipc_end, mark_ipc_start, mark_render_end, start_query, TimingTracker};
use enaos::upower::state_label as battery_state;

#[test]
fn timestamps_and_truncation() {
    assert_eq!(format_timestamp("2024-06-15T10:30:00+00:00"), "2024-06-15 10:30:00");
    assert_eq!(format_timestamp("2024-06-15"), "2024-06-15");
    assert_eq!(truncate("hello world", 40), "hello world");
    assert_eq!(truncate("abcdefghij", 8), "abcde...");
    assert_eq!(truncate("abcdef", 2), "...");
}

#[test]
fn fuzzy_scores() {
    assert_eq!(fuzzy_score("", "x"), Score { num: 0, den: 1 });
    assert_eq!(fuzzy_score("Firefox", "firefox"), Score { num: 1, den: 1 });
    assert_eq!(fuzzy_score("fire", "firefox"), Score { num: 1, den: 1 });
    assert_eq!(fuzzy_score("open docs", "docs page"), Score { num: 1, den: 2 });
    assert_eq!(fuzzy_score("browsers", "browser"), Score { num: 1, den: 1 });
    assert_eq!(fuzzy_score("zz", "firefox"), Score { num: 0, den: 1 });
}

fn ctx() -> AggregatedContext {
    let mut c = AggregatedContext::new();
    c.active_plans = vec![ActivePlan { id: "p1".into(), title: "Deploy site".into(), status: "Running".into() }];
    c.recent_snapshots =
        vec![RecentSnapshot { id: "s1".into(), label: "Morning".into(), taken_at: "2024-06-15T08:00:00Z".into() }];
    c.desktop.workspace = "dev".into();
    c.desktop.focused_app = "Firefox".into();
    c.recent_intents = vec!["open firefox".into(), "open firefox".into()];
    c
}

#[test]
fn resolve_open_query() {
    let out = resolve(&ctx(), "open firefox", IntentType::Open);
    let labels: Vec<&str> = out.iter().map(|c| c.label.as_str()).collect();
    assert_eq!(labels, vec!["Open Firefox", "Focus Firefox", "Repeat: open firefox"]);
    assert_eq!(out[0].action, "open_app");
    assert_eq!(out[0].param_key, "app");
    assert_eq!(out[0].param_value, "Firefox");
    assert_eq!(out[0].score, Score { num: 1, den: 2 });
    assert_eq!(out[1].subtitle, "Currently focused");
    assert_eq!(out[2].score, Score { num: 1, den: 1 });
}

#[test]
fn resolve_restore_query() {
    let out = resolve(&ctx(), "restore", IntentType::Restore);
    let labels: Vec<&str> = out.iter().map(|c| c.label.as_str()).collect();
    assert_eq!(labels, vec!["Continue: Deploy site", "Restore: Morning"]);
    assert_eq!(out[0].subtitle, "Currently running");
    assert_eq!(out[1].subtitle, "Taken 2024-06-15 08:00:00");
}

#[test]
fn clipboard_logic() {
    assert_eq!(detect_clipboard_tool(true, true), ClipboardTool::WlClipboard);
    assert_eq!(detect_clipboard_tool(false, true), ClipboardTool::Xclip);
    assert_eq!(detect_clipboard_tool(false, false), ClipboardTool::Unavailable);
    assert_eq!(detect_content_type("https://x.org"), "url");
    assert_eq!(detect_content_type("a\nb\nc\nd"), "multiline-text");
    assert_eq!(detect_content_type("a\nb\nc\n"), "text");
    assert_eq!(detect_content_type("src/main.rs"), "path");
    assert_eq!(detect_content_type("hello"), "text");
    assert_eq!(clip_truncate("abcdef", 3), "abc...");
    assert_eq!(clip_truncate("abc", 3), "abc");
    assert_eq!(simple_hash(""), "cbf29ce484222325");
    assert_eq!(simple_hash("a"), "af63dc4c8601ec8c");
}

#[test]
fn system_labels() {
    assert_eq!(network_state(70), ("connected-global", true));
    assert_eq!(network_state(50), ("connected-local", false));
    assert_eq!(network_state(1), ("unknown", false));
    assert_eq!(battery_state(4), "fully-charged");
    assert_eq!(battery_state(9), "unknown");
    assert_eq!(decode_ssid(b"home".to_vec()), "home");
    assert_eq!(decode_ssid(vec![0x68, 0xff]), "h\u{FFFD}");
    assert_eq!(urgency_label(true, Some(2)), "critical");
    assert_eq!(urgency_label(true, Some(0)), "low");
    assert_eq!(urgency_label(true, Some(9)), "normal");
    assert_eq!(urgency_label(false, None), "normal");
}

#[test]
fn events_and_small_types() {
    assert_eq!(EventKind::Clipboard.name(), "Clipboard");
    assert!(snapshots_on(PayloadKind::SystemWake));
    assert!(!snapshots_on(PayloadKind::SystemIdle));
    init();
    assert_eq!(start_capture(), None);
    stop_capture();
    assert_eq!(AudioState::Idle, AudioState::Idle);
    let a = Args::defaults();
    assert_eq!(a.socket_path, "/tmp/enad.sock");
    let p = PingResult::reached(9);
    assert!(p.ok && p.latency_ms == Some(9) && p.error.is_none());
}

#[test]
fn query_timing_spans() {
    let mut t = TimingTracker::new();
    assert!(mark_render_end(&mut t, 5).is_none());
    start_query(&mut t, "open", 1000);
    mark_debounce_end(&mut t, 1150);
    mark_ipc_start(&mut t, 1200);
    mark_ipc_end(&mut t, 1260);
    let r = mark_render_end(&mut t, 1300).unwrap();
    assert_eq!(r.query, "open");
    assert_eq!(r.total, Some(300));
    assert_eq!(r.debounce, Some(150));
    assert_eq!(r.ipc, Some(60));
}

fn candidate(action: &str, value: &str, source: &str) -> CommandSuggestion {
    CommandSuggestion {
        id: String::new(),
        label: value.to_string(),
        subtitle: String::new(),
        icon: String::new(),
        action: action.to_string(),
        param_key: "app".to_string(),
        param_value: value.to_string(),
        score: Score { num: 1, den: 1 },
        source: source.to_string(),
    }
}

#[test]
fn ranking_factors_follow_source_and_action() {
    let biases = compute_biases(IntentType::Open);
    let f = rank_factors(&candidate("open_app", "firefox", "action"), &biases);
    assert_eq!(f, RankFactors { recency: 40, context_relevance: 40, frequency: 50, intent_weight: 40 });
    let g = rank_factors(&candidate("focus_window", "code", "context"), &biases);
    assert_eq!(g, RankFactors { recency: 80, context_relevance: 90, frequency: 40, intent_weight: 25 });
    let h = rank_factors(&candidate("run", "x", "elsewhere"), &biases);
    assert_eq!(h, RankFactors { recency: 30, context_relevance: 40, frequency: 20, intent_weight: 10 });
    assert_eq!(MAX_SUGGESTIONS, 6);
}

#[test]
fn deduplication_drops_adjacent_repeats() {
    let ordered = vec![
        candidate("open_app", "firefox", "action"),
        candidate("open_app", "firefox", "semantic"),
        candidate("open_app", "code", "action"),
        candidate("open_app", "firefox", "context"),
    ];
    assert_eq!(distinct_positions(&ordered), vec![0, 2, 3]);
    assert!(distinct_positions(&vec![]).is_empty());
}

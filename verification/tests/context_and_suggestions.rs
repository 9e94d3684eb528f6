use enaos::context::{query_too_short, DesktopState, EventFields, IntentClassifier, IntentType};
use enaos::suggestion::{
    build_context_window, cooldown_until, day_label, dismissal_record, generate_suggestions, is_context_blocked,
    onboarding_suggestions, record_event, rule_context_hint, rule_time_based, rule_workspace_continuity, surfaces,
    time_label, ContextEvent, SuggestionKind, TriggerLimiter, MAX_RECENT_EVENTS,
};

/// One second, in nanoseconds.
const SEC: i128 = 1_000_000_000;

#[test]
fn classifier_prefers_longest_keyword() {
    let c = IntentClassifier::new();
    assert_eq!(c.classify("open browser").intent_type, IntentType::Open);
    assert_eq!(c.classify("Continue where I left off").intent_type, IntentType::Continue);
    assert_eq!(c.classify("restore my workspace").intent_type, IntentType::Restore);
    assert_eq!(c.classify("hello there").intent_type, IntentType::Generic);
}

#[test]
fn short_queries_are_suppressed() {
    assert!(query_too_short(" a "));
    assert!(query_too_short(""));
    assert!(!query_too_short("ab"));
}

#[test]
fn desktop_state_tracks_focus_and_workspace() {
    let mut d = DesktopState::new();
    let fields = EventFields {
        app: Some("kitty".into()),
        title: Some("~/src".into()),
        workspace: None,
        state: None,
        connected: None,
        ssid: None,
        player: None,
        preview: None,
    };
    d.apply_event("Window", "WindowFocused", &fields);
    assert_eq!(d.focused_app, "kitty");
    assert_eq!(d.focused_title, "~/src");
    let ws = EventFields { app: None, title: None, workspace: Some("3".into()), ..fields.clone() };
    d.apply_event("Window", "WorkspaceChanged", &ws);
    assert_eq!(d.workspace, "3");
    assert_eq!(d.focused_app, "kitty");
}

#[test]
fn suggestion_kind_names_round_trip() {
    for k in [
        SuggestionKind::WorkspaceContinuity,
        SuggestionKind::TaskResurfacing,
        SuggestionKind::ContextHint,
        SuggestionKind::RecentDocument,
        SuggestionKind::TerminalSession,
        SuggestionKind::TimeBased,
    ] {
        assert_eq!(SuggestionKind::from_str(k.as_str()), Some(k));
    }
    assert_eq!(SuggestionKind::from_str("bogus"), None);
    assert_eq!(SuggestionKind::WorkspaceContinuity.cooldown_minutes(), 30);
    assert_eq!(SuggestionKind::TimeBased.cooldown_minutes(), 60);
}

#[test]
fn time_and_day_labels() {
    assert_eq!(time_label(6), "morning");
    assert_eq!(time_label(13), "afternoon");
    assert_eq!(time_label(19), "evening");
    assert_eq!(time_label(23), "night");
    assert_eq!(day_label(6), "weekend");
    assert_eq!(day_label(2), "weekday");
}

fn ev(t: i128, kind: &str, app: Option<&str>, ws: Option<&str>) -> ContextEvent {
    ContextEvent {
        timestamp: t,
        kind: kind.into(),
        app: app.map(|s| s.to_string()),
        title: None,
        workspace: ws.map(|s| s.to_string()),
    }
}

#[test]
fn recent_events_keep_the_newest() {
    let mut events = Vec::new();
    for t in 0..(MAX_RECENT_EVENTS as i128 + 5) {
        record_event(&mut events, ev(t, "Window", None, None));
    }
    assert_eq!(events.len(), MAX_RECENT_EVENTS);
    assert_eq!(events[0].timestamp, 5);
}

#[test]
fn context_window_and_rules() {
    let events = vec![ev(1, "Window", Some("Firefox"), None), ev(2, "Window", None, Some("dev"))];
    let w = build_context_window(&events, 9, 2);
    assert_eq!(w.focused_app, "Firefox");
    assert_eq!(w.workspace, "dev");
    assert_eq!(w.time_label, "morning");
    let now = 1_700_000_000 * SEC;
    let s = rule_workspace_continuity(&w, now).unwrap();
    assert_eq!(s.title, "Continue: dev workspace");
    assert_eq!(s.context_hash, "ws:dev");
    assert_eq!(s.priority, 55);
    let h = rule_context_hint(&w, now).unwrap();
    assert_eq!(h.title, "Working in Firefox");
    assert_eq!(h.context_hash, "app:Firefox");
    let t = rule_time_based(&w, now).unwrap();
    assert_eq!(t.kind, SuggestionKind::TimeBased);
    let all = generate_suggestions(&w, now);
    assert_eq!(all.len(), 3);
    assert!(all.iter().all(|s| surfaces(s)));
}

#[test]
fn onboarding_suggestions_fixed_set() {
    let v = onboarding_suggestions(1000 * SEC);
    assert_eq!(v.len(), 3);
    assert_eq!(v[0].context_hash, "onboarding:intro");
    assert_eq!(v[1].expires_at, (1000 + 30 * 60) * SEC);
    assert_eq!(v[2].expires_at, (1000 + 15 * 60) * SEC);
    assert_eq!(v[1].action.as_ref().unwrap().action_type, "take_snapshot");
}

#[test]
fn trigger_limiter_allows_one_per_thirty_seconds() {
    let mut lim = TriggerLimiter::new();
    assert!(lim.try_acquire("window_focus", 100 * SEC));
    assert!(!lim.try_acquire("window_focus", 130 * SEC - 1));
    assert!(lim.try_acquire("system_idle", 129 * SEC));
    assert!(lim.try_acquire("window_focus", 130 * SEC));
}

#[test]
fn dismissals_block_until_cooldown() {
    let now = 10_000 * SEC;
    assert_eq!(cooldown_until(SuggestionKind::ContextHint, false, now), now + 10 * 60 * SEC);
    let rec = dismissal_record(1, SuggestionKind::ContextHint, "app:Firefox", false, now);
    let records = vec![rec];
    assert!(is_context_blocked(&records, "app:Firefox", now + 60 * SEC));
    assert!(is_context_blocked(&records, "app:Firefox", now + 10 * 60 * SEC - 1));
    assert!(!is_context_blocked(&records, "app:Firefox", now + 10 * 60 * SEC));
    assert!(!is_context_blocked(&records, "app:kitty", now + 60 * SEC));
}

#[test]
fn permanent_dismissals_block_forever() {
    let now = 10_000 * SEC;
    let rec = dismissal_record(2, SuggestionKind::TimeBased, "time:morning", true, now);
    let records = vec![rec];
    assert!(is_context_blocked(&records, "time:morning", now));
    assert!(is_context_blocked(&records, "time:morning", now + 20 * 365 * 86_400 * SEC));
    assert!(is_context_blocked(&records, "time:morning", i128::MAX));
    assert!(!is_context_blocked(&records, "time:evening", now));
}

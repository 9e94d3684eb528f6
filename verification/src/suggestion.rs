//! Ambient suggestions: their kinds, the deterministic rules that produce
//! them from a window of recent context, rate limiting, and dismissal
//! cooldowns. Priorities are kept in hundredths (55 stands for 0.55).
use vstd::prelude::*;
use vstd::string::*;

use crate::ids::{NANOS_PER_HOUR, NANOS_PER_MINUTE, new_id};
use crate::text::text_eq;

verus! {

/// Minimum priority, in hundredths, for a suggestion to be surfaced.
pub const MIN_PRIORITY: u32 = 40;

/// Default suggestion lifetime from creation, in minutes.
pub const DEFAULT_TTL_MINUTES: i128 = 20;

/// Recent events kept for building the context window.
pub const MAX_RECENT_EVENTS: usize = 64;

/// How long a trigger waits before it may generate suggestions again:
/// thirty seconds, in nanoseconds.
pub const TRIGGER_COOLDOWN: i128 = 30_000_000_000;

/// Categories of ambient suggestions the system can produce.
#[derive(Debug, Clone, Copy, PartialEq, Eq, Structural)]
pub enum SuggestionKind {
    /// Continue a previous workspace session.
    WorkspaceContinuity,
    /// Resume a recent task or project.
    TaskResurfacing,
    /// Environment-aware hint.
    ContextHint,
    /// Reopen a recently modified document.
    RecentDocument,
    /// Resume a terminal session with running processes.
    TerminalSession,
    /// Time-based suggestion.
    TimeBased,
}

pub open spec fn spec_cooldown_minutes(k: SuggestionKind) -> u32 {
    match k {
        SuggestionKind::WorkspaceContinuity => 30,
        SuggestionKind::TaskResurfacing => 15,
        SuggestionKind::ContextHint => 10,
        SuggestionKind::RecentDocument => 20,
        SuggestionKind::TerminalSession => 30,
        SuggestionKind::TimeBased => 60,
    }
}

pub open spec fn spec_kind_name(k: SuggestionKind) -> Seq<char> {
    match k {
        SuggestionKind::WorkspaceContinuity => "workspace_continuity"@,
        SuggestionKind::TaskResurfacing => "task_resurfacing"@,
        SuggestionKind::ContextHint => "context_hint"@,
        SuggestionKind::RecentDocument => "recent_document"@,
        SuggestionKind::TerminalSession => "terminal_session"@,
        SuggestionKind::TimeBased => "time_based"@,
    }
}

pub open spec fn spec_kind_from_name(s: Seq<char>) -> Option<SuggestionKind> {
    if s == "workspace_continuity"@ {
        Some(SuggestionKind::WorkspaceContinuity)
    } else if s == "task_resurfacing"@ {
        Some(SuggestionKind::TaskResurfacing)
    } else if s == "context_hint"@ {
        Some(SuggestionKind::ContextHint)
    } else if s == "recent_document"@ {
        Some(SuggestionKind::RecentDocument)
    } else if s == "terminal_session"@ {
        Some(SuggestionKind::TerminalSession)
    } else if s == "time_based"@ {
        Some(SuggestionKind::TimeBased)
    } else {
        None
    }
}


impl SuggestionKind {
    /// Default cooldown in minutes before this kind can resurface after dismissal.
    pub fn cooldown_minutes(&self) -> (r: u32)
        ensures
            r == spec_cooldown_minutes(*self),
    {
        match self {
            SuggestionKind::WorkspaceContinuity => 30,
            SuggestionKind::TaskResurfacing => 15,
            SuggestionKind::ContextHint => 10,
            SuggestionKind::RecentDocument => 20,
            SuggestionKind::TerminalSession => 30,
            SuggestionKind::TimeBased => 60,
        }
    }

    pub fn as_str(&self) -> (r: &'static str)
        ensures
            r@ == spec_kind_name(*self),
    {
        match self {
            SuggestionKind::WorkspaceContinuity => "workspace_continuity",
            SuggestionKind::TaskResurfacing => "task_resurfacing",
            SuggestionKind::ContextHint => "context_hint",
            SuggestionKind::RecentDocument => "recent_document",
            SuggestionKind::TerminalSession => "terminal_session",
            SuggestionKind::TimeBased => "time_based",
        }
    }

    pub fn from_str(s: &str) -> (r: Option<Self>)
        ensures
            r == spec_kind_from_name(s@),
    {
        if text_eq(s, "workspace_continuity") {
            Some(SuggestionKind::WorkspaceContinuity)
        } else if text_eq(s, "task_resurfacing") {
            Some(SuggestionKind::TaskResurfacing)
        } else if text_eq(s, "context_hint") {
            Some(SuggestionKind::ContextHint)
        } else if text_eq(s, "recent_document") {
            Some(SuggestionKind::RecentDocument)
        } else if text_eq(s, "terminal_session") {
            Some(SuggestionKind::TerminalSession)
        } else if text_eq(s, "time_based") {
            Some(SuggestionKind::TimeBased)
        } else {
            None
        }
    }
}

/// The name of a kind reads back as that kind, and distinct kinds have
/// distinct names.
pub proof fn law_kind_name_roundtrip(k: SuggestionKind)
    ensures
        spec_kind_from_name(spec_kind_name(k)) == Some(k),
{
    reveal_strlit("workspace_continuity");
    reveal_strlit("task_resurfacing");
    reveal_strlit("context_hint");
    reveal_strlit("recent_document");
    reveal_strlit("terminal_session");
    reveal_strlit("time_based");
    assert("workspace_continuity"@ != "task_resurfacing"@) by {
        assert("workspace_continuity"@[0] != "task_resurfacing"@[0]);
    }
    assert("workspace_continuity"@ != "context_hint"@) by {
        assert("workspace_continuity"@.len() != "context_hint"@.len());
    }
    assert("workspace_continuity"@ != "recent_document"@) by {
        assert("workspace_continuity"@.len() != "recent_document"@.len());
    }
    assert("workspace_continuity"@ != "terminal_session"@) by {
        assert("workspace_continuity"@.len() != "terminal_session"@.len());
    }
    assert("workspace_continuity"@ != "time_based"@) by {
        assert("workspace_continuity"@.len() != "time_based"@.len());
    }
    assert("task_resurfacing"@ != "context_hint"@) by {
        assert("task_resurfacing"@.len() != "context_hint"@.len());
    }
    assert("task_resurfacing"@ != "recent_document"@) by {
        assert("task_resurfacing"@.len() != "recent_document"@.len());
    }
    assert("task_resurfacing"@ != "terminal_session"@) by {
        assert("task_resurfacing"@[1] != "terminal_session"@[1]);
    }
    assert("task_resurfacing"@ != "time_based"@) by {
        assert("task_resurfacing"@.len() != "time_based"@.len());
    }
    assert("context_hint"@ != "recent_document"@) by {
        assert("context_hint"@.len() != "recent_document"@.len());
    }
    assert("context_hint"@ != "terminal_session"@) by {
        assert("context_hint"@.len() != "terminal_session"@.len());
    }
    assert("context_hint"@ != "time_based"@) by {
        assert("context_hint"@.len() != "time_based"@.len());
    }
    assert("recent_document"@ != "terminal_session"@) by {
        assert("recent_document"@.len() != "terminal_session"@.len());
    }
    assert("recent_document"@ != "time_based"@) by {
        assert("recent_document"@.len() != "time_based"@.len());
    }
    assert("terminal_session"@ != "time_based"@) by {
        assert("terminal_session"@.len() != "time_based"@.len());
    }
}

/// A one-click action offered with a suggestion; its payload is a JSON
/// object with a single text field `payload_key: payload_value`.
#[derive(Debug, Clone)]
pub struct SuggestionAction {
    pub label: String,
    pub action_type: String,
    pub payload_key: String,
    pub payload_value: String,
}

/// An actionable suggestion that the ambient layer can surface.
#[derive(Debug, Clone)]
pub struct Suggestion {
    pub id: u128,
    pub kind: SuggestionKind,
    pub title: String,
    pub description: String,
    /// Key of the context that produced this suggestion (for dedup and dismissal).
    pub context_hash: String,
    /// Relevance in hundredths (0..=100).
    pub priority: u32,
    /// Nanoseconds after the Unix epoch.
    pub created_at: i128,
    /// Nanoseconds after the Unix epoch.
    pub expires_at: i128,
    pub action: Option<SuggestionAction>,
}

/// An event as the context window keeps it: when, its kind, and the text
/// fields of its payload that the rules read.
#[derive(Debug, Clone)]
pub struct ContextEvent {
    /// Nanoseconds after the Unix epoch.
    pub timestamp: i128,
    pub kind: String,
    pub app: Option<String>,
    pub title: Option<String>,
    pub workspace: Option<String>,
}

/// Context window snapshot used by the suggestion rules.
#[derive(Debug, Clone)]
pub struct ContextWindow {
    pub focused_app: String,
    pub focused_title: String,
    pub workspace: String,
    pub idle_duration_secs: u64,
    /// "morning", "afternoon", "evening" or "night".
    pub time_label: String,
    /// "weekday" or "weekend".
    pub day_label: String,
}

/// Keep a new event, dropping the oldest ones beyond the window size.
pub fn record_event(events: &mut Vec<ContextEvent>, event: ContextEvent)
    requires
        old(events)@.len() <= MAX_RECENT_EVENTS,
    ensures
        ({
            let all = old(events)@.push(event);
            &&& final(events)@.len() == if all.len() > MAX_RECENT_EVENTS {
                MAX_RECENT_EVENTS as int
            } else {
                all.len() as int
            }
            &&& final(events)@ == all.skip(all.len() - final(events)@.len())
        }),
{
    let ghost all = events@.push(event);
    events.push(event);
    let ghost mut dropped: int = 0;
    while events.len() > MAX_RECENT_EVENTS
        invariant
            events@ == all.skip(dropped),
            0 <= dropped <= all.len(),
            events@.len() >= MAX_RECENT_EVENTS || dropped == 0,
        decreases events@.len(),
    {
        events.remove(0);
        proof {
            dropped = dropped + 1;
            assert(events@ =~= all.skip(dropped));
        }
    }
}

pub open spec fn spec_time_label(hour: u32) -> Seq<char> {
    if 5 <= hour <= 11 {
        "morning"@
    } else if 12 <= hour <= 16 {
        "afternoon"@
    } else if 17 <= hour <= 20 {
        "evening"@
    } else {
        "night"@
    }
}

/// The part of the day an hour (0..=23) falls in.
pub fn time_label(hour: u32) -> (r: String)
    ensures
        r@ == spec_time_label(hour),
{
    if 5 <= hour && hour <= 11 {
        String::from_str("morning")
    } else if 12 <= hour && hour <= 16 {
        String::from_str("afternoon")
    } else if 17 <= hour && hour <= 20 {
        String::from_str("evening")
    } else {
        String::from_str("night")
    }
}

pub open spec fn spec_day_label(weekday_from_monday: u32) -> Seq<char> {
    if weekday_from_monday == 6 || weekday_from_monday == 7 {
        "weekend"@
    } else {
        "weekday"@
    }
}

/// "weekend" for Saturday (6) and Sunday (7), "weekday" otherwise.
pub fn day_label(weekday_from_monday: u32) -> (r: String)
    ensures
        r@ == spec_day_label(weekday_from_monday),
{
    if weekday_from_monday == 6 || weekday_from_monday == 7 {
        String::from_str("weekend")
    } else {
        String::from_str("weekday")
    }
}

/// With weekdays numbered from Monday as 1, Monday to Friday are weekdays
/// and Saturday and Sunday are the weekend; a context window built on any
/// day carries that day's label.
pub proof fn law_weekend_is_saturday_and_sunday(
    w: ContextWindow,
    events: Seq<ContextEvent>,
    hour: u32,
    day: u32,
)
    requires
        window_of(w, events, hour, day),
    ensures
        forall|d: u32| 1 <= d <= 5 ==> #[trigger] spec_day_label(d) == "weekday"@,
        spec_day_label(6) == "weekend"@,
        spec_day_label(7) == "weekend"@,
        1 <= day <= 5 ==> w.day_label@ == "weekday"@,
        day == 6 || day == 7 ==> w.day_label@ == "weekend"@,
{
}

/// Hours 5 to 11 are the morning, 12 to 16 the afternoon, 17 to 20 the
/// evening and the rest the night; a context window built at any hour
/// carries that hour's label.
pub proof fn law_parts_of_the_day(w: ContextWindow, events: Seq<ContextEvent>, hour: u32, day: u32)
    requires
        window_of(w, events, hour, day),
    ensures
        forall|h: u32| 5 <= h <= 11 ==> #[trigger] spec_time_label(h) == "morning"@,
        forall|h: u32| 12 <= h <= 16 ==> #[trigger] spec_time_label(h) == "afternoon"@,
        forall|h: u32| 17 <= h <= 20 ==> #[trigger] spec_time_label(h) == "evening"@,
        forall|h: u32| (h <= 4 || h >= 21) ==> #[trigger] spec_time_label(h) == "night"@,
        5 <= hour <= 11 ==> w.time_label@ == "morning"@,
        12 <= hour <= 16 ==> w.time_label@ == "afternoon"@,
        17 <= hour <= 20 ==> w.time_label@ == "evening"@,
        (hour <= 4 || hour >= 21) ==> w.time_label@ == "night"@,
{
}

pub open spec fn opt_text(o: Option<String>) -> Option<Seq<char>> {
    match o {
        Some(s) => Some(s@),
        None => None,
    }
}

/// (focused app, focused title, workspace) after scanning the newest `n`
/// events, newest first: the app and title come from events seen while no
/// app is known yet, and the workspace from the newest event naming one.
pub open spec fn scan_window(events: Seq<ContextEvent>, n: nat) -> (Seq<char>, Seq<char>, Seq<char>)
    decreases n,
{
    if n == 0 || n > events.len() {
        (Seq::empty(), Seq::empty(), Seq::empty())
    } else {
        let (app, title, ws) = scan_window(events, (n - 1) as nat);
        let e = events[events.len() - n];
        let (app2, title2) = if app.len() == 0 {
            (
                match opt_text(e.app) {
                    Some(a) => a,
                    None => app,
                },
                match opt_text(e.title) {
                    Some(t) => t,
                    None => title,
                },
            )
        } else {
            (app, title)
        };
        let ws2 = if ws.len() == 0 {
            match opt_text(e.workspace) {
                Some(w) => w,
                None => ws,
            }
        } else {
            ws
        };
        (app2, title2, ws2)
    }
}

/// Whether `w` is the window built from these events at this hour and weekday.
pub open spec fn window_of(w: ContextWindow, events: Seq<ContextEvent>, hour: u32, weekday_from_monday: u32) -> bool {
    let (app, title, ws) = scan_window(events, events.len());
    &&& w.focused_app@ == app
    &&& w.focused_title@ == title
    &&& w.workspace@ == ws
    &&& w.idle_duration_secs == 0
    &&& w.time_label@ == spec_time_label(hour)
    &&& w.day_label@ == spec_day_label(weekday_from_monday)
}

/// Build the context window from recent events and the current hour and
/// weekday (numbered from Monday as 1).
pub fn build_context_window(events: &Vec<ContextEvent>, hour: u32, weekday_from_monday: u32) -> (w:
    ContextWindow)
    ensures
        window_of(w, events@, hour, weekday_from_monday),
{
    let mut app = String::new();
    let mut title = String::new();
    let mut ws = String::new();
    let n = events.len();
    let mut k: usize = 0;
    while k < n
        invariant
            n == events@.len(),
            k <= n,
            (app@, title@, ws@) == scan_window(events@, k as nat),
        decreases n - k,
    {
        let e = &events[n - 1 - k];
        if app.as_str().unicode_len() == 0 {
            match &e.app {
                Some(a) => {
                    app = a.clone();
                },
                None => {},
            }
            match &e.title {
                Some(t) => {
                    title = t.clone();
                },
                None => {},
            }
        }
        if ws.as_str().unicode_len() == 0 {
            match &e.workspace {
                Some(w) => {
                    ws = w.clone();
                },
                None => {},
            }
        }
        k += 1;
    }
    ContextWindow {
        focused_app: app,
        focused_title: title,
        workspace: ws,
        idle_duration_secs: 0,
        time_label: time_label(hour),
        day_label: day_label(weekday_from_monday),
    }
}

fn suggestion_action(label: &str, action_type: &str, key: &str, value: String) -> (a: SuggestionAction)
    ensures
        a.label@ == label@,
        a.action_type@ == action_type@,
        a.payload_key@ == key@,
        a.payload_value == value,
{
    SuggestionAction {
        label: String::from_str(label),
        action_type: String::from_str(action_type),
        payload_key: String::from_str(key),
        payload_value: value,
    }
}

pub open spec fn expires_default(now: i128) -> int {
    now + DEFAULT_TTL_MINUTES * NANOS_PER_MINUTE
}

/// The workspace-continuity suggestion for a context.
pub open spec fn is_continuity(ctx: ContextWindow, s: Suggestion, now: i128) -> bool {
    &&& s.kind == SuggestionKind::WorkspaceContinuity
    &&& s.title@ == "Continue: "@ + ctx.workspace@ + " workspace"@
    &&& s.description@ == "You're on workspace "@ + ctx.workspace@ + ". Keep working here?"@
    &&& s.context_hash@ == "ws:"@ + ctx.workspace@
    &&& s.priority == 55
    &&& s.created_at == now
    &&& s.expires_at == expires_default(now)
    &&& s.action matches Some(a) && a.label@ == "Stay"@ && a.action_type@ == "focus_workspace"@
        && a.payload_key@ == "workspace"@ && a.payload_value@ == ctx.workspace@
}

/// The time-of-day greeting for a context (only the weekday morning one
/// reaches the minimum priority).
pub open spec fn is_greeting(ctx: ContextWindow, s: Suggestion, now: i128) -> bool {
    &&& s.kind == SuggestionKind::TimeBased
    &&& s.priority == spec_time_priority(ctx.time_label@, ctx.day_label@)
    &&& s.title@ == "Good morning — ready to work?"@
    &&& s.description@ == "You have a full day ahead. What's first?"@
    &&& s.context_hash@ == "time:"@ + ctx.time_label@ + ":"@ + ctx.day_label@
    &&& s.created_at == now
    &&& s.expires_at == expires_default(now)
    &&& s.action is None
}

/// The context hint for a context's focused app.
pub open spec fn is_context_hint(ctx: ContextWindow, s: Suggestion, now: i128) -> bool {
    &&& s.kind == SuggestionKind::ContextHint
    &&& s.title@ == "Working in "@ + ctx.focused_app@
    &&& s.description@ == "You're focused on "@ + ctx.focused_app@ + ". Need related resources?"@
    &&& s.context_hash@ == "app:"@ + ctx.focused_app@
    &&& s.priority == 50
    &&& s.created_at == now
    &&& s.expires_at == expires_default(now)
    &&& s.action matches Some(a) && a.label@ == "Show resources"@ && a.action_type@
        == "show_context"@ && a.payload_key@ == "app"@ && a.payload_value@ == ctx.focused_app@
}

/// The kinds the rules produce for a context, in rule order.
pub open spec fn spec_fired_kinds(ctx: ContextWindow) -> Seq<SuggestionKind> {
    (if ctx.workspace@.len() > 0 {
        seq![SuggestionKind::WorkspaceContinuity]
    } else {
        Seq::empty()
    }) + (if spec_time_priority(ctx.time_label@, ctx.day_label@) >= MIN_PRIORITY {
        seq![SuggestionKind::TimeBased]
    } else {
        Seq::empty()
    }) + (if ctx.focused_app@.len() > 0 {
        seq![SuggestionKind::ContextHint]
    } else {
        Seq::empty()
    })
}

/// Whether `s` is the suggestion its kind's rule makes for the context.
pub open spec fn rule_made(ctx: ContextWindow, s: Suggestion, now: i128) -> bool {
    match s.kind {
        SuggestionKind::WorkspaceContinuity => is_continuity(ctx, s, now),
        SuggestionKind::TimeBased => is_greeting(ctx, s, now),
        SuggestionKind::ContextHint => is_context_hint(ctx, s, now),
        _ => false,
    }
}

/// Workspace continuity: when a workspace is known, suggest staying on it.
pub fn rule_workspace_continuity(ctx: &ContextWindow, now: i128) -> (r: Option<Suggestion>)
    requires
        now + DEFAULT_TTL_MINUTES * NANOS_PER_MINUTE <= i128::MAX,
    ensures
        ctx.workspace@.len() == 0 ==> r is None,
        ctx.workspace@.len() > 0 ==> (r matches Some(s) && is_continuity(*ctx, s, now)),
{
    if ctx.workspace.as_str().unicode_len() == 0 {
        return None;
    }
    let ws = ctx.workspace.as_str();
    Some(Suggestion {
        id: new_id(),
        kind: SuggestionKind::WorkspaceContinuity,
        title: String::from_str("Continue: ").concat(ws).concat(" workspace"),
        description: String::from_str("You're on workspace ").concat(ws).concat(
            ". Keep working here?",
        ),
        context_hash: String::from_str("ws:").concat(ws),
        priority: 55,
        created_at: now,
        expires_at: now + DEFAULT_TTL_MINUTES * NANOS_PER_MINUTE,
        action: Some(suggestion_action("Stay", "focus_workspace", "workspace", ctx.workspace.clone())),
    })
}

/// Priority of the greeting for a part of the day, in hundredths.
pub open spec fn spec_time_priority(time: Seq<char>, day: Seq<char>) -> u32 {
    if time == "morning"@ && day == "weekday"@ {
        45
    } else if time == "morning"@ && day == "weekend"@ {
        35
    } else if time == "afternoon"@ {
        30
    } else if time == "evening"@ {
        25
    } else if time == "night"@ {
        20
    } else {
        15
    }
}

/// Of the parts of the week, only a weekday morning (hours 5 to 11, Monday
/// to Friday) brings the time-based greeting up to the minimum priority: a
/// window built at any other hour, or on Saturday or Sunday, gets none.
pub proof fn law_only_weekday_mornings_greet(w: ContextWindow, events: Seq<ContextEvent>, hour: u32, day: u32)
    requires
        window_of(w, events, hour, day),
        1 <= day <= 7,
    ensures
        spec_time_priority(w.time_label@, w.day_label@) >= MIN_PRIORITY <==> (5 <= hour <= 11 && 1 <= day <= 5),
{
    reveal_strlit("morning");
    reveal_strlit("afternoon");
    reveal_strlit("evening");
    reveal_strlit("night");
    reveal_strlit("weekday");
    reveal_strlit("weekend");
    assert("morning"@ != "afternoon"@) by {
        assert("morning"@[0] != "afternoon"@[0]);
    }
    assert("morning"@ != "evening"@) by {
        assert("morning"@[0] != "evening"@[0]);
    }
    assert("morning"@ != "night"@) by {
        assert("morning"@[0] != "night"@[0]);
    }
    assert("weekday"@ != "weekend"@) by {
        assert("weekday"@[4] != "weekend"@[4]);
    }
}

/// Time-based greeting: only the weekday morning greeting reaches the
/// minimum priority, so it is the only one produced.
pub fn rule_time_based(ctx: &ContextWindow, now: i128) -> (r: Option<Suggestion>)
    requires
        now + DEFAULT_TTL_MINUTES * NANOS_PER_MINUTE <= i128::MAX,
    ensures
        spec_time_priority(ctx.time_label@, ctx.day_label@) < MIN_PRIORITY ==> r is None,
        spec_time_priority(ctx.time_label@, ctx.day_label@) >= MIN_PRIORITY ==> (r matches Some(s)
            && is_greeting(*ctx, s, now)),
{
    let t = ctx.time_label.as_str();
    let d = ctx.day_label.as_str();
    let priority: u32 = if text_eq(t, "morning") && text_eq(d, "weekday") {
        45
    } else if text_eq(t, "morning") && text_eq(d, "weekend") {
        35
    } else if text_eq(t, "afternoon") {
        30
    } else if text_eq(t, "evening") {
        25
    } else if text_eq(t, "night") {
        20
    } else {
        15
    };
    if priority < MIN_PRIORITY {
        return None;
    }
    let ch = String::from_str("time:").concat(t).concat(":").concat(d);
    Some(Suggestion {
        id: new_id(),
        kind: SuggestionKind::TimeBased,
        title: String::from_str("Good morning — ready to work?"),
        description: String::from_str("You have a full day ahead. What's first?"),
        context_hash: ch,
        priority,
        created_at: now,
        expires_at: now + DEFAULT_TTL_MINUTES * NANOS_PER_MINUTE,
        action: None,
    })
}

/// Context hint: when an app is focused, offer related resources.
pub fn rule_context_hint(ctx: &ContextWindow, now: i128) -> (r: Option<Suggestion>)
    requires
        now + DEFAULT_TTL_MINUTES * NANOS_PER_MINUTE <= i128::MAX,
    ensures
        ctx.focused_app@.len() == 0 ==> r is None,
        ctx.focused_app@.len() > 0 ==> (r matches Some(s) && is_context_hint(*ctx, s, now)),
{
    if ctx.focused_app.as_str().unicode_len() == 0 {
        return None;
    }
    let app = ctx.focused_app.as_str();
    Some(Suggestion {
        id: new_id(),
        kind: SuggestionKind::ContextHint,
        title: String::from_str("Working in ").concat(app),
        description: String::from_str("You're focused on ").concat(app).concat(
            ". Need related resources?",
        ),
        context_hash: String::from_str("app:").concat(app),
        priority: 50,
        created_at: now,
        expires_at: now + DEFAULT_TTL_MINUTES * NANOS_PER_MINUTE,
        action: Some(suggestion_action("Show resources", "show_context", "app", ctx.focused_app.clone())),
    })
}

/// All rules in order: workspace continuity, time of day, context hint.
pub fn generate_suggestions(ctx: &ContextWindow, now: i128) -> (r: Vec<Suggestion>)
    requires
        now + DEFAULT_TTL_MINUTES * NANOS_PER_MINUTE <= i128::MAX,
    ensures
        r@.len() == (if ctx.workspace@.len() > 0 { 1int } else { 0int }) + (if spec_time_priority(
            ctx.time_label@,
            ctx.day_label@,
        ) >= MIN_PRIORITY {
            1int
        } else {
            0int
        }) + (if ctx.focused_app@.len() > 0 { 1int } else { 0int }),
        ctx.workspace@.len() > 0 ==> r@[0].kind == SuggestionKind::WorkspaceContinuity,
        ctx.focused_app@.len() > 0 ==> r@.last().kind == SuggestionKind::ContextHint,
        r@.map_values(|s: Suggestion| s.kind) == spec_fired_kinds(*ctx),
        forall|k: int| 0 <= k < r@.len() ==> rule_made(*ctx, #[trigger] r@[k], now) && r@[k].priority
            >= MIN_PRIORITY,
{
    let mut out: Vec<Suggestion> = Vec::new();
    match rule_workspace_continuity(ctx, now) {
        Some(s) => out.push(s),
        None => {},
    }
    match rule_time_based(ctx, now) {
        Some(s) => out.push(s),
        None => {},
    }
    match rule_context_hint(ctx, now) {
        Some(s) => out.push(s),
        None => {},
    }
    assert(out@.map_values(|s: Suggestion| s.kind) =~= spec_fired_kinds(*ctx));
    out
}

/// Whether a suggestion is worth surfacing.
pub fn surfaces(s: &Suggestion) -> (r: bool)
    ensures
        r == (s.priority >= MIN_PRIORITY),
{
    s.priority >= MIN_PRIORITY
}

fn onboarding_one(
    kind: SuggestionKind,
    title: &str,
    description: &str,
    hash: &str,
    priority: u32,
    now: i128,
    ttl_minutes: i128,
    action: Option<SuggestionAction>,
) -> (s: Suggestion)
    requires
        0 <= ttl_minutes <= 60,
        now + NANOS_PER_HOUR <= i128::MAX,
    ensures
        s.kind == kind,
        s.title@ == title@,
        s.description@ == description@,
        s.context_hash@ == hash@,
        s.priority == priority,
        s.created_at == now,
        s.expires_at == now + ttl_minutes * NANOS_PER_MINUTE,
        s.action == action,
{
    Suggestion {
        id: new_id(),
        kind,
        title: String::from_str(title),
        description: String::from_str(description),
        context_hash: String::from_str(hash),
        priority,
        created_at: now,
        expires_at: now + ttl_minutes * NANOS_PER_MINUTE,
        action,
    }
}

/// The suggestions shown to first-time users: an introduction, a pointer
/// to snapshots with a one-click try, and how to dismiss the bar.
pub open spec fn onboarding_set(r: Seq<Suggestion>, now: i128) -> bool {
    &&& r.len() == 3
    &&& r[0].kind == SuggestionKind::ContextHint && r[0].context_hash@ == "onboarding:intro"@
        && r[0].title@ == "Try: ask me anything"@
        && r[0].priority == 72 && r[0].expires_at == now + 30 * NANOS_PER_MINUTE && r[0].action is None
    &&& r[1].kind == SuggestionKind::ContextHint && r[1].context_hash@ == "onboarding:snapshot"@
        && r[1].title@ == "Workspaces are remembered"@
        && r[1].priority == 65 && r[1].expires_at == now + 30 * NANOS_PER_MINUTE && (r[1].action matches Some(a)
        && a.label@ == "Try it"@ && a.action_type@ == "take_snapshot"@ && a.payload_key@ == "label"@
        && a.payload_value@ == "My first snapshot"@)
    &&& r[2].kind == SuggestionKind::TimeBased && r[2].context_hash@ == "onboarding:escape"@
        && r[2].title@ == "Press Escape to dismiss"@
        && r[2].priority == 58 && r[2].expires_at == now + 15 * NANOS_PER_MINUTE && r[2].action is None
    &&& forall|k: int| 0 <= k < 3 ==> (#[trigger] r[k]).created_at == now
}

/// The suggestions shown to first-time users.
pub fn onboarding_suggestions(now: i128) -> (r: Vec<Suggestion>)
    requires
        now + NANOS_PER_HOUR <= i128::MAX,
    ensures
        onboarding_set(r@, now),
{
    let mut out: Vec<Suggestion> = Vec::new();
    out.push(
        onboarding_one(
            SuggestionKind::ContextHint,
            "Try: ask me anything",
            "Type a command in the bar — I can open apps, check status, and more.",
            "onboarding:intro",
            72,
            now,
            30,
            None,
        ),
    );
    out.push(
        onboarding_one(
            SuggestionKind::ContextHint,
            "Workspaces are remembered",
            "EnaOS remembers your workspace state. Try ‘create a snapshot’ to save your current setup.",
            "onboarding:snapshot",
            65,
            now,
            30,
            Some(
                suggestion_action(
                    "Try it",
                    "take_snapshot",
                    "label",
                    String::from_str("My first snapshot"),
                ),
            ),
        ),
    );
    out.push(
        onboarding_one(
            SuggestionKind::TimeBased,
            "Press Escape to dismiss",
            "The bar stays handy. Press Escape to collapse, type to ask.",
            "onboarding:escape",
            58,
            now,
            15,
            None,
        ),
    );
    out
}

/// Per-trigger rate limiting of suggestion generation.
pub struct TriggerLimiter {
    /// (trigger, instant in nanoseconds of its last accepted generation).
    pub last: Vec<(String, i128)>,
}

pub open spec fn last_time(last: Seq<(String, i128)>, trigger: Seq<char>) -> Option<i128>
    decreases last.len(),
{
    if last.len() == 0 {
        None
    } else if last.last().0@ == trigger {
        Some(last.last().1)
    } else {
        last_time(last.drop_last(), trigger)
    }
}

/// Whether a trigger may fire at `now`, given the recorded last times.
pub open spec fn may_fire(last: Seq<(String, i128)>, trigger: Seq<char>, now: i128) -> bool {
    match last_time(last, trigger) {
        Some(t) => now - t >= TRIGGER_COOLDOWN,
        None => true,
    }
}

/// Suggestions are rate-limited: once a trigger fired at `t` (a successful
/// `try_acquire` records `t` as its last time, and leaves other triggers'
/// times alone), it cannot fire again before `t + 30` seconds, and may from
/// then on; a trigger that never fired may fire at once.
pub proof fn law_trigger_fires_once_per_cooldown(
    last: Seq<(String, i128)>,
    trigger: Seq<char>,
    t: i128,
    later: i128,
)
    requires
        last_time(last, trigger) == Some(t),
    ensures
        may_fire(last, trigger, later) <==> later - t >= TRIGGER_COOLDOWN,
        may_fire(Seq::empty(), trigger, later),
{
}

impl TriggerLimiter {
    pub fn new() -> (r: Self)
        ensures
            r.last@.len() == 0,
    {
        TriggerLimiter { last: Vec::new() }
    }

    /// Whether this trigger may generate now: not if it did so less than
    /// thirty seconds ago. When it may, now is recorded as its last time.
    pub fn try_acquire(&mut self, trigger: &str, now: i128) -> (r: bool)
        ensures
            r == may_fire(old(self).last@, trigger@, now),
            r ==> last_time(final(self).last@, trigger@) == Some(now),
            r ==> forall|other: Seq<char>| other != trigger@ ==> last_time(final(self).last@, other)
                == last_time(old(self).last@, other),
            !r ==> final(self).last@ == old(self).last@,
    {
        let mut found: Option<i128> = None;
        let n = self.last.len();
        let mut k: usize = 0;
        while k < n
            invariant
                n == self.last@.len(),
                k <= n,
                found == last_time(self.last@.take(k as int), trigger@),
            decreases n - k,
        {
            assert(self.last@.take(k + 1).drop_last() =~= self.last@.take(k as int));
            assert(self.last@.take(k + 1).last() == self.last@[k as int]);
            if text_eq(self.last[k].0.as_str(), trigger) {
                found = Some(self.last[k].1);
            }
            k += 1;
        }
        assert(self.last@.take(n as int) =~= self.last@);
        match found {
            Some(t) => {
                let too_soon = match now.checked_sub(t) {
                    Some(d) => d < TRIGGER_COOLDOWN,
                    None => now < t,
                };
                if too_soon {
                    return false;
                }
            },
            None => {},
        }
        let ghost before = self.last@;
        self.last.push((String::from_str(trigger), now));
        proof {
            assert(self.last@.drop_last() =~= before);
        }
        true
    }
}

/// Ten years of 365 days, in nanoseconds: the cooldown end stored with a
/// permanent dismissal, which blocks its context whatever that end.
pub const PERMANENT_COOLDOWN: i128 = 315_360_000_000_000_000;

pub open spec fn spec_cooldown_until(kind: SuggestionKind, permanent: bool, now: i128) -> int {
    if permanent {
        now + PERMANENT_COOLDOWN
    } else {
        now + spec_cooldown_minutes(kind) * NANOS_PER_MINUTE
    }
}

/// The cooldown end recorded with a dismissal: ten years on for a permanent
/// one (which blocks for good), the kind's cooldown otherwise.
pub fn cooldown_until(kind: SuggestionKind, permanent: bool, now: i128) -> (r: i128)
    requires
        now + PERMANENT_COOLDOWN <= i128::MAX,
    ensures
        r == spec_cooldown_until(kind, permanent, now),
{
    if permanent {
        now + PERMANENT_COOLDOWN
    } else {
        now + (kind.cooldown_minutes() as i128) * NANOS_PER_MINUTE
    }
}

/// A dismissal remembered for a context.
#[derive(Debug, Clone)]
pub struct DismissalRecord {
    pub suggestion_id: u128,
    pub kind: SuggestionKind,
    pub context_hash: String,
    pub dismissed_at: i128,
    pub cooldown_until: i128,
    pub permanent: bool,
}

/// Build the record of a dismissal made now.
pub fn dismissal_record(
    suggestion_id: u128,
    kind: SuggestionKind,
    context_hash: &str,
    permanent: bool,
    now: i128,
) -> (r: DismissalRecord)
    requires
        now + PERMANENT_COOLDOWN <= i128::MAX,
    ensures
        r.suggestion_id == suggestion_id,
        r.kind == kind,
        r.context_hash@ == context_hash@,
        r.dismissed_at == now,
        r.cooldown_until == spec_cooldown_until(kind, permanent, now),
        r.permanent == permanent,
{
    DismissalRecord {
        suggestion_id,
        kind,
        context_hash: String::from_str(context_hash),
        dismissed_at: now,
        cooldown_until: cooldown_until(kind, permanent, now),
        permanent,
    }
}

/// The kind and context to record when dismissing: those of the stored
/// suggestion, or a context hint with an empty context when it is gone.
pub fn dismissal_target(found: Option<(SuggestionKind, String)>) -> (r: (SuggestionKind, String))
    ensures
        match found {
            Some((k, h)) => r.0 == k && r.1 == h,
            None => r.0 == SuggestionKind::ContextHint && r.1@.len() == 0,
        },
{
    match found {
        Some((k, h)) => (k, h),
        None => (SuggestionKind::ContextHint, String::new()),
    }
}

/// Whether a dismissal still blocks its context now: a permanent one always,
/// another until its cooldown ends.
pub open spec fn record_blocks(r: DismissalRecord, now: i128) -> bool {
    r.permanent || r.cooldown_until > now
}

/// Whether some dismissal of the context still blocks it now.
pub open spec fn context_blocked(records: Seq<DismissalRecord>, context_hash: Seq<char>, now: i128) -> bool {
    exists|k: int|
        0 <= k < records.len() && (#[trigger] records[k]).context_hash@ == context_hash
            && record_blocks(records[k], now)
}

/// Whether a context is blocked now: some dismissal of it is permanent or
/// has a cooldown that ends later than now.
pub fn is_context_blocked(records: &Vec<DismissalRecord>, context_hash: &str, now: i128) -> (r: bool)
    ensures
        r == context_blocked(records@, context_hash@, now),
{
    let mut i: usize = 0;
    while i < records.len()
        invariant
            i <= records@.len(),
            forall|k: int|
                0 <= k < i ==> !((#[trigger] records@[k]).context_hash@ == context_hash@
                    && record_blocks(records@[k], now)),
        decreases records@.len() - i,
    {
        if text_eq(records[i].context_hash.as_str(), context_hash) && (records[i].permanent
            || records[i].cooldown_until > now) {
            return true;
        }
        i += 1;
    }
    false
}

/// A dismissal blocks its context from the moment it is recorded: a
/// permanent one at every later time, another for as long as its cooldown
/// lasts; otherwise the context is blocked exactly when an earlier
/// dismissal still blocks it.
pub proof fn law_dismissal_blocks_until_cooldown(
    records: Seq<DismissalRecord>,
    r: DismissalRecord,
    now: i128,
    later: i128,
)
    requires
        r.dismissed_at == now,
        r.cooldown_until == spec_cooldown_until(r.kind, r.permanent, now),
    ensures
        context_blocked(records.push(r), r.context_hash@, now),
        r.permanent ==> context_blocked(records.push(r), r.context_hash@, later),
        now <= later < r.cooldown_until ==> context_blocked(records.push(r), r.context_hash@, later),
        context_blocked(records.push(r), r.context_hash@, later) <==> (context_blocked(
            records,
            r.context_hash@,
            later,
        ) || r.permanent || r.cooldown_until > later),
{
    let all = records.push(r);
    let n = records.len() as int;
    assert(all[n] == r);
    if context_blocked(all, r.context_hash@, later) {
        let k = choose|k: int|
            0 <= k < all.len() && (#[trigger] all[k]).context_hash@ == r.context_hash@
                && record_blocks(all[k], later);
        if k < n {
            assert(records[k] == all[k]);
        }
    }
    if context_blocked(records, r.context_hash@, later) {
        let k = choose|k: int|
            0 <= k < records.len() && (#[trigger] records[k]).context_hash@ == r.context_hash@
                && record_blocks(records[k], later);
        assert(all[k] == records[k]);
    }
}

} // verus!

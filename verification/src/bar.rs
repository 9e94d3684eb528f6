//! The bar's reactions to the daemon: its state, the system context line,
//! the action and plan indicators, and when onboarding shows.
use vstd::prelude::*;
use vstd::string::*;

use crate::actions::opt_view;
use crate::orchestration_ui::OrchestrationDisplay;
use crate::text::{decimal, decimal_text, starts_with_exec, starts_with_text, text_eq, trim_text, trimmed};

verus! {

/// Internal state of the Ena Bar.
#[derive(Debug, Clone)]
pub enum BarState {
    /// Collapsed — pill showing status dot.
    Collapsed,
    /// Expanded — input field visible, ready for command.
    Expanded,
    /// Thinking — enad processing, animated indicator shown.
    Thinking,
    /// Result — display command output.
    Result { text: String },
}

/// The colour of the status dot.
#[derive(Debug, Clone, Copy, PartialEq, Eq, Structural)]
pub enum DotColor {
    /// Connected, or something finished well.
    Green,
    /// Disconnected, cancelled or rolled back.
    Grey,
    /// Busy or waiting for approval.
    Amber,
    /// Something failed.
    Red,
    /// Rolling back.
    Orange,
}

/// What the bar knows of the desktop. Battery level and volume, which
/// arrive as fractions, are kept by the shell.
#[derive(Debug, Clone)]
pub struct SystemContext {
    pub focused_app: String,
    pub focused_title: String,
    pub workspace: String,
    pub battery_state: String,
    pub network_connected: bool,
    pub network_ssid: String,
    pub audio_muted: bool,
    pub media_player: String,
    pub media_state: String,
    pub media_title: String,
}

impl SystemContext {
    /// Nothing known yet: every text empty, no network.
    pub fn new() -> (c: Self)
        ensures
            c.focused_app@.len() == 0,
            c.focused_title@.len() == 0,
            c.workspace@.len() == 0,
            c.battery_state@.len() == 0,
            !c.network_connected,
            c.network_ssid@.len() == 0,
            !c.audio_muted,
            c.media_player@.len() == 0,
            c.media_state@.len() == 0,
            c.media_title@.len() == 0,
    {
        SystemContext {
            focused_app: String::new(),
            focused_title: String::new(),
            workspace: String::new(),
            battery_state: String::new(),
            network_connected: false,
            network_ssid: String::new(),
            audio_muted: false,
            media_player: String::new(),
            media_state: String::new(),
            media_title: String::new(),
        }
    }
}

/// The fields of an event's `data` object that the bar reads; `None` where
/// a field is missing or of another kind.
#[derive(Debug, Clone)]
pub struct EventData {
    pub app: Option<String>,
    pub title: Option<String>,
    pub workspace: Option<String>,
    pub state: Option<String>,
    pub connected: Option<bool>,
    pub ssid: Option<String>,
    pub muted: Option<bool>,
    pub player: Option<String>,
    pub message: Option<String>,
    pub result: Option<String>,
    pub error: Option<String>,
}

pub open spec fn keep_or(o: Option<String>, old: Seq<char>) -> Seq<char> {
    match o {
        Some(s) => s@,
        None => old,
    }
}

fn set_text(target: &mut String, value: &Option<String>)
    ensures
        final(target)@ == keep_or(*value, old(target)@),
{
    match value {
        Some(v) => {
            *target = v.clone();
        },
        None => {},
    }
}

/// The context after an event of category `kind` whose payload is of type
/// `event_type`: window focus and workspace changes, battery state,
/// network, mute and media playback each update their fields.
pub open spec fn spec_apply_context(c: SystemContext, kind: Seq<char>, event_type: Seq<char>, d: EventData) -> (
    Seq<char>,
    Seq<char>,
    Seq<char>,
    Seq<char>,
    bool,
    Seq<char>,
    bool,
    Seq<char>,
    Seq<char>,
    Seq<char>,
) {
    let fa = c.focused_app@;
    let ft = c.focused_title@;
    let ws = c.workspace@;
    let bs = c.battery_state@;
    let nc = c.network_connected;
    let ns = c.network_ssid@;
    let am = c.audio_muted;
    let mp = c.media_player@;
    let ms = c.media_state@;
    let mt = c.media_title@;
    if kind == "Window"@ && event_type == "WindowFocused"@ {
        (keep_or(d.app, fa), keep_or(d.title, ft), ws, bs, nc, ns, am, mp, ms, mt)
    } else if kind == "Window"@ && event_type == "WorkspaceChanged"@ {
        (fa, ft, keep_or(d.workspace, ws), bs, nc, ns, am, mp, ms, mt)
    } else if kind == "System"@ && event_type == "BatteryStatus"@ {
        (fa, ft, ws, keep_or(d.state, bs), nc, ns, am, mp, ms, mt)
    } else if kind == "System"@ && event_type == "NetworkStatus"@ {
        (
            fa,
            ft,
            ws,
            bs,
            match d.connected {
                Some(b) => b,
                None => nc,
            },
            keep_or(d.ssid, ns),
            am,
            mp,
            ms,
            mt,
        )
    } else if kind == "Audio"@ && event_type == "AudioVolumeChanged"@ {
        (
            fa,
            ft,
            ws,
            bs,
            nc,
            ns,
            match d.muted {
                Some(b) => b,
                None => am,
            },
            mp,
            ms,
            mt,
        )
    } else if kind == "Audio"@ && event_type == "MediaPlayback"@ {
        (fa, ft, ws, bs, nc, ns, am, keep_or(d.player, mp), keep_or(d.state, ms), keep_or(d.title, mt))
    } else {
        (fa, ft, ws, bs, nc, ns, am, mp, ms, mt)
    }
}

pub open spec fn context_view(c: SystemContext) -> (
    Seq<char>,
    Seq<char>,
    Seq<char>,
    Seq<char>,
    bool,
    Seq<char>,
    bool,
    Seq<char>,
    Seq<char>,
    Seq<char>,
) {
    (
        c.focused_app@,
        c.focused_title@,
        c.workspace@,
        c.battery_state@,
        c.network_connected,
        c.network_ssid@,
        c.audio_muted,
        c.media_player@,
        c.media_state@,
        c.media_title@,
    )
}

/// Fold a daemon event into the bar's context.
pub fn apply_context(c: &mut SystemContext, kind: &str, event_type: &str, d: &EventData)
    ensures
        context_view(*final(c)) == spec_apply_context(*old(c), kind@, event_type@, *d),
{
    let window = text_eq(kind, "Window");
    let system = text_eq(kind, "System");
    let audio = text_eq(kind, "Audio");
    if window && text_eq(event_type, "WindowFocused") {
        set_text(&mut c.focused_app, &d.app);
        set_text(&mut c.focused_title, &d.title);
    } else if window && text_eq(event_type, "WorkspaceChanged") {
        set_text(&mut c.workspace, &d.workspace);
    } else if system && text_eq(event_type, "BatteryStatus") {
        set_text(&mut c.battery_state, &d.state);
    } else if system && text_eq(event_type, "NetworkStatus") {
        match d.connected {
            Some(b) => {
                c.network_connected = b;
            },
            None => {},
        }
        set_text(&mut c.network_ssid, &d.ssid);
    } else if audio && text_eq(event_type, "AudioVolumeChanged") {
        match d.muted {
            Some(b) => {
                c.audio_muted = b;
            },
            None => {},
        }
    } else if audio && text_eq(event_type, "MediaPlayback") {
        set_text(&mut c.media_player, &d.player);
        set_text(&mut c.media_state, &d.state);
        set_text(&mut c.media_title, &d.title);
    }
}

/// Whether the battery shows in the context line: a state is known and is
/// neither "fully-charged" nor "unknown".
pub open spec fn spec_shows_battery(state: Seq<char>) -> bool {
    state.len() > 0 && state != "fully-charged"@ && state != "unknown"@
}

pub fn shows_battery(c: &SystemContext) -> (r: bool)
    ensures
        r == spec_shows_battery(c.battery_state@),
{
    let s = c.battery_state.as_str();
    s.unicode_len() > 0 && !text_eq(s, "fully-charged") && !text_eq(s, "unknown")
}

/// The parts of the context line, in order: the focused app, the workspace,
/// the battery (written by the shell, when shown), the network, and what is
/// playing.
pub open spec fn context_parts(c: SystemContext, battery: Option<Seq<char>>) -> Seq<Seq<char>> {
    let p1: Seq<Seq<char>> = if c.focused_app@.len() > 0 {
        seq!["Focused: "@ + c.focused_app@]
    } else {
        Seq::empty()
    };
    let p2: Seq<Seq<char>> = if c.workspace@.len() > 0 {
        seq![c.workspace@]
    } else {
        Seq::empty()
    };
    let p3: Seq<Seq<char>> = match battery {
        Some(b) => if spec_shows_battery(c.battery_state@) {
            seq![b]
        } else {
            Seq::empty()
        },
        None => Seq::empty(),
    };
    let p4: Seq<Seq<char>> = if !c.network_connected {
        seq!["Network: disconnected"@]
    } else if c.network_ssid@.len() > 0 {
        seq!["WiFi: "@ + c.network_ssid@]
    } else {
        Seq::empty()
    };
    let p5: Seq<Seq<char>> = if c.media_player@.len() > 0 && c.media_state@ == "Playing"@ {
        seq![
            "Playing: "@ + if c.media_title@.len() > 0 {
                c.media_player@ + ": "@ + c.media_title@
            } else {
                c.media_player@
            },
        ]
    } else {
        Seq::empty()
    };
    p1 + p2 + p3 + p4 + p5
}

/// Parts joined with a wide separator.
pub open spec fn join_bars(parts: Seq<Seq<char>>) -> Seq<char>
    decreases parts.len(),
{
    if parts.len() == 0 {
        Seq::empty()
    } else if parts.len() == 1 {
        parts[0]
    } else {
        join_bars(parts.drop_last()) + "  |  "@ + parts.last()
    }
}

fn push_part(line: &mut String, count: &mut usize, part: &str, parts: Ghost<Seq<Seq<char>>>)
    requires
        old(line)@ == join_bars(parts@),
        *old(count) == parts@.len(),
        *old(count) < usize::MAX,
    ensures
        final(line)@ == join_bars(parts@.push(part@)),
        *final(count) == parts@.len() + 1,
{
    if *count > 0 {
        line.append("  |  ");
    }
    line.append(part);
    *count = *count + 1;
    assert(parts@.push(part@).drop_last() =~= parts@);
    proof {
        if parts@.len() == 0 {
            assert(final(line)@ =~= join_bars(parts@.push(part@)));
        }
    }
}

/// The context line: its parts joined by "  |  "; `None` when there are no
/// parts. `battery` is the battery reading as the shell writes it.
pub fn context_line(c: &SystemContext, battery: Option<String>) -> (r: Option<String>)
    ensures
        ({
            let parts = context_parts(*c, opt_view(battery));
            if parts.len() == 0 {
                r is None
            } else {
                r matches Some(l) && l@ == join_bars(parts)
            }
        }),
{
    let ghost bv = opt_view(battery);
    let mut line = String::new();
    let mut count: usize = 0;
    let ghost mut parts: Seq<Seq<char>> = Seq::empty();
    if c.focused_app.unicode_len() > 0 {
        let p = String::from_str("Focused: ").concat(c.focused_app.as_str());
        push_part(&mut line, &mut count, p.as_str(), Ghost(parts));
        proof {
            parts = parts.push(p@);
        }
    }
    if c.workspace.unicode_len() > 0 {
        push_part(&mut line, &mut count, c.workspace.as_str(), Ghost(parts));
        proof {
            parts = parts.push(c.workspace@);
        }
    }
    match &battery {
        Some(b) => {
            if shows_battery(c) {
                push_part(&mut line, &mut count, b.as_str(), Ghost(parts));
                proof {
                    parts = parts.push(b@);
                }
            }
        },
        None => {},
    }
    if !c.network_connected {
        let p = "Network: disconnected";
        push_part(&mut line, &mut count, p, Ghost(parts));
        proof {
            parts = parts.push(p@);
        }
    } else if c.network_ssid.unicode_len() > 0 {
        let p = String::from_str("WiFi: ").concat(c.network_ssid.as_str());
        push_part(&mut line, &mut count, p.as_str(), Ghost(parts));
        proof {
            parts = parts.push(p@);
        }
    }
    if c.media_player.unicode_len() > 0 && text_eq(c.media_state.as_str(), "Playing") {
        let shown = if c.media_title.unicode_len() > 0 {
            c.media_player.clone().concat(": ").concat(c.media_title.as_str())
        } else {
            c.media_player.clone()
        };
        let p = String::from_str("Playing: ").concat(shown.as_str());
        push_part(&mut line, &mut count, p.as_str(), Ghost(parts));
        proof {
            parts = parts.push(p@);
        }
    }
    assert(parts =~= context_parts(*c, bv));
    if count == 0 {
        None
    } else {
        Some(line)
    }
}


// ── Connection ───────────────────────────────────────────────

/// How the bar answers a change of its link to the daemon.
#[derive(Debug, Clone)]
pub struct LinkReaction {
    pub status_text: String,
    /// Whether the status line is brought into view.
    pub reveal_status: bool,
    /// Seconds after which the status line hides again, if it does.
    pub hide_after: Option<u32>,
    pub dot: DotColor,
    pub state: BarState,
    /// Ask the daemon for a recent snapshot to offer.
    pub check_snapshots: bool,
    /// Ask the daemon whether this is a first launch.
    pub check_first_run: bool,
}

/// The daemon answered the connection. The first-run check is asked once
/// per session: `first_run_checked` records that it was.
pub fn on_connected(first_run_checked: &mut bool) -> (r: LinkReaction)
    ensures
        r.status_text@ == "enad: connected"@,
        r.reveal_status,
        r.hide_after == Some(2u32),
        r.dot == DotColor::Green,
        r.state is Expanded,
        r.check_snapshots,
        r.check_first_run == !*old(first_run_checked),
        *final(first_run_checked),
{
    let check = !*first_run_checked;
    *first_run_checked = true;
    LinkReaction {
        status_text: String::from_str("enad: connected"),
        reveal_status: true,
        hide_after: Some(2),
        dot: DotColor::Green,
        state: BarState::Expanded,
        check_snapshots: true,
        check_first_run: check,
    }
}

/// The link to the daemon dropped; the bar collapses while it reconnects.
pub fn on_disconnected() -> (r: LinkReaction)
    ensures
        r.status_text@ == "enad: disconnected — reconnecting..."@,
        r.reveal_status,
        r.hide_after is None,
        r.dot == DotColor::Grey,
        r.state is Collapsed,
        !r.check_snapshots,
        !r.check_first_run,
{
    LinkReaction {
        status_text: String::from_str("enad: disconnected — reconnecting..."),
        reveal_status: true,
        hide_after: None,
        dot: DotColor::Grey,
        state: BarState::Collapsed,
        check_snapshots: false,
        check_first_run: false,
    }
}

/// The daemon answered a ping after `latency_ms` milliseconds.
pub fn on_pong(latency_ms: u64) -> (r: LinkReaction)
    ensures
        r.status_text@ == "enad: connected ("@ + decimal(latency_ms as nat) + "ms)"@,
        !r.reveal_status,
        r.hide_after is None,
        r.dot == DotColor::Green,
        r.state is Expanded,
        !r.check_snapshots,
        !r.check_first_run,
{
    LinkReaction {
        status_text: String::from_str("enad: connected (").concat(decimal_text(latency_ms).as_str()).concat("ms)"),
        reveal_status: false,
        hide_after: None,
        dot: DotColor::Green,
        state: BarState::Expanded,
        check_snapshots: false,
        check_first_run: false,
    }
}

// ── Results ──────────────────────────────────────────────────

/// What a command or agent event does to the bar.
#[derive(Debug, Clone)]
pub enum ResultReaction {
    SetState { state: BarState },
    StatusText { text: String },
    Nothing,
}

pub open spec fn or_default(o: Option<String>, d: Seq<char>) -> Seq<char> {
    match o {
        Some(s) => s@,
        None => d,
    }
}

fn owned_or(o: &Option<String>, d: &str) -> (r: String)
    ensures
        r@ == or_default(*o, d@),
{
    match o {
        Some(s) => s.clone(),
        None => String::from_str(d),
    }
}

/// The bar's answer to an event named `kind` with the payload's `text`,
/// `message` and `hostname`: results and errors are shown, a start makes the
/// bar think, a system summary names the host.
pub fn result_reaction(kind: &str, text: &Option<String>, message: &Option<String>, hostname: &Option<String>) -> (r:
    ResultReaction)
    ensures
        (kind@ == "agent_result"@ || kind@ == "command_result"@) ==> (r matches ResultReaction::SetState {
            state: BarState::Result { text: t },
        } && t@ == or_default(*text, "No output"@)),
        !(kind@ == "agent_result"@ || kind@ == "command_result"@) && (kind@ == "agent_thinking"@ || kind@
            == "command_start"@) ==> (r matches ResultReaction::SetState { state: BarState::Thinking }),
        !(kind@ == "agent_result"@ || kind@ == "command_result"@) && !(kind@ == "agent_thinking"@ || kind@
            == "command_start"@) && (kind@ == "agent_error"@ || kind@ == "command_error"@) ==> (
        r matches ResultReaction::SetState { state: BarState::Result { text: t } } && t@ == "Error: "@
            + or_default(*message, "An error occurred"@)),
        !(kind@ == "agent_result"@ || kind@ == "command_result"@) && !(kind@ == "agent_thinking"@ || kind@
            == "command_start"@) && !(kind@ == "agent_error"@ || kind@ == "command_error"@) ==> if kind@
            == "system_info"@ && hostname is Some {
            r matches ResultReaction::StatusText { text: t } && t@ == "enad: "@ + hostname->0@
        } else {
            r is Nothing
        },
{
    if text_eq(kind, "agent_result") || text_eq(kind, "command_result") {
        ResultReaction::SetState { state: BarState::Result { text: owned_or(text, "No output") } }
    } else if text_eq(kind, "agent_thinking") || text_eq(kind, "command_start") {
        ResultReaction::SetState { state: BarState::Thinking }
    } else if text_eq(kind, "agent_error") || text_eq(kind, "command_error") {
        ResultReaction::SetState {
            state: BarState::Result {
                text: String::from_str("Error: ").concat(owned_or(message, "An error occurred").as_str()),
            },
        }
    } else if text_eq(kind, "system_info") {
        match hostname {
            Some(h) => ResultReaction::StatusText { text: String::from_str("enad: ").concat(h.as_str()) },
            None => ResultReaction::Nothing,
        }
    } else {
        ResultReaction::Nothing
    }
}

// ── Actions ──────────────────────────────────────────────────

/// The action indicator after an action lifecycle event.
#[derive(Debug, Clone)]
pub struct ActionDisplay {
    pub text: String,
    /// Whether the indicator is brought into view.
    pub reveal: bool,
    pub dot: DotColor,
    /// Seconds after which the indicator hides, if it does.
    pub hide_after: Option<u32>,
}

/// The indicator for a system event of type `event_type`: a started action
/// shows its message, a finished one its result or error with a mark, a
/// cancelled one says so; other events leave it alone.
pub fn action_display(kind: &str, event_type: &str, d: &EventData) -> (r: Option<ActionDisplay>)
    ensures
        kind@ != "System"@ ==> r is None,
        kind@ == "System"@ ==> if event_type@ == "ActionStarted"@ {
            r matches Some(a) && a.text@ == or_default(d.message, "Executing action..."@) && a.reveal && a.dot
                == DotColor::Amber && a.hide_after is None
        } else if event_type@ == "ActionCompleted"@ {
            r matches Some(a) && a.text@ == "✓ "@ + or_default(d.result, "Action completed"@) && !a.reveal
                && a.dot == DotColor::Green && a.hide_after == Some(3u32)
        } else if event_type@ == "ActionFailed"@ {
            r matches Some(a) && a.text@ == "✗ "@ + or_default(d.error, "Action failed"@) && !a.reveal && a.dot
                == DotColor::Red && a.hide_after == Some(5u32)
        } else if event_type@ == "ActionCancelled"@ {
            r matches Some(a) && a.text@ == "Action cancelled"@ && !a.reveal && a.dot == DotColor::Grey
                && a.hide_after == Some(2u32)
        } else {
            r is None
        },
{
    if !text_eq(kind, "System") {
        return None;
    }
    if text_eq(event_type, "ActionStarted") {
        Some(
            ActionDisplay {
                text: owned_or(&d.message, "Executing action..."),
                reveal: true,
                dot: DotColor::Amber,
                hide_after: None,
            },
        )
    } else if text_eq(event_type, "ActionCompleted") {
        Some(
            ActionDisplay {
                text: String::from_str("✓ ").concat(owned_or(&d.result, "Action completed").as_str()),
                reveal: false,
                dot: DotColor::Green,
                hide_after: Some(3),
            },
        )
    } else if text_eq(event_type, "ActionFailed") {
        Some(
            ActionDisplay {
                text: String::from_str("✗ ").concat(owned_or(&d.error, "Action failed").as_str()),
                reveal: false,
                dot: DotColor::Red,
                hide_after: Some(5),
            },
        )
    } else if text_eq(event_type, "ActionCancelled") {
        Some(
            ActionDisplay {
                text: String::from_str("Action cancelled"),
                reveal: false,
                dot: DotColor::Grey,
                hide_after: Some(2),
            },
        )
    } else {
        None
    }
}

// ── Plans ────────────────────────────────────────────────────

/// What becomes of a restoration the bar started, on a plan event.
#[derive(Debug, Clone, Copy, PartialEq, Eq, Structural)]
pub enum RestorationStep {
    /// Show it done, and dismiss it four seconds later.
    Completed,
    /// Show it failed, offering a retry.
    Failed,
    Dismiss,
    Unchanged,
}

/// A change to the timeline.
#[derive(Debug, Clone)]
pub enum TimelineOp {
    Show { display: OrchestrationDisplay },
    SetStatus { status: String, message: String },
    Keep,
}

/// The bar's answer to a plan event.
#[derive(Debug, Clone)]
pub struct PlanReaction {
    pub timeline: TimelineOp,
    pub dot: Option<DotColor>,
    pub restoration: RestorationStep,
}

/// `s` with every leading copy of `p` removed.
pub open spec fn strip_leading(s: Seq<char>, p: Seq<char>) -> Seq<char>
    decreases s.len(),
{
    if p.len() > 0 && starts_with_text(s, p) {
        strip_leading(s.skip(p.len() as int), p)
    } else {
        s
    }
}

fn strip_leading_text(s: &str, p: &str) -> (r: String)
    ensures
        r@ == strip_leading(s@, p@),
{
    let m = p.unicode_len();
    let mut rest: &str = s;
    loop
        invariant
            m == p@.len(),
            strip_leading(rest@, p@) == strip_leading(s@, p@),
        decreases rest@.len(),
    {
        if m > 0 && starts_with_exec(rest, p) {
            let n = rest.unicode_len();
            let next = rest.substring_char(m, n);
            assert(next@ =~= rest@.skip(m as int));
            rest = next;
        } else {
            return rest.to_owned();
        }
    }
}

/// The title a plan that waits for approval is shown under: its message
/// without the leading "Plan requires approval", trimmed.
pub open spec fn approval_title(message: Seq<char>) -> Seq<char> {
    trimmed(strip_leading(message, "Plan requires approval"@))
}

fn pending_display(plan_id: &str, message: &str) -> (d: OrchestrationDisplay)
    ensures
        d.plan_id matches Some(id) && id@ == plan_id@,
        d.plan_title@ == approval_title(message@),
        d.status@ == "PendingApproval"@,
        d.message@ == "Requires approval"@,
        d.nodes@.len() == 0,
{
    let stripped = strip_leading_text(message, "Plan requires approval");
    OrchestrationDisplay {
        plan_id: Some(plan_id.to_owned()),
        plan_title: trim_text(stripped.as_str()).to_owned(),
        status: String::from_str("PendingApproval"),
        message: String::from_str("Requires approval"),
        nodes: Vec::new(),
    }
}

pub open spec fn is_set_status(t: TimelineOp, status: Seq<char>, message: Seq<char>) -> bool {
    t matches TimelineOp::SetStatus { status: s, message: m } && s@ == status && m@ == message
}

/// The bar's answer to a plan's status event. A restoration the bar started
/// (`is_restoring`) ends when the plan completes, fails, is cancelled or is
/// rolled back.
pub fn plan_reaction(is_restoring: &mut bool, plan_id: &str, status: &str, message: &str) -> (r: PlanReaction)
    ensures
        ({
            let s = status@;
            let same = *final(is_restoring) == *old(is_restoring);
            let ended = !*final(is_restoring);
            if s == "PendingApproval"@ {
                &&& r.timeline matches TimelineOp::Show { display: d } && d.plan_id matches Some(id) && id@
                    == plan_id@ && d.plan_title@ == approval_title(message@) && d.status@ == "PendingApproval"@
                    && d.message@ == "Requires approval"@ && d.nodes@.len() == 0
                &&& r.dot == Some(DotColor::Amber)
                &&& r.restoration == RestorationStep::Unchanged
                &&& same
            } else if s == "Approved"@ {
                is_set_status(r.timeline, "Approved"@, "Plan approved"@) && r.dot == Some(DotColor::Green)
                    && r.restoration == RestorationStep::Unchanged && same
            } else if s == "Running"@ {
                is_set_status(r.timeline, "Running"@, message@) && r.dot == Some(DotColor::Amber) && r.restoration
                    == RestorationStep::Unchanged && same
            } else if s == "Completed"@ {
                ended && is_set_status(r.timeline, "Completed"@, message@) && r.dot == Some(DotColor::Green)
                    && r.restoration == if *old(is_restoring) {
                    RestorationStep::Completed
                } else {
                    RestorationStep::Unchanged
                }
            } else if s == "Failed"@ {
                ended && is_set_status(r.timeline, "Failed"@, message@) && r.dot == Some(DotColor::Red) && r.restoration
                    == if *old(is_restoring) {
                    RestorationStep::Failed
                } else {
                    RestorationStep::Unchanged
                }
            } else if s == "Cancelled"@ {
                ended && is_set_status(r.timeline, "Cancelled"@, message@) && r.dot == Some(DotColor::Grey)
                    && r.restoration == if *old(is_restoring) {
                    RestorationStep::Dismiss
                } else {
                    RestorationStep::Unchanged
                }
            } else if s == "RollingBack"@ {
                is_set_status(r.timeline, "RollingBack"@, message@) && r.dot == Some(DotColor::Orange)
                    && r.restoration == RestorationStep::Unchanged && same
            } else if s == "RolledBack"@ {
                ended && is_set_status(r.timeline, "RolledBack"@, message@) && r.dot == Some(DotColor::Grey)
                    && r.restoration == if *old(is_restoring) {
                    RestorationStep::Dismiss
                } else {
                    RestorationStep::Unchanged
                }
            } else {
                r.timeline is Keep && r.dot is None && r.restoration == RestorationStep::Unchanged && same
            }
        }),
{
    let was = *is_restoring;
    let keep = RestorationStep::Unchanged;
    if text_eq(status, "PendingApproval") {
        PlanReaction {
            timeline: TimelineOp::Show { display: pending_display(plan_id, message) },
            dot: Some(DotColor::Amber),
            restoration: keep,
        }
    } else if text_eq(status, "Approved") {
        PlanReaction {
            timeline: TimelineOp::SetStatus {
                status: String::from_str("Approved"),
                message: String::from_str("Plan approved"),
            },
            dot: Some(DotColor::Green),
            restoration: keep,
        }
    } else if text_eq(status, "Running") {
        PlanReaction {
            timeline: TimelineOp::SetStatus { status: String::from_str("Running"), message: message.to_owned() },
            dot: Some(DotColor::Amber),
            restoration: keep,
        }
    } else if text_eq(status, "Completed") {
        *is_restoring = false;
        PlanReaction {
            timeline: TimelineOp::SetStatus { status: String::from_str("Completed"), message: message.to_owned() },
            dot: Some(DotColor::Green),
            restoration: if was { RestorationStep::Completed } else { keep },
        }
    } else if text_eq(status, "Failed") {
        *is_restoring = false;
        PlanReaction {
            timeline: TimelineOp::SetStatus { status: String::from_str("Failed"), message: message.to_owned() },
            dot: Some(DotColor::Red),
            restoration: if was { RestorationStep::Failed } else { keep },
        }
    } else if text_eq(status, "Cancelled") {
        *is_restoring = false;
        PlanReaction {
            timeline: TimelineOp::SetStatus { status: String::from_str("Cancelled"), message: message.to_owned() },
            dot: Some(DotColor::Grey),
            restoration: if was { RestorationStep::Dismiss } else { keep },
        }
    } else if text_eq(status, "RollingBack") {
        PlanReaction {
            timeline: TimelineOp::SetStatus { status: String::from_str("RollingBack"), message: message.to_owned() },
            dot: Some(DotColor::Orange),
            restoration: keep,
        }
    } else if text_eq(status, "RolledBack") {
        *is_restoring = false;
        PlanReaction {
            timeline: TimelineOp::SetStatus { status: String::from_str("RolledBack"), message: message.to_owned() },
            dot: Some(DotColor::Grey),
            restoration: if was { RestorationStep::Dismiss } else { keep },
        }
    } else {
        PlanReaction { timeline: TimelineOp::Keep, dot: None, restoration: keep }
    }
}

/// Apply a timeline change: a new display replaces the old one; a status
/// change sets the plan's status and message.
pub fn apply_timeline(d: &mut OrchestrationDisplay, op: TimelineOp)
    ensures
        match op {
            TimelineOp::Show { display } => *final(d) == display,
            TimelineOp::SetStatus { status, message } => *final(d) == (OrchestrationDisplay {
                status,
                message,
                ..*old(d)
            }),
            TimelineOp::Keep => *final(d) == *old(d),
        },
{
    match op {
        TimelineOp::Show { display } => {
            *d = display;
        },
        TimelineOp::SetStatus { status, message } => {
            d.status = status;
            d.message = message;
        },
        TimelineOp::Keep => {},
    }
}

// ── Onboarding ───────────────────────────────────────────────

/// How many times the bar looks for the first-run answer, a tenth of a
/// second apart, before giving up.
pub const FIRST_RUN_POLLS: u32 = 30;

/// Whether the welcome overlay shows: on a first launch whose onboarding
/// is not done. A missing first-launch flag reads as "not first", a missing
/// onboarding flag as "done".
pub open spec fn spec_shows_welcome(is_first_launch: Option<bool>, onboarding_completed: Option<bool>) -> bool {
    is_first_launch == Some(true) && onboarding_completed == Some(false)
}

pub fn shows_welcome(is_first_launch: Option<bool>, onboarding_completed: Option<bool>) -> (r: bool)
    ensures
        r == spec_shows_welcome(is_first_launch, onboarding_completed),
{
    let first = match is_first_launch {
        Some(b) => b,
        None => false,
    };
    let done = match onboarding_completed {
        Some(b) => b,
        None => true,
    };
    first && !done
}

/// Whether the bar keeps waiting for the first-run answer after `polls`
/// looks.
pub fn keeps_polling(polls: u32) -> (r: bool)
    ensures
        r == (polls <= FIRST_RUN_POLLS),
{
    polls <= FIRST_RUN_POLLS
}


/// Onboarding shows once: after `complete_onboarding`, the status the
/// daemon reports keeps the bar's welcome overlay closed, whatever the
/// status was before.
pub proof fn law_completed_onboarding_hides_welcome(after: crate::first_run::FirstRunManager)
    requires
        after.status.onboarding_completed,
        !after.status.is_first_launch,
    ensures
        !spec_shows_welcome(Some(after.status.is_first_launch), Some(after.status.onboarding_completed)),
{
}

} // verus!

//! Event categories and the kinds of payload that travel on the daemon's
//! event bus, and what a client may subscribe to or query.
use vstd::prelude::*;

verus! {

/// Event category — used for subscription filtering.
#[derive(Debug, Clone, Copy, PartialEq, Eq, Structural, Hash)]
pub enum EventKind {
    /// Agent lifecycle events (spawned, progress, terminated)
    Agent,
    /// Window/compositor events (focus, open, close, move)
    Window,
    /// Input events (keyboard shortcut, hotkey)
    Input,
    /// Process lifecycle (started, exited, crashed)
    Process,
    /// System state (idle, active, sleep, network, power)
    System,
    /// Audio/media state changes
    Audio,
    /// Clipboard events
    Clipboard,
    /// Desktop notification events
    Notification,
    /// Debug / internal
    Debug,
}

pub open spec fn spec_kind_name(k: EventKind) -> Seq<char> {
    match k {
        EventKind::Agent => "Agent"@,
        EventKind::Window => "Window"@,
        EventKind::Input => "Input"@,
        EventKind::Process => "Process"@,
        EventKind::System => "System"@,
        EventKind::Audio => "Audio"@,
        EventKind::Clipboard => "Clipboard"@,
        EventKind::Notification => "Notification"@,
        EventKind::Debug => "Debug"@,
    }
}

impl EventKind {
    /// The category's name as it is written in events and logs.
    pub fn name(&self) -> (r: &'static str)
        ensures
            r@ == spec_kind_name(*self),
    {
        match self {
            EventKind::Agent => "Agent",
            EventKind::Window => "Window",
            EventKind::Input => "Input",
            EventKind::Process => "Process",
            EventKind::System => "System",
            EventKind::Audio => "Audio",
            EventKind::Clipboard => "Clipboard",
            EventKind::Notification => "Notification",
            EventKind::Debug => "Debug",
        }
    }
}

/// Which payload an event carries, without its fields.
#[derive(Debug, Clone, Copy, PartialEq, Eq, Structural)]
pub enum PayloadKind {
    AgentSpawned,
    AgentProgress,
    AgentCompleted,
    AgentFailed,
    WindowFocused,
    WindowOpened,
    WindowClosed,
    WorkspaceChanged,
    HotkeyPressed,
    ProcessStarted,
    ProcessExited,
    SystemIdle,
    SystemActive,
    SystemSleep,
    SystemWake,
    NetworkStatus,
    BatteryStatus,
    PowerProfileChanged,
    AudioDeviceChanged,
    AudioVolumeChanged,
    MediaPlayback,
    ClipboardUpdated,
    NotificationReceived,
    NotificationDismissed,
    ActionRequested,
    ActionStarted,
    ActionCompleted,
    ActionFailed,
    ActionCancelled,
    OrchestrationPlanEvent,
    OrchestrationNodeEvent,
    SnapshotTaken,
    SnapshotDeleted,
    RestorePreviewGenerated,
    RestoreStarted,
    SuggestionGenerated,
    SuggestionDismissed,
    Log,
}

/// Whether an event of this payload makes the daemon take an automatic
/// workspace snapshot: going to sleep and waking up.
pub fn snapshots_on(kind: PayloadKind) -> (r: bool)
    ensures
        r == (kind == PayloadKind::SystemSleep || kind == PayloadKind::SystemWake),
{
    match kind {
        PayloadKind::SystemSleep | PayloadKind::SystemWake => true,
        _ => false,
    }
}

/// What state to query.
#[derive(Debug, Clone)]
pub enum StateTarget {
    ActiveWindows,
    RunningAgents,
    SystemInfo,
    ProcessList,
    /// Full desktop context (battery, network, audio, focused window, workspace).
    DesktopContext,
    /// Recent memory entries.
    MemoryRecent,
    /// Memory summary.
    MemorySummary,
    /// Memory search.
    MemorySearch { query: String },
}

/// Event subscription request.
#[derive(Debug, Clone)]
pub struct Subscription {
    /// Which event kinds to subscribe to. Empty = all.
    pub kinds: Vec<EventKind>,
}

} // verus!

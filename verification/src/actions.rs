//! Desktop action model: action kinds, permission levels, lifecycle status,
//! and the bookkeeping the executor keeps around running actions.
use vstd::prelude::*;
use vstd::string::*;

use crate::ids::new_id;

verus! {

/// Permission level required for an action.
#[derive(Debug, Clone, Copy, PartialEq, Eq, Structural)]
pub enum PermissionLevel {
    /// Safe to execute without confirmation.
    Safe,
    /// Requires logging but auto-executes.
    Privileged,
    /// Requires explicit user confirmation before execution.
    ConfirmationRequired,
}

/// Status of an action execution.
#[derive(Debug, Clone)]
pub enum ActionStatus {
    Pending,
    Running,
    Completed,
    Failed { error: String },
    Cancelled,
}

/// Supported desktop action types.
#[derive(Debug, Clone)]
pub enum ActionType {
    /// Open an application by name.
    OpenApp { app: String },
    /// Open a URL in the default browser.
    OpenUrl { url: String },
    /// Focus a window by app name or title substring.
    FocusWindow { app: Option<String>, title: Option<String> },
    /// Launch a terminal command (supervised).
    LaunchCommand { command: String, args: Vec<String> },
    /// Switch to a workspace.
    SwitchWorkspace { workspace: String },
    /// Search for files by name pattern.
    SearchFiles { query: String, path: Option<String> },
    /// Control media playback (play/pause/next/previous).
    MediaControl { action: String },
    /// Set clipboard content.
    ClipboardSet { text: String },
    /// Read the active window title (returns data, no side effect).
    ReadWindowTitle,
    /// Show a desktop notification.
    Notify { title: String, body: String },
}

/// The mathematical content of an action: its kind and the text of its fields.
pub ghost enum ActionSpec {
    OpenApp { app: Seq<char> },
    OpenUrl { url: Seq<char> },
    FocusWindow { app: Option<Seq<char>>, title: Option<Seq<char>> },
    LaunchCommand { command: Seq<char>, args: Seq<Seq<char>> },
    SwitchWorkspace { workspace: Seq<char> },
    SearchFiles { query: Seq<char>, path: Option<Seq<char>> },
    MediaControl { action: Seq<char> },
    ClipboardSet { text: Seq<char> },
    ReadWindowTitle,
    Notify { title: Seq<char>, body: Seq<char> },
}

pub open spec fn opt_view(o: Option<String>) -> Option<Seq<char>> {
    match o {
        Some(s) => Some(s@),
        None => None,
    }
}

impl View for ActionType {
    type V = ActionSpec;

    open spec fn view(&self) -> ActionSpec {
        match self {
            ActionType::OpenApp { app } => ActionSpec::OpenApp { app: app@ },
            ActionType::OpenUrl { url } => ActionSpec::OpenUrl { url: url@ },
            ActionType::FocusWindow { app, title } => ActionSpec::FocusWindow {
                app: opt_view(*app),
                title: opt_view(*title),
            },
            ActionType::LaunchCommand { command, args } => ActionSpec::LaunchCommand {
                command: command@,
                args: args@.map_values(|a: String| a@),
            },
            ActionType::SwitchWorkspace { workspace } => ActionSpec::SwitchWorkspace {
                workspace: workspace@,
            },
            ActionType::SearchFiles { query, path } => ActionSpec::SearchFiles {
                query: query@,
                path: opt_view(*path),
            },
            ActionType::MediaControl { action } => ActionSpec::MediaControl { action: action@ },
            ActionType::ClipboardSet { text } => ActionSpec::ClipboardSet { text: text@ },
            ActionType::ReadWindowTitle => ActionSpec::ReadWindowTitle,
            ActionType::Notify { title, body } => ActionSpec::Notify {
                title: title@,
                body: body@,
            },
        }
    }
}

/// The permission an action of this kind needs by default.
pub open spec fn spec_default_permission(a: ActionSpec) -> PermissionLevel {
    match a {
        ActionSpec::ReadWindowTitle => PermissionLevel::Safe,
        ActionSpec::OpenApp { .. } => PermissionLevel::Safe,
        ActionSpec::OpenUrl { .. } => PermissionLevel::Safe,
        ActionSpec::MediaControl { .. } => PermissionLevel::Safe,
        ActionSpec::Notify { .. } => PermissionLevel::Safe,
        ActionSpec::FocusWindow { .. } => PermissionLevel::Privileged,
        ActionSpec::SwitchWorkspace { .. } => PermissionLevel::Privileged,
        ActionSpec::ClipboardSet { .. } => PermissionLevel::Privileged,
        ActionSpec::SearchFiles { .. } => PermissionLevel::Privileged,
        ActionSpec::LaunchCommand { .. } => PermissionLevel::ConfirmationRequired,
    }
}

pub fn clone_opt_string(o: &Option<String>) -> (r: Option<String>)
    ensures
        opt_view(r) == opt_view(*o),
{
    match o {
        Some(s) => Some(s.clone()),
        None => None,
    }
}

pub fn clone_strings(v: &Vec<String>) -> (r: Vec<String>)
    ensures
        r@.map_values(|a: String| a@) == v@.map_values(|a: String| a@),
{
    let mut r: Vec<String> = Vec::new();
    let mut i: usize = 0;
    while i < v.len()
        invariant
            i <= v.len(),
            r@.len() == i,
            forall|k: int| 0 <= k < i ==> r@[k]@ == v@[k]@,
        decreases v.len() - i,
    {
        r.push(v[i].clone());
        i += 1;
    }
    assert(r@.map_values(|a: String| a@) =~= v@.map_values(|a: String| a@));
    r
}

impl ActionType {
    /// A copy of this action with the same kind and field contents.
    pub fn duplicate(&self) -> (r: ActionType)
        ensures
            r@ == self@,
    {
        match self {
            ActionType::OpenApp { app } => ActionType::OpenApp { app: app.clone() },
            ActionType::OpenUrl { url } => ActionType::OpenUrl { url: url.clone() },
            ActionType::FocusWindow { app, title } => ActionType::FocusWindow {
                app: clone_opt_string(app),
                title: clone_opt_string(title),
            },
            ActionType::LaunchCommand { command, args } => ActionType::LaunchCommand {
                command: command.clone(),
                args: clone_strings(args),
            },
            ActionType::SwitchWorkspace { workspace } => ActionType::SwitchWorkspace {
                workspace: workspace.clone(),
            },
            ActionType::SearchFiles { query, path } => ActionType::SearchFiles {
                query: query.clone(),
                path: clone_opt_string(path),
            },
            ActionType::MediaControl { action } => ActionType::MediaControl {
                action: action.clone(),
            },
            ActionType::ClipboardSet { text } => ActionType::ClipboardSet { text: text.clone() },
            ActionType::ReadWindowTitle => ActionType::ReadWindowTitle,
            ActionType::Notify { title, body } => ActionType::Notify {
                title: title.clone(),
                body: body.clone(),
            },
        }
    }

    /// Whether this action launches a terminal command.
    pub fn is_launch_command(&self) -> (r: bool)
        ensures
            r <==> self@ is LaunchCommand,
    {
        match self {
            ActionType::LaunchCommand { .. } => true,
            _ => false,
        }
    }
}

/// A desktop action request.
#[derive(Debug, Clone)]
pub struct ActionRequest {
    pub id: u128,
    pub action: ActionType,
    pub permission: PermissionLevel,
}

impl ActionRequest {
    /// Build a request with a fresh random id.
    pub fn new(action: ActionType, permission: PermissionLevel) -> (r: Self)
        ensures
            r.action@ == action@,
            r.permission == permission,
    {
        ActionRequest { id: new_id(), action, permission }
    }

    /// Determine the permission level for an action type.
    pub fn default_permission(action: &ActionType) -> (p: PermissionLevel)
        ensures
            p == spec_default_permission(action@),
    {
        match action {
            ActionType::ReadWindowTitle => PermissionLevel::Safe,
            ActionType::OpenApp { .. } => PermissionLevel::Safe,
            ActionType::OpenUrl { .. } => PermissionLevel::Safe,
            ActionType::MediaControl { .. } => PermissionLevel::Safe,
            ActionType::Notify { .. } => PermissionLevel::Safe,
            ActionType::FocusWindow { .. } => PermissionLevel::Privileged,
            ActionType::SwitchWorkspace { .. } => PermissionLevel::Privileged,
            ActionType::ClipboardSet { .. } => PermissionLevel::Privileged,
            ActionType::SearchFiles { .. } => PermissionLevel::Privileged,
            ActionType::LaunchCommand { .. } => PermissionLevel::ConfirmationRequired,
        }
    }
}

/// The permission the executor runs a request under: a terminal command that
/// arrives marked `Safe` is raised to `ConfirmationRequired`; anything else
/// keeps the permission it came with.
pub open spec fn spec_effective_permission(requested: PermissionLevel, action: ActionSpec) -> PermissionLevel {
    if requested == PermissionLevel::Safe && action is LaunchCommand {
        PermissionLevel::ConfirmationRequired
    } else {
        requested
    }
}

pub fn effective_permission(requested: PermissionLevel, action: &ActionType) -> (p: PermissionLevel)
    ensures
        p == spec_effective_permission(requested, action@),
{
    if requested == PermissionLevel::Safe && action.is_launch_command() {
        PermissionLevel::ConfirmationRequired
    } else {
        requested
    }
}

/// Whether the executor must note that it auto-approves a request: the
/// request asks for confirmation although its kind does not need it.
pub fn needs_confirmation_notice(permission: PermissionLevel, action: &ActionType) -> (r: bool)
    ensures
        r == (permission == PermissionLevel::ConfirmationRequired
            && spec_default_permission(action@) != PermissionLevel::ConfirmationRequired),
{
    let default_perm = ActionRequest::default_permission(action);
    permission == PermissionLevel::ConfirmationRequired
        && default_perm != PermissionLevel::ConfirmationRequired
}

pub open spec fn spec_status_name(s: ActionStatus) -> Seq<char> {
    match s {
        ActionStatus::Pending => "pending"@,
        ActionStatus::Running => "running"@,
        ActionStatus::Completed => "completed"@,
        ActionStatus::Failed { .. } => "failed"@,
        ActionStatus::Cancelled => "cancelled"@,
    }
}

/// The lower-case name of a lifecycle status, as carried in events.
pub fn action_type_string(status: &ActionStatus) -> (r: String)
    ensures
        r@ == spec_status_name(*status),
{
    match status {
        ActionStatus::Pending => String::from_str("pending"),
        ActionStatus::Running => String::from_str("running"),
        ActionStatus::Completed => String::from_str("completed"),
        ActionStatus::Failed { .. } => String::from_str("failed"),
        ActionStatus::Cancelled => String::from_str("cancelled"),
    }
}

/// A human label for an action.
pub open spec fn spec_action_label(a: ActionSpec) -> Seq<char> {
    match a {
        ActionSpec::OpenApp { app } => "Open "@ + app,
        ActionSpec::OpenUrl { .. } => "Open URL"@,
        ActionSpec::FocusWindow { app, title } => "Focus "@ + match app {
            Some(a) => a,
            None => match title {
                Some(t) => t,
                None => "window"@,
            },
        },
        ActionSpec::LaunchCommand { command, .. } => "Run "@ + command,
        ActionSpec::SwitchWorkspace { workspace } => "Switch to "@ + workspace,
        ActionSpec::SearchFiles { query, .. } => "Search '"@ + query + "'"@,
        ActionSpec::MediaControl { action } => "Media "@ + action,
        ActionSpec::ClipboardSet { .. } => "Set clipboard"@,
        ActionSpec::ReadWindowTitle => "Read window title"@,
        ActionSpec::Notify { title, .. } => "Notify: "@ + title,
    }
}

pub fn action_label(action: &ActionType) -> (r: String)
    ensures
        r@ == spec_action_label(action@),
{
    match action {
        ActionType::OpenApp { app } => String::from_str("Open ").concat(app.as_str()),
        ActionType::OpenUrl { .. } => String::from_str("Open URL"),
        ActionType::FocusWindow { app, title } => {
            let s = String::from_str("Focus ");
            match app {
                Some(a) => s.concat(a.as_str()),
                None => match title {
                    Some(t) => s.concat(t.as_str()),
                    None => s.concat("window"),
                },
            }
        },
        ActionType::LaunchCommand { command, .. } => String::from_str("Run ").concat(
            command.as_str(),
        ),
        ActionType::SwitchWorkspace { workspace } => String::from_str("Switch to ").concat(
            workspace.as_str(),
        ),
        ActionType::SearchFiles { query, .. } => String::from_str("Search '").concat(
            query.as_str(),
        ).concat("'"),
        ActionType::MediaControl { action } => String::from_str("Media ").concat(action.as_str()),
        ActionType::ClipboardSet { .. } => String::from_str("Set clipboard"),
        ActionType::ReadWindowTitle => String::from_str("Read window title"),
        ActionType::Notify { title, .. } => String::from_str("Notify: ").concat(title.as_str()),
    }
}

} // verus!

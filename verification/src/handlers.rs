//! What the desktop action handlers report. Each handler runs one or more
//! desktop tools; given how each run ended, these functions decide whether
//! to fall back to another tool and which message or error the action ends
//! with.
use vstd::prelude::*;
use vstd::string::*;

use crate::desktop::{focus_label, focused_message};
use crate::lines::{lines_of, text_lines, texts};
use crate::text::{contains_exec, contains_text, decimal, decimal_text, trim_text, trimmed};

verus! {

/// How a run of a desktop tool ended.
#[derive(Debug, Clone)]
pub enum ToolOutcome {
    /// It exited successfully, printing `stdout`.
    Succeeded { stdout: String },
    /// It exited with a failure, printing `stderr`.
    Failed { stderr: String },
    /// It could not be run; `error` says why.
    NotStarted { error: String },
}

pub open spec fn succeeded(o: ToolOutcome) -> bool {
    o is Succeeded
}

/// What a failed or unstarted run has to say: its error output or the reason.
pub open spec fn complaint(o: ToolOutcome) -> Seq<char> {
    match o {
        ToolOutcome::Succeeded { .. } => Seq::empty(),
        ToolOutcome::Failed { stderr } => stderr@,
        ToolOutcome::NotStarted { error } => error@,
    }
}

fn complaint_text(o: &ToolOutcome) -> (r: String)
    ensures
        r@ == complaint(*o),
{
    match o {
        ToolOutcome::Succeeded { .. } => String::new(),
        ToolOutcome::Failed { stderr } => stderr.clone(),
        ToolOutcome::NotStarted { error } => error.clone(),
    }
}

fn ok_text(prefix: &str, value: &str) -> (r: Result<String, String>)
    ensures
        r matches Ok(m) && m@ == prefix@ + value@,
{
    Ok(String::from_str(prefix).concat(value))
}

fn err_text(prefix: &str, value: &str) -> (r: Result<String, String>)
    ensures
        r matches Err(m) && m@ == prefix@ + value@,
{
    Err(String::from_str(prefix).concat(value))
}

pub open spec fn is_ok(r: Result<String, String>, m: Seq<char>) -> bool {
    r matches Ok(t) && t@ == m
}

pub open spec fn is_err(r: Result<String, String>, m: Seq<char>) -> bool {
    r matches Err(t) && t@ == m
}

/// Opening an application first asks `gio launch`; when it works the app is
/// "Launched", otherwise `xdg-open` is tried (`None`).
pub fn open_app_launched(app: &str, gio: &ToolOutcome) -> (r: Option<String>)
    ensures
        succeeded(*gio) ==> (r matches Some(m) && m@ == "Launched "@ + app@),
        !succeeded(*gio) ==> r is None,
{
    match gio {
        ToolOutcome::Succeeded { .. } => Some(String::from_str("Launched ").concat(app)),
        _ => None,
    }
}

/// How opening an application ends once `xdg-open` ran.
pub fn open_app_result(app: &str, xdg: &ToolOutcome) -> (r: Result<String, String>)
    ensures
        succeeded(*xdg) ==> is_ok(r, "Opened "@ + app@),
        !succeeded(*xdg) ==> is_err(r, "Failed to open "@ + app@ + ": "@ + complaint(*xdg)),
{
    match xdg {
        ToolOutcome::Succeeded { .. } => ok_text("Opened ", app),
        _ => {
            let c = complaint_text(xdg);
            Err(String::from_str("Failed to open ").concat(app).concat(": ").concat(c.as_str()))
        },
    }
}

/// How opening a URL ends.
pub fn open_url_result(url: &str, xdg: &ToolOutcome) -> (r: Result<String, String>)
    ensures
        succeeded(*xdg) ==> is_ok(r, "Opened "@ + url@),
        !succeeded(*xdg) ==> is_err(r, "Failed to open URL: "@ + complaint(*xdg)),
{
    match xdg {
        ToolOutcome::Succeeded { .. } => ok_text("Opened ", url),
        _ => err_text("Failed to open URL: ", complaint_text(xdg).as_str()),
    }
}

/// Which compositor's tools focus windows and switch workspaces.
#[derive(Debug, Clone, Copy, PartialEq, Eq, Structural)]
pub enum FocusBackend {
    /// `swaymsg`, when `SWAYSOCK` is set.
    Sway,
    /// `hyprctl`, when Hyprland's instance signature is set.
    Hyprland,
    /// `wmctrl` for windows, GNOME Shell for workspaces.
    Fallback,
}

pub fn focus_backend(has_swaysock: bool, has_hyprland_signature: bool) -> (r: FocusBackend)
    ensures
        r == if has_swaysock {
            FocusBackend::Sway
        } else if has_hyprland_signature {
            FocusBackend::Hyprland
        } else {
            FocusBackend::Fallback
        },
{
    if has_swaysock {
        FocusBackend::Sway
    } else if has_hyprland_signature {
        FocusBackend::Hyprland
    } else {
        FocusBackend::Fallback
    }
}

/// How focusing a window found in a compositor's list ends, once the focus
/// command ran. Sway and Hyprland word a failure differently.
pub fn focus_result(
    backend: FocusBackend,
    app: &Option<String>,
    title: &Option<String>,
    run: &ToolOutcome,
) -> (r: Result<String, String>)
    ensures
        run is Succeeded ==> is_ok(r, "Focused "@ + focus_label(*app, *title)),
        run is Failed ==> is_err(
            r,
            (if backend == FocusBackend::Hyprland {
                "Focus failed: "@
            } else {
                "Failed to focus: "@
            }) + complaint(*run),
        ),
        run is NotStarted ==> is_err(r, "Focus command failed: "@ + complaint(*run)),
{
    match run {
        ToolOutcome::Succeeded { .. } => Ok(focused_message(app, title)),
        ToolOutcome::Failed { stderr } => {
            if backend == FocusBackend::Hyprland {
                err_text("Focus failed: ", stderr.as_str())
            } else {
                err_text("Failed to focus: ", stderr.as_str())
            }
        },
        ToolOutcome::NotStarted { error } => err_text("Focus command failed: ", error.as_str()),
    }
}

/// The error when no window matches a focus request.
pub fn window_not_found() -> (r: Result<String, String>)
    ensures
        is_err(r, "Window not found"@),
{
    Err(String::from_str("Window not found"))
}

/// How focusing through `wmctrl` ends: `None` when no listed window matched.
pub fn wmctrl_result(search: &str, run: &Option<ToolOutcome>) -> (r: Result<String, String>)
    ensures
        match *run {
            None => is_err(r, "No window matching '"@ + search@ + "' found"@),
            Some(o) => if succeeded(o) {
                is_ok(r, "Focused "@ + search@)
            } else {
                is_err(r, "Failed to focus "@ + search@)
            },
        },
{
    match run {
        None => Err(String::from_str("No window matching '").concat(search).concat("' found")),
        Some(ToolOutcome::Succeeded { .. }) => ok_text("Focused ", search),
        Some(_) => err_text("Failed to focus ", search),
    }
}

/// How launching a command ends: its trimmed output, or a note that it ran
/// when it printed nothing.
pub fn launch_result(command: &str, run: &ToolOutcome) -> (r: Result<String, String>)
    ensures
        match *run {
            ToolOutcome::Succeeded { stdout } => if trimmed(stdout@).len() == 0 {
                is_ok(r, "Command executed: "@ + command@)
            } else {
                is_ok(r, trimmed(stdout@))
            },
            ToolOutcome::Failed { stderr } => is_err(r, "Command failed: "@ + stderr@),
            ToolOutcome::NotStarted { error } => is_err(r, "Failed to execute "@ + command@ + ": "@ + error@),
        },
{
    match run {
        ToolOutcome::Succeeded { stdout } => {
            let t = trim_text(stdout.as_str());
            if t.unicode_len() == 0 {
                ok_text("Command executed: ", command)
            } else {
                Ok(t.to_owned())
            }
        },
        ToolOutcome::Failed { stderr } => err_text("Command failed: ", stderr.as_str()),
        ToolOutcome::NotStarted { error } => Err(
            String::from_str("Failed to execute ").concat(command).concat(": ").concat(error.as_str()),
        ),
    }
}

/// The GNOME Shell expression that activates the workspace named `workspace`.
pub open spec fn gnome_switch_expr(workspace: Seq<char>) -> Seq<char> {
    "global.workspace_manager.get_workspace_by_name('"@ + workspace
        + "', null)?.activate(global.get_current_time())"@
}

pub fn gnome_switch_script(workspace: &str) -> (r: String)
    ensures
        r@ == gnome_switch_expr(workspace@),
{
    String::from_str("global.workspace_manager.get_workspace_by_name('").concat(workspace).concat(
        "', null)?.activate(global.get_current_time())",
    )
}

/// How switching workspaces ends with the backend's tool.
pub fn switch_result(backend: FocusBackend, workspace: &str, run: &ToolOutcome) -> (r: Result<String, String>)
    ensures
        succeeded(*run) ==> is_ok(r, "Switched to "@ + workspace@),
        backend != FocusBackend::Fallback ==> (run matches ToolOutcome::Failed { stderr } ==> is_err(
            r,
            "Failed: "@ + stderr@,
        )),
        backend == FocusBackend::Sway ==> (run matches ToolOutcome::NotStarted { error } ==> is_err(
            r,
            "swaymsg failed: "@ + error@,
        )),
        backend == FocusBackend::Hyprland ==> (run matches ToolOutcome::NotStarted { error } ==> is_err(
            r,
            "hyprctl failed: "@ + error@,
        )),
        backend == FocusBackend::Fallback && !succeeded(*run) ==> is_err(
            r,
            "Workspace switching not supported on this compositor"@,
        ),
{
    match run {
        ToolOutcome::Succeeded { .. } => ok_text("Switched to ", workspace),
        ToolOutcome::Failed { stderr } => {
            if backend == FocusBackend::Fallback {
                Err(String::from_str("Workspace switching not supported on this compositor"))
            } else {
                err_text("Failed: ", stderr.as_str())
            }
        },
        ToolOutcome::NotStarted { error } => {
            if backend == FocusBackend::Sway {
                err_text("swaymsg failed: ", error.as_str())
            } else if backend == FocusBackend::Hyprland {
                err_text("hyprctl failed: ", error.as_str())
            } else {
                Err(String::from_str("Workspace switching not supported on this compositor"))
            }
        },
    }
}

/// Where a file search looks: the given path, else "/home".
pub fn search_root(path: &Option<String>) -> (r: String)
    ensures
        r@ == match *path {
            Some(p) => p@,
            None => "/home"@,
        },
{
    match path {
        Some(p) => p.clone(),
        None => String::from_str("/home"),
    }
}

/// The name pattern `find` is given for a query: "*query*".
pub fn find_pattern(query: &str) -> (r: String)
    ensures
        r@ == "*"@ + query@ + "*"@,
{
    String::from_str("*").concat(query).concat("*")
}

/// The at most twenty first lines, joined by "\n".
pub open spec fn joined(lines: Seq<Seq<char>>) -> Seq<char>
    decreases lines.len(),
{
    if lines.len() == 0 {
        Seq::empty()
    } else if lines.len() == 1 {
        lines[0]
    } else {
        joined(lines.drop_last()) + "\n"@ + lines.last()
    }
}

/// The first twenty lines of a search's output.
pub open spec fn listed(stdout: Seq<char>) -> Seq<Seq<char>> {
    let ls = text_lines(stdout);
    if ls.len() > 20 {
        ls.take(20)
    } else {
        ls
    }
}

/// The report of a search: the count and the first twenty paths found, or
/// that nothing matched.
pub open spec fn files_report(query: Seq<char>, stdout: Seq<char>) -> Seq<char> {
    let ls = listed(stdout);
    if ls.len() == 0 {
        "No files matching '"@ + query + "'"@
    } else {
        "Found "@ + decimal(ls.len()) + " files:\n"@ + joined(ls)
    }
}

fn files_report_text(query: &str, stdout: &str) -> (r: String)
    ensures
        r@ == files_report(query@, stdout@),
{
    let lines = lines_of(stdout);
    let ghost ls = text_lines(stdout@);
    let n: usize = if lines.len() > 20 {
        20
    } else {
        lines.len()
    };
    proof {
        assert(listed(stdout@) =~= ls.take(n as int));
    }
    if n == 0 {
        return String::from_str("No files matching '").concat(query).concat("'");
    }
    let mut body = lines[0].clone();
    let mut i: usize = 1;
    proof {
        assert(lines@[0]@ == ls[0]);
        assert(ls.take(1) =~= seq![ls[0]]);
    }
    while i < n
        invariant
            1 <= i <= n,
            n <= lines@.len(),
            texts(lines@) == ls,
            body@ == joined(ls.take(i as int)),
        decreases n - i,
    {
        proof {
            assert(lines@[i as int]@ == ls[i as int]);
            assert(ls.take(i + 1).drop_last() =~= ls.take(i as int));
            assert(ls.take(i + 1).last() == ls[i as int]);
        }
        body = body.concat("\n").concat(lines[i].as_str());
        i += 1;
    }
    String::from_str("Found ").concat(decimal_text(n as u64).as_str()).concat(" files:\n").concat(
        body.as_str(),
    )
}

/// A search first runs `fd`; when it works its output is reported,
/// otherwise `find` is tried (`None`).
pub fn fd_report(query: &str, fd: &ToolOutcome) -> (r: Option<String>)
    ensures
        match *fd {
            ToolOutcome::Succeeded { stdout } => r matches Some(m) && m@ == files_report(query@, stdout@),
            _ => r is None,
        },
{
    match fd {
        ToolOutcome::Succeeded { stdout } => Some(files_report_text(query, stdout.as_str())),
        _ => None,
    }
}

/// How a search ends once `find` ran.
pub fn find_result(query: &str, find: &ToolOutcome) -> (r: Result<String, String>)
    ensures
        match *find {
            ToolOutcome::Succeeded { stdout } => is_ok(r, files_report(query@, stdout@)),
            ToolOutcome::Failed { stderr } => is_err(r, "Search failed: "@ + stderr@),
            ToolOutcome::NotStarted { error } => is_err(r, "Search command failed: "@ + error@),
        },
{
    match find {
        ToolOutcome::Succeeded { stdout } => Ok(files_report_text(query, stdout.as_str())),
        ToolOutcome::Failed { stderr } => err_text("Search failed: ", stderr.as_str()),
        ToolOutcome::NotStarted { error } => err_text("Search command failed: ", error.as_str()),
    }
}

/// How a media control request ends; a player-less session gets its own error.
pub fn media_result(action: &str, run: &ToolOutcome) -> (r: Result<String, String>)
    ensures
        match *run {
            ToolOutcome::Succeeded { .. } => is_ok(r, "Media: "@ + action@),
            ToolOutcome::Failed { stderr } => if contains_text(stderr@, "No players"@) {
                is_err(r, "No media players found"@)
            } else {
                is_err(r, "Media control failed: "@ + stderr@)
            },
            ToolOutcome::NotStarted { error } => is_err(r, "playerctl not found: "@ + error@),
        },
{
    match run {
        ToolOutcome::Succeeded { .. } => ok_text("Media: ", action),
        ToolOutcome::Failed { stderr } => {
            if contains_exec(stderr.as_str(), "No players") {
                Err(String::from_str("No media players found"))
            } else {
                err_text("Media control failed: ", stderr.as_str())
            }
        },
        ToolOutcome::NotStarted { error } => err_text("playerctl not found: ", error.as_str()),
    }
}

/// Setting the clipboard first asks `wl-copy`; `true` when that did it.
pub fn clipboard_set_by_wl_copy(wl_copy: &ToolOutcome) -> (r: bool)
    ensures
        r == succeeded(*wl_copy),
{
    match wl_copy {
        ToolOutcome::Succeeded { .. } => true,
        _ => false,
    }
}

/// How setting the clipboard ends once `xclip` ran.
pub fn clipboard_result(xclip: &ToolOutcome) -> (r: Result<String, String>)
    ensures
        match *xclip {
            ToolOutcome::Succeeded { .. } => is_ok(r, "Clipboard updated"@),
            ToolOutcome::Failed { stderr } => is_err(r, "Failed to set clipboard: "@ + stderr@),
            ToolOutcome::NotStarted { error } => is_err(r, "xclip failed: "@ + error@),
        },
{
    match xclip {
        ToolOutcome::Succeeded { .. } => Ok(String::from_str("Clipboard updated")),
        ToolOutcome::Failed { stderr } => err_text("Failed to set clipboard: ", stderr.as_str()),
        ToolOutcome::NotStarted { error } => err_text("xclip failed: ", error.as_str()),
    }
}

/// The title read from `xprop`, when it is not empty.
pub fn title_result(title: Option<String>) -> (r: Result<String, String>)
    ensures
        match title {
            Some(t) => if t@.len() > 0 {
                is_ok(r, t@)
            } else {
                is_err(r, "Could not determine active window"@)
            },
            None => is_err(r, "Could not determine active window"@),
        },
{
    match title {
        Some(t) => {
            if t.as_str().unicode_len() > 0 {
                Ok(t)
            } else {
                Err(String::from_str("Could not determine active window"))
            }
        },
        None => Err(String::from_str("Could not determine active window")),
    }
}

/// `s` with each '"' preceded by a backslash.
pub open spec fn escape_quotes(s: Seq<char>) -> Seq<char>
    decreases s.len(),
{
    if s.len() == 0 {
        Seq::empty()
    } else {
        escape_quotes(s.drop_last()) + if s.last() == '"' {
            seq!['\\', '"']
        } else {
            seq![s.last()]
        }
    }
}

pub fn escape_quotes_text(s: &str) -> (r: String)
    ensures
        r@ == escape_quotes(s@),
{
    let n = s.unicode_len();
    let mut out = String::new();
    let mut i: usize = 0;
    proof {
        assert(s@.take(0) =~= Seq::<char>::empty());
    }
    while i < n
        invariant
            n == s@.len(),
            i <= n,
            out@ == escape_quotes(s@.take(i as int)),
        decreases n - i,
    {
        let c = s.get_char(i);
        proof {
            assert(s@.take(i + 1).drop_last() =~= s@.take(i as int));
            assert(s@.take(i + 1).last() == c);
        }
        if c == '"' {
            proof {
                reveal_strlit("\\\"");
                assert("\\\""@ =~= seq!['\\', '"']);
            }
            out = out.concat("\\\"");
        } else {
            let ghost before = out@;
            out.append(s.substring_char(i, i + 1));
            proof {
                assert(s@.subrange(i as int, i + 1) =~= seq![c]);
            }
        }
        i += 1;
    }
    proof {
        assert(s@.take(n as int) =~= s@);
    }
    out
}

/// How sending a notification ends with `notify-send`: `None` when it could
/// not be run, so that GNOME's notification service is asked directly.
pub fn notify_send_result(title: &str, run: &ToolOutcome) -> (r: Option<Result<String, String>>)
    ensures
        match *run {
            ToolOutcome::Succeeded { .. } => r matches Some(x) && is_ok(x, "Notification: "@ + title@),
            ToolOutcome::Failed { stderr } => r matches Some(x) && is_err(x, "Notification failed: "@ + stderr@),
            ToolOutcome::NotStarted { .. } => r is None,
        },
{
    match run {
        ToolOutcome::Succeeded { .. } => Some(ok_text("Notification: ", title)),
        ToolOutcome::Failed { stderr } => Some(err_text("Notification failed: ", stderr.as_str())),
        ToolOutcome::NotStarted { .. } => None,
    }
}

/// How sending a notification ends through the notification service.
pub fn notify_fallback_result(title: &str, run: &ToolOutcome) -> (r: Result<String, String>)
    ensures
        succeeded(*run) ==> is_ok(r, "Notification: "@ + title@),
        !succeeded(*run) ==> is_err(r, "Notification system not available"@),
{
    match run {
        ToolOutcome::Succeeded { .. } => ok_text("Notification: ", title),
        _ => Err(String::from_str("Notification system not available")),
    }
}

} // verus!

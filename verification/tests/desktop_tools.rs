use enaos::desktop::{
    active_window, detect_compositor, focused_message, focused_title_line, focused_window, focused_workspace,
    gnome_focused_window, gnome_workspace, pick_client, window_title_line, window_to_focus, wmctrl_search,
    wmctrl_window, workspace_backend, xprop_focused_window, xprop_window_id, xprop_wm_class, xprop_wm_name,
    ClientInfo, CompositorType, Field, FocusTracker, WindowNode, WorkspaceInfo, WorkspaceTracker,
};
use enaos::handlers::{
    clipboard_result, escape_quotes_text, fd_report, find_pattern, find_result, focus_backend, focus_result,
    gnome_switch_script, launch_result, media_result, notify_fallback_result, notify_send_result,
    open_app_launched, open_app_result, search_root, switch_result, title_result, wmctrl_result, FocusBackend,
    ToolOutcome,
};
use enaos::lines::{lines_of, strip_prefix_text, strip_suffix_text, trim_char_text};
use enaos::sound::{mpris_players, parse_sink_info, MprisTracker};

fn leaf(id: u64, focused: bool, app_id: Field, name: &str) -> WindowNode {
    WindowNode {
        id,
        focused,
        app_id,
        class: None,
        name: Some(name.to_string()),
        nodes: vec![],
        floating_nodes: vec![],
    }
}

fn tree(tiled: Vec<WindowNode>, floating: Vec<WindowNode>) -> WindowNode {
    WindowNode {
        id: 1,
        focused: false,
        app_id: Field::Missing,
        class: None,
        name: Some("root".to_string()),
        nodes: vec![WindowNode {
            id: 2,
            focused: false,
            app_id: Field::Missing,
            class: None,
            name: Some("output".to_string()),
            nodes: tiled,
            floating_nodes: floating,
        }],
        floating_nodes: vec![],
    }
}

#[test]
fn focused_window_is_found_depth_first() {
    let t = tree(
        vec![leaf(11, false, Field::Text("code".into()), "main.rs"), leaf(12, true, Field::Text("firefox".into()), "Mozilla")],
        vec![],
    );
    assert_eq!(focused_window(&t), Some(("firefox".to_string(), "Mozilla".to_string())));
    assert_eq!(focused_title_line(&t), Some("firefox — Mozilla".to_string()));

    let floating = tree(vec![leaf(11, false, Field::Text("code".into()), "main.rs")], vec![leaf(13, true, Field::Text("mpv".into()), "video")]);
    assert_eq!(focused_window(&floating), Some(("mpv".to_string(), "video".to_string())));
    assert_eq!(focused_title_line(&floating), None);

    let null_app = tree(vec![leaf(14, true, Field::Other, "xterm")], vec![]);
    assert_eq!(focused_window(&null_app), None);
    assert_eq!(focused_title_line(&null_app), Some(" — xterm".to_string()));

    let mut by_class = leaf(15, true, Field::Missing, "shell");
    by_class.class = Some("XTerm".to_string());
    assert_eq!(focused_window(&tree(vec![by_class], vec![])), Some(("XTerm".to_string(), "shell".to_string())));
}

#[test]
fn windows_to_focus_match_app_and_title() {
    let t = tree(
        vec![leaf(11, false, Field::Text("code".into()), "main.rs"), leaf(12, false, Field::Text("firefox".into()), "Mozilla Firefox")],
        vec![],
    );
    assert_eq!(window_to_focus(&t, &Some("fire".into()), &None), Some("12".to_string()));
    assert_eq!(window_to_focus(&t, &Some("code".into()), &Some("main".into())), Some("11".to_string()));
    assert_eq!(window_to_focus(&t, &Some("code".into()), &Some("lib".into())), None);
    assert_eq!(window_to_focus(&t, &None, &None), Some("1".to_string()));

    let clients = vec![
        ClientInfo { class: "firefox".into(), title: "Mozilla".into(), address: String::new() },
        ClientInfo { class: "firefox".into(), title: "Mozilla".into(), address: "0x55".into() },
    ];
    assert_eq!(pick_client(&clients, &Some("fire".into()), &None), Some(1));
    assert_eq!(pick_client(&clients, &Some("kitty".into()), &None), None);
    assert_eq!(focused_message(&None, &Some("Doc".into())), "Focused Doc");
    assert_eq!(focused_message(&None, &None), "Focused window");
}

#[test]
fn workspaces_and_active_windows() {
    let list = vec![
        WorkspaceInfo { focused: false, name: Some("1".into()) },
        WorkspaceInfo { focused: true, name: None },
        WorkspaceInfo { focused: true, name: Some("3: web".into()) },
    ];
    assert_eq!(focused_workspace(&list), Some("3: web".to_string()));
    assert_eq!(focused_workspace(&vec![]), None);
    assert_eq!(active_window(&Some("kitty".into()), &None), Some(("kitty".to_string(), String::new())));
    assert_eq!(active_window(&Some("unknown".into()), &Some("x".into())), None);
    assert_eq!(window_title_line(&None, &Some("t".into())), " — t");
    assert_eq!(detect_compositor(true, true), CompositorType::Sway);
    assert_eq!(detect_compositor(false, true), CompositorType::Hyprland);
    assert_eq!(detect_compositor(false, false), CompositorType::Unknown);
    assert_eq!(workspace_backend(false, false), "gnome");
    assert_eq!(workspace_backend(false, true), "hyprland");
}

#[test]
fn gnome_shell_results() {
    assert_eq!(
        gnome_focused_window("(true, 'firefox|Mozilla Firefox')\n"),
        Some(("firefox".to_string(), "Mozilla Firefox".to_string()))
    );
    assert_eq!(gnome_focused_window("(true, 'a|b|c')"), Some(("a".to_string(), "b".to_string())));
    assert_eq!(gnome_focused_window("(true, '|untitled')"), None);
    assert_eq!(gnome_focused_window("(true, 'solo')"), None);
    assert_eq!(gnome_focused_window("(false, '')"), None);
    assert_eq!(gnome_workspace("(true, '1')\n"), Some("Workspace 1".to_string()));
    assert_eq!(gnome_workspace("(true, '2'"), None);
}

#[test]
fn xprop_output_is_read() {
    assert_eq!(xprop_window_id("_NET_ACTIVE_WINDOW(WINDOW): window id # 0x4000005\n"), Some("0x4000005".to_string()));
    assert_eq!(xprop_window_id("no window"), None);
    assert_eq!(xprop_wm_class("WM_CLASS(STRING) = \"navigator\", \"firefox\"\n"), "navigator");
    assert_eq!(xprop_wm_class("WM_CLASS:  not found.\n"), "unknown");
    assert_eq!(xprop_wm_name("_NET_WM_NAME(UTF8_STRING) = \"Inbox — Mail\"\n"), "Inbox — Mail");
    assert_eq!(xprop_wm_name("a = b = c"), "b = c");
    assert_eq!(xprop_wm_name("nothing"), "");
    assert_eq!(
        xprop_focused_window("WM_CLASS(STRING) = \"kitty\", \"kitty\"\n", "_NET_WM_NAME(UTF8_STRING) = \"~\"\n"),
        Some(("kitty".to_string(), "~".to_string()))
    );
    assert_eq!(xprop_focused_window("WM_CLASS:  not found.\n", "x = \"y\""), None);
}

#[test]
fn wmctrl_listing() {
    assert_eq!(wmctrl_search(&None, &None), Err("Must specify app or title".to_string()));
    assert_eq!(wmctrl_search(&Some("kitty".into()), &Some("Inbox".into())), Ok("Inbox".to_string()));
    let listing = "0x01 0 host Terminal\n0x02 0 host Firefox Web\n";
    assert_eq!(wmctrl_window(listing, "firefox"), Some("0x02".to_string()));
    assert_eq!(wmctrl_window(listing, "TERMINAL"), Some("0x01".to_string()));
    assert_eq!(wmctrl_window(listing, "slack"), None);
}

#[test]
fn trackers_announce_changes_only() {
    let mut f = FocusTracker::new();
    assert!(f.observe("code".into(), "a".into()));
    assert!(!f.observe("code".into(), "a".into()));
    assert!(f.observe("code".into(), "b".into()));
    let mut w = WorkspaceTracker::new();
    assert!(w.observe("1".into()));
    assert!(!w.observe("1".into()));
    assert!(w.observe("2".into()));
}

#[test]
fn lines_and_affixes() {
    assert_eq!(lines_of("a\r\nb\n\nc\r"), vec!["a", "b", "", "c\r"]);
    assert!(lines_of("").is_empty());
    assert_eq!(lines_of("x\n"), vec!["x"]);
    assert_eq!(trim_char_text("\"\"hi\"", '"'), "hi");
    assert_eq!(trim_char_text("\"\"\"", '"'), "");
    assert_eq!(strip_prefix_text("(true, '1')", "(true, '"), Some("1')".to_string()));
    assert_eq!(strip_suffix_text("1')", "')\n"), None);
}

const PACTL: &str = "Sink #0\n\tState: RUNNING\n\tName: alsa_output.hdmi\n\tMute: no\n\tVolume: front-left: 32768 /  50% / -18.06 dB\n\nSink #1\n\tState: IDLE\n\tName: alsa_output.analog\n\tDescription: Built-in\n\tMute: yes\n\tVolume: front-left: 65536 / 100% / 0.00 dB,   front-right: 65536 / 100% / 0.00 dB\n\tBase Volume: 65536 / 100% / 0.00 dB\n";

#[test]
fn pactl_sink_sections() {
    let analog = parse_sink_info(PACTL, "alsa_output.analog").expect("listed");
    assert!(analog.muted);
    assert_eq!(analog.volume_texts, vec!["100"]);
    let hdmi = parse_sink_info(PACTL, "alsa_output.hdmi").expect("listed");
    assert!(!hdmi.muted);
    assert_eq!(hdmi.volume_texts, vec!["50"]);
    assert!(parse_sink_info(PACTL, "bluez_sink").is_none());
}

#[test]
fn mpris_players_and_changes() {
    let names = vec![
        "org.freedesktop.DBus".to_string(),
        "org.mpris.MediaPlayer2.spotify".to_string(),
        "org.mpris.MediaPlayer2.firefox.instance42".to_string(),
    ];
    assert_eq!(mpris_players(&names), vec!["spotify", "firefox.instance42"]);

    let mut t = MprisTracker::new();
    let c = t.observe("spotify".into(), "Playing".into(), "Song".into(), String::new()).expect("first sight");
    assert_eq!(c.title, Some("Song".to_string()));
    assert_eq!(c.artist, None);
    t.end_round(vec!["spotify".into()]);
    assert!(t.observe("spotify".into(), "Playing".into(), "Song".into(), String::new()).is_none());
    assert!(t.observe("spotify".into(), "Paused".into(), String::new(), "Band".into()).is_some());
    t.end_round(vec![]);
    assert!(t.observe("spotify".into(), "Paused".into(), String::new(), String::new()).is_some());
}

fn ok(stdout: &str) -> ToolOutcome {
    ToolOutcome::Succeeded { stdout: stdout.to_string() }
}

fn failed(stderr: &str) -> ToolOutcome {
    ToolOutcome::Failed { stderr: stderr.to_string() }
}

fn not_started(error: &str) -> ToolOutcome {
    ToolOutcome::NotStarted { error: error.to_string() }
}

#[test]
fn handler_outcomes() {
    assert_eq!(open_app_launched("gedit", &ok("")), Some("Launched gedit".to_string()));
    assert_eq!(open_app_launched("gedit", &failed("no")), None);
    assert_eq!(open_app_result("gedit", &failed("not found")), Err("Failed to open gedit: not found".to_string()));
    assert_eq!(open_app_result("gedit", &ok("")), Ok("Opened gedit".to_string()));
    assert_eq!(launch_result("ls", &ok("  \n")), Ok("Command executed: ls".to_string()));
    assert_eq!(launch_result("ls", &ok(" a.txt\n")), Ok("a.txt".to_string()));
    assert_eq!(launch_result("ls", &not_started("No such file")), Err("Failed to execute ls: No such file".to_string()));
    assert_eq!(focus_backend(false, true), FocusBackend::Hyprland);
    assert_eq!(focus_result(FocusBackend::Hyprland, &Some("kitty".into()), &None, &failed("bad")), Err("Focus failed: bad".to_string()));
    assert_eq!(focus_result(FocusBackend::Sway, &None, &Some("Doc".into()), &failed("bad")), Err("Failed to focus: bad".to_string()));
    assert_eq!(focus_result(FocusBackend::Sway, &None, &Some("Doc".into()), &ok("")), Ok("Focused Doc".to_string()));
    assert_eq!(wmctrl_result("slack", &None), Err("No window matching 'slack' found".to_string()));
    assert_eq!(wmctrl_result("slack", &Some(ok(""))), Ok("Focused slack".to_string()));
    assert_eq!(switch_result(FocusBackend::Fallback, "2", &failed("x")), Err("Workspace switching not supported on this compositor".to_string()));
    assert_eq!(switch_result(FocusBackend::Hyprland, "2", &not_started("gone")), Err("hyprctl failed: gone".to_string()));
    assert_eq!(switch_result(FocusBackend::Sway, "2", &ok("")), Ok("Switched to 2".to_string()));
    assert_eq!(
        gnome_switch_script("web"),
        "global.workspace_manager.get_workspace_by_name('web', null)?.activate(global.get_current_time())"
    );
    assert_eq!(search_root(&None), "/home");
    assert_eq!(find_pattern("notes"), "*notes*");
    assert_eq!(fd_report("rs", &ok("a.rs\nb.rs\n")), Some("Found 2 files:\na.rs\nb.rs".to_string()));
    assert_eq!(fd_report("rs", &failed("")), None);
    assert_eq!(find_result("rs", &ok("")), Ok("No files matching 'rs'".to_string()));
    let many: String = (0..25).map(|k| format!("/home/f{k}\n")).collect();
    let report = find_result("f", &ok(&many)).unwrap();
    assert!(report.starts_with("Found 20 files:\n/home/f0\n"));
    assert!(report.ends_with("/home/f19"));
    assert_eq!(find_result("f", &failed("denied")), Err("Search failed: denied".to_string()));
    assert_eq!(media_result("next", &failed("No players found")), Err("No media players found".to_string()));
    assert_eq!(media_result("next", &failed("boom")), Err("Media control failed: boom".to_string()));
    assert_eq!(media_result("next", &ok("")), Ok("Media: next".to_string()));
    assert_eq!(clipboard_result(&failed("x")), Err("Failed to set clipboard: x".to_string()));
    assert_eq!(title_result(Some(String::new())), Err("Could not determine active window".to_string()));
    assert_eq!(escape_quotes_text("say \"hi\""), "say \\\"hi\\\"");
    assert_eq!(notify_send_result("Hi", &ok("")), Some(Ok("Notification: Hi".to_string())));
    assert_eq!(notify_send_result("Hi", &not_started("missing")), None);
    assert_eq!(notify_fallback_result("Hi", &failed("")), Err("Notification system not available".to_string()));
}

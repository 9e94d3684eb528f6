use enaos::actions::ActionType;
use enaos::first_run::{create_demo_orchestration_plan, create_demo_snapshot, demo_snapshot_at, FirstRunManager, FirstRunStatus};
use enaos::orchestration::PlanStatus;
use enaos::restore::{RestorePlanner, RestoreSelections};
use enaos::snapshot::{AppInfo, BrowserTab, TerminalInfo, WorkspaceInfo, WorkspaceSnapshot};

fn sample() -> WorkspaceSnapshot {
    let mut s = WorkspaceSnapshot::new("Dev");
    s.workspaces = vec![WorkspaceInfo { name: "2".into(), output: None, is_focused: true }];
    s.applications = vec![
        AppInfo { name: "code".into(), title: "enaos".into(), pid: Some(1), is_focused: true },
        AppInfo { name: "firefox".into(), title: "docs".into(), pid: None, is_focused: false },
    ];
    s.terminals = vec![TerminalInfo {
        app: "kitty".into(),
        pid: None,
        working_directory: Some("/src".into()),
        command: None,
    }];
    s.browser_urls = vec![BrowserTab { browser: "firefox".into(), url: "https://docs.rs".into(), title: None }];
    s
}

#[test]
fn preview_lists_every_step() {
    let p = RestorePlanner.preview(&sample());
    let labels: Vec<&str> = p.actions.iter().map(|a| a.label.as_str()).collect();
    assert_eq!(labels[0], "Switch to workspace: 2");
    assert_eq!(labels[1], "Open: code");
    assert_eq!(p.action_count as usize, p.actions.len());
    assert_eq!(p.snapshot_label, "Dev");
}

#[test]
fn full_restoration_plan() {
    let plan = RestorePlanner.plan_restoration(&sample(), None);
    assert_eq!(plan.title, "Restore: Dev");
    assert_eq!(plan.status, PlanStatus::PendingApproval);
    assert_eq!(plan.nodes.len(), 6);
    assert!(matches!(plan.nodes[0].action, ActionType::SwitchWorkspace { .. }));
    assert!(plan.nodes.iter().any(|n| n.requires_approval));
    for e in &plan.edges {
        assert!(plan.nodes.iter().any(|n| n.id == e.from));
        assert!(plan.nodes.iter().any(|n| n.id == e.to));
    }
}

#[test]
fn partial_restoration_skips_applications() {
    let sel = RestoreSelections {
        applications: false,
        workspaces: true,
        terminals: false,
        browser_urls: false,
        orchestration_context: true,
    };
    let plan = RestorePlanner.plan_restoration(&sample(), Some(&sel));
    assert_eq!(plan.nodes.len(), 1);
    assert!(!plan.nodes.iter().any(|n| matches!(n.action, ActionType::OpenApp { .. })));
    let none = RestoreSelections {
        applications: false,
        workspaces: false,
        terminals: false,
        browser_urls: false,
        orchestration_context: false,
    };
    assert!(RestorePlanner.plan_restoration(&sample(), Some(&none)).nodes.is_empty());
}

#[test]
fn first_run_lifecycle() {
    let mut m = FirstRunManager::new("/tmp/x/.ena-first-run-completed".into(), false, false);
    assert!(m.is_first_launch());
    let st: FirstRunStatus = m.get_status();
    assert!(!st.onboarding_completed);
    assert_eq!(st.suggested_commands.len(), 3);
    m.mark_demo_seeded();
    assert!(m.is_demo_seeded());
    m.complete_onboarding();
    assert!(!m.is_first_launch());
    assert!(m.get_status().onboarding_completed);
    assert!(!m.should_cleanup_demo(1));
    assert!(m.should_cleanup_demo(2));
    let returning = FirstRunManager::new("m".into(), false, true);
    assert!(!returning.is_first_launch());
    let done = FirstRunManager::new("m".into(), true, false);
    assert!(done.get_status().onboarding_completed);
}

#[test]
fn demo_data() {
    let d = demo_snapshot_at(10_000_000_000_000);
    assert_eq!(d.created_at, 10_000_000_000_000 - 7_200_000_000_000);
    assert_eq!(d.id, 1);
    assert_eq!(d.label, "EnaOS Development");
    let live = create_demo_snapshot();
    assert!(live.demo && live.id == 1 && live.created_at > 1_600_000_000 * 1_000_000_000);
    let (plan_id, nodes) = create_demo_orchestration_plan();
    assert_eq!(plan_id, 2);
    assert_eq!(nodes.len(), 3);
}

#[test]
fn restoration_edges_form_a_tree() {
    for sel in [
        None,
        Some(RestoreSelections { applications: true, workspaces: false, terminals: true, browser_urls: true, orchestration_context: false }),
        Some(RestoreSelections { applications: false, workspaces: true, terminals: true, browser_urls: false, orchestration_context: false }),
    ] {
        let plan = RestorePlanner.plan_restoration(&sample(), sel.as_ref());
        let n = plan.nodes.len();
        assert_eq!(plan.edges.len(), n - 1);
        let index = |id: u128| plan.nodes.iter().position(|x| x.id == id).unwrap();
        for e in &plan.edges {
            assert!(index(e.from) < index(e.to));
        }
        for k in 1..n {
            assert_eq!(plan.edges.iter().filter(|e| index(e.to) == k).count(), 1);
        }
        for node in &plan.nodes {
            assert_eq!(node.requires_approval, matches!(node.action, ActionType::LaunchCommand { .. }));
        }
    }
}

#[test]
fn preview_matches_the_full_plan() {
    let s = sample();
    let preview = RestorePlanner.preview(&s);
    let plan = RestorePlanner.plan_restoration(&s, None);
    assert_eq!(preview.actions.len(), plan.nodes.len());
    for (a, node) in preview.actions.iter().zip(plan.nodes.iter()) {
        assert_eq!(a.requires_approval, node.requires_approval);
        assert_eq!(a.requires_approval, a.action_type == "launch_command");
    }
    assert!(!preview.snapshot_taken_at.is_empty());
}

#[test]
fn demo_seeding_sticks() {
    let mut m = FirstRunManager::new("m".into(), false, false);
    m.mark_demo_seeded();
    m.complete_onboarding();
    assert!(m.is_demo_seeded() && m.get_status().demo_seeded && m.get_status().onboarding_completed);
}

use nwg_dock::compositor::{WmClient, WmWorkspace};
use nwg_dock::config::DockConfig;
use nwg_dock::state::DockState;

fn make_state() -> DockState<u32> {
    DockState::new(DockConfig::default())
}

fn client(id: &str, class: &str, initial_class: &str) -> WmClient {
    WmClient {
        id: id.to_string(),
        class: class.to_string(),
        initial_class: initial_class.to_string(),
        title: String::new(),
        pid: 1,
        workspace: WmWorkspace { id: 1, name: "1".to_string() },
        floating: false,
        monitor_id: 0,
        fullscreen: false,
    }
}

#[test]
fn set_drag_pending_sets_pending_only() {
    let mut s = make_state();
    s.set_drag_pending();
    assert!(s.is_drag_pending());
    assert_eq!(s.drag_source_index(), None);
    assert!(!s.is_drag_outside_dock());
}

#[test]
fn claim_drag_sets_source_index() {
    let mut s = make_state();
    s.set_drag_pending();
    s.claim_drag(3);
    assert_eq!(s.drag_source_index(), Some(3));
    assert!(s.is_drag_pending());
}

#[test]
fn set_drag_pending_clears_stale_drag_fields() {
    // The drag fields can only change through the invariant-keeping
    // methods, so the stale claimed index and outside flag are left by a
    // drag that never reached `end_drag`.
    let mut s = make_state();
    s.set_drag_pending();
    s.claim_drag(0);
    s.set_drag_outside(true);

    s.set_drag_pending();

    assert!(s.is_drag_pending());
    assert_eq!(
        s.drag_source_index(),
        None,
        "stale source index must be cleared so the threshold gate fires for the new drag"
    );
    assert!(!s.is_drag_outside_dock(), "stale outside-dock flag must be cleared at press-down");
}

#[test]
fn end_drag_clears_all_three_fields() {
    let mut s = make_state();
    s.set_drag_pending();
    s.claim_drag(2);
    s.set_drag_outside(true);
    s.end_drag();
    assert_eq!(s.drag_source_index(), None);
    assert!(!s.is_drag_pending());
    assert!(!s.is_drag_outside_dock());
}

#[test]
fn set_drag_outside_toggles_correctly() {
    let mut s = make_state();
    s.set_drag_pending();
    s.claim_drag(0);
    assert!(!s.is_drag_outside_dock());
    s.set_drag_outside(true);
    assert!(s.is_drag_outside_dock());
    s.set_drag_outside(false);
    assert!(!s.is_drag_outside_dock());
}

#[test]
fn claim_drag_noop_when_not_pending() {
    let mut s = make_state();
    s.claim_drag(7);
    assert_eq!(s.drag_source_index(), None, "claim_drag must no-op when drag_pending is false");
    assert!(!s.is_drag_pending());
}

#[test]
fn set_drag_outside_noop_when_not_pending() {
    let mut s = make_state();
    s.set_drag_outside(true);
    assert!(!s.is_drag_outside_dock(), "set_drag_outside must no-op when drag_pending is false");
}

#[test]
fn cancel_launch_returns_none_when_not_tracked() {
    let mut s = make_state();
    assert!(s.cancel_launch("nonexistent").is_none());
}

#[test]
fn launching_is_empty_initially() {
    let s = make_state();
    assert!(s.launching_is_empty());
}

#[test]
fn is_launching_false_initially() {
    let s = make_state();
    assert!(!s.is_launching("any-app"));
}

#[test]
fn is_launching_true_when_present() {
    let mut s = make_state();
    s.start_launch("vscode".into(), 2, 11);
    assert!(s.is_launching("vscode"));
    assert!(!s.is_launching("other"));
}

#[test]
fn launching_snapshot_empty_initially() {
    let s = make_state();
    assert!(s.launching_snapshot().is_empty());
}

#[test]
fn launching_snapshot_returns_present_entries() {
    let mut s = make_state();
    s.start_launch("vscode".into(), 2, 11);
    s.start_launch("firefox".into(), 5, 12);
    let snap = s.launching_snapshot();
    assert_eq!(snap.len(), 2);
    let vscode = snap.iter().find(|(k, _)| k == "vscode").map(|(_, v)| *v);
    let firefox = snap.iter().find(|(k, _)| k == "firefox").map(|(_, v)| *v);
    assert_eq!(vscode, Some(2));
    assert_eq!(firefox, Some(5));
}

#[test]
fn launching_is_empty_false_when_present() {
    let mut s = make_state();
    s.start_launch("vscode".into(), 1, 11);
    assert!(!s.launching_is_empty());
}

#[test]
fn restarting_a_launch_hands_back_the_old_timer() {
    let mut s = make_state();
    assert_eq!(s.start_launch("vscode".into(), 1, 11), None);
    assert_eq!(s.start_launch("vscode".into(), 3, 12), Some(11));
    assert_eq!(s.cancel_launch("vscode"), Some((3, 12)));
    assert!(!s.finish_launch_timeout_fired("vscode"));
    s.start_launch("kitty".into(), 0, 13);
    assert!(s.finish_launch_timeout_fired("kitty"));
    assert!(s.launching_is_empty());
}

#[test]
fn task_instances_match_class_variant_map_and_initial_class() {
    let mut s = make_state();
    s.clients = vec![
        client("0x1", "GitHub Desktop", ""),
        client("0x2", "com.billz.app", ""),
        client("0x3", "Playwright", "Code"),
        client("0x4", "firefox", ""),
    ];
    s.wm_class_to_desktop_id.insert("com.billz.app".into(), "billz".into());
    let gh = s.task_instances("github-desktop");
    assert_eq!(gh.len(), 1);
    assert_eq!(gh[0].id, "0x1");
    let billz = s.task_instances("billz");
    assert_eq!(billz.len(), 1);
    assert_eq!(billz[0].id, "0x2");
    let code = s.task_instances("code");
    assert_eq!(code.len(), 1);
    assert_eq!(code[0].id, "0x3");
    assert!(s.task_instances("chromium").is_empty());
}

#[test]
fn client_snapshot_lists_ids_classes_and_active() {
    let mut s = make_state();
    s.clients = vec![client("0x1", "kitty", ""), client("0x2", "firefox", "")];
    s.active_client = Some(client("0x2", "firefox", ""));
    let (pairs, active) = s.client_snapshot();
    assert_eq!(
        pairs,
        vec![("0x1".to_string(), "kitty".to_string()), ("0x2".to_string(), "firefox".to_string())]
    );
    assert_eq!(active.as_deref(), Some("0x2"));
}

use nwg_dock::ui::window::{visibility_after, VisibilityCommand};
use nwg_dock::compositor::{WmClient, WmMonitor, WmWorkspace};
use nwg_dock::config::{DockConfig, Layer, Position};
use nwg_dock::dock_windows::compute_monitor_diff;
use nwg_dock::monitor::select_outputs;
use nwg_dock::rebuild::{needs_surface_reset, RebuildGuard};
use nwg_dock::state::DockState;
use nwg_dock::ui::css::{bounce_css, gtk4_compat_css, opacity_css};
use nwg_dock::ui::drag::{drop_target_index, finalize_outcome, reorder_pinned, unpin_by_drag, DragOutcome};
use nwg_dock::ui::hotspot::Edge;
use nwg_dock::ui::launch_bounce::{cancel_matched, prepare_launch};
use nwg_dock::ui::menus::{
    focus_plan, instance_label, lock_menu_label, lock_state_text, parse_lock_state,
    pin_toggle_label, toggle_pin, truncate_title, workspace_action_labels, FocusAction,
};
use nwg_dock::ui::pinning::{is_pinned, pin_item, unpin_item};
use nwg_dock::ui::window::{
    dock_close_request_response, orientations, window_layout, Orientation, Propagation,
};
use nwg_dock::ui::workspaces::{
    active_workspace_for_monitor, position_offset, workspace_button_plan, MarginSide,
};

#[test]
fn plan_returns_num_ws_buttons() {
    let plan = workspace_button_plan(5, None);
    assert_eq!(plan.len(), 5);
    for (i, btn) in plan.iter().enumerate() {
        assert_eq!(btn.n, (i + 1) as i32);
        assert_eq!(btn.label, (i + 1).to_string());
        assert!(!btn.is_active);
    }
}

#[test]
fn plan_marks_active_workspace() {
    let plan = workspace_button_plan(5, Some(3));
    assert_eq!(plan.len(), 5);
    for btn in &plan {
        if btn.n == 3 {
            assert!(btn.is_active, "workspace 3 should be marked active");
        } else {
            assert!(!btn.is_active, "workspace {} should NOT be marked active", btn.n);
        }
    }
}

#[test]
fn plan_zero_num_ws_returns_empty() {
    assert!(workspace_button_plan(0, None).is_empty());
    assert!(workspace_button_plan(0, Some(1)).is_empty());
}

#[test]
fn plan_active_outside_range_marks_none_active() {
    let plan = workspace_button_plan(10, Some(11));
    assert_eq!(plan.len(), 10);
    assert!(plan.iter().all(|b| !b.is_active), "no button should be active when active_id > num_ws");
}

#[test]
fn plan_negative_num_ws_returns_empty() {
    assert!(workspace_button_plan(-1, None).is_empty());
}

fn monitor(name: &str, active: i32) -> WmMonitor {
    WmMonitor {
        id: 0,
        name: name.to_string(),
        width: 100,
        height: 100,
        x: 0,
        y: 0,
        focused: false,
        active_workspace: WmWorkspace { id: active, name: active.to_string() },
    }
}

#[test]
fn active_workspace_is_per_monitor() {
    let monitors = vec![monitor("DP-1", 2), monitor("HDMI-A-1", 5)];
    assert_eq!(active_workspace_for_monitor(&monitors, "HDMI-A-1"), Some(5));
    assert_eq!(active_workspace_for_monitor(&monitors, "DP-1"), Some(2));
    assert_eq!(active_workspace_for_monitor(&monitors, "DP-9"), None);
    assert_eq!(position_offset(Position::Bottom, 48), (MarginSide::Bottom, 6));
    assert_eq!(position_offset(Position::Right, 50), (MarginSide::End, 6));
}

#[test]
fn close_request_is_always_vetoed() {
    assert_eq!(dock_close_request_response(), Propagation::Stop);
}

#[test]
fn window_layout_follows_config() {
    let mut config = DockConfig::default();
    config.full = true;
    config.position = Position::Left;
    config.mt = 3;
    let layout = window_layout(&config);
    assert_eq!(layout.anchors, vec![(Edge::Left, true), (Edge::Top, true), (Edge::Bottom, true)]);
    assert_eq!(layout.layer, Layer::Overlay);
    assert!(layout.ignore_exclusive_zones);
    assert_eq!(layout.margins, (3, 0, 0, 0));
    config.exclusive = true;
    let layout = window_layout(&config);
    assert_eq!(layout.layer, Layer::Top);
    assert!(layout.auto_exclusive && !layout.ignore_exclusive_zones);
    assert_eq!(orientations(&config), (Orientation::Horizontal, Orientation::Vertical));
}

fn names(v: &[&str]) -> Vec<String> {
    v.iter().map(|s| s.to_string()).collect()
}

#[test]
fn diff_no_change() {
    let (add, remove) = compute_monitor_diff(&names(&["DP-1", "HDMI-A-1"]), &names(&["DP-1", "HDMI-A-1"]));
    assert!(add.is_empty());
    assert!(remove.is_empty());
}

#[test]
fn diff_add_monitor() {
    let (add, remove) = compute_monitor_diff(&names(&["DP-1"]), &names(&["DP-1", "DP-2"]));
    assert_eq!(add, vec!["DP-2"]);
    assert!(remove.is_empty());
}

#[test]
fn diff_remove_monitor() {
    let (add, remove) = compute_monitor_diff(&names(&["DP-1", "HDMI-A-1"]), &names(&["DP-1"]));
    assert!(add.is_empty());
    assert_eq!(remove, vec!["HDMI-A-1"]);
}

#[test]
fn diff_swap_monitors() {
    let (add, remove) = compute_monitor_diff(&names(&["DP-1", "HDMI-A-1"]), &names(&["DP-1", "DP-2"]));
    assert_eq!(add, vec!["DP-2"]);
    assert_eq!(remove, vec!["HDMI-A-1"]);
}

#[test]
fn configured_output_selected_or_all() {
    let outputs = vec![("DP-1".to_string(), 1u8), ("HDMI-A-1".to_string(), 2u8)];
    let (sel, unknown) = select_outputs(outputs.clone(), "HDMI-A-1");
    assert_eq!(sel, vec![("HDMI-A-1".to_string(), 2u8)]);
    assert!(!unknown);
    let (sel, unknown) = select_outputs(outputs.clone(), "DP-9");
    assert_eq!(sel, outputs);
    assert!(unknown);
    let (sel, unknown) = select_outputs(outputs.clone(), "");
    assert_eq!(sel, outputs);
    assert!(!unknown);
}

#[test]
fn nested_rebuild_runs_another_pass() {
    let mut g = RebuildGuard::new();
    assert!(g.begin());
    g.start_pass();
    assert!(!g.begin());
    assert!(g.end_pass());
    g.start_pass();
    assert!(!g.end_pass());
    assert!(!g.running);
    assert!(needs_surface_reset(true, 3, 4));
    assert!(!needs_surface_reset(false, 3, 4));
    assert!(!needs_surface_reset(true, 4, 4));
}

#[test]
fn generated_css_holds_colour_and_opacity() {
    let css = gtk4_compat_css();
    assert!(css.contains("background-color: rgba(54, 54, 79, 0.75);"), "got: {css}");
    assert!(css.contains(".dock-workspace-active {"));
    assert_eq!(opacity_css(75), "window { background-color: rgba(54, 54, 79, 0.75); }");
    assert_eq!(opacity_css(5), "window { background-color: rgba(54, 54, 79, 0.05); }");
    assert_eq!(opacity_css(100), "window { background-color: rgba(54, 54, 79, 1.00); }");
    assert_eq!(opacity_css(250), "window { background-color: rgba(54, 54, 79, 1.00); }");
    let bounce = bounce_css();
    assert!(bounce.contains("translateY(-12px)"));
    assert!(bounce.contains("translateX(4px)"));
    assert!(bounce.contains("dock-bounce 600ms linear infinite"));
}

fn window(title: &str, ws_name: &str) -> WmClient {
    WmClient {
        id: "0xabc".to_string(),
        class: "kitty".to_string(),
        initial_class: String::new(),
        title: title.to_string(),
        pid: 1,
        workspace: WmWorkspace { id: 1, name: ws_name.to_string() },
        floating: false,
        monitor_id: 0,
        fullscreen: false,
    }
}

#[test]
fn menu_titles_and_labels() {
    assert_eq!(truncate_title("short", 25), "short");
    assert_eq!(truncate_title("abcdef", 3), "abc...");
    assert_eq!(truncate_title("ééé", 3), "ééé");
    assert_eq!(
        instance_label(&window("a very long window title that goes on", "2")),
        "a very long window title ... (2)"
    );
    assert_eq!(workspace_action_labels(3), vec!["-> WS 1", "-> WS 2", "-> WS 3"]);
    assert!(workspace_action_labels(0).is_empty());
}

#[test]
fn focusing_special_workspaces() {
    assert_eq!(focus_plan("0x1", "special:magic"), FocusAction::ToggleSpecial("magic".to_string()));
    assert_eq!(focus_plan("0x1", "special"), FocusAction::ToggleSpecial(String::new()));
    assert_eq!(focus_plan("0x1", "3"), FocusAction::FocusWindow("0x1".to_string()));
}

#[test]
fn pinning_ignores_case_and_whitespace() {
    let mut pinned = vec!["Firefox".to_string(), " code ".to_string()];
    assert!(is_pinned(&pinned, "firefox"));
    assert!(is_pinned(&pinned, "CODE"));
    assert_eq!(pin_toggle_label(&pinned, "code"), "Unpin");
    assert_eq!(pin_toggle_label(&pinned, "kitty"), "Pin");
    pin_item(&mut pinned, "firefox");
    assert_eq!(pinned.len(), 2);
    pin_item(&mut pinned, " kitty");
    assert_eq!(pinned, vec!["Firefox", " code ", "kitty"]);
    unpin_item(&mut pinned, "CODE");
    assert_eq!(pinned, vec!["Firefox", "kitty"]);
    toggle_pin(&mut pinned, "kitty", true);
    assert_eq!(pinned, vec!["Firefox"]);
    toggle_pin(&mut pinned, "zeal", false);
    assert_eq!(pinned, vec!["Firefox", "zeal"]);
}

#[test]
fn lock_state_round_trip() {
    assert_eq!(lock_menu_label(true), "Unlock arrangement");
    assert_eq!(lock_menu_label(false), "Lock arrangement");
    assert_eq!(parse_lock_state(lock_state_text(true)), Some(true));
    assert_eq!(parse_lock_state(lock_state_text(false)), Some(false));
    assert_eq!(parse_lock_state(" true\n"), Some(true));
    assert_eq!(parse_lock_state("yes"), None);
}

#[test]
fn drag_release_outcomes() {
    assert_eq!(finalize_outcome(true, 2, 0), DragOutcome::Unpin { source_index: 2 });
    assert_eq!(finalize_outcome(false, 2, 0), DragOutcome::Reorder { source_index: 2, current_index: 0 });
    assert_eq!(finalize_outcome(false, 2, 2), DragOutcome::Nothing);
    let mut pinned = names(&["a", "b", "c", "d"]);
    assert!(reorder_pinned(&mut pinned, 0, 2));
    assert_eq!(pinned, names(&["b", "c", "a", "d"]));
    assert!(reorder_pinned(&mut pinned, 1, 99));
    assert_eq!(pinned, names(&["b", "a", "d", "c"]));
    assert!(!reorder_pinned(&mut pinned, 9, 0));
    assert_eq!(unpin_by_drag(&mut pinned, 1), Some("a".to_string()));
    assert_eq!(pinned, names(&["b", "d", "c"]));
    assert_eq!(unpin_by_drag(&mut pinned, 3), None);
}

fn kitty(id: &str) -> WmClient {
    WmClient { id: id.to_string(), ..window("t", "1") }
}

#[test]
fn launch_bounce_ends_when_a_window_appears() {
    let mut s: DockState<u32> = DockState::new(DockConfig::default());
    s.clients = vec![kitty("0x1")];
    let (id, count, displaced) = prepare_launch(&mut s, "Kitty");
    assert_eq!(id, "kitty");
    assert_eq!(count, 1);
    assert_eq!(displaced, None);
    s.start_launch(id, count, 7);
    let (cancelled, timers) = cancel_matched(&mut s);
    assert!(!cancelled);
    assert!(timers.is_empty());
    assert!(s.is_launching("kitty"));
    s.clients.push(kitty("0x2"));
    let (cancelled, timers) = cancel_matched(&mut s);
    assert!(cancelled);
    assert_eq!(timers, vec![7]);
    assert!(s.launching_is_empty());
    s.start_launch("kitty".to_string(), 2, 8);
    let (_, _, displaced) = prepare_launch(&mut s, "KITTY");
    assert_eq!(displaced, Some(8));
}

#[test]
fn drop_slot_maps_to_pinned_index_with_nothing_hidden() {
    let shown = [0usize, 1, 2, 3];
    assert_eq!(drop_target_index(&shown, 1, 1), 1);
    assert_eq!(drop_target_index(&shown, 1, 0), 0);
    assert_eq!(drop_target_index(&shown, 1, 2), 2);
    assert_eq!(drop_target_index(&shown, 1, 3), 3);
}

#[test]
fn drop_slot_skips_hidden_pinned_items() {
    // Pinned: a, hidden, b, c; shown on screen: a, b, c.
    let shown = [0usize, 2, 3];
    let mut pinned: Vec<String> = vec!["a".into(), "hidden".into(), "b".into(), "c".into()];
    // Drag "c" (pinned 3, slot 2) to the front (slot 0).
    let target = drop_target_index(&shown, 3, 0);
    assert_eq!(target, 0);
    assert!(reorder_pinned(&mut pinned, 3, target));
    assert_eq!(pinned, vec!["c", "a", "hidden", "b"]);
    // Drag "a" (pinned 1 now, slot 1) past the last shown item.
    let shown = [0usize, 1, 3];
    let target = drop_target_index(&shown, 1, 2);
    assert!(reorder_pinned(&mut pinned, 1, target));
    assert_eq!(pinned, vec!["c", "hidden", "b", "a"]);
    // Dropping at its own slot changes nothing.
    assert_eq!(drop_target_index(&[0usize, 2, 3], 2, 1), 2);
}

#[test]
fn visibility_commands() {
    assert!(!visibility_after(VisibilityCommand::Toggle, true));
    assert!(visibility_after(VisibilityCommand::Toggle, false));
    assert!(visibility_after(VisibilityCommand::Show, false));
    assert!(!visibility_after(VisibilityCommand::Hide, true));
}

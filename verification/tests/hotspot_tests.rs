use nwg_dock::compositor::{WmClient, WmMonitor, WmWorkspace};
use nwg_dock::config::{DockConfig, Position};
use nwg_dock::state::DockState;
use nwg_dock::ui::hotspot::{
    dock_bounds_for_position, find_cursor_monitor_name, hidden_dock_step, hide_timer_step,
    hotspot_geometry, hotspot_hide_step, hotspot_show_delay, is_cursor_at_edge, hotspot_enter_step, hotspot_timer_fired_step, HotspotEnterAction,
    is_cursor_in_visible_dock, monitor_has_fullscreen, monitor_refresh_step,
    show_on_monitor_only_by_name, update_drag_state, visible_dock_step, CursorPos, DockGeometry,
    Edge, HideTimerAction, HotspotHideAction, VisibleDockAction, HOTSPOT_THICKNESS,
    MONITOR_REFRESH_POLLS,
};

fn test_monitor(name: &str, x: i32, y: i32, w: i32, h: i32) -> WmMonitor {
    test_monitor_with_id(0, name, x, y, w, h)
}

fn test_monitor_with_id(id: i32, name: &str, x: i32, y: i32, w: i32, h: i32) -> WmMonitor {
    test_monitor_with_workspace(id, name, x, y, w, h, 0)
}

fn test_monitor_with_workspace(
    id: i32,
    name: &str,
    x: i32,
    y: i32,
    w: i32,
    h: i32,
    active_workspace_id: i32,
) -> WmMonitor {
    WmMonitor {
        id,
        name: name.to_string(),
        width: w,
        height: h,
        x,
        y,
        focused: false,
        active_workspace: WmWorkspace {
            id: active_workspace_id,
            name: format!("{}", active_workspace_id),
        },
    }
}

fn test_client(monitor_id: i32, fullscreen: bool) -> WmClient {
    test_client_on_workspace(monitor_id, fullscreen, 0)
}

fn test_client_on_workspace(monitor_id: i32, fullscreen: bool, workspace_id: i32) -> WmClient {
    WmClient {
        id: format!("0x{}", monitor_id),
        class: "test".to_string(),
        initial_class: "test".to_string(),
        title: "test".to_string(),
        pid: 1,
        workspace: WmWorkspace { id: workspace_id, name: format!("{}", workspace_id) },
        floating: false,
        monitor_id,
        fullscreen,
    }
}

#[test]
fn edge_detection_bottom() {
    let monitors = vec![test_monitor("DP-1", 0, 0, 1920, 1080)];
    let at_edge = CursorPos { x: 960, y: 1079 };
    let not_edge = CursorPos { x: 960, y: 500 };
    assert!(is_cursor_at_edge(&at_edge, &monitors, Position::Bottom));
    assert!(!is_cursor_at_edge(&not_edge, &monitors, Position::Bottom));
}

#[test]
fn edge_detection_top() {
    let monitors = vec![test_monitor("DP-1", 0, 0, 1920, 1080)];
    let at_edge = CursorPos { x: 960, y: 1 };
    let not_edge = CursorPos { x: 960, y: 500 };
    assert!(is_cursor_at_edge(&at_edge, &monitors, Position::Top));
    assert!(!is_cursor_at_edge(&not_edge, &monitors, Position::Top));
}

#[test]
fn find_monitor_by_cursor_position() {
    let monitors = vec![
        test_monitor("DP-1", 0, 0, 1920, 1080),
        test_monitor("HDMI-A-1", 1920, 0, 2560, 1440),
    ];
    assert_eq!(
        find_cursor_monitor_name(&CursorPos { x: 500, y: 500 }, &monitors).as_deref(),
        Some("DP-1")
    );
    assert_eq!(
        find_cursor_monitor_name(&CursorPos { x: 2000, y: 500 }, &monitors).as_deref(),
        Some("HDMI-A-1")
    );
    assert!(find_cursor_monitor_name(&CursorPos { x: 5000, y: 5000 }, &monitors).is_none());
}

#[test]
fn dock_bounds_bottom_center() {
    let mon = test_monitor("DP-1", 0, 0, 1920, 1080);
    let (x, y) = dock_bounds_for_position(&mon, 800, 50, Position::Bottom);
    assert_eq!(x, (1920 - 800) / 2);
    assert_eq!(y, 1080 - 50);
}

#[test]
fn dock_bounds_with_offset_monitor() {
    let mon = test_monitor("HDMI-A-1", 1920, 0, 2560, 1440);
    let (x, y) = dock_bounds_for_position(&mon, 800, 50, Position::Bottom);
    assert_eq!(x, 1920 + (2560 - 800) / 2);
    assert_eq!(y, 1440 - 50);
}

#[test]
fn three_monitors_with_portrait_display() {
    let monitors = vec![
        test_monitor("DP-3", 0, 0, 1600, 2560),
        test_monitor("DP-1", 1600, 447, 2560, 1440),
        test_monitor("DP-2", 4160, 0, 1920, 1080),
    ];
    assert_eq!(
        find_cursor_monitor_name(&CursorPos { x: 800, y: 2559 }, &monitors).as_deref(),
        Some("DP-3")
    );
    assert!(is_cursor_at_edge(&CursorPos { x: 800, y: 2559 }, &monitors, Position::Bottom));
    assert_eq!(
        find_cursor_monitor_name(&CursorPos { x: 2000, y: 800 }, &monitors).as_deref(),
        Some("DP-1")
    );
    assert_eq!(
        find_cursor_monitor_name(&CursorPos { x: 5000, y: 500 }, &monitors).as_deref(),
        Some("DP-2")
    );
}

#[test]
fn scaled_monitor_no_overlap() {
    let monitors = vec![
        test_monitor("DP-1", 0, 0, 1920, 1080),
        test_monitor("HDMI-A-1", 1920, 0, 2560, 1440),
        test_monitor("DP-3", 4480, 0, 1920, 1080),
    ];
    assert_eq!(
        find_cursor_monitor_name(&CursorPos { x: 4500, y: 500 }, &monitors).as_deref(),
        Some("DP-3")
    );
    assert!(is_cursor_at_edge(&CursorPos { x: 4500, y: 1079 }, &monitors, Position::Bottom));
}

const DP1_ID: i32 = 0;
const DP1_NAME: &str = "DP-1";
const DP1_W: i32 = 1920;
const DP1_H: i32 = 1080;
const HDMI_ID: i32 = 1;
const HDMI_NAME: &str = "HDMI-A-1";
const HDMI_X: i32 = 1920;
const HDMI_W: i32 = 2560;
const HDMI_H: i32 = 1440;
const UNKNOWN_MONITOR: &str = "DP-9";
const VISIBLE_WS: i32 = 1;
const HIDDEN_WS: i32 = 2;

fn dp1_monitor() -> WmMonitor {
    test_monitor_with_id(DP1_ID, DP1_NAME, 0, 0, DP1_W, DP1_H)
}

#[test]
fn fullscreen_empty_clients_not_suppressed() {
    let monitors = vec![dp1_monitor()];
    assert!(!monitor_has_fullscreen(&[], &monitors, DP1_NAME));
}

#[test]
fn fullscreen_non_fullscreen_client_not_suppressed() {
    let monitors = vec![dp1_monitor()];
    let clients = vec![test_client(DP1_ID, false)];
    assert!(!monitor_has_fullscreen(&clients, &monitors, DP1_NAME));
}

#[test]
fn fullscreen_matching_monitor_suppressed() {
    let monitors = vec![dp1_monitor()];
    let clients = vec![test_client(DP1_ID, true)];
    assert!(monitor_has_fullscreen(&clients, &monitors, DP1_NAME));
}

#[test]
fn fullscreen_other_monitor_not_suppressed() {
    let monitors = vec![
        dp1_monitor(),
        test_monitor_with_id(HDMI_ID, HDMI_NAME, HDMI_X, 0, HDMI_W, HDMI_H),
    ];
    let clients = vec![test_client(HDMI_ID, true)];
    assert!(!monitor_has_fullscreen(&clients, &monitors, DP1_NAME));
    assert!(monitor_has_fullscreen(&clients, &monitors, HDMI_NAME));
}

#[test]
fn fullscreen_unknown_monitor_not_suppressed() {
    let monitors = vec![dp1_monitor()];
    let clients = vec![test_client(DP1_ID, true)];
    assert!(!monitor_has_fullscreen(&clients, &monitors, UNKNOWN_MONITOR));
}

#[test]
fn fullscreen_on_hidden_workspace_not_suppressed() {
    let monitors =
        vec![test_monitor_with_workspace(DP1_ID, DP1_NAME, 0, 0, DP1_W, DP1_H, VISIBLE_WS)];
    let clients = vec![test_client_on_workspace(DP1_ID, true, HIDDEN_WS)];
    assert!(
        !monitor_has_fullscreen(&clients, &monitors, DP1_NAME),
        "fullscreen on hidden workspace must not suppress dock on visible one"
    );
}

#[test]
fn fullscreen_on_active_workspace_suppressed() {
    let monitors =
        vec![test_monitor_with_workspace(DP1_ID, DP1_NAME, 0, 0, DP1_W, DP1_H, VISIBLE_WS)];
    let clients = vec![test_client_on_workspace(DP1_ID, true, VISIBLE_WS)];
    assert!(monitor_has_fullscreen(&clients, &monitors, DP1_NAME));
}

#[test]
fn cursor_inside_shown_dock_window() {
    let monitors = vec![dp1_monitor()];
    let docks = vec![DockGeometry { output_name: DP1_NAME.to_string(), shown: true, width: 800, height: 50 }];
    assert!(is_cursor_in_visible_dock(&CursorPos { x: 960, y: 1040 }, &docks, &monitors, Position::Bottom));
    assert!(!is_cursor_in_visible_dock(&CursorPos { x: 100, y: 1040 }, &docks, &monitors, Position::Bottom));
    let hidden = vec![DockGeometry { output_name: DP1_NAME.to_string(), shown: false, width: 800, height: 50 }];
    assert!(!is_cursor_in_visible_dock(&CursorPos { x: 960, y: 1040 }, &hidden, &monitors, Position::Bottom));
}

#[test]
fn hide_timer_starts_waits_and_hides() {
    assert_eq!(hide_timer_step(None, 600), HideTimerAction::Start);
    assert_eq!(hide_timer_step(Some(599), 600), HideTimerAction::Wait);
    assert_eq!(hide_timer_step(Some(600), 600), HideTimerAction::Hide);
    assert_eq!(hotspot_hide_step(None, false, 600), HotspotHideAction::Idle);
    assert_eq!(hotspot_hide_step(Some(900), true, 600), HotspotHideAction::Rebase);
    assert_eq!(hotspot_hide_step(Some(900), false, 600), HotspotHideAction::Hide);
    assert_eq!(hotspot_hide_step(Some(100), false, 600), HotspotHideAction::Wait);
}

#[test]
fn hidden_and_visible_dock_steps() {
    let monitors = vec![dp1_monitor(), test_monitor_with_id(HDMI_ID, HDMI_NAME, HDMI_X, 0, HDMI_W, HDMI_H)];
    let at_edge = CursorPos { x: 2000, y: 1439 };
    assert_eq!(
        hidden_dock_step(&at_edge, &monitors, Position::Bottom, true),
        Some((HDMI_NAME.to_string(), true))
    );
    assert_eq!(hidden_dock_step(&CursorPos { x: 2000, y: 10 }, &monitors, Position::Bottom, true), None);
    match visible_dock_step(&at_edge, &monitors, Position::Bottom, false, true, false, false) {
        VisibleDockAction::Migrate { monitor, check_fullscreen } => {
            assert_eq!(monitor, HDMI_NAME);
            assert!(!check_fullscreen);
        }
        other => panic!("expected a migration, got {other:?}"),
    }
    assert!(matches!(
        visible_dock_step(&at_edge, &monitors, Position::Bottom, false, true, true, false),
        VisibleDockAction::KeepShown
    ));
    assert!(matches!(
        visible_dock_step(&CursorPos { x: 10, y: 10 }, &monitors, Position::Bottom, false, false, false, false),
        VisibleDockAction::RunHideTimer
    ));
}

#[test]
fn drag_outside_tracking_only_while_dragging() {
    let mut s: DockState<u32> = DockState::new(DockConfig::default());
    update_drag_state(&mut s, true, false, false);
    assert!(!s.is_drag_outside_dock());
    s.set_drag_pending();
    update_drag_state(&mut s, true, false, false);
    assert!(s.is_drag_outside_dock());
    update_drag_state(&mut s, true, true, false);
    assert!(!s.is_drag_outside_dock());
}

#[test]
fn monitor_cache_refresh_cadence() {
    let mut count = 0;
    for _ in 0..MONITOR_REFRESH_POLLS - 1 {
        assert!(!monitor_refresh_step(&mut count, false));
    }
    assert!(monitor_refresh_step(&mut count, false));
    assert_eq!(count, 0);
    assert!(monitor_refresh_step(&mut count, true));
}

#[test]
fn show_only_on_named_output() {
    let outputs = vec!["DP-1".to_string(), "HDMI-A-1".to_string()];
    assert_eq!(show_on_monitor_only_by_name(&outputs, "HDMI-A-1"), Some(vec![false, true]));
    assert_eq!(show_on_monitor_only_by_name(&outputs, "DP-9"), None);
}

#[test]
fn hotspot_strip_geometry_and_delay() {
    let g = hotspot_geometry(Position::Left);
    assert_eq!(g.anchors, vec![Edge::Left, Edge::Top, Edge::Bottom]);
    assert_eq!((g.width, g.height), (HOTSPOT_THICKNESS, -1));
    let g = hotspot_geometry(Position::Bottom);
    assert_eq!((g.width, g.height), (-1, HOTSPOT_THICKNESS));
    assert_eq!(hotspot_show_delay(-5), 0);
    assert_eq!(hotspot_show_delay(20), 20);
}

#[test]
fn hotspot_enter_suppressed_by_fullscreen() {
    assert_eq!(hotspot_enter_step(false, true, 20), HotspotEnterAction::Suppress);
    assert_eq!(hotspot_enter_step(true, true, 20), HotspotEnterAction::StartTimer { delay_ms: 20 });
}

#[test]
fn hotspot_enter_without_delay_shows_now() {
    assert_eq!(hotspot_enter_step(false, false, 0), HotspotEnterAction::ShowNow);
    assert_eq!(hotspot_enter_step(false, false, -5), HotspotEnterAction::ShowNow);
}

#[test]
fn hotspot_timer_rechecks_fullscreen() {
    assert!(!hotspot_timer_fired_step(false, true));
    assert!(hotspot_timer_fired_step(true, true));
    assert!(hotspot_timer_fired_step(false, false));
}

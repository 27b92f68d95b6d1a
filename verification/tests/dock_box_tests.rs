use nwg_dock::compositor::{WmClient, WmWorkspace};
use nwg_dock::config::DockConfig;
use nwg_dock::keyed::KeyedTable;
use nwg_dock::state::DockState;
use nwg_dock::ui::dock_box::{
    collect_all_items, is_child_window_grouped, is_class_represented, launching_classes,
    plan_pinned_items, plan_running_items, scale_icon_size, should_skip_running, PinnedButton,
};

fn default_config() -> DockConfig {
    DockConfig::default()
}

fn no_map() -> KeyedTable<String> {
    KeyedTable::new()
}

#[test]
fn scale_icon_size_one_item_full() {
    let config = default_config();
    assert_eq!(scale_icon_size(1, &config), 48);
}

#[test]
fn scale_icon_size_threshold_boundary_full() {
    let config = default_config();
    assert_eq!(scale_icon_size(6, &config), 48);
}

#[test]
fn scale_icon_size_plateau_eight_items_still_full() {
    let config = default_config();
    assert_eq!(
        scale_icon_size(8, &config),
        48,
        "items 7-8 hit the branch but overflow=0 — must stay at full size"
    );
}

#[test]
fn scale_icon_size_nine_items_first_step() {
    let config = default_config();
    assert_eq!(scale_icon_size(9, &config), 41);
}

#[test]
fn scale_icon_size_twelve_items_second_step() {
    let config = default_config();
    assert_eq!(scale_icon_size(12, &config), 36);
}

#[test]
fn scale_icon_size_hundred_items_asymptote() {
    let config = default_config();
    let result = scale_icon_size(100, &config);
    assert_eq!(result, 7, "expected 48 * 6 / (6 + 31) = 7");
    assert!(result > 0, "icon size must be > 0 even with many items");
}

#[test]
fn scale_icon_size_zero_items_clamped() {
    let config = default_config();
    assert_eq!(scale_icon_size(0, &config), 48);
}

#[test]
fn scale_icon_size_negative_icon_rounds_toward_zero() {
    let mut config = default_config();
    config.icon_size = -48;
    // -288 / 1 < -48, overflow = (1 - 6) / 3 = -1, -288 / 5 = -57
    assert_eq!(scale_icon_size(1, &config), -57);
}

#[test]
fn is_class_represented_direct_match_case_insensitive() {
    let items = vec!["Firefox".to_string()];
    assert!(is_class_represented("firefox", &items, &no_map()));
    assert!(is_class_represented("FIREFOX", &items, &no_map()));
}

#[test]
fn is_class_represented_hyphen_space_variant() {
    let items = vec!["github-desktop".to_string()];
    assert!(is_class_represented("github desktop", &items, &no_map()));
}

#[test]
fn is_class_represented_via_wm_class_map() {
    let items = vec!["billz".to_string()];
    let mut map = KeyedTable::new();
    map.insert("com.billz.app".to_string(), "billz".to_string());
    assert!(is_class_represented("com.billz.app", &items, &map));
}

#[test]
fn is_class_represented_not_found() {
    let items = vec!["firefox".to_string()];
    assert!(!is_class_represented("chromium", &items, &no_map()));
}

fn make_client(class: &str, initial_class: &str) -> WmClient {
    WmClient {
        id: String::new(),
        class: class.to_string(),
        initial_class: initial_class.to_string(),
        title: String::new(),
        pid: 0,
        workspace: WmWorkspace { id: 0, name: String::new() },
        floating: false,
        monitor_id: 0,
        fullscreen: false,
    }
}

fn client_on(id: &str, class: &str, ws_id: i32, ws_name: &str) -> WmClient {
    WmClient {
        id: id.to_string(),
        workspace: WmWorkspace { id: ws_id, name: ws_name.to_string() },
        ..make_client(class, "")
    }
}

#[test]
fn is_child_window_grouped_matches_initial_class() {
    let task = make_client("Playwright", "Code");
    let all_items = vec!["code".to_string()];
    assert!(is_child_window_grouped(&task, &all_items));
}

#[test]
fn is_child_window_grouped_no_initial_class() {
    let task = make_client("firefox", "");
    let all_items = vec!["firefox".to_string()];
    assert!(!is_child_window_grouped(&task, &all_items));
}

#[test]
fn is_child_window_grouped_same_class_and_initial_class() {
    let task = make_client("firefox", "firefox");
    let all_items = vec!["firefox".to_string()];
    assert!(!is_child_window_grouped(&task, &all_items));
}

#[test]
fn should_skip_running_empty_class() {
    let task = make_client("", "");
    assert!(should_skip_running(&task, &[], &[], &[], &no_map()));
}

#[test]
fn should_skip_running_ignored_class() {
    let task = make_client("steam", "steam");
    assert!(should_skip_running(&task, &[], &["steam".to_string()], &[], &no_map()));
}

#[test]
fn should_skip_running_pinned() {
    let task = make_client("firefox", "firefox");
    assert!(should_skip_running(&task, &["firefox".to_string()], &[], &[], &no_map()));
}

#[test]
fn should_skip_running_not_skipped_when_free() {
    let task = make_client("firefox", "firefox");
    assert!(!should_skip_running(&task, &[], &[], &[], &no_map()));
}

#[test]
fn collect_all_items_orders_filters_and_dedups() {
    let mut config = default_config();
    config.ignore_workspaces = "9, special".to_string();
    let mut s: DockState<u32> = DockState::new(config.clone());
    s.pinned = vec!["firefox".to_string(), "firefox".to_string(), "code".to_string()];
    s.clients = vec![
        client_on("0x1", "zeal", 2, "2"),
        client_on("0x2", "kitty", 1, "1"),
        client_on("0x3", "Firefox", 1, "1"),
        client_on("0x4", "steam", 9, "9"),
        client_on("0x5", "scratch", -98, "special:magic"),
        client_on("0x6", "alacritty", 1, "1"),
        client_on("0x7", "nwg-drawer", 2, "2"),
        client_on("0x8", "", 2, "2"),
    ];
    let items = collect_all_items(&mut s, &config);
    assert_eq!(items, vec!["firefox", "code", "alacritty", "kitty", "zeal"]);
    let ids: Vec<&str> = s.clients.iter().map(|c| c.id.as_str()).collect();
    assert_eq!(ids, vec!["0x3", "0x6", "0x2", "0x8", "0x7", "0x1"]);
}

#[test]
fn pinned_and_running_plans() {
    let mut s: DockState<u32> = DockState::new(default_config());
    s.clients = vec![
        client_on("0x1", "firefox", 1, "1"),
        client_on("0x2", "kitty", 1, "1"),
        client_on("0x3", "kitty", 2, "2"),
    ];
    let pinned = vec!["firefox".to_string(), "code".to_string(), "steam".to_string()];
    let plan = plan_pinned_items(&s, &pinned, "firefox", &["steam".to_string()]);
    assert_eq!(plan.len(), 2);
    match &plan[0] {
        PinnedButton::Task { index, pin, instances, active } => {
            assert_eq!(*index, 0);
            assert_eq!(pin, "firefox");
            assert_eq!(instances.len(), 1);
            assert!(*active);
        }
        other => panic!("expected a task button, got {other:?}"),
    }
    match &plan[1] {
        PinnedButton::Launcher { index, pin } => {
            assert_eq!(*index, 1);
            assert_eq!(pin, "code");
        }
        other => panic!("expected a launcher button, got {other:?}"),
    }
    let clients = s.clients.clone();
    let running = plan_running_items(&s, &clients, &pinned, "firefox", &[]);
    assert_eq!(running.len(), 1);
    assert_eq!(running[0].task.id, "0x2");
    assert_eq!(running[0].instances.len(), 2);
    assert!(!running[0].active);
}

#[test]
fn launching_classes_follow_config_and_state() {
    let mut config = default_config();
    config.launch_animation = true;
    let mut s: DockState<u32> = DockState::new(config);
    assert!(launching_classes(&s, "Firefox").is_empty());
    s.start_launch("firefox".to_string(), 0, 1);
    assert_eq!(launching_classes(&s, "Firefox"), vec!["dock-launching"]);
    s.config.position = nwg_dock::config::Position::Left;
    assert_eq!(
        launching_classes(&s, "Firefox"),
        vec!["dock-launching", "dock-launching-vertical"]
    );
}

#[test]
fn scaled_icon_size_never_grows_with_more_items() {
    let config = DockConfig::default();
    let mut previous = scale_icon_size(0, &config);
    for n in 0..=60usize {
        let size = scale_icon_size(n, &config);
        if n <= 8 {
            assert_eq!(size, config.icon_size, "n = {n}");
        }
        assert!(size <= previous, "n = {n}: {size} > {previous}");
        previous = size;
    }
}

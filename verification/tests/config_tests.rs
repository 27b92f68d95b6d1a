use nwg_dock::config::{Alignment, DockConfig, Layer, Position};
use nwg_dock::keyed::KeyedTable;
use nwg_dock::startup::{add_wm_class, launcher_command, normalize_config, toggle_target};

fn with_position(p: Position) -> DockConfig {
    let mut c = DockConfig::default();
    c.position = p;
    c
}

#[test]
fn vertical_positions() {
    assert!(with_position(Position::Left).is_vertical());
    assert!(with_position(Position::Right).is_vertical());
    assert!(!with_position(Position::Bottom).is_vertical());
}

#[test]
fn resident_mode() {
    let mut config = DockConfig::default();
    config.autohide = true;
    assert!(config.is_resident_mode());
    let mut config = DockConfig::default();
    config.resident = true;
    assert!(config.is_resident_mode());
    assert!(!DockConfig::default().is_resident_mode());
}

#[test]
fn ignored_workspaces() {
    let mut config = DockConfig::default();
    config.ignore_workspaces = "1,special,3".to_string();
    assert_eq!(config.ignored_workspaces(), vec!["1", "special", "3"]);
}

#[test]
fn ignored_classes() {
    let mut config = DockConfig::default();
    config.ignore_classes = "steam firefox".to_string();
    assert_eq!(config.ignored_classes(), vec!["steam", "firefox"]);
}

#[test]
fn empty_defaults() {
    let config = DockConfig::default();
    assert!(config.ignored_workspaces().is_empty());
    assert!(config.ignored_classes().is_empty());
    assert_eq!(config.position, Position::Bottom);
    assert_eq!(config.alignment, Alignment::Center);
}

#[test]
fn hide_timeout_default() {
    assert_eq!(DockConfig::default().hide_timeout, 600);
}

#[test]
fn icon_size_default() {
    assert_eq!(DockConfig::default().icon_size, 48);
}

#[test]
fn launcher_cmd_default() {
    assert_eq!(DockConfig::default().launcher_cmd, "nwg-drawer");
}

#[test]
fn default_layer_is_overlay() {
    assert_eq!(DockConfig::default().layer, Layer::Overlay);
}

#[test]
fn hotspot_delay_default() {
    assert_eq!(DockConfig::default().hotspot_delay, 20);
}

#[test]
fn launch_animation_default_off() {
    assert!(!DockConfig::default().launch_animation);
}

#[test]
fn fullscreen_suppress_default_on() {
    assert!(!DockConfig::default().no_fullscreen_suppress);
}

#[test]
fn normalization_drops_autohide_in_resident_mode() {
    let mut config = DockConfig::default();
    config.autohide = true;
    config.resident = true;
    assert!(normalize_config(&mut config, false));
    assert!(!config.autohide);
    assert!(config.resident);
    assert!(!config.nolauncher);
    assert!(!normalize_config(&mut config, false));
}

#[test]
fn missing_launcher_command_hides_launcher() {
    let mut config = DockConfig::default();
    config.launcher_cmd = "  nwg-drawer -ovl".to_string();
    assert_eq!(launcher_command(&config).as_deref(), Some("nwg-drawer"));
    normalize_config(&mut config, true);
    assert!(config.nolauncher);
    assert_eq!(launcher_command(&config), None);
    let mut blank = DockConfig::default();
    blank.launcher_cmd = "   ".to_string();
    assert_eq!(launcher_command(&blank), None);
    normalize_config(&mut blank, true);
    assert!(!blank.nolauncher);
}

#[test]
fn second_instance_toggles_unless_resident() {
    assert_eq!(toggle_target(Some(42), false), Some(42));
    assert_eq!(toggle_target(Some(42), true), None);
    assert_eq!(toggle_target(None, false), None);
}

#[test]
fn first_desktop_file_wins_for_a_wm_class() {
    let mut map: KeyedTable<String> = KeyedTable::new();
    add_wm_class(&mut map, "Com.Billz.App", "billz".to_string());
    add_wm_class(&mut map, "com.billz.app", "other".to_string());
    add_wm_class(&mut map, "", "nothing".to_string());
    assert_eq!(map.get("com.billz.app").map(|s| s.as_str()), Some("billz"));
    assert_eq!(map.len(), 1);
}

#[test]
fn ignored_classes_string_form_skips_empty_pieces() {
    let mut config = DockConfig::default();
    config.ignore_classes = "steam  firefox ".to_string();
    assert_eq!(config.ignored_classes(), vec!["steam", "firefox"]);
}

#[test]
fn ignored_classes_line_form_keeps_spaces() {
    let mut config = DockConfig::default();
    config.ignore_classes = "Visual Studio\nsteam\n".to_string();
    assert_eq!(config.ignored_classes(), vec!["Visual Studio", "steam"]);
}

use nwg_dock::config_file::load::{
    check_value_ranges, error_location_of, invalid_value, section_label, strip_bom, unknown_config_keys, ConfigError,
};
use nwg_dock::config_file::notify::{clear_test_notifier, install_test_notifier, notify_user, NotifierSlot};
use nwg_dock::config_file::print::effective_config_file;
use nwg_dock::config_file::schema::RawConfigFile;
use nwg_dock::config::{DockConfig, Position};
use std::cell::RefCell;
use std::rc::Rc;

fn parse_error(text: &str) -> ConfigError {
    match unknown_config_keys(text) {
        Err(e) => e,
        Ok(v) => panic!("expected a parse error, got {v:?}"),
    }
}

#[test]
fn config_file_config_error_parse_display() {
    let ce = parse_error("[behavior\nfoo = 1");
    let display = ce.message();
    assert!(display.contains("parse error"), "got: {display}");
}

#[test]
fn load_config_error_parse_display() {
    let ce = parse_error("[behavior\nfoo = 1");
    let display = ce.message();
    assert!(display.contains("parse error"), "got: {display}");
}

fn invalid_layout_position() -> ConfigError {
    ConfigError::InvalidValue {
        section: "layout",
        key: "position".into(),
        error_debug: "side".into(),
        error_message: "one of: top, bottom, left, right".into(),
    }
}

#[test]
fn config_file_config_error_invalid_value_display_includes_field() {
    let display = invalid_layout_position().message();
    assert!(display.contains("layout.position"), "got: {display}");
    assert!(display.contains("side"), "got: {display}");
    assert!(display.contains("top, bottom, left, right"), "got: {display}");
}

#[test]
fn load_config_error_invalid_value_display_includes_field() {
    let display = invalid_layout_position().message();
    assert!(display.contains("layout.position"), "got: {display}");
    assert!(display.contains("side"), "got: {display}");
    assert!(display.contains("top, bottom, left, right"), "got: {display}");
}

#[test]
fn config_error_invalid_value_display_omits_dot_when_key_empty() {
    let ce = ConfigError::InvalidValue {
        section: "layout",
        key: String::new(),
        error_debug: "string".into(),
        error_message: "table".into(),
    };
    let display = ce.message();
    assert!(display.contains("invalid value for layout:"), "got: {display}");
    assert!(!display.contains("layout."), "trailing dot should be omitted, got: {display}");
}

fn io_error() -> ConfigError {
    ConfigError::IoError(std::io::Error::new(std::io::ErrorKind::NotFound, "missing"))
}

#[test]
fn config_file_config_error_io_display() {
    let display = io_error().message();
    assert!(display.contains("missing"), "got: {display}");
}

#[test]
fn load_config_error_io_display() {
    let display = io_error().message();
    assert!(display.contains("missing"), "got: {display}");
}

#[test]
fn load_load_returns_parse_error_on_bad_toml() {
    let err = parse_error("[behavior\nautohide = true");
    assert!(matches!(err, ConfigError::ParseError(_)), "got: {err:?}");
}

#[test]
fn load_load_returns_invalid_value_on_bad_enum() {
    // The typed parse of `[layout] position = "side"` fails at path
    // `layout.position`.
    match invalid_value("layout.position", "d".into(), "m".into()) {
        ConfigError::InvalidValue { section, key, .. } => {
            assert_eq!(section, "layout");
            assert_eq!(key, "position");
        }
        other => panic!("expected InvalidValue, got {other:?}"),
    }
}

#[test]
fn config_file_load_returns_parse_error_on_bad_toml() {
    let err = parse_error("[behavior\nautohide = true");
    assert!(matches!(err, ConfigError::ParseError(_)), "got: {err:?}");
}

#[test]
fn config_file_load_returns_invalid_value_on_bad_enum() {
    match invalid_value("layout.position", "d".into(), "m".into()) {
        ConfigError::InvalidValue { section, key, .. } => {
            assert_eq!(section, "layout");
            assert_eq!(key, "position");
        }
        other => panic!("expected InvalidValue, got {other:?}"),
    }
}

#[test]
fn load_attributes_section_level_type_error_to_section() {
    // `layout = "bad"` fails at path `layout`, a section with no key.
    match invalid_value("layout", "d".into(), "m".into()) {
        ConfigError::InvalidValue { section, key, .. } => {
            assert_eq!(section, "layout", "should attribute to the layout section");
            assert!(key.is_empty(), "section-level error should have empty key, got: {key:?}");
        }
        other => panic!("expected InvalidValue, got {other:?}"),
    }
}

#[test]
fn error_location_for_unknown_root_key() {
    let (section, key) = error_location_of("unknown-name");
    assert_eq!(section, "(root)");
    assert_eq!(key, "unknown-name");
    let (section, key) = error_location_of("behavior.hide-timeout");
    assert_eq!(section, "behavior");
    assert_eq!(key, "hide-timeout");
    let (section, key) = error_location_of("mystery.key");
    assert_eq!(section, "(unknown)");
    assert_eq!(key, "key");
}

#[test]
fn section_labels() {
    assert_eq!(section_label("filters"), "filters");
    assert_eq!(section_label("appearance"), "appearance");
    assert_eq!(section_label("Filters"), "(unknown)");
}

#[test]
fn load_load_with_unknown_key_returns_ok_and_collects() {
    let content = "\n[behavior]\nautohide = true\nunknown-typo = \"value\"\n";
    let unknowns = unknown_config_keys(content).unwrap();
    assert!(unknowns.contains(&"behavior.unknown-typo".to_string()), "got: {unknowns:?}");
    assert_eq!(unknowns.len(), 1);
}

#[test]
fn config_file_load_with_unknown_key_returns_ok_and_collects() {
    let content = "\n[behavior]\nautohide = true\nunknown-typo = \"value\"\n";
    let unknowns = unknown_config_keys(content).unwrap();
    assert!(unknowns.contains(&"behavior.unknown-typo".to_string()), "got: {unknowns:?}");
}

#[test]
fn load_load_with_unknown_section_returns_ok_and_collects() {
    let content = "\n[unknown-section]\nsomething = 1\n[appearance]\nicon-size = 32\n";
    let unknowns = unknown_config_keys(content).unwrap();
    assert!(unknowns.contains(&"unknown-section".to_string()), "got: {unknowns:?}");
    assert_eq!(unknowns.len(), 1);
}

#[test]
fn config_file_load_with_unknown_section_returns_ok_and_collects() {
    let content = "\n[unknown-section]\nsomething = 1\n[appearance]\nicon-size = 32\n";
    let unknowns = unknown_config_keys(content).unwrap();
    assert!(unknowns.contains(&"unknown-section".to_string()), "got: {unknowns:?}");
}

#[test]
fn known_section_with_scalar_value_reports_nothing() {
    let unknowns = unknown_config_keys("layout = \"bad\"").unwrap();
    assert!(unknowns.is_empty(), "got: {unknowns:?}");
}

#[test]
fn load_load_handles_bom_prefix() {
    let text = strip_bom("\u{feff}[appearance]\nicon-size = 24\n");
    assert_eq!(text, "[appearance]\nicon-size = 24\n");
    assert!(unknown_config_keys(&text).unwrap().is_empty());
}

#[test]
fn config_file_load_handles_bom_prefix() {
    let text = strip_bom("\u{feff}[appearance]\nicon-size = 24\n");
    assert_eq!(text, "[appearance]\nicon-size = 24\n");
    assert_eq!(strip_bom("no bom"), "no bom");
}

fn recorded_slot() -> (NotifierSlot<impl Fn(&str, &str)>, Rc<RefCell<Vec<(String, String)>>>) {
    let recorded: Rc<RefCell<Vec<(String, String)>>> = Rc::new(RefCell::new(Vec::new()));
    let r = Rc::clone(&recorded);
    let mut slot = NotifierSlot::new();
    install_test_notifier(&mut slot, move |s: &str, b: &str| {
        r.borrow_mut().push((s.to_string(), b.to_string()));
    });
    (slot, recorded)
}

#[test]
fn notify_notify_records_through_installed_stub() {
    let (mut slot, recorded) = recorded_slot();
    assert!(notify_user(&slot, "hello", "world"));
    let log = recorded.borrow();
    assert_eq!(log.len(), 1);
    assert_eq!(log[0].0, "hello");
    assert_eq!(log[0].1, "world");
    drop(log);
    clear_test_notifier(&mut slot);
}

#[test]
fn config_file_notify_records_through_installed_stub() {
    let (mut slot, recorded) = recorded_slot();
    assert!(notify_user(&slot, "hello", "world"));
    assert_eq!(recorded.borrow().clone(), vec![("hello".to_string(), "world".to_string())]);
    clear_test_notifier(&mut slot);
}

#[test]
fn notify_notify_falls_through_to_default_when_no_stub() {
    let (mut slot, recorded) = recorded_slot();
    clear_test_notifier(&mut slot);
    assert!(!notify_user(&slot, "default", "path"));
    assert!(recorded.borrow().is_empty());
}

#[test]
fn config_file_notify_falls_through_to_default_when_no_stub() {
    let slot: NotifierSlot<fn(&str, &str)> = NotifierSlot::new();
    assert!(!notify_user(&slot, "default", "path"));
}

#[test]
fn effective_file_states_every_setting() {
    let mut cli = DockConfig::default();
    cli.icon_size = 64;
    cli.position = Position::Left;
    cli.opacity = 75;
    let raw = effective_config_file(&cli);
    assert_eq!(raw.appearance.icon_size, Some(64));
    assert_eq!(raw.layout.position, Some(Position::Left));
    assert_eq!(raw.appearance.opacity, Some(75));
    assert_eq!(raw.behavior.wm, None);
    assert_eq!(raw.launcher.launcher_cmd.as_deref(), Some("nwg-drawer"));
}

#[test]
fn effective_file_states_ws() {
    let mut cfg = DockConfig::default();
    cfg.ws = true;
    let raw = effective_config_file(&cfg);
    assert_eq!(raw.filters.ws, Some(true));
}

#[test]
fn unknown_key_scan_accepts_ws() {
    let keys = unknown_config_keys("[filters]\nws = true\n").unwrap();
    assert!(keys.is_empty(), "got: {keys:?}");
}

#[test]
fn negative_icon_size_is_rejected_naming_the_field() {
    let mut file = RawConfigFile::default();
    file.appearance.icon_size = Some(-5);
    let err = check_value_ranges(&file).unwrap_err();
    assert_eq!(
        err.message(),
        "invalid value for appearance.icon-size: '-5' \u{2014} expected a positive number of pixels"
    );
}

#[test]
fn opacity_above_hundred_is_rejected_naming_the_field() {
    let mut file = RawConfigFile::default();
    file.appearance.opacity = Some(200);
    let err = check_value_ranges(&file).unwrap_err();
    assert_eq!(
        err.message(),
        "invalid value for appearance.opacity: '200' \u{2014} expected a percentage from 0 to 100"
    );
}

#[test]
fn values_in_range_pass_the_check() {
    let mut file = RawConfigFile::default();
    file.appearance.icon_size = Some(48);
    file.appearance.opacity = Some(100);
    assert!(check_value_ranges(&file).is_ok());
    assert!(check_value_ranges(&RawConfigFile::default()).is_ok());
}

#[test]
fn every_printed_key_is_known() {
    let text = "[behavior]\nautohide = false\nresident = false\nmulti = false\ndebug = false\nwm = \"sway\"\nhide-timeout = 600\nhotspot-delay = 20\nhotspot-layer = \"overlay\"\n\
[layout]\nposition = \"bottom\"\nalignment = \"center\"\nfull = false\nmt = 0\nmb = 0\nml = 0\nmr = 0\noutput = \"\"\nlayer = \"overlay\"\nexclusive = false\n\
[appearance]\nicon-size = 48\nopacity = 100\ncss-file = \"style.css\"\nlaunch-animation = false\n\
[launcher]\nlauncher-cmd = \"nwg-drawer\"\nlauncher-pos = \"end\"\nnolauncher = false\nico = \"\"\n\
[filters]\nignore-classes = \"\"\nignore-workspaces = \"\"\nnum-ws = 10\nws = false\nno-fullscreen-suppress = false\n";
    let keys = unknown_config_keys(text).unwrap();
    assert!(keys.is_empty(), "got: {keys:?}");
}

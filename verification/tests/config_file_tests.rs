use nwg_dock::config::{DockConfig, Layer, Position, WmOverride};
use nwg_dock::config_file::fields::ConfigField;
use nwg_dock::config_file::hot_reload::{
    apply_config_change, diff_config, preserve_restart_fields, settle_css_reload, DiffResult,
};
use nwg_dock::config_file::merge::{merge, CliSources};
use nwg_dock::config_file::schema::{AppearanceSection, RawConfigFile, StringOrList};

fn cfg() -> DockConfig {
    DockConfig::default()
}

fn no_cli() -> CliSources {
    CliSources { explicit: vec![] }
}

fn file_with_icon_size(n: i32) -> RawConfigFile {
    RawConfigFile {
        appearance: AppearanceSection { icon_size: Some(n), ..Default::default() },
        ..Default::default()
    }
}

#[test]
fn config_file_string_or_list_into_string_string_form() {
    assert_eq!(StringOrList::String("a b".into()).into_string(" "), "a b");
}

#[test]
fn config_file_string_or_list_into_string_list_form_joins() {
    assert_eq!(StringOrList::List(vec!["a".into(), "b".into()]).into_string(","), "a,b");
}

#[test]
fn schema_string_or_list_into_string_string_form() {
    assert_eq!(StringOrList::String("a b".into()).into_string(" "), "a b");
}

#[test]
fn schema_string_or_list_into_string_list_form_joins() {
    assert_eq!(StringOrList::List(vec!["a".into(), "b".into()]).into_string(","), "a,b");
}

#[test]
fn config_file_merge_cli_explicit_beats_file() {
    let mut cli = cfg();
    cli.icon_size = 32;
    let sources = CliSources { explicit: vec![ConfigField::IconSize] };
    let merged = merge(&sources, cli, Some(file_with_icon_size(64)));
    assert_eq!(merged.icon_size, 32);
}

#[test]
fn config_file_merge_file_beats_cli_default() {
    let merged = merge(&no_cli(), cfg(), Some(file_with_icon_size(64)));
    assert_eq!(merged.icon_size, 64);
}

#[test]
fn config_file_merge_defaults_when_neither() {
    let merged = merge(&no_cli(), cfg(), None);
    assert_eq!(merged.icon_size, 48);
}

#[test]
fn config_file_merge_cli_explicit_default_value_still_wins() {
    let mut cli = cfg();
    cli.icon_size = 48;
    let sources = CliSources { explicit: vec![ConfigField::IconSize] };
    let merged = merge(&sources, cli, Some(file_with_icon_size(64)));
    assert_eq!(merged.icon_size, 48);
}

#[test]
fn config_file_merge_string_field_file_wins_over_default() {
    let mut file = RawConfigFile::default();
    file.launcher.launcher_cmd = Some("custom-launcher".into());
    let merged = merge(&no_cli(), cfg(), Some(file));
    assert_eq!(merged.launcher_cmd, "custom-launcher");
}

#[test]
fn config_file_merge_enum_field_file_wins_over_default() {
    let mut file = RawConfigFile::default();
    file.layout.position = Some(Position::Top);
    let merged = merge(&no_cli(), cfg(), Some(file));
    assert_eq!(merged.position, Position::Top);
}

#[test]
fn config_file_merge_bool_flag_file_wins_when_cli_absent() {
    let mut file = RawConfigFile::default();
    file.behavior.autohide = Some(true);
    let merged = merge(&no_cli(), cfg(), Some(file));
    assert!(merged.autohide);
}

#[test]
fn config_file_merge_string_or_list_array_form_joins_for_classes() {
    let mut file = RawConfigFile::default();
    file.filters.ignore_classes = Some(StringOrList::List(vec!["a".into(), "b".into()]));
    let merged = merge(&no_cli(), cfg(), Some(file));
    assert_eq!(merged.ignore_classes, "a b");
}

#[test]
fn config_file_merge_string_or_list_array_form_joins_for_workspaces() {
    let mut file = RawConfigFile::default();
    file.filters.ignore_workspaces = Some(StringOrList::List(vec!["1".into(), "2".into()]));
    let merged = merge(&no_cli(), cfg(), Some(file));
    assert_eq!(merged.ignore_workspaces, "1,2");
}

#[test]
fn config_file_merge_wm_override_field_wins_when_cli_absent() {
    let mut file = RawConfigFile::default();
    file.behavior.wm = Some(WmOverride::Sway);
    let merged = merge(&no_cli(), cfg(), Some(file));
    assert_eq!(merged.wm, Some(WmOverride::Sway));
}

#[test]
fn merge_merge_cli_explicit_beats_file() {
    let mut cli = cfg();
    cli.icon_size = 32;
    let sources = CliSources { explicit: vec![ConfigField::IconSize] };
    let merged = merge(&sources, cli, Some(file_with_icon_size(64)));
    assert_eq!(merged.icon_size, 32);
}

#[test]
fn merge_merge_file_beats_cli_default() {
    let merged = merge(&no_cli(), cfg(), Some(file_with_icon_size(64)));
    assert_eq!(merged.icon_size, 64);
}

#[test]
fn merge_merge_defaults_when_neither() {
    let merged = merge(&no_cli(), cfg(), None);
    assert_eq!(merged.icon_size, 48);
}

#[test]
fn merge_merge_cli_explicit_default_value_still_wins() {
    let mut cli = cfg();
    cli.icon_size = 48;
    let sources = CliSources { explicit: vec![ConfigField::IconSize] };
    let merged = merge(&sources, cli, Some(file_with_icon_size(64)));
    assert_eq!(merged.icon_size, 48);
}

#[test]
fn merge_merge_string_field_file_wins_over_default() {
    let mut file = RawConfigFile::default();
    file.launcher.launcher_cmd = Some("custom-launcher".into());
    let merged = merge(&no_cli(), cfg(), Some(file));
    assert_eq!(merged.launcher_cmd, "custom-launcher");
}

#[test]
fn merge_merge_enum_field_file_wins_over_default() {
    let mut file = RawConfigFile::default();
    file.layout.position = Some(Position::Top);
    let merged = merge(&no_cli(), cfg(), Some(file));
    assert_eq!(merged.position, Position::Top);
}

#[test]
fn merge_merge_bool_flag_file_wins_when_cli_absent() {
    let mut file = RawConfigFile::default();
    file.behavior.autohide = Some(true);
    let merged = merge(&no_cli(), cfg(), Some(file));
    assert!(merged.autohide);
}

#[test]
fn merge_merge_string_or_list_array_form_joins_for_classes() {
    let mut file = RawConfigFile::default();
    file.filters.ignore_classes = Some(StringOrList::List(vec!["a".into(), "b".into()]));
    let merged = merge(&no_cli(), cfg(), Some(file));
    assert_eq!(merged.ignore_classes, "a b");
}

#[test]
fn merge_merge_string_or_list_array_form_joins_for_workspaces() {
    let mut file = RawConfigFile::default();
    file.filters.ignore_workspaces = Some(StringOrList::List(vec!["1".into(), "2".into()]));
    let merged = merge(&no_cli(), cfg(), Some(file));
    assert_eq!(merged.ignore_workspaces, "1,2");
}

#[test]
fn merge_merge_wm_override_field_wins_when_cli_absent() {
    let mut file = RawConfigFile::default();
    file.behavior.wm = Some(WmOverride::Sway);
    let merged = merge(&no_cli(), cfg(), Some(file));
    assert_eq!(merged.wm, Some(WmOverride::Sway));
}

#[test]
fn config_file_diff_identical_configs_returns_nochange() {
    let a = cfg();
    let b = cfg();
    assert!(matches!(diff_config(&a, &b), DiffResult::NoChange));
}

#[test]
fn config_file_diff_one_restart_required_field_changed() {
    let a = cfg();
    let mut b = cfg();
    b.multi = true;
    match diff_config(&a, &b) {
        DiffResult::RestartRequired { restart_fields, applied } => {
            assert_eq!(restart_fields, vec!["multi"]);
            assert!(applied.is_empty(), "expected no applied, got: {applied:?}");
        }
        other => panic!("expected RestartRequired, got {other:?}"),
    }
}

#[test]
fn config_file_diff_multiple_restart_required_fields_changed() {
    let a = cfg();
    let mut b = cfg();
    b.multi = true;
    b.autohide = true;
    match diff_config(&a, &b) {
        DiffResult::RestartRequired { restart_fields, applied } => {
            assert!(restart_fields.contains(&"multi"), "got: {restart_fields:?}");
            assert!(restart_fields.contains(&"autohide"), "got: {restart_fields:?}");
            assert!(applied.is_empty(), "got: {applied:?}");
        }
        other => panic!("expected RestartRequired, got {other:?}"),
    }
}

#[test]
fn config_file_diff_only_hot_reloadable_field_changed() {
    let a = cfg();
    let mut b = cfg();
    b.icon_size = 64;
    match diff_config(&a, &b) {
        DiffResult::Applicable { applied } => {
            assert!(applied.contains(&"icon-size"));
        }
        other => panic!("expected Applicable, got {other:?}"),
    }
}

#[test]
fn config_file_diff_mixed_restart_and_hot_reloadable_returns_restart_required_with_applied() {
    let a = cfg();
    let mut b = cfg();
    b.multi = true;
    b.icon_size = 64;
    match diff_config(&a, &b) {
        DiffResult::RestartRequired { restart_fields, applied } => {
            assert!(restart_fields.contains(&"multi"), "got: {restart_fields:?}");
            assert!(!restart_fields.contains(&"icon-size"), "got: {restart_fields:?}");
            assert!(applied.contains(&"icon-size"), "got: {applied:?}");
        }
        other => panic!("expected RestartRequired, got {other:?}"),
    }
}

#[test]
fn config_file_diff_layer_change_is_restart_required() {
    let a = cfg();
    let mut b = cfg();
    b.layer = Layer::Top;
    assert!(matches!(diff_config(&a, &b), DiffResult::RestartRequired { .. }));
}

#[test]
fn config_file_diff_exclusive_change_is_restart_required() {
    let a = cfg();
    let mut b = cfg();
    b.exclusive = true;
    assert!(matches!(diff_config(&a, &b), DiffResult::RestartRequired { .. }));
}

#[test]
fn config_file_diff_margins_are_hot_reloadable() {
    let a = cfg();
    let mut b = cfg();
    b.mt = 5;
    b.mb = 10;
    match diff_config(&a, &b) {
        DiffResult::Applicable { applied } => {
            assert!(applied.contains(&"mt"), "got: {applied:?}");
            assert!(applied.contains(&"mb"), "got: {applied:?}");
        }
        other => panic!("expected Applicable, got {other:?}"),
    }
}

#[test]
fn config_file_diff_revert_to_same_returns_nochange() {
    let mut a = cfg();
    a.icon_size = 64;
    let mut b = cfg();
    b.icon_size = 64;
    assert!(matches!(diff_config(&a, &b), DiffResult::NoChange));
}

#[test]
fn config_file_diff_string_field_changed() {
    let a = cfg();
    let mut b = cfg();
    b.launcher_cmd = "wofi".into();
    match diff_config(&a, &b) {
        DiffResult::Applicable { applied } => {
            assert!(applied.contains(&"launcher-cmd"));
        }
        other => panic!("expected Applicable, got {other:?}"),
    }
}

#[test]
fn config_file_diff_restart_only_save_has_empty_applied() {
    let a = cfg();
    let mut b = cfg();
    b.exclusive = true;
    match diff_config(&a, &b) {
        DiffResult::RestartRequired { restart_fields, applied } => {
            assert_eq!(restart_fields, vec!["exclusive"]);
            assert!(applied.is_empty());
        }
        other => panic!("expected RestartRequired, got {other:?}"),
    }
}

#[test]
fn config_file_diff_mixed_save_lists_all_hot_reloadable_in_applied() {
    let a = cfg();
    let mut b = cfg();
    b.multi = true;
    b.icon_size = 64;
    b.opacity = 75;
    match diff_config(&a, &b) {
        DiffResult::RestartRequired { restart_fields, applied } => {
            assert_eq!(restart_fields, vec!["multi"]);
            assert!(applied.contains(&"icon-size"), "got: {applied:?}");
            assert!(applied.contains(&"opacity"), "got: {applied:?}");
        }
        other => panic!("expected RestartRequired, got {other:?}"),
    }
}

#[test]
fn config_file_preserve_restart_fields_keeps_old_values() {
    let mut new = cfg();
    new.multi = true;
    new.icon_size = 64;
    let old = cfg();
    assert!(new.multi);
    assert_eq!(new.icon_size, 64);

    preserve_restart_fields(&old, &mut new, &["multi"]);

    assert!(!new.multi);
    assert_eq!(new.icon_size, 64);
}

#[test]
fn hot_reload_diff_identical_configs_returns_nochange() {
    let a = cfg();
    let b = cfg();
    assert!(matches!(diff_config(&a, &b), DiffResult::NoChange));
}

#[test]
fn hot_reload_diff_one_restart_required_field_changed() {
    let a = cfg();
    let mut b = cfg();
    b.multi = true;
    match diff_config(&a, &b) {
        DiffResult::RestartRequired { restart_fields, applied } => {
            assert_eq!(restart_fields, vec!["multi"]);
            assert!(applied.is_empty(), "expected no applied, got: {applied:?}");
        }
        other => panic!("expected RestartRequired, got {other:?}"),
    }
}

#[test]
fn hot_reload_diff_multiple_restart_required_fields_changed() {
    let a = cfg();
    let mut b = cfg();
    b.multi = true;
    b.autohide = true;
    match diff_config(&a, &b) {
        DiffResult::RestartRequired { restart_fields, applied } => {
            assert!(restart_fields.contains(&"multi"), "got: {restart_fields:?}");
            assert!(restart_fields.contains(&"autohide"), "got: {restart_fields:?}");
            assert!(applied.is_empty(), "got: {applied:?}");
        }
        other => panic!("expected RestartRequired, got {other:?}"),
    }
}

#[test]
fn hot_reload_diff_only_hot_reloadable_field_changed() {
    let a = cfg();
    let mut b = cfg();
    b.icon_size = 64;
    match diff_config(&a, &b) {
        DiffResult::Applicable { applied } => {
            assert!(applied.contains(&"icon-size"));
        }
        other => panic!("expected Applicable, got {other:?}"),
    }
}

#[test]
fn hot_reload_diff_mixed_restart_and_hot_reloadable_returns_restart_required_with_applied() {
    let a = cfg();
    let mut b = cfg();
    b.multi = true;
    b.icon_size = 64;
    match diff_config(&a, &b) {
        DiffResult::RestartRequired { restart_fields, applied } => {
            assert!(restart_fields.contains(&"multi"), "got: {restart_fields:?}");
            assert!(!restart_fields.contains(&"icon-size"), "got: {restart_fields:?}");
            assert!(applied.contains(&"icon-size"), "got: {applied:?}");
        }
        other => panic!("expected RestartRequired, got {other:?}"),
    }
}

#[test]
fn hot_reload_diff_layer_change_is_restart_required() {
    let a = cfg();
    let mut b = cfg();
    b.layer = Layer::Top;
    assert!(matches!(diff_config(&a, &b), DiffResult::RestartRequired { .. }));
}

#[test]
fn hot_reload_diff_exclusive_change_is_restart_required() {
    let a = cfg();
    let mut b = cfg();
    b.exclusive = true;
    assert!(matches!(diff_config(&a, &b), DiffResult::RestartRequired { .. }));
}

#[test]
fn hot_reload_diff_margins_are_hot_reloadable() {
    let a = cfg();
    let mut b = cfg();
    b.mt = 5;
    b.mb = 10;
    match diff_config(&a, &b) {
        DiffResult::Applicable { applied } => {
            assert!(applied.contains(&"mt"), "got: {applied:?}");
            assert!(applied.contains(&"mb"), "got: {applied:?}");
        }
        other => panic!("expected Applicable, got {other:?}"),
    }
}

#[test]
fn hot_reload_diff_revert_to_same_returns_nochange() {
    let mut a = cfg();
    a.icon_size = 64;
    let mut b = cfg();
    b.icon_size = 64;
    assert!(matches!(diff_config(&a, &b), DiffResult::NoChange));
}

#[test]
fn hot_reload_diff_string_field_changed() {
    let a = cfg();
    let mut b = cfg();
    b.launcher_cmd = "wofi".into();
    match diff_config(&a, &b) {
        DiffResult::Applicable { applied } => {
            assert!(applied.contains(&"launcher-cmd"));
        }
        other => panic!("expected Applicable, got {other:?}"),
    }
}

#[test]
fn hot_reload_diff_restart_only_save_has_empty_applied() {
    let a = cfg();
    let mut b = cfg();
    b.exclusive = true;
    match diff_config(&a, &b) {
        DiffResult::RestartRequired { restart_fields, applied } => {
            assert_eq!(restart_fields, vec!["exclusive"]);
            assert!(applied.is_empty());
        }
        other => panic!("expected RestartRequired, got {other:?}"),
    }
}

#[test]
fn hot_reload_diff_mixed_save_lists_all_hot_reloadable_in_applied() {
    let a = cfg();
    let mut b = cfg();
    b.multi = true;
    b.icon_size = 64;
    b.opacity = 75;
    match diff_config(&a, &b) {
        DiffResult::RestartRequired { restart_fields, applied } => {
            assert_eq!(restart_fields, vec!["multi"]);
            assert!(applied.contains(&"icon-size"), "got: {applied:?}");
            assert!(applied.contains(&"opacity"), "got: {applied:?}");
        }
        other => panic!("expected RestartRequired, got {other:?}"),
    }
}

#[test]
fn hot_reload_preserve_restart_fields_keeps_old_values() {
    let mut new = cfg();
    new.multi = true;
    new.icon_size = 64;
    let old = cfg();
    assert!(new.multi);
    assert_eq!(new.icon_size, 64);

    preserve_restart_fields(&old, &mut new, &["multi"]);

    assert!(!new.multi);
    assert_eq!(new.icon_size, 64);
}


#[test]
fn position_change_requires_restart() {
    let a = cfg();
    let mut b = cfg();
    b.position = Position::Left;
    match diff_config(&a, &b) {
        DiffResult::RestartRequired { restart_fields, applied } => {
            assert_eq!(restart_fields, vec!["position"]);
            assert!(applied.is_empty());
        }
        other => panic!("expected RestartRequired, got {other:?}"),
    }
}

#[test]
fn full_change_requires_restart() {
    let a = cfg();
    let mut b = cfg();
    b.full = true;
    match diff_config(&a, &b) {
        DiffResult::RestartRequired { restart_fields, .. } => {
            assert_eq!(restart_fields, vec!["full"]);
        }
        other => panic!("expected RestartRequired, got {other:?}"),
    }
}

#[test]
fn array_entries_with_spaces_stay_whole() {
    let mut file = RawConfigFile::default();
    file.filters.ignore_classes =
        Some(StringOrList::List(vec!["Visual Studio".into(), "steam".into()]));
    let merged = merge(&no_cli(), cfg(), Some(file));
    assert_eq!(merged.ignored_classes(), vec!["Visual Studio", "steam"]);
}

#[test]
fn single_array_entry_with_space_stays_whole() {
    let mut file = RawConfigFile::default();
    file.filters.ignore_classes = Some(StringOrList::List(vec!["Visual Studio".into()]));
    let merged = merge(&no_cli(), cfg(), Some(file));
    assert_eq!(merged.ignored_classes(), vec!["Visual Studio"]);
}

#[test]
fn restart_then_resave_keeps_position_pending() {
    let mut live = cfg();
    let mut n1 = cfg();
    n1.position = Position::Top;
    let (r1, _) = apply_config_change(&mut live, n1.clone());
    assert!(matches!(r1, DiffResult::RestartRequired { .. }));
    assert_eq!(live.position, Position::Bottom);
    let mut n2 = n1.clone();
    n2.icon_size = 60;
    match apply_config_change(&mut live, n2).0 {
        DiffResult::RestartRequired { restart_fields, applied } => {
            assert_eq!(restart_fields, vec!["position"]);
            assert_eq!(applied, vec!["icon-size"]);
        }
        other => panic!("expected RestartRequired, got {other:?}"),
    }
    assert!(matches!(apply_config_change(&mut live, cfg()).0, DiffResult::Applicable { .. }));
}

#[test]
fn revert_before_restart_reports_nothing() {
    let mut live = cfg();
    let mut n1 = cfg();
    n1.multi = true;
    let _ = apply_config_change(&mut live, n1);
    assert!(matches!(apply_config_change(&mut live, cfg()).0, DiffResult::NoChange));
}

#[test]
fn failed_css_reload_is_not_applied() {
    let mut live = cfg();
    let previous = live.css_file.clone();
    let mut new = cfg();
    new.css_file = "other.css".to_string();
    new.icon_size = 64;
    let (r, actions) = apply_config_change(&mut live, new);
    assert_eq!(actions.unwrap().css_file, Some("other.css".to_string()));
    let settled = settle_css_reload(r, &mut live, &previous, false);
    match settled {
        DiffResult::Applicable { applied } => assert_eq!(applied, vec!["icon-size"]),
        other => panic!("expected Applicable, got {other:?}"),
    }
    assert_eq!(live.css_file, previous);
    assert_eq!(live.icon_size, 64);
}

#[test]
fn failed_css_only_reload_reports_no_change() {
    let mut live = cfg();
    let previous = live.css_file.clone();
    let mut new = cfg();
    new.css_file = "other.css".to_string();
    let (r, _) = apply_config_change(&mut live, new);
    let settled = settle_css_reload(r, &mut live, &previous, false);
    assert!(matches!(settled, DiffResult::NoChange));
    assert_eq!(live.css_file, previous);
}

#[test]
fn successful_css_reload_stays_applied() {
    let mut live = cfg();
    let previous = live.css_file.clone();
    let mut new = cfg();
    new.css_file = "other.css".to_string();
    let (r, _) = apply_config_change(&mut live, new);
    match settle_css_reload(r, &mut live, &previous, true) {
        DiffResult::Applicable { applied } => assert_eq!(applied, vec!["css-file"]),
        other => panic!("expected Applicable, got {other:?}"),
    }
    assert_eq!(live.css_file, "other.css");
}

#[test]
fn ws_is_read_from_the_file() {
    let mut file = RawConfigFile::default();
    file.filters.ws = Some(true);
    let merged = merge(&no_cli(), cfg(), Some(file));
    assert!(merged.ws);
}

#[test]
fn ws_change_is_applied_live() {
    let a = cfg();
    let mut b = cfg();
    b.ws = true;
    match diff_config(&a, &b) {
        DiffResult::Applicable { applied } => assert_eq!(applied, vec!["ws"]),
        other => panic!("expected Applicable, got {other:?}"),
    }
}

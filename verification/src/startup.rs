//! Settling the effective configuration and the startup tables.

use vstd::prelude::*;
use crate::config::DockConfig;
use crate::config_file::fields::{all_config_fields, ConfigField};
use crate::config_file::hot_reload::{changed_fields, field_differs};
use crate::config_file::merge::{is_merge_of, lemma_merge_empty_file_keeps_cli};
use crate::config_file::schema::{is_empty_file, RawConfigFile};
use crate::lemmas::lemma_filter_none;
use crate::keyed::KeyedTable;
use crate::text::{first_word, first_word_str, to_lowercase, unicode_lowercase};

verus! {

/// The command whose presence decides whether the launcher button shows:
/// the first word of the launcher command, unless the launcher is off or
/// the command is empty.
pub open spec fn launcher_probe(config: DockConfig) -> Option<Seq<char>> {
    if config.nolauncher || config.launcher_cmd@.len() == 0 || first_word(config.launcher_cmd@).len()
        == 0 {
        None
    } else {
        Some(first_word(config.launcher_cmd@))
    }
}

/// The command to look up on `PATH` before showing the launcher button.
pub fn launcher_command(config: &DockConfig) -> (r: Option<String>)
    ensures
        r is Some <==> launcher_probe(*config) is Some,
        r matches Some(c) ==> launcher_probe(*config) == Some(c@),
{
    if config.nolauncher || config.launcher_cmd.unicode_len() == 0 {
        return None;
    }
    let cmd = first_word_str(config.launcher_cmd.as_str());
    if cmd.unicode_len() == 0 {
        None
    } else {
        Some(cmd)
    }
}

/// `config` after normalization: autohide dropped when resident mode is
/// also on (they exclude each other), and the launcher hidden when its
/// command was probed and is missing.
pub open spec fn normalized(config: DockConfig, launcher_missing: bool) -> DockConfig {
    DockConfig {
        autohide: config.autohide && !config.resident,
        nolauncher: config.nolauncher || (launcher_probe(config) is Some && launcher_missing),
        ..config
    }
}

/// Applies the normalizations every effective config gets (at startup and
/// on each reload). `launcher_missing` is the `PATH` lookup's answer for
/// `launcher_command`. Returns whether autohide was dropped for resident
/// mode (reported as a warning).
pub fn normalize_config(config: &mut DockConfig, launcher_missing: bool) -> (conflict: bool)
    ensures
        *final(config) == normalized(*old(config), launcher_missing),
        conflict == (old(config).autohide && old(config).resident),
{
    let conflict = config.autohide && config.resident;
    if conflict {
        config.autohide = false;
    }
    let probe = launcher_command(config);
    if probe.is_some() && launcher_missing {
        config.nolauncher = true;
    }
    conflict
}

/// Law: a normalized config never has autohide and resident mode both on,
/// and normalizing it again (with the same lookup answer) changes nothing.
pub proof fn lemma_normalize_idempotent(config: DockConfig, launcher_missing: bool)
    ensures
        !(normalized(config, launcher_missing).autohide && normalized(config, launcher_missing).resident),
        normalized(normalized(config, launcher_missing), launcher_missing) == normalized(
            config,
            launcher_missing,
        ),
{
}

/// Law: a save that sets nothing in the file reports no change against the
/// live config, whatever the command line holds (`-d -r` included): the
/// live config and the reloaded one are the same command line, normalized
/// with the same lookup answer.
pub proof fn lemma_unchanged_save_reports_nothing(
    explicit: Seq<ConfigField>,
    cli: DockConfig,
    file: RawConfigFile,
    merged: DockConfig,
    launcher_missing: bool,
)
    requires
        is_empty_file(file),
        is_merge_of(explicit, cli, file, merged),
    ensures
        changed_fields(normalized(cli, launcher_missing), normalized(merged, launcher_missing)).len()
            == 0,
{
    lemma_merge_empty_file_keeps_cli(explicit, cli, file, merged);
    let a = normalized(cli, launcher_missing);
    let b = normalized(merged, launcher_missing);
    lemma_filter_none(all_config_fields(), |f: ConfigField| field_differs(a, b, f));
}

/// What a second instance does when the singleton lock is held: with the
/// running instance's pid known, a non-resident instance asks it to
/// toggle (the pid to signal); a resident one leaves it alone. Either way
/// this instance then exits.
pub fn toggle_target(existing_pid: Option<i32>, is_resident: bool) -> (r: Option<i32>)
    ensures
        r == (if is_resident { None } else { existing_pid }),
{
    if is_resident {
        None
    } else {
        existing_pid
    }
}

/// Records a desktop file's `StartupWMClass` (lowercased) as mapping to its
/// desktop id; the first desktop file for a class wins, and files without
/// the key are skipped.
pub fn add_wm_class(map: &mut KeyedTable<String>, startup_wm_class: &str, desktop_id: String)
    ensures
        startup_wm_class@.len() == 0 ==> final(map).table() == old(map).table(),
        startup_wm_class@.len() > 0 && old(map).table().contains_key(
            unicode_lowercase(startup_wm_class@),
        ) ==> final(map).table() == old(map).table(),
        startup_wm_class@.len() > 0 && !old(map).table().contains_key(
            unicode_lowercase(startup_wm_class@),
        ) ==> final(map).table() == old(map).table().insert(
            unicode_lowercase(startup_wm_class@),
            desktop_id,
        ),
{
    if startup_wm_class.unicode_len() == 0 {
        return;
    }
    let key = to_lowercase(startup_wm_class);
    if !map.contains(key.as_str()) {
        map.insert(key, desktop_id);
    }
}

} // verus!

//! Merging the command line with the config file.
//!
//! Precedence per setting: a value given on the command line wins; else a
//! value present in the file; else the command-line default.

use vstd::prelude::*;
use crate::config::{DockConfig, WmOverride};
use crate::config_file::fields::ConfigField;
use crate::config_file::schema::{
    class_list_text, string_or_list_text, AppearanceSection, BehaviorSection, FiltersSection, LauncherSection,
    LayoutSection, RawConfigFile, StringOrList, is_empty_file,
};

verus! {

/// Which settings were given explicitly on the command line.
#[derive(Debug)]
pub struct CliSources {
    pub explicit: Vec<ConfigField>,
}

/// Whether setting `f` was given on the command line.
pub fn was_set_on_cli(sources: &CliSources, f: ConfigField) -> (r: bool)
    ensures
        r == sources.explicit@.contains(f),
{
    let mut i: usize = 0;
    while i < sources.explicit.len()
        invariant
            i <= sources.explicit.len(),
            forall|j: int| 0 <= j < i ==> sources.explicit@[j] != f,
        decreases sources.explicit.len() - i,
    {
        if sources.explicit[i] == f {
            assert(sources.explicit@[i as int] == f);
            return true;
        }
        i += 1;
    }
    false
}

/// The file value replaces the command-line value: the setting was not
/// given on the command line and the file has it.
pub open spec fn file_wins<T>(explicit: Seq<ConfigField>, f: ConfigField, file_value: Option<T>) -> bool {
    !explicit.contains(f) && file_value is Some
}

/// The merged value of one setting.
pub open spec fn overlay<T>(
    explicit: Seq<ConfigField>,
    f: ConfigField,
    cli_value: T,
    file_value: Option<T>,
) -> T {
    if file_wins(explicit, f, file_value) {
        file_value->0
    } else {
        cli_value
    }
}

/// The merged window-manager override: a file value `v` becomes `Some(v)`.
pub open spec fn wm_overlay(
    explicit: Seq<ConfigField>,
    cli_value: Option<WmOverride>,
    file_value: Option<WmOverride>,
) -> Option<WmOverride> {
    if file_wins(explicit, ConfigField::Wm, file_value) {
        file_value
    } else {
        cli_value
    }
}

/// The merged text of a list setting: a file value collapses to one string
/// joined by `separator`.
pub open spec fn list_overlay(
    explicit: Seq<ConfigField>,
    f: ConfigField,
    cli_value: Seq<char>,
    file_value: Option<StringOrList>,
    separator: Seq<char>,
) -> Seq<char> {
    if file_wins(explicit, f, file_value) {
        string_or_list_text(file_value->0, separator)
    } else {
        cli_value
    }
}

/// The merged text of `ignore-classes`: a file list becomes one class per
/// line.
pub open spec fn class_overlay(
    explicit: Seq<ConfigField>,
    cli_value: Seq<char>,
    file_value: Option<StringOrList>,
) -> Seq<char> {
    if file_wins(explicit, ConfigField::IgnoreClasses, file_value) {
        class_list_text(file_value->0)
    } else {
        cli_value
    }
}

/// `cli` with the `[behavior]` section laid over it.
pub open spec fn behavior_merged(explicit: Seq<ConfigField>, cli: DockConfig, b: BehaviorSection) -> DockConfig {
    DockConfig {
        autohide: overlay(explicit, ConfigField::Autohide, cli.autohide, b.autohide),
        resident: overlay(explicit, ConfigField::Resident, cli.resident, b.resident),
        multi: overlay(explicit, ConfigField::Multi, cli.multi, b.multi),
        debug: overlay(explicit, ConfigField::Debug, cli.debug, b.debug),
        wm: wm_overlay(explicit, cli.wm, b.wm),
        hide_timeout: overlay(explicit, ConfigField::HideTimeout, cli.hide_timeout, b.hide_timeout),
        hotspot_delay: overlay(
            explicit,
            ConfigField::HotspotDelay,
            cli.hotspot_delay,
            b.hotspot_delay,
        ),
        hotspot_layer: overlay(
            explicit,
            ConfigField::HotspotLayer,
            cli.hotspot_layer,
            b.hotspot_layer,
        ),
        ..cli
    }
}

/// `cli` with the `[layout]` section laid over it.
pub open spec fn layout_merged(explicit: Seq<ConfigField>, cli: DockConfig, l: LayoutSection) -> DockConfig {
    DockConfig {
        position: overlay(explicit, ConfigField::Position, cli.position, l.position),
        alignment: overlay(explicit, ConfigField::Alignment, cli.alignment, l.alignment),
        full: overlay(explicit, ConfigField::Full, cli.full, l.full),
        mt: overlay(explicit, ConfigField::Mt, cli.mt, l.mt),
        mb: overlay(explicit, ConfigField::Mb, cli.mb, l.mb),
        ml: overlay(explicit, ConfigField::Ml, cli.ml, l.ml),
        mr: overlay(explicit, ConfigField::Mr, cli.mr, l.mr),
        output: overlay(explicit, ConfigField::Output, cli.output, l.output),
        layer: overlay(explicit, ConfigField::Layer, cli.layer, l.layer),
        exclusive: overlay(explicit, ConfigField::Exclusive, cli.exclusive, l.exclusive),
        ..cli
    }
}

/// `cli` with the `[appearance]` and `[launcher]` sections laid over it.
pub open spec fn appearance_launcher_merged(
    explicit: Seq<ConfigField>,
    cli: DockConfig,
    a: AppearanceSection,
    l: LauncherSection,
) -> DockConfig {
    DockConfig {
        icon_size: overlay(explicit, ConfigField::IconSize, cli.icon_size, a.icon_size),
        opacity: overlay(explicit, ConfigField::Opacity, cli.opacity, a.opacity),
        css_file: overlay(explicit, ConfigField::CssFile, cli.css_file, a.css_file),
        launch_animation: overlay(
            explicit,
            ConfigField::LaunchAnimation,
            cli.launch_animation,
            a.launch_animation,
        ),
        launcher_cmd: overlay(explicit, ConfigField::LauncherCmd, cli.launcher_cmd, l.launcher_cmd),
        launcher_pos: overlay(explicit, ConfigField::LauncherPos, cli.launcher_pos, l.launcher_pos),
        nolauncher: overlay(explicit, ConfigField::Nolauncher, cli.nolauncher, l.nolauncher),
        ico: overlay(explicit, ConfigField::Ico, cli.ico, l.ico),
        ..cli
    }
}

/// `r` is `cli` with the `[filters]` section laid over it; the two list
/// settings are pinned down by their text.
pub open spec fn filters_merged(
    explicit: Seq<ConfigField>,
    cli: DockConfig,
    f: FiltersSection,
    r: DockConfig,
) -> bool {
    &&& r == DockConfig {
        ignore_classes: r.ignore_classes,
        ignore_workspaces: r.ignore_workspaces,
        num_ws: overlay(explicit, ConfigField::NumWs, cli.num_ws, f.num_ws),
        ws: overlay(explicit, ConfigField::Ws, cli.ws, f.ws),
        no_fullscreen_suppress: overlay(
            explicit,
            ConfigField::NoFullscreenSuppress,
            cli.no_fullscreen_suppress,
            f.no_fullscreen_suppress,
        ),
        ..cli
    }
    &&& r.ignore_classes@ == class_overlay(explicit, cli.ignore_classes@, f.ignore_classes)
    &&& r.ignore_workspaces@ == list_overlay(
        explicit,
        ConfigField::IgnoreWorkspaces,
        cli.ignore_workspaces@,
        f.ignore_workspaces,
        ","@,
    )
}

/// `r` is the merge of `cli` and `file` given the explicit settings.
pub open spec fn is_merge_of(
    explicit: Seq<ConfigField>,
    cli: DockConfig,
    file: RawConfigFile,
    r: DockConfig,
) -> bool {
    filters_merged(
        explicit,
        appearance_launcher_merged(
            explicit,
            layout_merged(explicit, behavior_merged(explicit, cli, file.behavior), file.layout),
            file.appearance,
            file.launcher,
        ),
        file.filters,
        r,
    )
}

/// The merged value of setting `f`.
fn pick<T>(sources: &CliSources, f: ConfigField, cli_value: T, file_value: Option<T>) -> (r: T)
    ensures
        r == overlay(sources.explicit@, f, cli_value, file_value),
{
    match file_value {
        Some(v) => if was_set_on_cli(sources, f) {
            cli_value
        } else {
            v
        },
        None => cli_value,
    }
}

fn pick_wm(sources: &CliSources, cli_value: Option<WmOverride>, file_value: Option<WmOverride>) -> (r: Option<WmOverride>)
    ensures
        r == wm_overlay(sources.explicit@, cli_value, file_value),
{
    match file_value {
        Some(v) => if was_set_on_cli(sources, ConfigField::Wm) {
            cli_value
        } else {
            Some(v)
        },
        None => cli_value,
    }
}

fn pick_list(
    sources: &CliSources,
    f: ConfigField,
    cli_value: String,
    file_value: Option<StringOrList>,
    separator: &str,
) -> (r: String)
    ensures
        r@ == list_overlay(sources.explicit@, f, cli_value@, file_value, separator@),
{
    match file_value {
        Some(v) => if was_set_on_cli(sources, f) {
            cli_value
        } else {
            v.into_string(separator)
        },
        None => cli_value,
    }
}

fn pick_class_list(sources: &CliSources, cli_value: String, file_value: Option<StringOrList>) -> (r:
    String)
    ensures
        r@ == class_overlay(sources.explicit@, cli_value@, file_value),
{
    match file_value {
        Some(v) => if was_set_on_cli(sources, ConfigField::IgnoreClasses) {
            cli_value
        } else {
            v.into_class_text()
        },
        None => cli_value,
    }
}

fn merge_behavior(sources: &CliSources, cli: &mut DockConfig, b: BehaviorSection)
    ensures
        *final(cli) == behavior_merged(sources.explicit@, *old(cli), b),
{
    cli.autohide = pick(sources, ConfigField::Autohide, cli.autohide, b.autohide);
    cli.resident = pick(sources, ConfigField::Resident, cli.resident, b.resident);
    cli.multi = pick(sources, ConfigField::Multi, cli.multi, b.multi);
    cli.debug = pick(sources, ConfigField::Debug, cli.debug, b.debug);
    cli.wm = pick_wm(sources, cli.wm, b.wm);
    cli.hide_timeout = pick(sources, ConfigField::HideTimeout, cli.hide_timeout, b.hide_timeout);
    cli.hotspot_delay = pick(sources, ConfigField::HotspotDelay, cli.hotspot_delay, b.hotspot_delay);
    cli.hotspot_layer = pick(sources, ConfigField::HotspotLayer, cli.hotspot_layer, b.hotspot_layer);
}

fn merge_layout(sources: &CliSources, cli: &mut DockConfig, l: LayoutSection)
    ensures
        *final(cli) == layout_merged(sources.explicit@, *old(cli), l),
{
    cli.position = pick(sources, ConfigField::Position, cli.position, l.position);
    cli.alignment = pick(sources, ConfigField::Alignment, cli.alignment, l.alignment);
    cli.full = pick(sources, ConfigField::Full, cli.full, l.full);
    cli.mt = pick(sources, ConfigField::Mt, cli.mt, l.mt);
    cli.mb = pick(sources, ConfigField::Mb, cli.mb, l.mb);
    cli.ml = pick(sources, ConfigField::Ml, cli.ml, l.ml);
    cli.mr = pick(sources, ConfigField::Mr, cli.mr, l.mr);
    cli.output = pick(sources, ConfigField::Output, cli.output.clone(), l.output);
    cli.layer = pick(sources, ConfigField::Layer, cli.layer, l.layer);
    cli.exclusive = pick(sources, ConfigField::Exclusive, cli.exclusive, l.exclusive);
}

fn merge_appearance_launcher(
    sources: &CliSources,
    cli: &mut DockConfig,
    a: AppearanceSection,
    l: LauncherSection,
)
    ensures
        *final(cli) == appearance_launcher_merged(sources.explicit@, *old(cli), a, l),
{
    cli.icon_size = pick(sources, ConfigField::IconSize, cli.icon_size, a.icon_size);
    cli.opacity = pick(sources, ConfigField::Opacity, cli.opacity, a.opacity);
    cli.css_file = pick(sources, ConfigField::CssFile, cli.css_file.clone(), a.css_file);
    cli.launch_animation = pick(sources, ConfigField::LaunchAnimation, cli.launch_animation, a.launch_animation);
    cli.launcher_cmd = pick(sources, ConfigField::LauncherCmd, cli.launcher_cmd.clone(), l.launcher_cmd);
    cli.launcher_pos = pick(sources, ConfigField::LauncherPos, cli.launcher_pos, l.launcher_pos);
    cli.nolauncher = pick(sources, ConfigField::Nolauncher, cli.nolauncher, l.nolauncher);
    cli.ico = pick(sources, ConfigField::Ico, cli.ico.clone(), l.ico);
}

fn merge_filters(sources: &CliSources, cli: &mut DockConfig, f: FiltersSection)
    ensures
        filters_merged(sources.explicit@, *old(cli), f, *final(cli)),
{
    cli.ignore_classes = pick_class_list(sources, cli.ignore_classes.clone(), f.ignore_classes);
    cli.ignore_workspaces = pick_list(
        sources,
        ConfigField::IgnoreWorkspaces,
        cli.ignore_workspaces.clone(),
        f.ignore_workspaces,
        ",",
    );
    cli.num_ws = pick(sources, ConfigField::NumWs, cli.num_ws, f.num_ws);
    cli.ws = pick(sources, ConfigField::Ws, cli.ws, f.ws);
    cli.no_fullscreen_suppress = pick(sources, ConfigField::NoFullscreenSuppress, cli.no_fullscreen_suppress, f.no_fullscreen_suppress);
}

/// Merges the command line with the config file: for each setting, the
/// command-line value stays if it was given explicitly; otherwise a value
/// present in the file replaces the command-line default. Without a file
/// the command-line config is returned unchanged.
pub fn merge(sources: &CliSources, cli: DockConfig, file: Option<RawConfigFile>) -> (r: DockConfig)
    ensures
        file is None ==> r == cli,
        file matches Some(f) ==> is_merge_of(sources.explicit@, cli, f, r),
{
    match file {
        None => cli,
        Some(file) => {
            let mut out = cli;
            merge_behavior(sources, &mut out, file.behavior);
            merge_layout(sources, &mut out, file.layout);
            merge_appearance_launcher(sources, &mut out, file.appearance, file.launcher);
            merge_filters(sources, &mut out, file.filters);
            out
        },
    }
}

/// `cli` with its two list settings replaced by the given strings.
pub open spec fn with_lists(cli: DockConfig, classes: String, workspaces: String) -> DockConfig {
    DockConfig { ignore_classes: classes, ignore_workspaces: workspaces, ..cli }
}

/// Law: a file that sets nothing changes nothing: the merge equals the
/// command-line config.
pub proof fn lemma_merge_empty_file_keeps_cli(
    explicit: Seq<ConfigField>,
    cli: DockConfig,
    file: RawConfigFile,
    r: DockConfig,
)
    requires
        is_empty_file(file),
        is_merge_of(explicit, cli, file, r),
    ensures
        r == with_lists(cli, r.ignore_classes, r.ignore_workspaces),
        r.ignore_classes@ == cli.ignore_classes@,
        r.ignore_workspaces@ == cli.ignore_workspaces@,
{
}

/// Law: a setting given on the command line keeps its command-line value
/// whatever the file says; here, with every setting given, the merge
/// equals the command-line config.
pub proof fn lemma_merge_all_explicit_keeps_cli(
    explicit: Seq<ConfigField>,
    cli: DockConfig,
    file: RawConfigFile,
    r: DockConfig,
)
    requires
        forall|f: ConfigField| explicit.contains(f),
        is_merge_of(explicit, cli, file, r),
    ensures
        r == with_lists(cli, r.ignore_classes, r.ignore_workspaces),
        r.ignore_classes@ == cli.ignore_classes@,
        r.ignore_workspaces@ == cli.ignore_workspaces@,
{
    assert(explicit.contains(ConfigField::Autohide));
    assert(explicit.contains(ConfigField::Resident));
    assert(explicit.contains(ConfigField::Multi));
    assert(explicit.contains(ConfigField::Debug));
    assert(explicit.contains(ConfigField::Wm));
    assert(explicit.contains(ConfigField::HideTimeout));
    assert(explicit.contains(ConfigField::HotspotDelay));
    assert(explicit.contains(ConfigField::HotspotLayer));
    assert(explicit.contains(ConfigField::Position));
    assert(explicit.contains(ConfigField::Alignment));
    assert(explicit.contains(ConfigField::Full));
    assert(explicit.contains(ConfigField::Mt));
    assert(explicit.contains(ConfigField::Mb));
    assert(explicit.contains(ConfigField::Ml));
    assert(explicit.contains(ConfigField::Mr));
    assert(explicit.contains(ConfigField::Output));
    assert(explicit.contains(ConfigField::Layer));
    assert(explicit.contains(ConfigField::Exclusive));
    assert(explicit.contains(ConfigField::IconSize));
    assert(explicit.contains(ConfigField::Opacity));
    assert(explicit.contains(ConfigField::CssFile));
    assert(explicit.contains(ConfigField::LaunchAnimation));
    assert(explicit.contains(ConfigField::LauncherCmd));
    assert(explicit.contains(ConfigField::LauncherPos));
    assert(explicit.contains(ConfigField::Nolauncher));
    assert(explicit.contains(ConfigField::Ico));
    assert(explicit.contains(ConfigField::IgnoreClasses));
    assert(explicit.contains(ConfigField::IgnoreWorkspaces));
    assert(explicit.contains(ConfigField::NumWs));
    assert(explicit.contains(ConfigField::Ws));
    assert(explicit.contains(ConfigField::NoFullscreenSuppress));
}

/// Law: a setting given on the command line keeps its command-line value,
/// whatever the file says.
pub proof fn lemma_explicit_setting_wins(
    explicit: Seq<ConfigField>,
    cli: DockConfig,
    file: RawConfigFile,
    r: DockConfig,
)
    requires
        is_merge_of(explicit, cli, file, r),
    ensures
        explicit.contains(ConfigField::Autohide) ==> r.autohide == cli.autohide,
        explicit.contains(ConfigField::Resident) ==> r.resident == cli.resident,
        explicit.contains(ConfigField::Multi) ==> r.multi == cli.multi,
        explicit.contains(ConfigField::Debug) ==> r.debug == cli.debug,
        explicit.contains(ConfigField::Wm) ==> r.wm == cli.wm,
        explicit.contains(ConfigField::HideTimeout) ==> r.hide_timeout == cli.hide_timeout,
        explicit.contains(ConfigField::HotspotDelay) ==> r.hotspot_delay == cli.hotspot_delay,
        explicit.contains(ConfigField::HotspotLayer) ==> r.hotspot_layer == cli.hotspot_layer,
        explicit.contains(ConfigField::Position) ==> r.position == cli.position,
        explicit.contains(ConfigField::Alignment) ==> r.alignment == cli.alignment,
        explicit.contains(ConfigField::Full) ==> r.full == cli.full,
        explicit.contains(ConfigField::Mt) ==> r.mt == cli.mt,
        explicit.contains(ConfigField::Mb) ==> r.mb == cli.mb,
        explicit.contains(ConfigField::Ml) ==> r.ml == cli.ml,
        explicit.contains(ConfigField::Mr) ==> r.mr == cli.mr,
        explicit.contains(ConfigField::Output) ==> r.output == cli.output,
        explicit.contains(ConfigField::Layer) ==> r.layer == cli.layer,
        explicit.contains(ConfigField::Exclusive) ==> r.exclusive == cli.exclusive,
        explicit.contains(ConfigField::IconSize) ==> r.icon_size == cli.icon_size,
        explicit.contains(ConfigField::Opacity) ==> r.opacity == cli.opacity,
        explicit.contains(ConfigField::CssFile) ==> r.css_file == cli.css_file,
        explicit.contains(ConfigField::LaunchAnimation) ==> r.launch_animation == cli.launch_animation,
        explicit.contains(ConfigField::LauncherCmd) ==> r.launcher_cmd == cli.launcher_cmd,
        explicit.contains(ConfigField::LauncherPos) ==> r.launcher_pos == cli.launcher_pos,
        explicit.contains(ConfigField::Nolauncher) ==> r.nolauncher == cli.nolauncher,
        explicit.contains(ConfigField::Ico) ==> r.ico == cli.ico,
        explicit.contains(ConfigField::NumWs) ==> r.num_ws == cli.num_ws,
        explicit.contains(ConfigField::Ws) ==> r.ws == cli.ws,
        explicit.contains(ConfigField::NoFullscreenSuppress) ==> r.no_fullscreen_suppress == cli.no_fullscreen_suppress,
        explicit.contains(ConfigField::IgnoreClasses) ==> r.ignore_classes@ == cli.ignore_classes@,
        explicit.contains(ConfigField::IgnoreWorkspaces) ==> r.ignore_workspaces@ == cli.ignore_workspaces@,
{
}

/// Law: a setting not given on the command line takes the file's value
/// when the file has one.
pub proof fn lemma_file_setting_wins_when_not_explicit(
    explicit: Seq<ConfigField>,
    cli: DockConfig,
    file: RawConfigFile,
    r: DockConfig,
)
    requires
        is_merge_of(explicit, cli, file, r),
    ensures
        !explicit.contains(ConfigField::Autohide) && file.behavior.autohide is Some ==> r.autohide == file.behavior.autohide->0,
        !explicit.contains(ConfigField::Resident) && file.behavior.resident is Some ==> r.resident == file.behavior.resident->0,
        !explicit.contains(ConfigField::Multi) && file.behavior.multi is Some ==> r.multi == file.behavior.multi->0,
        !explicit.contains(ConfigField::Debug) && file.behavior.debug is Some ==> r.debug == file.behavior.debug->0,
        !explicit.contains(ConfigField::Wm) && file.behavior.wm is Some ==> r.wm == file.behavior.wm,
        !explicit.contains(ConfigField::HideTimeout) && file.behavior.hide_timeout is Some ==> r.hide_timeout == file.behavior.hide_timeout->0,
        !explicit.contains(ConfigField::HotspotDelay) && file.behavior.hotspot_delay is Some ==> r.hotspot_delay == file.behavior.hotspot_delay->0,
        !explicit.contains(ConfigField::HotspotLayer) && file.behavior.hotspot_layer is Some ==> r.hotspot_layer == file.behavior.hotspot_layer->0,
        !explicit.contains(ConfigField::Position) && file.layout.position is Some ==> r.position == file.layout.position->0,
        !explicit.contains(ConfigField::Alignment) && file.layout.alignment is Some ==> r.alignment == file.layout.alignment->0,
        !explicit.contains(ConfigField::Full) && file.layout.full is Some ==> r.full == file.layout.full->0,
        !explicit.contains(ConfigField::Mt) && file.layout.mt is Some ==> r.mt == file.layout.mt->0,
        !explicit.contains(ConfigField::Mb) && file.layout.mb is Some ==> r.mb == file.layout.mb->0,
        !explicit.contains(ConfigField::Ml) && file.layout.ml is Some ==> r.ml == file.layout.ml->0,
        !explicit.contains(ConfigField::Mr) && file.layout.mr is Some ==> r.mr == file.layout.mr->0,
        !explicit.contains(ConfigField::Output) && file.layout.output is Some ==> r.output == file.layout.output->0,
        !explicit.contains(ConfigField::Layer) && file.layout.layer is Some ==> r.layer == file.layout.layer->0,
        !explicit.contains(ConfigField::Exclusive) && file.layout.exclusive is Some ==> r.exclusive == file.layout.exclusive->0,
        !explicit.contains(ConfigField::IconSize) && file.appearance.icon_size is Some ==> r.icon_size == file.appearance.icon_size->0,
        !explicit.contains(ConfigField::Opacity) && file.appearance.opacity is Some ==> r.opacity == file.appearance.opacity->0,
        !explicit.contains(ConfigField::CssFile) && file.appearance.css_file is Some ==> r.css_file == file.appearance.css_file->0,
        !explicit.contains(ConfigField::LaunchAnimation) && file.appearance.launch_animation is Some ==> r.launch_animation == file.appearance.launch_animation->0,
        !explicit.contains(ConfigField::LauncherCmd) && file.launcher.launcher_cmd is Some ==> r.launcher_cmd == file.launcher.launcher_cmd->0,
        !explicit.contains(ConfigField::LauncherPos) && file.launcher.launcher_pos is Some ==> r.launcher_pos == file.launcher.launcher_pos->0,
        !explicit.contains(ConfigField::Nolauncher) && file.launcher.nolauncher is Some ==> r.nolauncher == file.launcher.nolauncher->0,
        !explicit.contains(ConfigField::Ico) && file.launcher.ico is Some ==> r.ico == file.launcher.ico->0,
        !explicit.contains(ConfigField::NumWs) && file.filters.num_ws is Some ==> r.num_ws == file.filters.num_ws->0,
        !explicit.contains(ConfigField::Ws) && file.filters.ws is Some ==> r.ws == file.filters.ws->0,
        !explicit.contains(ConfigField::NoFullscreenSuppress) && file.filters.no_fullscreen_suppress is Some ==> r.no_fullscreen_suppress == file.filters.no_fullscreen_suppress->0,
        !explicit.contains(ConfigField::IgnoreClasses) && file.filters.ignore_classes is Some ==> r.ignore_classes@ == class_list_text(file.filters.ignore_classes->0),
        !explicit.contains(ConfigField::IgnoreWorkspaces) && file.filters.ignore_workspaces is Some ==> r.ignore_workspaces@ == string_or_list_text(file.filters.ignore_workspaces->0, ","@),
{
}

/// Law: a setting the file leaves out keeps its command-line value (given
/// or default).
pub proof fn lemma_absent_setting_keeps_cli(
    explicit: Seq<ConfigField>,
    cli: DockConfig,
    file: RawConfigFile,
    r: DockConfig,
)
    requires
        is_merge_of(explicit, cli, file, r),
    ensures
        file.behavior.autohide is None ==> r.autohide == cli.autohide,
        file.behavior.resident is None ==> r.resident == cli.resident,
        file.behavior.multi is None ==> r.multi == cli.multi,
        file.behavior.debug is None ==> r.debug == cli.debug,
        file.behavior.wm is None ==> r.wm == cli.wm,
        file.behavior.hide_timeout is None ==> r.hide_timeout == cli.hide_timeout,
        file.behavior.hotspot_delay is None ==> r.hotspot_delay == cli.hotspot_delay,
        file.behavior.hotspot_layer is None ==> r.hotspot_layer == cli.hotspot_layer,
        file.layout.position is None ==> r.position == cli.position,
        file.layout.alignment is None ==> r.alignment == cli.alignment,
        file.layout.full is None ==> r.full == cli.full,
        file.layout.mt is None ==> r.mt == cli.mt,
        file.layout.mb is None ==> r.mb == cli.mb,
        file.layout.ml is None ==> r.ml == cli.ml,
        file.layout.mr is None ==> r.mr == cli.mr,
        file.layout.output is None ==> r.output == cli.output,
        file.layout.layer is None ==> r.layer == cli.layer,
        file.layout.exclusive is None ==> r.exclusive == cli.exclusive,
        file.appearance.icon_size is None ==> r.icon_size == cli.icon_size,
        file.appearance.opacity is None ==> r.opacity == cli.opacity,
        file.appearance.css_file is None ==> r.css_file == cli.css_file,
        file.appearance.launch_animation is None ==> r.launch_animation == cli.launch_animation,
        file.launcher.launcher_cmd is None ==> r.launcher_cmd == cli.launcher_cmd,
        file.launcher.launcher_pos is None ==> r.launcher_pos == cli.launcher_pos,
        file.launcher.nolauncher is None ==> r.nolauncher == cli.nolauncher,
        file.launcher.ico is None ==> r.ico == cli.ico,
        file.filters.num_ws is None ==> r.num_ws == cli.num_ws,
        file.filters.ws is None ==> r.ws == cli.ws,
        file.filters.no_fullscreen_suppress is None ==> r.no_fullscreen_suppress == cli.no_fullscreen_suppress,
        file.filters.ignore_classes is None ==> r.ignore_classes@ == cli.ignore_classes@,
        file.filters.ignore_workspaces is None ==> r.ignore_workspaces@ == cli.ignore_workspaces@,
{
}

} // verus!

//! The effective configuration as a config file: every setting with its
//! current value, in the file's five-section shape.

use vstd::prelude::*;
use crate::config::DockConfig;
use crate::config_file::fields::ConfigField;
use crate::config_file::merge::is_merge_of;
use crate::config_file::schema::{
    class_list_text, string_or_list_text, AppearanceSection, BehaviorSection, FiltersSection, LauncherSection,
    LayoutSection, RawConfigFile, StringOrList,
};

verus! {

/// The file that states every setting of `cfg` (the list settings in
/// their string form).
pub open spec fn effective_file(cfg: DockConfig) -> RawConfigFile {
    RawConfigFile {
        behavior: BehaviorSection {
            autohide: Some(cfg.autohide),
            resident: Some(cfg.resident),
            multi: Some(cfg.multi),
            debug: Some(cfg.debug),
            wm: cfg.wm,
            hide_timeout: Some(cfg.hide_timeout),
            hotspot_delay: Some(cfg.hotspot_delay),
            hotspot_layer: Some(cfg.hotspot_layer),
        },
        layout: LayoutSection {
            position: Some(cfg.position),
            alignment: Some(cfg.alignment),
            full: Some(cfg.full),
            mt: Some(cfg.mt),
            mb: Some(cfg.mb),
            ml: Some(cfg.ml),
            mr: Some(cfg.mr),
            output: Some(cfg.output),
            layer: Some(cfg.layer),
            exclusive: Some(cfg.exclusive),
        },
        appearance: AppearanceSection {
            icon_size: Some(cfg.icon_size),
            opacity: Some(cfg.opacity),
            css_file: Some(cfg.css_file),
            launch_animation: Some(cfg.launch_animation),
        },
        launcher: LauncherSection {
            launcher_cmd: Some(cfg.launcher_cmd),
            launcher_pos: Some(cfg.launcher_pos),
            nolauncher: Some(cfg.nolauncher),
            ico: Some(cfg.ico),
        },
        filters: FiltersSection {
            ignore_classes: Some(StringOrList::String(cfg.ignore_classes)),
            ignore_workspaces: Some(StringOrList::String(cfg.ignore_workspaces)),
            num_ws: Some(cfg.num_ws),
            ws: Some(cfg.ws),
            no_fullscreen_suppress: Some(cfg.no_fullscreen_suppress),
        },
    }
}

/// The config file stating every setting of `cfg`, which `--print-config`
/// serializes.
pub fn effective_config_file(cfg: &DockConfig) -> (r: RawConfigFile)
    ensures
        r == effective_file(*cfg),
{
    RawConfigFile {
        behavior: BehaviorSection {
            autohide: Some(cfg.autohide),
            resident: Some(cfg.resident),
            multi: Some(cfg.multi),
            debug: Some(cfg.debug),
            wm: cfg.wm,
            hide_timeout: Some(cfg.hide_timeout),
            hotspot_delay: Some(cfg.hotspot_delay),
            hotspot_layer: Some(cfg.hotspot_layer),
        },
        layout: LayoutSection {
            position: Some(cfg.position),
            alignment: Some(cfg.alignment),
            full: Some(cfg.full),
            mt: Some(cfg.mt),
            mb: Some(cfg.mb),
            ml: Some(cfg.ml),
            mr: Some(cfg.mr),
            output: Some(cfg.output.clone()),
            layer: Some(cfg.layer),
            exclusive: Some(cfg.exclusive),
        },
        appearance: AppearanceSection {
            icon_size: Some(cfg.icon_size),
            opacity: Some(cfg.opacity),
            css_file: Some(cfg.css_file.clone()),
            launch_animation: Some(cfg.launch_animation),
        },
        launcher: LauncherSection {
            launcher_cmd: Some(cfg.launcher_cmd.clone()),
            launcher_pos: Some(cfg.launcher_pos),
            nolauncher: Some(cfg.nolauncher),
            ico: Some(cfg.ico.clone()),
        },
        filters: FiltersSection {
            ignore_classes: Some(StringOrList::String(cfg.ignore_classes.clone())),
            ignore_workspaces: Some(StringOrList::String(cfg.ignore_workspaces.clone())),
            num_ws: Some(cfg.num_ws),
            ws: Some(cfg.ws),
            no_fullscreen_suppress: Some(cfg.no_fullscreen_suppress),
        },
    }
}

/// `cfg` as it comes back from a merge of its printed file over `base`:
/// the window-manager override only when `cfg` has one, the bookkeeping
/// fields from `base`, and the two list settings as given.
pub open spec fn read_back(base: DockConfig, cfg: DockConfig, classes: String, workspaces: String) -> DockConfig {
    DockConfig {
        ignore_classes: classes,
        ignore_workspaces: workspaces,
        wm: if cfg.wm is Some { cfg.wm } else { base.wm },
        config: base.config,
        print_config: base.print_config,
        ..cfg
    }
}

/// Law: merging the printed effective config as the file, with nothing
/// given on the command line, reproduces every setting of `cfg` (the
/// window-manager override only when `cfg` has one, since an absent
/// override is not written).
pub proof fn lemma_print_then_merge_round_trip(base: DockConfig, cfg: DockConfig, r: DockConfig)
    requires
        is_merge_of(Seq::<ConfigField>::empty(), base, effective_file(cfg), r),
    ensures
        r == read_back(base, cfg, r.ignore_classes, r.ignore_workspaces),
        r.ignore_classes@ == cfg.ignore_classes@,
        r.ignore_workspaces@ == cfg.ignore_workspaces@,
{
    assert(class_list_text(StringOrList::String(cfg.ignore_classes)) == cfg.ignore_classes@);
    assert(string_or_list_text(StringOrList::String(cfg.ignore_workspaces), ","@) == cfg.ignore_workspaces@);
}

} // verus!

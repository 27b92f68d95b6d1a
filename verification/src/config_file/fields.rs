//! The thirty-one settings the config file and the command line share, with
//! their file labels and command-line ids.

use vstd::prelude::*;

verus! {

/// One tracked setting.
#[derive(Debug, Clone, Copy, PartialEq, Eq, Structural)]
pub enum ConfigField {
    Autohide,
    Resident,
    Multi,
    Debug,
    Wm,
    HideTimeout,
    HotspotDelay,
    HotspotLayer,
    Position,
    Alignment,
    Full,
    Mt,
    Mb,
    Ml,
    Mr,
    Output,
    Layer,
    Exclusive,
    IconSize,
    Opacity,
    CssFile,
    LaunchAnimation,
    LauncherCmd,
    LauncherPos,
    Nolauncher,
    Ico,
    IgnoreClasses,
    IgnoreWorkspaces,
    NumWs,
    Ws,
    NoFullscreenSuppress,
}

/// All settings in file order (`[behavior]`, `[layout]`, `[appearance]`,
/// `[launcher]`, `[filters]`).
pub open spec fn all_config_fields() -> Seq<ConfigField> {
    seq![
        ConfigField::Autohide,
        ConfigField::Resident,
        ConfigField::Multi,
        ConfigField::Debug,
        ConfigField::Wm,
        ConfigField::HideTimeout,
        ConfigField::HotspotDelay,
        ConfigField::HotspotLayer,
        ConfigField::Position,
        ConfigField::Alignment,
        ConfigField::Full,
        ConfigField::Mt,
        ConfigField::Mb,
        ConfigField::Ml,
        ConfigField::Mr,
        ConfigField::Output,
        ConfigField::Layer,
        ConfigField::Exclusive,
        ConfigField::IconSize,
        ConfigField::Opacity,
        ConfigField::CssFile,
        ConfigField::LaunchAnimation,
        ConfigField::LauncherCmd,
        ConfigField::LauncherPos,
        ConfigField::Nolauncher,
        ConfigField::Ico,
        ConfigField::IgnoreClasses,
        ConfigField::IgnoreWorkspaces,
        ConfigField::NumWs,
        ConfigField::Ws,
        ConfigField::NoFullscreenSuppress,
    ]
}

/// The settings in file order, as a vector.
pub fn all_fields() -> (r: Vec<ConfigField>)
    ensures
        r@ == all_config_fields(),
{
    let r = vec![
        ConfigField::Autohide,
        ConfigField::Resident,
        ConfigField::Multi,
        ConfigField::Debug,
        ConfigField::Wm,
        ConfigField::HideTimeout,
        ConfigField::HotspotDelay,
        ConfigField::HotspotLayer,
        ConfigField::Position,
        ConfigField::Alignment,
        ConfigField::Full,
        ConfigField::Mt,
        ConfigField::Mb,
        ConfigField::Ml,
        ConfigField::Mr,
        ConfigField::Output,
        ConfigField::Layer,
        ConfigField::Exclusive,
        ConfigField::IconSize,
        ConfigField::Opacity,
        ConfigField::CssFile,
        ConfigField::LaunchAnimation,
        ConfigField::LauncherCmd,
        ConfigField::LauncherPos,
        ConfigField::Nolauncher,
        ConfigField::Ico,
        ConfigField::IgnoreClasses,
        ConfigField::IgnoreWorkspaces,
        ConfigField::NumWs,
        ConfigField::Ws,
        ConfigField::NoFullscreenSuppress,
    ];
    assert(r@ =~= all_config_fields());
    r
}

/// Settings that cannot be applied while the dock runs.
pub open spec fn is_restart_required(f: ConfigField) -> bool {
    f == ConfigField::Multi || f == ConfigField::Wm || f == ConfigField::Autohide || f
        == ConfigField::Resident || f == ConfigField::HotspotLayer || f == ConfigField::Layer || f
        == ConfigField::Exclusive || f == ConfigField::Position || f == ConfigField::Full
}

/// Whether a setting needs a restart to take effect.
pub fn restart_required(f: ConfigField) -> (r: bool)
    ensures
        r == is_restart_required(f),
{
    match f {
        ConfigField::Multi | ConfigField::Wm | ConfigField::Autohide | ConfigField::Resident
        | ConfigField::HotspotLayer | ConfigField::Layer | ConfigField::Exclusive
        | ConfigField::Position | ConfigField::Full => true,
        _ => false,
    }
}

/// The kebab-case key of a setting in the config file (also its label in
/// notifications).
pub open spec fn field_label(f: ConfigField) -> Seq<char> {
    match f {
        ConfigField::Autohide => "autohide"@,
        ConfigField::Resident => "resident"@,
        ConfigField::Multi => "multi"@,
        ConfigField::Debug => "debug"@,
        ConfigField::Wm => "wm"@,
        ConfigField::HideTimeout => "hide-timeout"@,
        ConfigField::HotspotDelay => "hotspot-delay"@,
        ConfigField::HotspotLayer => "hotspot-layer"@,
        ConfigField::Position => "position"@,
        ConfigField::Alignment => "alignment"@,
        ConfigField::Full => "full"@,
        ConfigField::Mt => "mt"@,
        ConfigField::Mb => "mb"@,
        ConfigField::Ml => "ml"@,
        ConfigField::Mr => "mr"@,
        ConfigField::Output => "output"@,
        ConfigField::Layer => "layer"@,
        ConfigField::Exclusive => "exclusive"@,
        ConfigField::IconSize => "icon-size"@,
        ConfigField::Opacity => "opacity"@,
        ConfigField::CssFile => "css-file"@,
        ConfigField::LaunchAnimation => "launch-animation"@,
        ConfigField::LauncherCmd => "launcher-cmd"@,
        ConfigField::LauncherPos => "launcher-pos"@,
        ConfigField::Nolauncher => "nolauncher"@,
        ConfigField::Ico => "ico"@,
        ConfigField::IgnoreClasses => "ignore-classes"@,
        ConfigField::IgnoreWorkspaces => "ignore-workspaces"@,
        ConfigField::NumWs => "num-ws"@,
        ConfigField::Ws => "ws"@,
        ConfigField::NoFullscreenSuppress => "no-fullscreen-suppress"@,
    }
}

/// The config-file section a setting lives in.
pub open spec fn field_section(f: ConfigField) -> Seq<char> {
    match f {
        ConfigField::Autohide | ConfigField::Resident | ConfigField::Multi | ConfigField::Debug
        | ConfigField::Wm | ConfigField::HideTimeout | ConfigField::HotspotDelay
        | ConfigField::HotspotLayer => "behavior"@,
        ConfigField::Position | ConfigField::Alignment | ConfigField::Full | ConfigField::Mt
        | ConfigField::Mb | ConfigField::Ml | ConfigField::Mr | ConfigField::Output
        | ConfigField::Layer | ConfigField::Exclusive => "layout"@,
        ConfigField::IconSize | ConfigField::Opacity | ConfigField::CssFile
        | ConfigField::LaunchAnimation => "appearance"@,
        ConfigField::LauncherCmd | ConfigField::LauncherPos | ConfigField::Nolauncher
        | ConfigField::Ico => "launcher"@,
        ConfigField::IgnoreClasses | ConfigField::IgnoreWorkspaces | ConfigField::NumWs
        | ConfigField::Ws | ConfigField::NoFullscreenSuppress => "filters"@,
    }
}

/// The snake_case id of a setting's command-line argument.
pub open spec fn field_arg_id(f: ConfigField) -> Seq<char> {
    match f {
        ConfigField::HideTimeout => "hide_timeout"@,
        ConfigField::HotspotDelay => "hotspot_delay"@,
        ConfigField::HotspotLayer => "hotspot_layer"@,
        ConfigField::IconSize => "icon_size"@,
        ConfigField::CssFile => "css_file"@,
        ConfigField::LaunchAnimation => "launch_animation"@,
        ConfigField::LauncherCmd => "launcher_cmd"@,
        ConfigField::LauncherPos => "launcher_pos"@,
        ConfigField::IgnoreClasses => "ignore_classes"@,
        ConfigField::IgnoreWorkspaces => "ignore_workspaces"@,
        ConfigField::NumWs => "num_ws"@,
        ConfigField::NoFullscreenSuppress => "no_fullscreen_suppress"@,
        _ => field_label(f),
    }
}

impl ConfigField {
    /// The kebab-case file key of this setting.
    pub fn label(self) -> (r: &'static str)
        ensures
            r@ == field_label(self),
    {
        match self {
            ConfigField::Autohide => "autohide",
            ConfigField::Resident => "resident",
            ConfigField::Multi => "multi",
            ConfigField::Debug => "debug",
            ConfigField::Wm => "wm",
            ConfigField::HideTimeout => "hide-timeout",
            ConfigField::HotspotDelay => "hotspot-delay",
            ConfigField::HotspotLayer => "hotspot-layer",
            ConfigField::Position => "position",
            ConfigField::Alignment => "alignment",
            ConfigField::Full => "full",
            ConfigField::Mt => "mt",
            ConfigField::Mb => "mb",
            ConfigField::Ml => "ml",
            ConfigField::Mr => "mr",
            ConfigField::Output => "output",
            ConfigField::Layer => "layer",
            ConfigField::Exclusive => "exclusive",
            ConfigField::IconSize => "icon-size",
            ConfigField::Opacity => "opacity",
            ConfigField::CssFile => "css-file",
            ConfigField::LaunchAnimation => "launch-animation",
            ConfigField::LauncherCmd => "launcher-cmd",
            ConfigField::LauncherPos => "launcher-pos",
            ConfigField::Nolauncher => "nolauncher",
            ConfigField::Ico => "ico",
            ConfigField::IgnoreClasses => "ignore-classes",
            ConfigField::IgnoreWorkspaces => "ignore-workspaces",
            ConfigField::NumWs => "num-ws",
            ConfigField::Ws => "ws",
            ConfigField::NoFullscreenSuppress => "no-fullscreen-suppress",
        }
    }

    /// The snake_case id of this setting's command-line argument.
    pub fn arg_id(self) -> (r: &'static str)
        ensures
            r@ == field_arg_id(self),
    {
        match self {
            ConfigField::Autohide => "autohide",
            ConfigField::Resident => "resident",
            ConfigField::Multi => "multi",
            ConfigField::Debug => "debug",
            ConfigField::Wm => "wm",
            ConfigField::HideTimeout => "hide_timeout",
            ConfigField::HotspotDelay => "hotspot_delay",
            ConfigField::HotspotLayer => "hotspot_layer",
            ConfigField::Position => "position",
            ConfigField::Alignment => "alignment",
            ConfigField::Full => "full",
            ConfigField::Mt => "mt",
            ConfigField::Mb => "mb",
            ConfigField::Ml => "ml",
            ConfigField::Mr => "mr",
            ConfigField::Output => "output",
            ConfigField::Layer => "layer",
            ConfigField::Exclusive => "exclusive",
            ConfigField::IconSize => "icon_size",
            ConfigField::Opacity => "opacity",
            ConfigField::CssFile => "css_file",
            ConfigField::LaunchAnimation => "launch_animation",
            ConfigField::LauncherCmd => "launcher_cmd",
            ConfigField::LauncherPos => "launcher_pos",
            ConfigField::Nolauncher => "nolauncher",
            ConfigField::Ico => "ico",
            ConfigField::IgnoreClasses => "ignore_classes",
            ConfigField::IgnoreWorkspaces => "ignore_workspaces",
            ConfigField::NumWs => "num_ws",
            ConfigField::Ws => "ws",
            ConfigField::NoFullscreenSuppress => "no_fullscreen_suppress",
        }
    }
}

/// The setting whose file label is `l`, if any.
pub open spec fn setting_of_label(l: Seq<char>) -> Option<ConfigField> {
    if l == "autohide"@ {
        Some(ConfigField::Autohide)
    } else     if l == "resident"@ {
        Some(ConfigField::Resident)
    } else     if l == "multi"@ {
        Some(ConfigField::Multi)
    } else     if l == "debug"@ {
        Some(ConfigField::Debug)
    } else     if l == "wm"@ {
        Some(ConfigField::Wm)
    } else     if l == "hide-timeout"@ {
        Some(ConfigField::HideTimeout)
    } else     if l == "hotspot-delay"@ {
        Some(ConfigField::HotspotDelay)
    } else     if l == "hotspot-layer"@ {
        Some(ConfigField::HotspotLayer)
    } else     if l == "position"@ {
        Some(ConfigField::Position)
    } else     if l == "alignment"@ {
        Some(ConfigField::Alignment)
    } else     if l == "full"@ {
        Some(ConfigField::Full)
    } else     if l == "mt"@ {
        Some(ConfigField::Mt)
    } else     if l == "mb"@ {
        Some(ConfigField::Mb)
    } else     if l == "ml"@ {
        Some(ConfigField::Ml)
    } else     if l == "mr"@ {
        Some(ConfigField::Mr)
    } else     if l == "output"@ {
        Some(ConfigField::Output)
    } else     if l == "layer"@ {
        Some(ConfigField::Layer)
    } else     if l == "exclusive"@ {
        Some(ConfigField::Exclusive)
    } else     if l == "icon-size"@ {
        Some(ConfigField::IconSize)
    } else     if l == "opacity"@ {
        Some(ConfigField::Opacity)
    } else     if l == "css-file"@ {
        Some(ConfigField::CssFile)
    } else     if l == "launch-animation"@ {
        Some(ConfigField::LaunchAnimation)
    } else     if l == "launcher-cmd"@ {
        Some(ConfigField::LauncherCmd)
    } else     if l == "launcher-pos"@ {
        Some(ConfigField::LauncherPos)
    } else     if l == "nolauncher"@ {
        Some(ConfigField::Nolauncher)
    } else     if l == "ico"@ {
        Some(ConfigField::Ico)
    } else     if l == "ignore-classes"@ {
        Some(ConfigField::IgnoreClasses)
    } else     if l == "ignore-workspaces"@ {
        Some(ConfigField::IgnoreWorkspaces)
    } else     if l == "num-ws"@ {
        Some(ConfigField::NumWs)
    } else     if l == "ws"@ {
        Some(ConfigField::Ws)
    } else     if l == "no-fullscreen-suppress"@ {
        Some(ConfigField::NoFullscreenSuppress)
    } else {
        None
    }
}

/// Each setting is found again from its file label, so distinct settings
/// have distinct labels.
#[verifier::rlimit(40)]
pub proof fn lemma_setting_of_label(f: ConfigField)
    ensures
        setting_of_label(field_label(f)) == Some(f),
{
    match f {
        ConfigField::Autohide => {
            reveal_strlit("autohide");
        },
        ConfigField::Resident => {
            reveal_strlit("resident");
            reveal_strlit("autohide");
            assert("resident"@[0] != "autohide"@[0]);
        },
        ConfigField::Multi => {
            reveal_strlit("multi");
            reveal_strlit("autohide");
            assert("multi"@.len() != "autohide"@.len());
            reveal_strlit("resident");
            assert("multi"@.len() != "resident"@.len());
        },
        ConfigField::Debug => {
            reveal_strlit("debug");
            reveal_strlit("autohide");
            assert("debug"@.len() != "autohide"@.len());
            reveal_strlit("resident");
            assert("debug"@.len() != "resident"@.len());
            reveal_strlit("multi");
            assert("debug"@[0] != "multi"@[0]);
        },
        ConfigField::Wm => {
            reveal_strlit("wm");
            reveal_strlit("autohide");
            assert("wm"@.len() != "autohide"@.len());
            reveal_strlit("resident");
            assert("wm"@.len() != "resident"@.len());
            reveal_strlit("multi");
            assert("wm"@.len() != "multi"@.len());
            reveal_strlit("debug");
            assert("wm"@.len() != "debug"@.len());
        },
        ConfigField::HideTimeout => {
            reveal_strlit("hide-timeout");
            reveal_strlit("autohide");
            assert("hide-timeout"@.len() != "autohide"@.len());
            reveal_strlit("resident");
            assert("hide-timeout"@.len() != "resident"@.len());
            reveal_strlit("multi");
            assert("hide-timeout"@.len() != "multi"@.len());
            reveal_strlit("debug");
            assert("hide-timeout"@.len() != "debug"@.len());
            reveal_strlit("wm");
            assert("hide-timeout"@.len() != "wm"@.len());
        },
        ConfigField::HotspotDelay => {
            reveal_strlit("hotspot-delay");
            reveal_strlit("autohide");
            assert("hotspot-delay"@.len() != "autohide"@.len());
            reveal_strlit("resident");
            assert("hotspot-delay"@.len() != "resident"@.len());
            reveal_strlit("multi");
            assert("hotspot-delay"@.len() != "multi"@.len());
            reveal_strlit("debug");
            assert("hotspot-delay"@.len() != "debug"@.len());
            reveal_strlit("wm");
            assert("hotspot-delay"@.len() != "wm"@.len());
            reveal_strlit("hide-timeout");
            assert("hotspot-delay"@.len() != "hide-timeout"@.len());
        },
        ConfigField::HotspotLayer => {
            reveal_strlit("hotspot-layer");
            reveal_strlit("autohide");
            assert("hotspot-layer"@.len() != "autohide"@.len());
            reveal_strlit("resident");
            assert("hotspot-layer"@.len() != "resident"@.len());
            reveal_strlit("multi");
            assert("hotspot-layer"@.len() != "multi"@.len());
            reveal_strlit("debug");
            assert("hotspot-layer"@.len() != "debug"@.len());
            reveal_strlit("wm");
            assert("hotspot-layer"@.len() != "wm"@.len());
            reveal_strlit("hide-timeout");
            assert("hotspot-layer"@.len() != "hide-timeout"@.len());
            reveal_strlit("hotspot-delay");
            assert("hotspot-layer"@[8] != "hotspot-delay"@[8]);
        },
        ConfigField::Position => {
            reveal_strlit("position");
            reveal_strlit("autohide");
            assert("position"@[0] != "autohide"@[0]);
            reveal_strlit("resident");
            assert("position"@[0] != "resident"@[0]);
            reveal_strlit("multi");
            assert("position"@.len() != "multi"@.len());
            reveal_strlit("debug");
            assert("position"@.len() != "debug"@.len());
            reveal_strlit("wm");
            assert("position"@.len() != "wm"@.len());
            reveal_strlit("hide-timeout");
            assert("position"@.len() != "hide-timeout"@.len());
            reveal_strlit("hotspot-delay");
            assert("position"@.len() != "hotspot-delay"@.len());
            reveal_strlit("hotspot-layer");
            assert("position"@.len() != "hotspot-layer"@.len());
        },
        ConfigField::Alignment => {
            reveal_strlit("alignment");
            reveal_strlit("autohide");
            assert("alignment"@.len() != "autohide"@.len());
            reveal_strlit("resident");
            assert("alignment"@.len() != "resident"@.len());
            reveal_strlit("multi");
            assert("alignment"@.len() != "multi"@.len());
            reveal_strlit("debug");
            assert("alignment"@.len() != "debug"@.len());
            reveal_strlit("wm");
            assert("alignment"@.len() != "wm"@.len());
            reveal_strlit("hide-timeout");
            assert("alignment"@.len() != "hide-timeout"@.len());
            reveal_strlit("hotspot-delay");
            assert("alignment"@.len() != "hotspot-delay"@.len());
            reveal_strlit("hotspot-layer");
            assert("alignment"@.len() != "hotspot-layer"@.len());
            reveal_strlit("position");
            assert("alignment"@.len() != "position"@.len());
        },
        ConfigField::Full => {
            reveal_strlit("full");
            reveal_strlit("autohide");
            assert("full"@.len() != "autohide"@.len());
            reveal_strlit("resident");
            assert("full"@.len() != "resident"@.len());
            reveal_strlit("multi");
            assert("full"@.len() != "multi"@.len());
            reveal_strlit("debug");
            assert("full"@.len() != "debug"@.len());
            reveal_strlit("wm");
            assert("full"@.len() != "wm"@.len());
            reveal_strlit("hide-timeout");
            assert("full"@.len() != "hide-timeout"@.len());
            reveal_strlit("hotspot-delay");
            assert("full"@.len() != "hotspot-delay"@.len());
            reveal_strlit("hotspot-layer");
            assert("full"@.len() != "hotspot-layer"@.len());
            reveal_strlit("position");
            assert("full"@.len() != "position"@.len());
            reveal_strlit("alignment");
            assert("full"@.len() != "alignment"@.len());
        },
        ConfigField::Mt => {
            reveal_strlit("mt");
            reveal_strlit("autohide");
            assert("mt"@.len() != "autohide"@.len());
            reveal_strlit("resident");
            assert("mt"@.len() != "resident"@.len());
            reveal_strlit("multi");
            assert("mt"@.len() != "multi"@.len());
            reveal_strlit("debug");
            assert("mt"@.len() != "debug"@.len());
            reveal_strlit("wm");
            assert("mt"@[0] != "wm"@[0]);
            reveal_strlit("hide-timeout");
            assert("mt"@.len() != "hide-timeout"@.len());
            reveal_strlit("hotspot-delay");
            assert("mt"@.len() != "hotspot-delay"@.len());
            reveal_strlit("hotspot-layer");
            assert("mt"@.len() != "hotspot-layer"@.len());
            reveal_strlit("position");
            assert("mt"@.len() != "position"@.len());
            reveal_strlit("alignment");
            assert("mt"@.len() != "alignment"@.len());
            reveal_strlit("full");
            assert("mt"@.len() != "full"@.len());
        },
        ConfigField::Mb => {
            reveal_strlit("mb");
            reveal_strlit("autohide");
            assert("mb"@.len() != "autohide"@.len());
            reveal_strlit("resident");
            assert("mb"@.len() != "resident"@.len());
            reveal_strlit("multi");
            assert("mb"@.len() != "multi"@.len());
            reveal_strlit("debug");
            assert("mb"@.len() != "debug"@.len());
            reveal_strlit("wm");
            assert("mb"@[0] != "wm"@[0]);
            reveal_strlit("hide-timeout");
            assert("mb"@.len() != "hide-timeout"@.len());
            reveal_strlit("hotspot-delay");
            assert("mb"@.len() != "hotspot-delay"@.len());
            reveal_strlit("hotspot-layer");
            assert("mb"@.len() != "hotspot-layer"@.len());
            reveal_strlit("position");
            assert("mb"@.len() != "position"@.len());
            reveal_strlit("alignment");
            assert("mb"@.len() != "alignment"@.len());
            reveal_strlit("full");
            assert("mb"@.len() != "full"@.len());
            reveal_strlit("mt");
            assert("mb"@[1] != "mt"@[1]);
        },
        ConfigField::Ml => {
            reveal_strlit("ml");
            reveal_strlit("autohide");
            assert("ml"@.len() != "autohide"@.len());
            reveal_strlit("resident");
            assert("ml"@.len() != "resident"@.len());
            reveal_strlit("multi");
            assert("ml"@.len() != "multi"@.len());
            reveal_strlit("debug");
            assert("ml"@.len() != "debug"@.len());
            reveal_strlit("wm");
            assert("ml"@[0] != "wm"@[0]);
            reveal_strlit("hide-timeout");
            assert("ml"@.len() != "hide-timeout"@.len());
            reveal_strlit("hotspot-delay");
            assert("ml"@.len() != "hotspot-delay"@.len());
            reveal_strlit("hotspot-layer");
            assert("ml"@.len() != "hotspot-layer"@.len());
            reveal_strlit("position");
            assert("ml"@.len() != "position"@.len());
            reveal_strlit("alignment");
            assert("ml"@.len() != "alignment"@.len());
            reveal_strlit("full");
            assert("ml"@.len() != "full"@.len());
            reveal_strlit("mt");
            assert("ml"@[1] != "mt"@[1]);
            reveal_strlit("mb");
            assert("ml"@[1] != "mb"@[1]);
        },
        ConfigField::Mr => {
            reveal_strlit("mr");
            reveal_strlit("autohide");
            assert("mr"@.len() != "autohide"@.len());
            reveal_strlit("resident");
            assert("mr"@.len() != "resident"@.len());
            reveal_strlit("multi");
            assert("mr"@.len() != "multi"@.len());
            reveal_strlit("debug");
            assert("mr"@.len() != "debug"@.len());
            reveal_strlit("wm");
            assert("mr"@[0] != "wm"@[0]);
            reveal_strlit("hide-timeout");
            assert("mr"@.len() != "hide-timeout"@.len());
            reveal_strlit("hotspot-delay");
            assert("mr"@.len() != "hotspot-delay"@.len());
            reveal_strlit("hotspot-layer");
            assert("mr"@.len() != "hotspot-layer"@.len());
            reveal_strlit("position");
            assert("mr"@.len() != "position"@.len());
            reveal_strlit("alignment");
            assert("mr"@.len() != "alignment"@.len());
            reveal_strlit("full");
            assert("mr"@.len() != "full"@.len());
            reveal_strlit("mt");
            assert("mr"@[1] != "mt"@[1]);
            reveal_strlit("mb");
            assert("mr"@[1] != "mb"@[1]);
            reveal_strlit("ml");
            assert("mr"@[1] != "ml"@[1]);
        },
        ConfigField::Output => {
            reveal_strlit("output");
            reveal_strlit("autohide");
            assert("output"@.len() != "autohide"@.len());
            reveal_strlit("resident");
            assert("output"@.len() != "resident"@.len());
            reveal_strlit("multi");
            assert("output"@.len() != "multi"@.len());
            reveal_strlit("debug");
            assert("output"@.len() != "debug"@.len());
            reveal_strlit("wm");
            assert("output"@.len() != "wm"@.len());
            reveal_strlit("hide-timeout");
            assert("output"@.len() != "hide-timeout"@.len());
            reveal_strlit("hotspot-delay");
            assert("output"@.len() != "hotspot-delay"@.len());
            reveal_strlit("hotspot-layer");
            assert("output"@.len() != "hotspot-layer"@.len());
            reveal_strlit("position");
            assert("output"@.len() != "position"@.len());
            reveal_strlit("alignment");
            assert("output"@.len() != "alignment"@.len());
            reveal_strlit("full");
            assert("output"@.len() != "full"@.len());
            reveal_strlit("mt");
            assert("output"@.len() != "mt"@.len());
            reveal_strlit("mb");
            assert("output"@.len() != "mb"@.len());
            reveal_strlit("ml");
            assert("output"@.len() != "ml"@.len());
            reveal_strlit("mr");
            assert("output"@.len() != "mr"@.len());
        },
        ConfigField::Layer => {
            reveal_strlit("layer");
            reveal_strlit("autohide");
            assert("layer"@.len() != "autohide"@.len());
            reveal_strlit("resident");
            assert("layer"@.len() != "resident"@.len());
            reveal_strlit("multi");
            assert("layer"@[0] != "multi"@[0]);
            reveal_strlit("debug");
            assert("layer"@[0] != "debug"@[0]);
            reveal_strlit("wm");
            assert("layer"@.len() != "wm"@.len());
            reveal_strlit("hide-timeout");
            assert("layer"@.len() != "hide-timeout"@.len());
            reveal_strlit("hotspot-delay");
            assert("layer"@.len() != "hotspot-delay"@.len());
            reveal_strlit("hotspot-layer");
            assert("layer"@.len() != "hotspot-layer"@.len());
            reveal_strlit("position");
            assert("layer"@.len() != "position"@.len());
            reveal_strlit("alignment");
            assert("layer"@.len() != "alignment"@.len());
            reveal_strlit("full");
            assert("layer"@.len() != "full"@.len());
            reveal_strlit("mt");
            assert("layer"@.len() != "mt"@.len());
            reveal_strlit("mb");
            assert("layer"@.len() != "mb"@.len());
            reveal_strlit("ml");
            assert("layer"@.len() != "ml"@.len());
            reveal_strlit("mr");
            assert("layer"@.len() != "mr"@.len());
            reveal_strlit("output");
            assert("layer"@.len() != "output"@.len());
        },
        ConfigField::Exclusive => {
            reveal_strlit("exclusive");
            reveal_strlit("autohide");
            assert("exclusive"@.len() != "autohide"@.len());
            reveal_strlit("resident");
            assert("exclusive"@.len() != "resident"@.len());
            reveal_strlit("multi");
            assert("exclusive"@.len() != "multi"@.len());
            reveal_strlit("debug");
            assert("exclusive"@.len() != "debug"@.len());
            reveal_strlit("wm");
            assert("exclusive"@.len() != "wm"@.len());
            reveal_strlit("hide-timeout");
            assert("exclusive"@.len() != "hide-timeout"@.len());
            reveal_strlit("hotspot-delay");
            assert("exclusive"@.len() != "hotspot-delay"@.len());
            reveal_strlit("hotspot-layer");
            assert("exclusive"@.len() != "hotspot-layer"@.len());
            reveal_strlit("position");
            assert("exclusive"@.len() != "position"@.len());
            reveal_strlit("alignment");
            assert("exclusive"@[0] != "alignment"@[0]);
            reveal_strlit("full");
            assert("exclusive"@.len() != "full"@.len());
            reveal_strlit("mt");
            assert("exclusive"@.len() != "mt"@.len());
            reveal_strlit("mb");
            assert("exclusive"@.len() != "mb"@.len());
            reveal_strlit("ml");
            assert("exclusive"@.len() != "ml"@.len());
            reveal_strlit("mr");
            assert("exclusive"@.len() != "mr"@.len());
            reveal_strlit("output");
            assert("exclusive"@.len() != "output"@.len());
            reveal_strlit("layer");
            assert("exclusive"@.len() != "layer"@.len());
        },
        ConfigField::IconSize => {
            reveal_strlit("icon-size");
            reveal_strlit("autohide");
            assert("icon-size"@.len() != "autohide"@.len());
            reveal_strlit("resident");
            assert("icon-size"@.len() != "resident"@.len());
            reveal_strlit("multi");
            assert("icon-size"@.len() != "multi"@.len());
            reveal_strlit("debug");
            assert("icon-size"@.len() != "debug"@.len());
            reveal_strlit("wm");
            assert("icon-size"@.len() != "wm"@.len());
            reveal_strlit("hide-timeout");
            assert("icon-size"@.len() != "hide-timeout"@.len());
            reveal_strlit("hotspot-delay");
            assert("icon-size"@.len() != "hotspot-delay"@.len());
            reveal_strlit("hotspot-layer");
            assert("icon-size"@.len() != "hotspot-layer"@.len());
            reveal_strlit("position");
            assert("icon-size"@.len() != "position"@.len());
            reveal_strlit("alignment");
            assert("icon-size"@[0] != "alignment"@[0]);
            reveal_strlit("full");
            assert("icon-size"@.len() != "full"@.len());
            reveal_strlit("mt");
            assert("icon-size"@.len() != "mt"@.len());
            reveal_strlit("mb");
            assert("icon-size"@.len() != "mb"@.len());
            reveal_strlit("ml");
            assert("icon-size"@.len() != "ml"@.len());
            reveal_strlit("mr");
            assert("icon-size"@.len() != "mr"@.len());
            reveal_strlit("output");
            assert("icon-size"@.len() != "output"@.len());
            reveal_strlit("layer");
            assert("icon-size"@.len() != "layer"@.len());
            reveal_strlit("exclusive");
            assert("icon-size"@[0] != "exclusive"@[0]);
        },
        ConfigField::Opacity => {
            reveal_strlit("opacity");
            reveal_strlit("autohide");
            assert("opacity"@.len() != "autohide"@.len());
            reveal_strlit("resident");
            assert("opacity"@.len() != "resident"@.len());
            reveal_strlit("multi");
            assert("opacity"@.len() != "multi"@.len());
            reveal_strlit("debug");
            assert("opacity"@.len() != "debug"@.len());
            reveal_strlit("wm");
            assert("opacity"@.len() != "wm"@.len());
            reveal_strlit("hide-timeout");
            assert("opacity"@.len() != "hide-timeout"@.len());
            reveal_strlit("hotspot-delay");
            assert("opacity"@.len() != "hotspot-delay"@.len());
            reveal_strlit("hotspot-layer");
            assert("opacity"@.len() != "hotspot-layer"@.len());
            reveal_strlit("position");
            assert("opacity"@.len() != "position"@.len());
            reveal_strlit("alignment");
            assert("opacity"@.len() != "alignment"@.len());
            reveal_strlit("full");
            assert("opacity"@.len() != "full"@.len());
            reveal_strlit("mt");
            assert("opacity"@.len() != "mt"@.len());
            reveal_strlit("mb");
            assert("opacity"@.len() != "mb"@.len());
            reveal_strlit("ml");
            assert("opacity"@.len() != "ml"@.len());
            reveal_strlit("mr");
            assert("opacity"@.len() != "mr"@.len());
            reveal_strlit("output");
            assert("opacity"@.len() != "output"@.len());
            reveal_strlit("layer");
            assert("opacity"@.len() != "layer"@.len());
            reveal_strlit("exclusive");
            assert("opacity"@.len() != "exclusive"@.len());
            reveal_strlit("icon-size");
            assert("opacity"@.len() != "icon-size"@.len());
        },
        ConfigField::CssFile => {
            reveal_strlit("css-file");
            reveal_strlit("autohide");
            assert("css-file"@[0] != "autohide"@[0]);
            reveal_strlit("resident");
            assert("css-file"@[0] != "resident"@[0]);
            reveal_strlit("multi");
            assert("css-file"@.len() != "multi"@.len());
            reveal_strlit("debug");
            assert("css-file"@.len() != "debug"@.len());
            reveal_strlit("wm");
            assert("css-file"@.len() != "wm"@.len());
            reveal_strlit("hide-timeout");
            assert("css-file"@.len() != "hide-timeout"@.len());
            reveal_strlit("hotspot-delay");
            assert("css-file"@.len() != "hotspot-delay"@.len());
            reveal_strlit("hotspot-layer");
            assert("css-file"@.len() != "hotspot-layer"@.len());
            reveal_strlit("position");
            assert("css-file"@[0] != "position"@[0]);
            reveal_strlit("alignment");
            assert("css-file"@.len() != "alignment"@.len());
            reveal_strlit("full");
            assert("css-file"@.len() != "full"@.len());
            reveal_strlit("mt");
            assert("css-file"@.len() != "mt"@.len());
            reveal_strlit("mb");
            assert("css-file"@.len() != "mb"@.len());
            reveal_strlit("ml");
            assert("css-file"@.len() != "ml"@.len());
            reveal_strlit("mr");
            assert("css-file"@.len() != "mr"@.len());
            reveal_strlit("output");
            assert("css-file"@.len() != "output"@.len());
            reveal_strlit("layer");
            assert("css-file"@.len() != "layer"@.len());
            reveal_strlit("exclusive");
            assert("css-file"@.len() != "exclusive"@.len());
            reveal_strlit("icon-size");
            assert("css-file"@.len() != "icon-size"@.len());
            reveal_strlit("opacity");
            assert("css-file"@.len() != "opacity"@.len());
        },
        ConfigField::LaunchAnimation => {
            reveal_strlit("launch-animation");
            reveal_strlit("autohide");
            assert("launch-animation"@.len() != "autohide"@.len());
            reveal_strlit("resident");
            assert("launch-animation"@.len() != "resident"@.len());
            reveal_strlit("multi");
            assert("launch-animation"@.len() != "multi"@.len());
            reveal_strlit("debug");
            assert("launch-animation"@.len() != "debug"@.len());
            reveal_strlit("wm");
            assert("launch-animation"@.len() != "wm"@.len());
            reveal_strlit("hide-timeout");
            assert("launch-animation"@.len() != "hide-timeout"@.len());
            reveal_strlit("hotspot-delay");
            assert("launch-animation"@.len() != "hotspot-delay"@.len());
            reveal_strlit("hotspot-layer");
            assert("launch-animation"@.len() != "hotspot-layer"@.len());
            reveal_strlit("position");
            assert("launch-animation"@.len() != "position"@.len());
            reveal_strlit("alignment");
            assert("launch-animation"@.len() != "alignment"@.len());
            reveal_strlit("full");
            assert("launch-animation"@.len() != "full"@.len());
            reveal_strlit("mt");
            assert("launch-animation"@.len() != "mt"@.len());
            reveal_strlit("mb");
            assert("launch-animation"@.len() != "mb"@.len());
            reveal_strlit("ml");
            assert("launch-animation"@.len() != "ml"@.len());
            reveal_strlit("mr");
            assert("launch-animation"@.len() != "mr"@.len());
            reveal_strlit("output");
            assert("launch-animation"@.len() != "output"@.len());
            reveal_strlit("layer");
            assert("launch-animation"@.len() != "layer"@.len());
            reveal_strlit("exclusive");
            assert("launch-animation"@.len() != "exclusive"@.len());
            reveal_strlit("icon-size");
            assert("launch-animation"@.len() != "icon-size"@.len());
            reveal_strlit("opacity");
            assert("launch-animation"@.len() != "opacity"@.len());
            reveal_strlit("css-file");
            assert("launch-animation"@.len() != "css-file"@.len());
        },
        ConfigField::LauncherCmd => {
            reveal_strlit("launcher-cmd");
            reveal_strlit("autohide");
            assert("launcher-cmd"@.len() != "autohide"@.len());
            reveal_strlit("resident");
            assert("launcher-cmd"@.len() != "resident"@.len());
            reveal_strlit("multi");
            assert("launcher-cmd"@.len() != "multi"@.len());
            reveal_strlit("debug");
            assert("launcher-cmd"@.len() != "debug"@.len());
            reveal_strlit("wm");
            assert("launcher-cmd"@.len() != "wm"@.len());
            reveal_strlit("hide-timeout");
            assert("launcher-cmd"@[0] != "hide-timeout"@[0]);
            reveal_strlit("hotspot-delay");
            assert("launcher-cmd"@.len() != "hotspot-delay"@.len());
            reveal_strlit("hotspot-layer");
            assert("launcher-cmd"@.len() != "hotspot-layer"@.len());
            reveal_strlit("position");
            assert("launcher-cmd"@.len() != "position"@.len());
            reveal_strlit("alignment");
            assert("launcher-cmd"@.len() != "alignment"@.len());
            reveal_strlit("full");
            assert("launcher-cmd"@.len() != "full"@.len());
            reveal_strlit("mt");
            assert("launcher-cmd"@.len() != "mt"@.len());
            reveal_strlit("mb");
            assert("launcher-cmd"@.len() != "mb"@.len());
            reveal_strlit("ml");
            assert("launcher-cmd"@.len() != "ml"@.len());
            reveal_strlit("mr");
            assert("launcher-cmd"@.len() != "mr"@.len());
            reveal_strlit("output");
            assert("launcher-cmd"@.len() != "output"@.len());
            reveal_strlit("layer");
            assert("launcher-cmd"@.len() != "layer"@.len());
            reveal_strlit("exclusive");
            assert("launcher-cmd"@.len() != "exclusive"@.len());
            reveal_strlit("icon-size");
            assert("launcher-cmd"@.len() != "icon-size"@.len());
            reveal_strlit("opacity");
            assert("launcher-cmd"@.len() != "opacity"@.len());
            reveal_strlit("css-file");
            assert("launcher-cmd"@.len() != "css-file"@.len());
            reveal_strlit("launch-animation");
            assert("launcher-cmd"@.len() != "launch-animation"@.len());
        },
        ConfigField::LauncherPos => {
            reveal_strlit("launcher-pos");
            reveal_strlit("autohide");
            assert("launcher-pos"@.len() != "autohide"@.len());
            reveal_strlit("resident");
            assert("launcher-pos"@.len() != "resident"@.len());
            reveal_strlit("multi");
            assert("launcher-pos"@.len() != "multi"@.len());
            reveal_strlit("debug");
            assert("launcher-pos"@.len() != "debug"@.len());
            reveal_strlit("wm");
            assert("launcher-pos"@.len() != "wm"@.len());
            reveal_strlit("hide-timeout");
            assert("launcher-pos"@[0] != "hide-timeout"@[0]);
            reveal_strlit("hotspot-delay");
            assert("launcher-pos"@.len() != "hotspot-delay"@.len());
            reveal_strlit("hotspot-layer");
            assert("launcher-pos"@.len() != "hotspot-layer"@.len());
            reveal_strlit("position");
            assert("launcher-pos"@.len() != "position"@.len());
            reveal_strlit("alignment");
            assert("launcher-pos"@.len() != "alignment"@.len());
            reveal_strlit("full");
            assert("launcher-pos"@.len() != "full"@.len());
            reveal_strlit("mt");
            assert("launcher-pos"@.len() != "mt"@.len());
            reveal_strlit("mb");
            assert("launcher-pos"@.len() != "mb"@.len());
            reveal_strlit("ml");
            assert("launcher-pos"@.len() != "ml"@.len());
            reveal_strlit("mr");
            assert("launcher-pos"@.len() != "mr"@.len());
            reveal_strlit("output");
            assert("launcher-pos"@.len() != "output"@.len());
            reveal_strlit("layer");
            assert("launcher-pos"@.len() != "layer"@.len());
            reveal_strlit("exclusive");
            assert("launcher-pos"@.len() != "exclusive"@.len());
            reveal_strlit("icon-size");
            assert("launcher-pos"@.len() != "icon-size"@.len());
            reveal_strlit("opacity");
            assert("launcher-pos"@.len() != "opacity"@.len());
            reveal_strlit("css-file");
            assert("launcher-pos"@.len() != "css-file"@.len());
            reveal_strlit("launch-animation");
            assert("launcher-pos"@.len() != "launch-animation"@.len());
            reveal_strlit("launcher-cmd");
            assert("launcher-pos"@[9] != "launcher-cmd"@[9]);
        },
        ConfigField::Nolauncher => {
            reveal_strlit("nolauncher");
            reveal_strlit("autohide");
            assert("nolauncher"@.len() != "autohide"@.len());
            reveal_strlit("resident");
            assert("nolauncher"@.len() != "resident"@.len());
            reveal_strlit("multi");
            assert("nolauncher"@.len() != "multi"@.len());
            reveal_strlit("debug");
            assert("nolauncher"@.len() != "debug"@.len());
            reveal_strlit("wm");
            assert("nolauncher"@.len() != "wm"@.len());
            reveal_strlit("hide-timeout");
            assert("nolauncher"@.len() != "hide-timeout"@.len());
            reveal_strlit("hotspot-delay");
            assert("nolauncher"@.len() != "hotspot-delay"@.len());
            reveal_strlit("hotspot-layer");
            assert("nolauncher"@.len() != "hotspot-layer"@.len());
            reveal_strlit("position");
            assert("nolauncher"@.len() != "position"@.len());
            reveal_strlit("alignment");
            assert("nolauncher"@.len() != "alignment"@.len());
            reveal_strlit("full");
            assert("nolauncher"@.len() != "full"@.len());
            reveal_strlit("mt");
            assert("nolauncher"@.len() != "mt"@.len());
            reveal_strlit("mb");
            assert("nolauncher"@.len() != "mb"@.len());
            reveal_strlit("ml");
            assert("nolauncher"@.len() != "ml"@.len());
            reveal_strlit("mr");
            assert("nolauncher"@.len() != "mr"@.len());
            reveal_strlit("output");
            assert("nolauncher"@.len() != "output"@.len());
            reveal_strlit("layer");
            assert("nolauncher"@.len() != "layer"@.len());
            reveal_strlit("exclusive");
            assert("nolauncher"@.len() != "exclusive"@.len());
            reveal_strlit("icon-size");
            assert("nolauncher"@.len() != "icon-size"@.len());
            reveal_strlit("opacity");
            assert("nolauncher"@.len() != "opacity"@.len());
            reveal_strlit("css-file");
            assert("nolauncher"@.len() != "css-file"@.len());
            reveal_strlit("launch-animation");
            assert("nolauncher"@.len() != "launch-animation"@.len());
            reveal_strlit("launcher-cmd");
            assert("nolauncher"@.len() != "launcher-cmd"@.len());
            reveal_strlit("launcher-pos");
            assert("nolauncher"@.len() != "launcher-pos"@.len());
        },
        ConfigField::Ico => {
            reveal_strlit("ico");
            reveal_strlit("autohide");
            assert("ico"@.len() != "autohide"@.len());
            reveal_strlit("resident");
            assert("ico"@.len() != "resident"@.len());
            reveal_strlit("multi");
            assert("ico"@.len() != "multi"@.len());
            reveal_strlit("debug");
            assert("ico"@.len() != "debug"@.len());
            reveal_strlit("wm");
            assert("ico"@.len() != "wm"@.len());
            reveal_strlit("hide-timeout");
            assert("ico"@.len() != "hide-timeout"@.len());
            reveal_strlit("hotspot-delay");
            assert("ico"@.len() != "hotspot-delay"@.len());
            reveal_strlit("hotspot-layer");
            assert("ico"@.len() != "hotspot-layer"@.len());
            reveal_strlit("position");
            assert("ico"@.len() != "position"@.len());
            reveal_strlit("alignment");
            assert("ico"@.len() != "alignment"@.len());
            reveal_strlit("full");
            assert("ico"@.len() != "full"@.len());
            reveal_strlit("mt");
            assert("ico"@.len() != "mt"@.len());
            reveal_strlit("mb");
            assert("ico"@.len() != "mb"@.len());
            reveal_strlit("ml");
            assert("ico"@.len() != "ml"@.len());
            reveal_strlit("mr");
            assert("ico"@.len() != "mr"@.len());
            reveal_strlit("output");
            assert("ico"@.len() != "output"@.len());
            reveal_strlit("layer");
            assert("ico"@.len() != "layer"@.len());
            reveal_strlit("exclusive");
            assert("ico"@.len() != "exclusive"@.len());
            reveal_strlit("icon-size");
            assert("ico"@.len() != "icon-size"@.len());
            reveal_strlit("opacity");
            assert("ico"@.len() != "opacity"@.len());
            reveal_strlit("css-file");
            assert("ico"@.len() != "css-file"@.len());
            reveal_strlit("launch-animation");
            assert("ico"@.len() != "launch-animation"@.len());
            reveal_strlit("launcher-cmd");
            assert("ico"@.len() != "launcher-cmd"@.len());
            reveal_strlit("launcher-pos");
            assert("ico"@.len() != "launcher-pos"@.len());
            reveal_strlit("nolauncher");
            assert("ico"@.len() != "nolauncher"@.len());
        },
        ConfigField::IgnoreClasses => {
            reveal_strlit("ignore-classes");
            reveal_strlit("autohide");
            assert("ignore-classes"@.len() != "autohide"@.len());
            reveal_strlit("resident");
            assert("ignore-classes"@.len() != "resident"@.len());
            reveal_strlit("multi");
            assert("ignore-classes"@.len() != "multi"@.len());
            reveal_strlit("debug");
            assert("ignore-classes"@.len() != "debug"@.len());
            reveal_strlit("wm");
            assert("ignore-classes"@.len() != "wm"@.len());
            reveal_strlit("hide-timeout");
            assert("ignore-classes"@.len() != "hide-timeout"@.len());
            reveal_strlit("hotspot-delay");
            assert("ignore-classes"@.len() != "hotspot-delay"@.len());
            reveal_strlit("hotspot-layer");
            assert("ignore-classes"@.len() != "hotspot-layer"@.len());
            reveal_strlit("position");
            assert("ignore-classes"@.len() != "position"@.len());
            reveal_strlit("alignment");
            assert("ignore-classes"@.len() != "alignment"@.len());
            reveal_strlit("full");
            assert("ignore-classes"@.len() != "full"@.len());
            reveal_strlit("mt");
            assert("ignore-classes"@.len() != "mt"@.len());
            reveal_strlit("mb");
            assert("ignore-classes"@.len() != "mb"@.len());
            reveal_strlit("ml");
            assert("ignore-classes"@.len() != "ml"@.len());
            reveal_strlit("mr");
            assert("ignore-classes"@.len() != "mr"@.len());
            reveal_strlit("output");
            assert("ignore-classes"@.len() != "output"@.len());
            reveal_strlit("layer");
            assert("ignore-classes"@.len() != "layer"@.len());
            reveal_strlit("exclusive");
            assert("ignore-classes"@.len() != "exclusive"@.len());
            reveal_strlit("icon-size");
            assert("ignore-classes"@.len() != "icon-size"@.len());
            reveal_strlit("opacity");
            assert("ignore-classes"@.len() != "opacity"@.len());
            reveal_strlit("css-file");
            assert("ignore-classes"@.len() != "css-file"@.len());
            reveal_strlit("launch-animation");
            assert("ignore-classes"@.len() != "launch-animation"@.len());
            reveal_strlit("launcher-cmd");
            assert("ignore-classes"@.len() != "launcher-cmd"@.len());
            reveal_strlit("launcher-pos");
            assert("ignore-classes"@.len() != "launcher-pos"@.len());
            reveal_strlit("nolauncher");
            assert("ignore-classes"@.len() != "nolauncher"@.len());
            reveal_strlit("ico");
            assert("ignore-classes"@.len() != "ico"@.len());
        },
        ConfigField::IgnoreWorkspaces => {
            reveal_strlit("ignore-workspaces");
            reveal_strlit("autohide");
            assert("ignore-workspaces"@.len() != "autohide"@.len());
            reveal_strlit("resident");
            assert("ignore-workspaces"@.len() != "resident"@.len());
            reveal_strlit("multi");
            assert("ignore-workspaces"@.len() != "multi"@.len());
            reveal_strlit("debug");
            assert("ignore-workspaces"@.len() != "debug"@.len());
            reveal_strlit("wm");
            assert("ignore-workspaces"@.len() != "wm"@.len());
            reveal_strlit("hide-timeout");
            assert("ignore-workspaces"@.len() != "hide-timeout"@.len());
            reveal_strlit("hotspot-delay");
            assert("ignore-workspaces"@.len() != "hotspot-delay"@.len());
            reveal_strlit("hotspot-layer");
            assert("ignore-workspaces"@.len() != "hotspot-layer"@.len());
            reveal_strlit("position");
            assert("ignore-workspaces"@.len() != "position"@.len());
            reveal_strlit("alignment");
            assert("ignore-workspaces"@.len() != "alignment"@.len());
            reveal_strlit("full");
            assert("ignore-workspaces"@.len() != "full"@.len());
            reveal_strlit("mt");
            assert("ignore-workspaces"@.len() != "mt"@.len());
            reveal_strlit("mb");
            assert("ignore-workspaces"@.len() != "mb"@.len());
            reveal_strlit("ml");
            assert("ignore-workspaces"@.len() != "ml"@.len());
            reveal_strlit("mr");
            assert("ignore-workspaces"@.len() != "mr"@.len());
            reveal_strlit("output");
            assert("ignore-workspaces"@.len() != "output"@.len());
            reveal_strlit("layer");
            assert("ignore-workspaces"@.len() != "layer"@.len());
            reveal_strlit("exclusive");
            assert("ignore-workspaces"@.len() != "exclusive"@.len());
            reveal_strlit("icon-size");
            assert("ignore-workspaces"@.len() != "icon-size"@.len());
            reveal_strlit("opacity");
            assert("ignore-workspaces"@.len() != "opacity"@.len());
            reveal_strlit("css-file");
            assert("ignore-workspaces"@.len() != "css-file"@.len());
            reveal_strlit("launch-animation");
            assert("ignore-workspaces"@.len() != "launch-animation"@.len());
            reveal_strlit("launcher-cmd");
            assert("ignore-workspaces"@.len() != "launcher-cmd"@.len());
            reveal_strlit("launcher-pos");
            assert("ignore-workspaces"@.len() != "launcher-pos"@.len());
            reveal_strlit("nolauncher");
            assert("ignore-workspaces"@.len() != "nolauncher"@.len());
            reveal_strlit("ico");
            assert("ignore-workspaces"@.len() != "ico"@.len());
            reveal_strlit("ignore-classes");
            assert("ignore-workspaces"@.len() != "ignore-classes"@.len());
        },
        ConfigField::NumWs => {
            reveal_strlit("num-ws");
            reveal_strlit("autohide");
            assert("num-ws"@.len() != "autohide"@.len());
            reveal_strlit("resident");
            assert("num-ws"@.len() != "resident"@.len());
            reveal_strlit("multi");
            assert("num-ws"@.len() != "multi"@.len());
            reveal_strlit("debug");
            assert("num-ws"@.len() != "debug"@.len());
            reveal_strlit("wm");
            assert("num-ws"@.len() != "wm"@.len());
            reveal_strlit("hide-timeout");
            assert("num-ws"@.len() != "hide-timeout"@.len());
            reveal_strlit("hotspot-delay");
            assert("num-ws"@.len() != "hotspot-delay"@.len());
            reveal_strlit("hotspot-layer");
            assert("num-ws"@.len() != "hotspot-layer"@.len());
            reveal_strlit("position");
            assert("num-ws"@.len() != "position"@.len());
            reveal_strlit("alignment");
            assert("num-ws"@.len() != "alignment"@.len());
            reveal_strlit("full");
            assert("num-ws"@.len() != "full"@.len());
            reveal_strlit("mt");
            assert("num-ws"@.len() != "mt"@.len());
            reveal_strlit("mb");
            assert("num-ws"@.len() != "mb"@.len());
            reveal_strlit("ml");
            assert("num-ws"@.len() != "ml"@.len());
            reveal_strlit("mr");
            assert("num-ws"@.len() != "mr"@.len());
            reveal_strlit("output");
            assert("num-ws"@[0] != "output"@[0]);
            reveal_strlit("layer");
            assert("num-ws"@.len() != "layer"@.len());
            reveal_strlit("exclusive");
            assert("num-ws"@.len() != "exclusive"@.len());
            reveal_strlit("icon-size");
            assert("num-ws"@.len() != "icon-size"@.len());
            reveal_strlit("opacity");
            assert("num-ws"@.len() != "opacity"@.len());
            reveal_strlit("css-file");
            assert("num-ws"@.len() != "css-file"@.len());
            reveal_strlit("launch-animation");
            assert("num-ws"@.len() != "launch-animation"@.len());
            reveal_strlit("launcher-cmd");
            assert("num-ws"@.len() != "launcher-cmd"@.len());
            reveal_strlit("launcher-pos");
            assert("num-ws"@.len() != "launcher-pos"@.len());
            reveal_strlit("nolauncher");
            assert("num-ws"@.len() != "nolauncher"@.len());
            reveal_strlit("ico");
            assert("num-ws"@.len() != "ico"@.len());
            reveal_strlit("ignore-classes");
            assert("num-ws"@.len() != "ignore-classes"@.len());
            reveal_strlit("ignore-workspaces");
            assert("num-ws"@.len() != "ignore-workspaces"@.len());
        },
        ConfigField::Ws => {
            reveal_strlit("ws");
            reveal_strlit("autohide");
            assert("ws"@.len() != "autohide"@.len());
            reveal_strlit("resident");
            assert("ws"@.len() != "resident"@.len());
            reveal_strlit("multi");
            assert("ws"@.len() != "multi"@.len());
            reveal_strlit("debug");
            assert("ws"@.len() != "debug"@.len());
            reveal_strlit("wm");
            assert("ws"@[1] != "wm"@[1]);
            reveal_strlit("hide-timeout");
            assert("ws"@.len() != "hide-timeout"@.len());
            reveal_strlit("hotspot-delay");
            assert("ws"@.len() != "hotspot-delay"@.len());
            reveal_strlit("hotspot-layer");
            assert("ws"@.len() != "hotspot-layer"@.len());
            reveal_strlit("position");
            assert("ws"@.len() != "position"@.len());
            reveal_strlit("alignment");
            assert("ws"@.len() != "alignment"@.len());
            reveal_strlit("full");
            assert("ws"@.len() != "full"@.len());
            reveal_strlit("mt");
            assert("ws"@[0] != "mt"@[0]);
            reveal_strlit("mb");
            assert("ws"@[0] != "mb"@[0]);
            reveal_strlit("ml");
            assert("ws"@[0] != "ml"@[0]);
            reveal_strlit("mr");
            assert("ws"@[0] != "mr"@[0]);
            reveal_strlit("output");
            assert("ws"@.len() != "output"@.len());
            reveal_strlit("layer");
            assert("ws"@.len() != "layer"@.len());
            reveal_strlit("exclusive");
            assert("ws"@.len() != "exclusive"@.len());
            reveal_strlit("icon-size");
            assert("ws"@.len() != "icon-size"@.len());
            reveal_strlit("opacity");
            assert("ws"@.len() != "opacity"@.len());
            reveal_strlit("css-file");
            assert("ws"@.len() != "css-file"@.len());
            reveal_strlit("launch-animation");
            assert("ws"@.len() != "launch-animation"@.len());
            reveal_strlit("launcher-cmd");
            assert("ws"@.len() != "launcher-cmd"@.len());
            reveal_strlit("launcher-pos");
            assert("ws"@.len() != "launcher-pos"@.len());
            reveal_strlit("nolauncher");
            assert("ws"@.len() != "nolauncher"@.len());
            reveal_strlit("ico");
            assert("ws"@.len() != "ico"@.len());
            reveal_strlit("ignore-classes");
            assert("ws"@.len() != "ignore-classes"@.len());
            reveal_strlit("ignore-workspaces");
            assert("ws"@.len() != "ignore-workspaces"@.len());
            reveal_strlit("num-ws");
            assert("ws"@.len() != "num-ws"@.len());
        },
        ConfigField::NoFullscreenSuppress => {
            reveal_strlit("no-fullscreen-suppress");
            reveal_strlit("autohide");
            assert("no-fullscreen-suppress"@.len() != "autohide"@.len());
            reveal_strlit("resident");
            assert("no-fullscreen-suppress"@.len() != "resident"@.len());
            reveal_strlit("multi");
            assert("no-fullscreen-suppress"@.len() != "multi"@.len());
            reveal_strlit("debug");
            assert("no-fullscreen-suppress"@.len() != "debug"@.len());
            reveal_strlit("wm");
            assert("no-fullscreen-suppress"@.len() != "wm"@.len());
            reveal_strlit("hide-timeout");
            assert("no-fullscreen-suppress"@.len() != "hide-timeout"@.len());
            reveal_strlit("hotspot-delay");
            assert("no-fullscreen-suppress"@.len() != "hotspot-delay"@.len());
            reveal_strlit("hotspot-layer");
            assert("no-fullscreen-suppress"@.len() != "hotspot-layer"@.len());
            reveal_strlit("position");
            assert("no-fullscreen-suppress"@.len() != "position"@.len());
            reveal_strlit("alignment");
            assert("no-fullscreen-suppress"@.len() != "alignment"@.len());
            reveal_strlit("full");
            assert("no-fullscreen-suppress"@.len() != "full"@.len());
            reveal_strlit("mt");
            assert("no-fullscreen-suppress"@.len() != "mt"@.len());
            reveal_strlit("mb");
            assert("no-fullscreen-suppress"@.len() != "mb"@.len());
            reveal_strlit("ml");
            assert("no-fullscreen-suppress"@.len() != "ml"@.len());
            reveal_strlit("mr");
            assert("no-fullscreen-suppress"@.len() != "mr"@.len());
            reveal_strlit("output");
            assert("no-fullscreen-suppress"@.len() != "output"@.len());
            reveal_strlit("layer");
            assert("no-fullscreen-suppress"@.len() != "layer"@.len());
            reveal_strlit("exclusive");
            assert("no-fullscreen-suppress"@.len() != "exclusive"@.len());
            reveal_strlit("icon-size");
            assert("no-fullscreen-suppress"@.len() != "icon-size"@.len());
            reveal_strlit("opacity");
            assert("no-fullscreen-suppress"@.len() != "opacity"@.len());
            reveal_strlit("css-file");
            assert("no-fullscreen-suppress"@.len() != "css-file"@.len());
            reveal_strlit("launch-animation");
            assert("no-fullscreen-suppress"@.len() != "launch-animation"@.len());
            reveal_strlit("launcher-cmd");
            assert("no-fullscreen-suppress"@.len() != "launcher-cmd"@.len());
            reveal_strlit("launcher-pos");
            assert("no-fullscreen-suppress"@.len() != "launcher-pos"@.len());
            reveal_strlit("nolauncher");
            assert("no-fullscreen-suppress"@.len() != "nolauncher"@.len());
            reveal_strlit("ico");
            assert("no-fullscreen-suppress"@.len() != "ico"@.len());
            reveal_strlit("ignore-classes");
            assert("no-fullscreen-suppress"@.len() != "ignore-classes"@.len());
            reveal_strlit("ignore-workspaces");
            assert("no-fullscreen-suppress"@.len() != "ignore-workspaces"@.len());
            reveal_strlit("num-ws");
            assert("no-fullscreen-suppress"@.len() != "num-ws"@.len());
            reveal_strlit("ws");
            assert("no-fullscreen-suppress"@.len() != "ws"@.len());
        },
    }
}

/// Distinct settings have distinct file labels.
pub proof fn lemma_field_label_injective(f: ConfigField, g: ConfigField)
    ensures
        field_label(f) == field_label(g) ==> f == g,
{
    lemma_setting_of_label(f);
    lemma_setting_of_label(g);
}

} // verus!

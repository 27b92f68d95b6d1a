//! Dock configuration: the value types that the command line and the config
//! file describe, the legacy-flag rewriting applied to the raw argument list,
//! and the post-merge normalization.

use vstd::prelude::*;
use crate::text::{
    contains_char, nonempty_pieces, split_char, split_on, split_trim_nonempty, string_views, trim,
    trim_str,
};

verus! {

/// Dock position on screen edge.
#[derive(Debug, Clone, Copy, PartialEq, Eq, Structural)]
pub enum Position {
    Bottom,
    Top,
    Left,
    Right,
}

/// Content alignment within the dock.
#[derive(Debug, Clone, Copy, PartialEq, Eq, Structural)]
pub enum Alignment {
    Start,
    Center,
    End,
}

/// Layer-shell layer.
#[derive(Debug, Clone, Copy, PartialEq, Eq, Structural)]
pub enum Layer {
    Overlay,
    Top,
    Bottom,
}

/// Window-manager backend override (`--wm`).
#[derive(Debug, Clone, Copy, PartialEq, Eq, Structural)]
pub enum WmOverride {
    /// Force the Hyprland backend.
    Hyprland,
    /// Force the Sway backend.
    Sway,
    /// Universal Wayland Session Manager launch wrapper; the compositor is
    /// still detected from the environment.
    Uwsm,
}

/// The effective dock configuration (command line, config file and
/// built-in defaults merged).
#[derive(Debug)]
pub struct DockConfig {
    /// Alignment in full width/height.
    pub alignment: Alignment,
    /// Auto-hide: show the dock when the hotspot is hovered.
    pub autohide: bool,
    /// CSS file name.
    pub css_file: String,
    /// Debug messages.
    pub debug: bool,
    /// Exclusive zone: move other windows aside.
    pub exclusive: bool,
    /// Take full screen width/height.
    pub full: bool,
    /// Space-separated class list to ignore.
    pub ignore_classes: String,
    /// Hotspot delay in ms.
    pub hotspot_delay: i64,
    /// Hotspot layer.
    pub hotspot_layer: Layer,
    /// Auto-hide timeout in ms.
    pub hide_timeout: u64,
    /// Alternative name or path for the launcher icon.
    pub ico: String,
    /// Comma-separated workspace names/ids whose windows are ignored.
    pub ignore_workspaces: String,
    /// Icon size in pixels.
    pub icon_size: i32,
    /// Command assigned to the launcher button.
    pub launcher_cmd: String,
    /// Launcher button position.
    pub launcher_pos: Alignment,
    /// Layer-shell layer.
    pub layer: Layer,
    /// Margin bottom.
    pub mb: i32,
    /// Margin left.
    pub ml: i32,
    /// Margin right.
    pub mr: i32,
    /// Margin top.
    pub mt: i32,
    /// Don't show the launcher button.
    pub nolauncher: bool,
    /// Number of workspaces in use.
    pub num_ws: i32,
    /// Show the workspace switcher row.
    pub ws: bool,
    /// Position on screen edge.
    pub position: Position,
    /// Leave the program resident, but without hotspot.
    pub resident: bool,
    /// Name of the output to display the dock on.
    pub output: String,
    /// Allow multiple instances.
    pub multi: bool,
    /// Window background opacity 0-100.
    pub opacity: u8,
    /// Bounce animation on dock icons while an app is launching.
    pub launch_animation: bool,
    /// Allow the dock hotspot on fullscreen monitors.
    pub no_fullscreen_suppress: bool,
    /// Window manager override.
    pub wm: Option<WmOverride>,
    /// Path of the config file (overrides the default location).
    pub config: Option<String>,
    /// Print the effective merged config and exit.
    pub print_config: bool,
}

impl Clone for DockConfig {
    fn clone(&self) -> (r: Self)
        ensures
            r == *self,
    {
        DockConfig {
            alignment: self.alignment,
            autohide: self.autohide,
            css_file: self.css_file.clone(),
            debug: self.debug,
            exclusive: self.exclusive,
            full: self.full,
            ignore_classes: self.ignore_classes.clone(),
            hotspot_delay: self.hotspot_delay,
            hotspot_layer: self.hotspot_layer,
            hide_timeout: self.hide_timeout,
            ico: self.ico.clone(),
            ignore_workspaces: self.ignore_workspaces.clone(),
            icon_size: self.icon_size,
            launcher_cmd: self.launcher_cmd.clone(),
            launcher_pos: self.launcher_pos,
            layer: self.layer,
            mb: self.mb,
            ml: self.ml,
            mr: self.mr,
            mt: self.mt,
            nolauncher: self.nolauncher,
            num_ws: self.num_ws,
            ws: self.ws,
            position: self.position,
            resident: self.resident,
            output: self.output.clone(),
            multi: self.multi,
            opacity: self.opacity,
            launch_animation: self.launch_animation,
            no_fullscreen_suppress: self.no_fullscreen_suppress,
            wm: self.wm,
            config: match &self.config {
                Some(p) => Some(p.clone()),
                None => None,
            },
            print_config: self.print_config,
        }
    }
}

/// The built-in defaults of every setting (what the command line yields
/// when no flag is given).
pub open spec fn is_default_config(c: DockConfig) -> bool {
    &&& c.alignment == Alignment::Center
    &&& !c.autohide
    &&& c.css_file@ == "style.css"@
    &&& !c.debug
    &&& !c.exclusive
    &&& !c.full
    &&& c.ignore_classes@ == Seq::<char>::empty()
    &&& c.hotspot_delay == 20
    &&& c.hotspot_layer == Layer::Overlay
    &&& c.hide_timeout == 600
    &&& c.ico@ == Seq::<char>::empty()
    &&& c.ignore_workspaces@ == Seq::<char>::empty()
    &&& c.icon_size == 48
    &&& c.launcher_cmd@ == "nwg-drawer"@
    &&& c.launcher_pos == Alignment::End
    &&& c.layer == Layer::Overlay
    &&& c.mb == 0 && c.ml == 0 && c.mr == 0 && c.mt == 0
    &&& !c.nolauncher
    &&& c.num_ws == 10
    &&& !c.ws
    &&& c.position == Position::Bottom
    &&& !c.resident
    &&& c.output@ == Seq::<char>::empty()
    &&& !c.multi
    &&& c.opacity == 100
    &&& !c.launch_animation
    &&& !c.no_fullscreen_suppress
    &&& c.wm is None
    &&& c.config is None
    &&& !c.print_config
}

impl Default for DockConfig {
    fn default() -> (c: Self)
        ensures
            is_default_config(c),
    {
        DockConfig {
            alignment: Alignment::Center,
            autohide: false,
            css_file: String::from_str("style.css"),
            debug: false,
            exclusive: false,
            full: false,
            ignore_classes: String::new(),
            hotspot_delay: 20,
            hotspot_layer: Layer::Overlay,
            hide_timeout: 600,
            ico: String::new(),
            ignore_workspaces: String::new(),
            icon_size: 48,
            launcher_cmd: String::from_str("nwg-drawer"),
            launcher_pos: Alignment::End,
            layer: Layer::Overlay,
            mb: 0,
            ml: 0,
            mr: 0,
            mt: 0,
            nolauncher: false,
            num_ws: 10,
            ws: false,
            position: Position::Bottom,
            resident: false,
            output: String::new(),
            multi: false,
            opacity: 100,
            launch_animation: false,
            no_fullscreen_suppress: false,
            wm: None,
            config: None,
            print_config: false,
        }
    }
}

/// Pieces of a delimited list setting: empty for an empty setting, else
/// every piece between separators with surrounding whitespace removed.
pub open spec fn delimited_list(s: Seq<char>, sep: char) -> Seq<Seq<char>> {
    if s.len() == 0 {
        Seq::<Seq<char>>::empty()
    } else {
        split_on(s, sep).map_values(|p: Seq<char>| trim(p))
    }
}

/// The classes a class-list setting names: one per line when it holds a
/// line break (the file's array form), else space-separated; trimmed, with
/// empty pieces left out.
pub open spec fn class_list(s: Seq<char>) -> Seq<Seq<char>> {
    if s.contains('\n') {
        nonempty_pieces(s, '\n')
    } else {
        nonempty_pieces(s, ' ')
    }
}

fn split_and_trim(s: &String, sep: char) -> (r: Vec<String>)
    ensures
        string_views(r@) == delimited_list(s@, sep),
{
    if s.as_str().is_empty() {
        let empty: Vec<String> = Vec::new();
        assert(string_views(empty@) =~= Seq::<Seq<char>>::empty());
        return empty;
    }
    let pieces = split_char(s.as_str(), sep);
    let mut out: Vec<String> = Vec::new();
    let ghost target = split_on(s@, sep).map_values(|p: Seq<char>| trim(p));
    let mut i: usize = 0;
    while i < pieces.len()
        invariant
            string_views(pieces@) == split_on(s@, sep),
            target == split_on(s@, sep).map_values(|p: Seq<char>| trim(p)),
            i <= pieces.len(),
            string_views(out@) == target.take(i as int),
        decreases pieces.len() - i,
    {
        let t = trim_str(pieces[i].as_str());
        let ghost before = out@;
        out.push(t);
        proof {
            assert(string_views(pieces@)[i as int] == pieces@[i as int]@);
            assert(string_views(out@) =~= string_views(before).push(t@));
            assert(target.take(i + 1) =~= target.take(i as int).push(target[i as int]));
        }
        i += 1;
    }
    assert(target.take(pieces.len() as int) =~= target);
    out
}

impl DockConfig {
    /// Whether the dock orientation is vertical (left/right position).
    pub fn is_vertical(&self) -> (r: bool)
        ensures
            r == (self.position == Position::Left || self.position == Position::Right),
    {
        match self.position {
            Position::Left | Position::Right => true,
            _ => false,
        }
    }

    /// Whether this is a resident-mode dock (autohide or resident flag).
    pub fn is_resident_mode(&self) -> (r: bool)
        ensures
            r == (self.autohide || self.resident),
    {
        self.autohide || self.resident
    }

    /// Ignored workspace names/ids: the comma-separated setting split and
    /// trimmed.
    pub fn ignored_workspaces(&self) -> (r: Vec<String>)
        ensures
            string_views(r@) == delimited_list(self.ignore_workspaces@, ','),
    {
        split_and_trim(&self.ignore_workspaces, ',')
    }

    /// Ignored classes. A setting that holds a line break came from the
    /// file's array form and holds one class per line, so classes with
    /// spaces stay whole; otherwise the setting is space-separated. Pieces
    /// are trimmed and empty pieces are left out.
    pub fn ignored_classes(&self) -> (r: Vec<String>)
        ensures
            string_views(r@) == class_list(self.ignore_classes@),
    {
        if contains_char(self.ignore_classes.as_str(), '\n') {
            split_trim_nonempty(self.ignore_classes.as_str(), '\n')
        } else {
            split_trim_nonempty(self.ignore_classes.as_str(), ' ')
        }
    }
}

} // verus!

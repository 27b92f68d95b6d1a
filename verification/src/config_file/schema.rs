//! Schema of the TOML config file: five optional sections whose every key
//! is optional, so partial files work.

use vstd::prelude::*;
use crate::config::{Alignment, Layer, Position, WmOverride};
use crate::text::{contains_char, join, join_strings, join_strings_terminated, join_terminated, string_views};

verus! {

/// `[behavior]` section.
#[derive(Debug)]
pub struct BehaviorSection {
    pub autohide: Option<bool>,
    pub resident: Option<bool>,
    pub multi: Option<bool>,
    pub debug: Option<bool>,
    pub wm: Option<WmOverride>,
    pub hide_timeout: Option<u64>,
    pub hotspot_delay: Option<i64>,
    pub hotspot_layer: Option<Layer>,
}

/// `[layout]` section.
#[derive(Debug)]
pub struct LayoutSection {
    pub position: Option<Position>,
    pub alignment: Option<Alignment>,
    pub full: Option<bool>,
    pub mt: Option<i32>,
    pub mb: Option<i32>,
    pub ml: Option<i32>,
    pub mr: Option<i32>,
    pub output: Option<String>,
    pub layer: Option<Layer>,
    pub exclusive: Option<bool>,
}

/// `[appearance]` section.
#[derive(Debug)]
pub struct AppearanceSection {
    pub icon_size: Option<i32>,
    pub opacity: Option<u8>,
    pub css_file: Option<String>,
    pub launch_animation: Option<bool>,
}

/// `[launcher]` section.
#[derive(Debug)]
pub struct LauncherSection {
    pub launcher_cmd: Option<String>,
    pub launcher_pos: Option<Alignment>,
    pub nolauncher: Option<bool>,
    pub ico: Option<String>,
}

/// `[filters]` section.
#[derive(Debug)]
pub struct FiltersSection {
    pub ignore_classes: Option<StringOrList>,
    pub ignore_workspaces: Option<StringOrList>,
    pub num_ws: Option<i32>,
    pub ws: Option<bool>,
    pub no_fullscreen_suppress: Option<bool>,
}

/// The whole config file; a missing section is an all-`None` section.
#[derive(Debug)]
pub struct RawConfigFile {
    pub behavior: BehaviorSection,
    pub layout: LayoutSection,
    pub appearance: AppearanceSection,
    pub launcher: LauncherSection,
    pub filters: FiltersSection,
}

/// `ignore-classes` / `ignore-workspaces` accept either a string or a list
/// of strings.
#[derive(Debug)]
pub enum StringOrList {
    String(String),
    List(Vec<String>),
}

/// The single string a list setting stands for: the string itself, or the
/// list elements joined by `separator`.
pub open spec fn string_or_list_text(v: StringOrList, separator: Seq<char>) -> Seq<char> {
    match v {
        StringOrList::String(s) => s@,
        StringOrList::List(l) => join(string_views(l@), separator),
    }
}

/// Some element of `l` holds the character `c`.
pub open spec fn some_element_holds(l: Seq<Seq<char>>, c: char) -> bool {
    exists|i: int| 0 <= i < l.len() && #[trigger] l[i].contains(c)
}

/// The text of an `ignore-classes` value: the string itself; a list of
/// classes without spaces joined by spaces; a list where some class has a
/// space written one class per line, each ended by a line break, so that
/// such classes stay whole.
pub open spec fn class_list_text(v: StringOrList) -> Seq<char> {
    match v {
        StringOrList::String(s) => s@,
        StringOrList::List(l) => if some_element_holds(string_views(l@), ' ') {
            join_terminated(string_views(l@), "\n"@)
        } else {
            join(string_views(l@), " "@)
        },
    }
}

fn any_holds_char(l: &Vec<String>, c: char) -> (r: bool)
    ensures
        r == some_element_holds(string_views(l@), c),
{
    let mut i: usize = 0;
    while i < l.len()
        invariant
            i <= l.len(),
            forall|j: int| 0 <= j < i ==> !(#[trigger] string_views(l@)[j]).contains(c),
        decreases l.len() - i,
    {
        if contains_char(l[i].as_str(), c) {
            assert(string_views(l@)[i as int].contains(c));
            return true;
        }
        i += 1;
    }
    false
}

impl StringOrList {
    /// Collapses an `ignore-classes` value into one string: a list becomes
    /// one class per line.
    pub fn into_class_text(self) -> (r: String)
        ensures
            r@ == class_list_text(self),
    {
        match self {
            StringOrList::String(s) => s,
            StringOrList::List(v) => if any_holds_char(&v, ' ') {
                join_strings_terminated(&v, "\n")
            } else {
                join_strings(&v, " ")
            },
        }
    }

    /// Collapses either form into one string, joining list elements with
    /// `separator`.
    pub fn into_string(self, separator: &str) -> (r: String)
        ensures
            r@ == string_or_list_text(self, separator@),
    {
        match self {
            StringOrList::String(s) => s,
            StringOrList::List(v) => join_strings(&v, separator),
        }
    }
}

impl Default for BehaviorSection {
    fn default() -> (r: Self)
        ensures
            r.autohide is None && r.resident is None && r.multi is None && r.debug is None
                && r.wm is None && r.hide_timeout is None && r.hotspot_delay is None
                && r.hotspot_layer is None,
    {
        BehaviorSection {
            autohide: None,
            resident: None,
            multi: None,
            debug: None,
            wm: None,
            hide_timeout: None,
            hotspot_delay: None,
            hotspot_layer: None,
        }
    }
}

impl Default for LayoutSection {
    fn default() -> (r: Self)
        ensures
            r.position is None && r.alignment is None && r.full is None && r.mt is None
                && r.mb is None && r.ml is None && r.mr is None && r.output is None
                && r.layer is None && r.exclusive is None,
    {
        LayoutSection {
            position: None,
            alignment: None,
            full: None,
            mt: None,
            mb: None,
            ml: None,
            mr: None,
            output: None,
            layer: None,
            exclusive: None,
        }
    }
}

impl Default for AppearanceSection {
    fn default() -> (r: Self)
        ensures
            r.icon_size is None && r.opacity is None && r.css_file is None
                && r.launch_animation is None,
    {
        AppearanceSection { icon_size: None, opacity: None, css_file: None, launch_animation: None }
    }
}

impl Default for LauncherSection {
    fn default() -> (r: Self)
        ensures
            r.launcher_cmd is None && r.launcher_pos is None && r.nolauncher is None
                && r.ico is None,
    {
        LauncherSection { launcher_cmd: None, launcher_pos: None, nolauncher: None, ico: None }
    }
}

impl Default for FiltersSection {
    fn default() -> (r: Self)
        ensures
            r.ignore_classes is None && r.ignore_workspaces is None && r.num_ws is None && r.ws is None
                && r.no_fullscreen_suppress is None,
    {
        FiltersSection {
            ignore_classes: None,
            ignore_workspaces: None,
            num_ws: None,
            ws: None,
            no_fullscreen_suppress: None,
        }
    }
}

/// Every key of the file is absent.
pub open spec fn is_empty_file(f: RawConfigFile) -> bool {
    &&& f.behavior.autohide is None && f.behavior.resident is None && f.behavior.multi is None
    &&& f.behavior.debug is None && f.behavior.wm is None && f.behavior.hide_timeout is None
    &&& f.behavior.hotspot_delay is None && f.behavior.hotspot_layer is None
    &&& f.layout.position is None && f.layout.alignment is None && f.layout.full is None
    &&& f.layout.mt is None && f.layout.mb is None && f.layout.ml is None && f.layout.mr is None
    &&& f.layout.output is None && f.layout.layer is None && f.layout.exclusive is None
    &&& f.appearance.icon_size is None && f.appearance.opacity is None
    &&& f.appearance.css_file is None && f.appearance.launch_animation is None
    &&& f.launcher.launcher_cmd is None && f.launcher.launcher_pos is None
    &&& f.launcher.nolauncher is None && f.launcher.ico is None
    &&& f.filters.ignore_classes is None && f.filters.ignore_workspaces is None
    &&& f.filters.num_ws is None && f.filters.ws is None && f.filters.no_fullscreen_suppress is None
}

impl Default for RawConfigFile {
    fn default() -> (r: Self)
        ensures
            is_empty_file(r),
    {
        RawConfigFile {
            behavior: BehaviorSection::default(),
            layout: LayoutSection::default(),
            appearance: AppearanceSection::default(),
            launcher: LauncherSection::default(),
            filters: FiltersSection::default(),
        }
    }
}

} // verus!

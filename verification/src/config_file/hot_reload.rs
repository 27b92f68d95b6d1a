//! Hot-reload: which settings a freshly merged config changes, which of
//! those need a restart, and what the running dock keeps and updates.

use vstd::prelude::*;
use crate::config::{DockConfig, WmOverride};
use crate::config_file::fields::{
    all_config_fields, all_fields, field_label, is_restart_required, lemma_field_label_injective,
    restart_required, ConfigField,
};
use crate::lemmas::{
    lemma_filter_congruent, lemma_filter_empty_none, lemma_filter_none, lemma_filter_take_step,
};
use crate::text::{join, join_strs, str_equal, str_views};

verus! {

/// The setting `f` has different values in `old` and `new` (strings are
/// compared by content).
pub open spec fn field_differs(old: DockConfig, new: DockConfig, f: ConfigField) -> bool {
    match f {
        ConfigField::Autohide => old.autohide != new.autohide,
        ConfigField::Resident => old.resident != new.resident,
        ConfigField::Multi => old.multi != new.multi,
        ConfigField::Debug => old.debug != new.debug,
        ConfigField::Wm => old.wm != new.wm,
        ConfigField::HideTimeout => old.hide_timeout != new.hide_timeout,
        ConfigField::HotspotDelay => old.hotspot_delay != new.hotspot_delay,
        ConfigField::HotspotLayer => old.hotspot_layer != new.hotspot_layer,
        ConfigField::Position => old.position != new.position,
        ConfigField::Alignment => old.alignment != new.alignment,
        ConfigField::Full => old.full != new.full,
        ConfigField::Mt => old.mt != new.mt,
        ConfigField::Mb => old.mb != new.mb,
        ConfigField::Ml => old.ml != new.ml,
        ConfigField::Mr => old.mr != new.mr,
        ConfigField::Output => old.output@ != new.output@,
        ConfigField::Layer => old.layer != new.layer,
        ConfigField::Exclusive => old.exclusive != new.exclusive,
        ConfigField::IconSize => old.icon_size != new.icon_size,
        ConfigField::Opacity => old.opacity != new.opacity,
        ConfigField::CssFile => old.css_file@ != new.css_file@,
        ConfigField::LaunchAnimation => old.launch_animation != new.launch_animation,
        ConfigField::LauncherCmd => old.launcher_cmd@ != new.launcher_cmd@,
        ConfigField::LauncherPos => old.launcher_pos != new.launcher_pos,
        ConfigField::Nolauncher => old.nolauncher != new.nolauncher,
        ConfigField::Ico => old.ico@ != new.ico@,
        ConfigField::IgnoreClasses => old.ignore_classes@ != new.ignore_classes@,
        ConfigField::IgnoreWorkspaces => old.ignore_workspaces@ != new.ignore_workspaces@,
        ConfigField::NumWs => old.num_ws != new.num_ws,
        ConfigField::Ws => old.ws != new.ws,
        ConfigField::NoFullscreenSuppress => old.no_fullscreen_suppress
            != new.no_fullscreen_suppress,
    }
}

/// The settings that differ, in file order.
pub open spec fn changed_fields(old: DockConfig, new: DockConfig) -> Seq<ConfigField> {
    all_config_fields().filter(|f: ConfigField| field_differs(old, new, f))
}

/// The differing settings that need a restart, in file order.
pub open spec fn restart_changes(old: DockConfig, new: DockConfig) -> Seq<ConfigField> {
    all_config_fields().filter(|f: ConfigField| field_differs(old, new, f) && is_restart_required(f))
}

/// The differing settings that apply live, in file order.
pub open spec fn hot_changes(old: DockConfig, new: DockConfig) -> Seq<ConfigField> {
    all_config_fields().filter(
        |f: ConfigField| field_differs(old, new, f) && !is_restart_required(f),
    )
}

/// File labels of a list of settings.
pub open spec fn labels(fs: Seq<ConfigField>) -> Seq<Seq<char>> {
    fs.map_values(|f: ConfigField| field_label(f))
}

/// Outcome of comparing the live config against a freshly merged one.
#[derive(Debug)]
pub enum DiffResult {
    /// No tracked setting changed.
    NoChange,
    /// Only live-applicable settings changed.
    Applicable { applied: Vec<&'static str> },
    /// At least one restart-required setting changed; `applied` lists the
    /// live-applicable settings that changed in the same save.
    RestartRequired { restart_fields: Vec<&'static str>, applied: Vec<&'static str> },
}

/// `r` is the diff of `old` against `new`.
pub open spec fn is_diff_of(old: DockConfig, new: DockConfig, r: DiffResult) -> bool {
    match r {
        DiffResult::NoChange => changed_fields(old, new).len() == 0,
        DiffResult::Applicable { applied } => {
            &&& changed_fields(old, new).len() > 0
            &&& restart_changes(old, new).len() == 0
            &&& str_views(applied@) == labels(hot_changes(old, new))
        },
        DiffResult::RestartRequired { restart_fields, applied } => {
            &&& restart_changes(old, new).len() > 0
            &&& str_views(restart_fields@) == labels(restart_changes(old, new))
            &&& str_views(applied@) == labels(hot_changes(old, new))
        },
    }
}

fn wm_differs(a: Option<WmOverride>, b: Option<WmOverride>) -> (r: bool)
    ensures
        r == (a != b),
{
    match (a, b) {
        (None, None) => false,
        (Some(x), Some(y)) => x != y,
        _ => true,
    }
}

fn behavior_differs(old: &DockConfig, new: &DockConfig, f: ConfigField) -> (r: bool)
    requires
        f == ConfigField::Autohide || f == ConfigField::Resident || f == ConfigField::Multi || f
            == ConfigField::Debug || f == ConfigField::Wm || f == ConfigField::HideTimeout || f
            == ConfigField::HotspotDelay || f == ConfigField::HotspotLayer,
    ensures
        r == field_differs(*old, *new, f),
{
    match f {
        ConfigField::Autohide => old.autohide != new.autohide,
        ConfigField::Resident => old.resident != new.resident,
        ConfigField::Multi => old.multi != new.multi,
        ConfigField::Debug => old.debug != new.debug,
        ConfigField::Wm => wm_differs(old.wm, new.wm),
        ConfigField::HideTimeout => old.hide_timeout != new.hide_timeout,
        ConfigField::HotspotDelay => old.hotspot_delay != new.hotspot_delay,
        _ => old.hotspot_layer != new.hotspot_layer,
    }
}

fn layout_differs(old: &DockConfig, new: &DockConfig, f: ConfigField) -> (r: bool)
    requires
        f == ConfigField::Position || f == ConfigField::Alignment || f == ConfigField::Full || f
            == ConfigField::Mt || f == ConfigField::Mb || f == ConfigField::Ml || f
            == ConfigField::Mr || f == ConfigField::Output || f == ConfigField::Layer || f
            == ConfigField::Exclusive,
    ensures
        r == field_differs(*old, *new, f),
{
    match f {
        ConfigField::Position => old.position != new.position,
        ConfigField::Alignment => old.alignment != new.alignment,
        ConfigField::Full => old.full != new.full,
        ConfigField::Mt => old.mt != new.mt,
        ConfigField::Mb => old.mb != new.mb,
        ConfigField::Ml => old.ml != new.ml,
        ConfigField::Mr => old.mr != new.mr,
        ConfigField::Output => !(old.output == new.output),
        ConfigField::Layer => old.layer != new.layer,
        _ => old.exclusive != new.exclusive,
    }
}

fn appearance_launcher_differs(old: &DockConfig, new: &DockConfig, f: ConfigField) -> (r: bool)
    requires
        f == ConfigField::IconSize || f == ConfigField::Opacity || f == ConfigField::CssFile || f
            == ConfigField::LaunchAnimation || f == ConfigField::LauncherCmd || f
            == ConfigField::LauncherPos || f == ConfigField::Nolauncher || f == ConfigField::Ico,
    ensures
        r == field_differs(*old, *new, f),
{
    match f {
        ConfigField::IconSize => old.icon_size != new.icon_size,
        ConfigField::Opacity => old.opacity != new.opacity,
        ConfigField::CssFile => !(old.css_file == new.css_file),
        ConfigField::LaunchAnimation => old.launch_animation != new.launch_animation,
        ConfigField::LauncherCmd => !(old.launcher_cmd == new.launcher_cmd),
        ConfigField::LauncherPos => old.launcher_pos != new.launcher_pos,
        ConfigField::Nolauncher => old.nolauncher != new.nolauncher,
        _ => !(old.ico == new.ico),
    }
}

fn filters_differs(old: &DockConfig, new: &DockConfig, f: ConfigField) -> (r: bool)
    requires
        f == ConfigField::IgnoreClasses || f == ConfigField::IgnoreWorkspaces || f
            == ConfigField::NumWs || f == ConfigField::Ws || f == ConfigField::NoFullscreenSuppress,
    ensures
        r == field_differs(*old, *new, f),
{
    match f {
        ConfigField::IgnoreClasses => !(old.ignore_classes == new.ignore_classes),
        ConfigField::IgnoreWorkspaces => !(old.ignore_workspaces == new.ignore_workspaces),
        ConfigField::NumWs => old.num_ws != new.num_ws,
        ConfigField::Ws => old.ws != new.ws,
        _ => old.no_fullscreen_suppress != new.no_fullscreen_suppress,
    }
}

/// Whether setting `f` differs between `old` and `new`.
pub fn differs(old: &DockConfig, new: &DockConfig, f: ConfigField) -> (r: bool)
    ensures
        r == field_differs(*old, *new, f),
{
    match f {
        ConfigField::Autohide | ConfigField::Resident | ConfigField::Multi | ConfigField::Debug
        | ConfigField::Wm | ConfigField::HideTimeout | ConfigField::HotspotDelay
        | ConfigField::HotspotLayer => behavior_differs(old, new, f),
        ConfigField::Position | ConfigField::Alignment | ConfigField::Full | ConfigField::Mt
        | ConfigField::Mb | ConfigField::Ml | ConfigField::Mr | ConfigField::Output
        | ConfigField::Layer | ConfigField::Exclusive => layout_differs(old, new, f),
        ConfigField::IconSize | ConfigField::Opacity | ConfigField::CssFile
        | ConfigField::LaunchAnimation | ConfigField::LauncherCmd | ConfigField::LauncherPos
        | ConfigField::Nolauncher | ConfigField::Ico => appearance_launcher_differs(old, new, f),
        _ => filters_differs(old, new, f),
    }
}

fn field_labels(fs: &Vec<ConfigField>) -> (r: Vec<&'static str>)
    ensures
        str_views(r@) == labels(fs@),
{
    let mut out: Vec<&'static str> = Vec::new();
    let mut i: usize = 0;
    while i < fs.len()
        invariant
            i <= fs.len(),
            str_views(out@) == labels(fs@).take(i as int),
        decreases fs.len() - i,
    {
        let l = fs[i].label();
        let ghost before = out@;
        out.push(l);
        assert(str_views(out@) =~= str_views(before).push(l@));
        assert(labels(fs@).take(i + 1) =~= labels(fs@).take(i as int).push(field_label(fs@[i as int])));
        i += 1;
    }
    assert(labels(fs@).take(fs.len() as int) =~= labels(fs@));
    out
}

/// Computes which settings differ between `old` and `new` and classifies
/// them as restart-required or live-applicable.
pub fn diff_config(old: &DockConfig, new: &DockConfig) -> (r: DiffResult)
    ensures
        is_diff_of(*old, *new, r),
{
    let fields = all_fields();
    let ghost all = all_config_fields();
    let ghost pd = |f: ConfigField| field_differs(*old, *new, f);
    let ghost pr = |f: ConfigField| field_differs(*old, *new, f) && is_restart_required(f);
    let ghost ph = |f: ConfigField| field_differs(*old, *new, f) && !is_restart_required(f);
    let mut changed: Vec<ConfigField> = Vec::new();
    let mut restart: Vec<ConfigField> = Vec::new();
    let mut hot: Vec<ConfigField> = Vec::new();
    let mut i: usize = 0;
    assert(all.take(0) =~= Seq::<ConfigField>::empty());
    proof {
        reveal(Seq::filter);
    }
    while i < fields.len()
        invariant
            fields@ == all,
            all == all_config_fields(),
            pd == (|f: ConfigField| field_differs(*old, *new, f)),
            pr == (|f: ConfigField| field_differs(*old, *new, f) && is_restart_required(f)),
            ph == (|f: ConfigField| field_differs(*old, *new, f) && !is_restart_required(f)),
            i <= fields.len(),
            changed@ == all.take(i as int).filter(pd),
            restart@ == all.take(i as int).filter(pr),
            hot@ == all.take(i as int).filter(ph),
        decreases fields.len() - i,
    {
        let f = fields[i];
        proof {
            lemma_filter_take_step(all, pd, i as int);
            lemma_filter_take_step(all, pr, i as int);
            lemma_filter_take_step(all, ph, i as int);
        }
        if differs(old, new, f) {
            changed.push(f);
            if restart_required(f) {
                restart.push(f);
            } else {
                hot.push(f);
            }
        }
        i += 1;
    }
    assert(all.take(fields.len() as int) =~= all);
    if changed.len() == 0 {
        return DiffResult::NoChange;
    }
    let applied = field_labels(&hot);
    if restart.len() == 0 {
        DiffResult::Applicable { applied }
    } else {
        let restart_fields = field_labels(&restart);
        DiffResult::RestartRequired { restart_fields, applied }
    }
}


/// `n` with the restart-required settings taken from `o`: what the live
/// config becomes after a save that changed restart-required settings.
pub open spec fn with_restart_fields_of(n: DockConfig, o: DockConfig) -> DockConfig {
    DockConfig {
        multi: o.multi,
        wm: o.wm,
        autohide: o.autohide,
        resident: o.resident,
        hotspot_layer: o.hotspot_layer,
        layer: o.layer,
        exclusive: o.exclusive,
        position: o.position,
        full: o.full,
        ..n
    }
}

/// File labels of the restart-required settings.
pub open spec fn restart_labels() -> Seq<Seq<char>> {
    seq![
        "multi"@,
        "wm"@,
        "autohide"@,
        "resident"@,
        "hotspot-layer"@,
        "layer"@,
        "exclusive"@,
        "position"@,
        "full"@,
    ]
}

/// The file labels of the restart-required settings, as a vector.
pub fn restart_required_labels() -> (r: Vec<&'static str>)
    ensures
        str_views(r@) == restart_labels(),
{
    let r = vec!["multi", "wm", "autohide", "resident", "hotspot-layer", "layer", "exclusive", "position", "full"];
    assert(str_views(r@) =~= restart_labels());
    r
}

/// Preserving every restart-required label is taking all restart-required
/// settings from `source`.
proof fn lemma_preserve_all_restart(source: DockConfig, target: DockConfig)
    ensures
        preserved_from(source, target, restart_labels()) == with_restart_fields_of(target, source),
{
    let l = restart_labels();
    assert(l[0] == "multi"@);
    assert(l[1] == "wm"@);
    assert(l[2] == "autohide"@);
    assert(l[3] == "resident"@);
    assert(l[4] == "hotspot-layer"@);
    assert(l[5] == "layer"@);
    assert(l[6] == "exclusive"@);
    assert(l[7] == "position"@);
    assert(l[8] == "full"@);
}

/// `target` with each restart-required setting whose label is listed in
/// `fields` taken from `source`.
pub open spec fn preserved_from(source: DockConfig, target: DockConfig, fields: Seq<Seq<char>>) -> DockConfig {
    DockConfig {
        multi: if fields.contains("multi"@) { source.multi } else { target.multi },
        wm: if fields.contains("wm"@) { source.wm } else { target.wm },
        autohide: if fields.contains("autohide"@) { source.autohide } else { target.autohide },
        resident: if fields.contains("resident"@) { source.resident } else { target.resident },
        hotspot_layer: if fields.contains("hotspot-layer"@) {
            source.hotspot_layer
        } else {
            target.hotspot_layer
        },
        layer: if fields.contains("layer"@) { source.layer } else { target.layer },
        exclusive: if fields.contains("exclusive"@) { source.exclusive } else { target.exclusive },
        position: if fields.contains("position"@) { source.position } else { target.position },
        full: if fields.contains("full"@) { source.full } else { target.full },
        ..target
    }
}

/// `target` with the restart-required setting labelled `label` (if any)
/// taken from `source`.
pub open spec fn preserved_one(source: DockConfig, target: DockConfig, label: Seq<char>) -> DockConfig {
    DockConfig {
        multi: if label == "multi"@ { source.multi } else { target.multi },
        wm: if label == "wm"@ { source.wm } else { target.wm },
        autohide: if label == "autohide"@ { source.autohide } else { target.autohide },
        resident: if label == "resident"@ { source.resident } else { target.resident },
        hotspot_layer: if label == "hotspot-layer"@ {
            source.hotspot_layer
        } else {
            target.hotspot_layer
        },
        layer: if label == "layer"@ { source.layer } else { target.layer },
        exclusive: if label == "exclusive"@ { source.exclusive } else { target.exclusive },
        position: if label == "position"@ { source.position } else { target.position },
        full: if label == "full"@ { source.full } else { target.full },
        ..target
    }
}

#[verifier::rlimit(40)]
fn apply_restart_label(source: &DockConfig, target: &mut DockConfig, label: &str)
    ensures
        *final(target) == preserved_one(*source, *old(target), label@),
{
    let multi = if str_equal(label, "multi") { source.multi } else { target.multi };
    let wm = if str_equal(label, "wm") { source.wm } else { target.wm };
    let autohide = if str_equal(label, "autohide") { source.autohide } else { target.autohide };
    let resident = if str_equal(label, "resident") { source.resident } else { target.resident };
    let hotspot_layer = if str_equal(label, "hotspot-layer") {
        source.hotspot_layer
    } else {
        target.hotspot_layer
    };
    let layer = if str_equal(label, "layer") { source.layer } else { target.layer };
    let exclusive = if str_equal(label, "exclusive") { source.exclusive } else { target.exclusive };
    let position = if str_equal(label, "position") { source.position } else { target.position };
    let full = if str_equal(label, "full") { source.full } else { target.full };
    target.multi = multi;
    target.wm = wm;
    target.autohide = autohide;
    target.resident = resident;
    target.hotspot_layer = hotspot_layer;
    target.layer = layer;
    target.exclusive = exclusive;
    target.position = position;
    target.full = full;
}

proof fn lemma_preserved_from_push(
    source: DockConfig,
    start: DockConfig,
    pre: Seq<Seq<char>>,
    label: Seq<char>,
)
    ensures
        preserved_from(source, start, pre.push(label)) == preserved_one(
            source,
            preserved_from(source, start, pre),
            label,
        ),
{
    let post = pre.push(label);
    assert forall|x: Seq<char>| post.contains(x) <==> (pre.contains(x) || x == label) by {
        if post.contains(x) {
            let k = choose|k: int| 0 <= k < post.len() && post[k] == x;
            if k < pre.len() {
                assert(pre[k] == x);
            }
        }
        if pre.contains(x) {
            let k = choose|k: int| 0 <= k < pre.len() && pre[k] == x;
            assert(post[k] == x);
        }
        if x == label {
            assert(post[pre.len() as int] == x);
        }
    }
}

/// Overwrites the restart-required settings named in `fields` on `target`
/// with the values from `source`, leaving every other setting untouched.
pub fn preserve_restart_fields(source: &DockConfig, target: &mut DockConfig, fields: &[&'static str])
    ensures
        *final(target) == preserved_from(*source, *old(target), str_views(fields@)),
{
    let ghost start = *target;
    let mut i: usize = 0;
    assert(str_views(fields@).take(0) =~= Seq::<Seq<char>>::empty());
    while i < fields.len()
        invariant
            i <= fields.len(),
            *target == preserved_from(*source, start, str_views(fields@).take(i as int)),
        decreases fields.len() - i,
    {
        let label = fields[i];
        proof {
            let pre = str_views(fields@).take(i as int);
            assert(str_views(fields@).take(i + 1) =~= pre.push(label@));
            lemma_preserved_from_push(*source, start, pre, label@);
        }
        apply_restart_label(source, target, label);
        i += 1;
    }
    assert(str_views(fields@).take(fields.len() as int) =~= str_views(fields@));
}

/// Per-setting updates the running dock performs on a reload; `None` where
/// the setting did not change.
#[derive(Debug)]
pub struct HotReloadActions {
    pub margin_top: Option<i32>,
    pub margin_bottom: Option<i32>,
    pub margin_left: Option<i32>,
    pub margin_right: Option<i32>,
    pub opacity: Option<u8>,
    pub debug: Option<bool>,
    pub css_file: Option<String>,
}

/// `a` lists exactly the window-margin, opacity, log-level and CSS-file
/// changes from `old` to `new`, each with its new value.
pub open spec fn is_actions_for(old: DockConfig, new: DockConfig, a: HotReloadActions) -> bool {
    &&& a.margin_top == (if old.mt != new.mt { Some(new.mt) } else { None })
    &&& a.margin_bottom == (if old.mb != new.mb { Some(new.mb) } else { None })
    &&& a.margin_left == (if old.ml != new.ml { Some(new.ml) } else { None })
    &&& a.margin_right == (if old.mr != new.mr { Some(new.mr) } else { None })
    &&& a.opacity == (if old.opacity != new.opacity { Some(new.opacity) } else { None })
    &&& a.debug == (if old.debug != new.debug { Some(new.debug) } else { None })
    &&& (a.css_file is Some <==> old.css_file@ != new.css_file@)
    &&& (a.css_file matches Some(p) ==> p@ == new.css_file@)
}

/// The per-setting updates a reload from `old` to `new` needs.
pub fn hot_reload_actions(old: &DockConfig, new: &DockConfig) -> (r: HotReloadActions)
    ensures
        is_actions_for(*old, *new, r),
{
    HotReloadActions {
        margin_top: if old.mt != new.mt { Some(new.mt) } else { None },
        margin_bottom: if old.mb != new.mb { Some(new.mb) } else { None },
        margin_left: if old.ml != new.ml { Some(new.ml) } else { None },
        margin_right: if old.mr != new.mr { Some(new.mr) } else { None },
        opacity: if old.opacity != new.opacity { Some(new.opacity) } else { None },
        debug: if old.debug != new.debug { Some(new.debug) } else { None },
        css_file: if old.css_file == new.css_file { None } else { Some(new.css_file.clone()) },
    }
}

/// Applies a freshly merged config to the live one.
///
/// No change: the live config stays. Only live settings changed: the live
/// config becomes `new`. Restart-required settings changed: the live config
/// becomes `new` with the restart-required settings kept at their running
/// values, so later reloads keep flagging them until the dock restarts.
/// Returns the diff and, unless nothing changed, the per-setting updates
/// the running dock performs.
pub fn apply_config_change(current: &mut DockConfig, new: DockConfig) -> (r: (
    DiffResult,
    Option<HotReloadActions>,
))
    ensures
        is_diff_of(*old(current), new, r.0),
        r.0 is NoChange ==> *final(current) == *old(current) && r.1 is None,
        r.0 is Applicable ==> *final(current) == new,
        r.0 is RestartRequired ==> *final(current) == with_restart_fields_of(new, *old(current)),
        !(r.0 is NoChange) ==> (r.1 matches Some(a) && is_actions_for(*old(current), new, a)),
        *final(current) == config_after(*old(current), new),
{
    let result = diff_config(current, &new);
    proof {
        lemma_restart_change_is_change(*current, new);
    }
    match result {
        DiffResult::NoChange => (result, None),
        DiffResult::Applicable { .. } => {
            let actions = hot_reload_actions(current, &new);
            *current = new;
            (result, Some(actions))
        },
        DiffResult::RestartRequired { .. } => {
            let actions = hot_reload_actions(current, &new);
            let mut next = new;
            let labels = restart_required_labels();
            preserve_restart_fields(current, &mut next, labels.as_slice());
            proof {
                lemma_preserve_all_restart(*old(current), new);
            }
            *current = next;
            (result, Some(actions))
        },
    }
}

/// `labels` without the `css-file` entry.
pub open spec fn without_css_label(labels: Seq<Seq<char>>) -> Seq<Seq<char>> {
    labels.filter(|l: Seq<char>| l != "css-file"@)
}

fn drop_css_label(applied: &Vec<&'static str>) -> (r: Vec<&'static str>)
    ensures
        str_views(r@) == without_css_label(str_views(applied@)),
{
    let ghost views = str_views(applied@);
    let ghost keep = |l: Seq<char>| l != "css-file"@;
    let mut out: Vec<&'static str> = Vec::new();
    let mut i: usize = 0;
    while i < applied.len()
        invariant
            views == str_views(applied@),
            keep == (|l: Seq<char>| l != "css-file"@),
            i <= applied.len(),
            str_views(out@) == views.take(i as int).filter(keep),
        decreases applied.len() - i,
    {
        let l = applied[i];
        proof {
            lemma_filter_take_step(views, keep, i as int);
        }
        if !str_equal(l, "css-file") {
            let ghost before = out@;
            out.push(l);
            assert(str_views(out@) =~= str_views(before).push(l@));
        }
        i += 1;
    }
    assert(views.take(applied.len() as int) =~= views);
    out
}

/// `r` is `result` once a CSS reload that did not happen is taken out of
/// it: `css-file` leaves the applied settings, and a live-only reload that
/// applied nothing else becomes no change.
pub open spec fn is_settled_after_failed_css(result: DiffResult, r: DiffResult) -> bool {
    match result {
        DiffResult::NoChange => r is NoChange,
        DiffResult::Applicable { applied } => {
            let rest = without_css_label(str_views(applied@));
            if rest.len() == 0 {
                r is NoChange
            } else {
                r matches DiffResult::Applicable { applied: a } && str_views(a@) == rest
            }
        },
        DiffResult::RestartRequired { restart_fields, applied } => {
            r matches DiffResult::RestartRequired { restart_fields: rf, applied: a }
                && str_views(rf@) == str_views(restart_fields@)
                && str_views(a@) == without_css_label(str_views(applied@))
        },
    }
}

/// Settles a reload once the dock has tried to load the new CSS file.
/// When `reloaded` is false (the file was missing or could not be loaded)
/// the live config goes back to `previous_css`, the file still in use, and
/// `css-file` is no longer reported as applied; otherwise nothing changes.
pub fn settle_css_reload(
    result: DiffResult,
    current: &mut DockConfig,
    previous_css: &String,
    reloaded: bool,
) -> (r: DiffResult)
    ensures
        reloaded ==> r == result && *final(current) == *old(current),
        !reloaded ==> *final(current) == (DockConfig { css_file: final(current).css_file, ..*old(current) }),
        !reloaded ==> final(current).css_file@ == previous_css@,
        !reloaded ==> is_settled_after_failed_css(result, r),
{
    if reloaded {
        return result;
    }
    current.css_file = previous_css.clone();
    match result {
        DiffResult::NoChange => DiffResult::NoChange,
        DiffResult::Applicable { applied } => {
            let rest = drop_css_label(&applied);
            if rest.len() == 0 {
                DiffResult::NoChange
            } else {
                DiffResult::Applicable { applied: rest }
            }
        },
        DiffResult::RestartRequired { restart_fields, applied } => {
            let rest = drop_css_label(&applied);
            DiffResult::RestartRequired { restart_fields, applied: rest }
        },
    }
}

/// Desktop-notification summary and body for a reload outcome (`None` when
/// nothing changed).
pub open spec fn reload_message(r: DiffResult) -> Option<(Seq<char>, Seq<char>)> {
    match r {
        DiffResult::NoChange => None,
        DiffResult::Applicable { applied } => Some(
            ("nwg-dock: config reloaded"@, "Applied: "@ + join(str_views(applied@), ", "@)),
        ),
        DiffResult::RestartRequired { restart_fields, applied } => Some(
            (
                "nwg-dock: config reloaded"@,
                if applied.len() == 0 {
                    "Restart required for: "@ + join(str_views(restart_fields@), ", "@)
                } else {
                    "Applied: "@ + join(str_views(applied@), ", "@) + "; Restart required for: "@
                        + join(str_views(restart_fields@), ", "@)
                },
            ),
        ),
    }
}

/// The notification a reload produces (summary, body).
pub fn reload_notification(result: &DiffResult) -> (r: Option<(String, String)>)
    ensures
        r is Some <==> reload_message(*result) is Some,
        r matches Some((s, b)) ==> reload_message(*result) == Some((s@, b@)),
{
    match result {
        DiffResult::NoChange => None,
        DiffResult::Applicable { applied } => {
            let mut body = String::from_str("Applied: ");
            body.append(join_strs(applied, ", ").as_str());
            Some((String::from_str("nwg-dock: config reloaded"), body))
        },
        DiffResult::RestartRequired { restart_fields, applied } => {
            let body = if applied.len() == 0 {
                let mut b = String::from_str("Restart required for: ");
                b.append(join_strs(restart_fields, ", ").as_str());
                b
            } else {
                let mut b = String::from_str("Applied: ");
                b.append(join_strs(applied, ", ").as_str());
                b.append("; Restart required for: ");
                b.append(join_strs(restart_fields, ", ").as_str());
                b
            };
            Some((String::from_str("nwg-dock: config reloaded"), body))
        },
    }
}

/// Law: comparing a config with itself reports no change.
pub proof fn lemma_diff_of_identical_is_no_change(c: DockConfig)
    ensures
        changed_fields(c, c).len() == 0,
        forall|r: DiffResult| is_diff_of(c, c, r) ==> r is NoChange,
{
    lemma_filter_none(all_config_fields(), |f: ConfigField| field_differs(c, c, f));
    lemma_filter_none(
        all_config_fields(),
        |f: ConfigField| field_differs(c, c, f) && is_restart_required(f),
    );
}

proof fn lemma_field_differs_symmetric(a: DockConfig, b: DockConfig, f: ConfigField)
    ensures
        field_differs(a, b, f) == field_differs(b, a, f),
{
}

/// Law: a setting differs from `a` to `b` exactly when it differs from `b`
/// to `a`, so the diff reports the same settings both ways.
pub proof fn lemma_diff_symmetric(a: DockConfig, b: DockConfig)
    ensures
        changed_fields(a, b) == changed_fields(b, a),
        restart_changes(a, b) == restart_changes(b, a),
        hot_changes(a, b) == hot_changes(b, a),
{
    let all = all_config_fields();
    assert forall|f: ConfigField| field_differs(a, b, f) == field_differs(b, a, f) by {
        lemma_field_differs_symmetric(a, b, f);
    }
    lemma_filter_congruent(
        all,
        |f: ConfigField| field_differs(a, b, f),
        |f: ConfigField| field_differs(b, a, f),
    );
    lemma_filter_congruent(
        all,
        |f: ConfigField| field_differs(a, b, f) && is_restart_required(f),
        |f: ConfigField| field_differs(b, a, f) && is_restart_required(f),
    );
    lemma_filter_congruent(
        all,
        |f: ConfigField| field_differs(a, b, f) && !is_restart_required(f),
        |f: ConfigField| field_differs(b, a, f) && !is_restart_required(f),
    );
}

/// Law: after a save that changed restart-required settings, saving the same
/// file again flags the same restart-required settings and applies nothing
/// more (the pending restart stays visible until the dock restarts).
pub proof fn lemma_restart_fields_stay_flagged(old: DockConfig, new: DockConfig)
    ensures
        restart_changes(with_restart_fields_of(new, old), new) == restart_changes(old, new),
        hot_changes(with_restart_fields_of(new, old), new).len() == 0,
{
    let next = with_restart_fields_of(new, old);
    let all = all_config_fields();
    assert forall|i: int| 0 <= i < all.len() implies (field_differs(next, new, all[i])
        && is_restart_required(all[i])) == (field_differs(old, new, all[i]) && is_restart_required(
        all[i],
    )) by {}
    lemma_filter_congruent(
        all,
        |f: ConfigField| field_differs(next, new, f) && is_restart_required(f),
        |f: ConfigField| field_differs(old, new, f) && is_restart_required(f),
    );
    lemma_filter_none(all, |f: ConfigField| field_differs(next, new, f) && !is_restart_required(f));
}

/// Law: reverting the file to the running values of the restart-required
/// settings leaves no restart pending.
pub proof fn lemma_revert_clears_restart(old: DockConfig, new: DockConfig)
    ensures
        restart_changes(with_restart_fields_of(new, old), old).len() == 0,
{
    let next = with_restart_fields_of(new, old);
    lemma_filter_none(
        all_config_fields(),
        |f: ConfigField| field_differs(next, old, f) && is_restart_required(f),
    );
}

/// The position of a setting in file order.
pub open spec fn field_index(f: ConfigField) -> int {
    match f {
        ConfigField::Autohide => 0,
        ConfigField::Resident => 1,
        ConfigField::Multi => 2,
        ConfigField::Debug => 3,
        ConfigField::Wm => 4,
        ConfigField::HideTimeout => 5,
        ConfigField::HotspotDelay => 6,
        ConfigField::HotspotLayer => 7,
        ConfigField::Position => 8,
        ConfigField::Alignment => 9,
        ConfigField::Full => 10,
        ConfigField::Mt => 11,
        ConfigField::Mb => 12,
        ConfigField::Ml => 13,
        ConfigField::Mr => 14,
        ConfigField::Output => 15,
        ConfigField::Layer => 16,
        ConfigField::Exclusive => 17,
        ConfigField::IconSize => 18,
        ConfigField::Opacity => 19,
        ConfigField::CssFile => 20,
        ConfigField::LaunchAnimation => 21,
        ConfigField::LauncherCmd => 22,
        ConfigField::LauncherPos => 23,
        ConfigField::Nolauncher => 24,
        ConfigField::Ico => 25,
        ConfigField::IgnoreClasses => 26,
        ConfigField::IgnoreWorkspaces => 27,
        ConfigField::NumWs => 28,
        ConfigField::Ws => 29,
        ConfigField::NoFullscreenSuppress => 30,
    }
}

proof fn lemma_field_index(f: ConfigField)
    ensures
        0 <= field_index(f) < all_config_fields().len(),
        all_config_fields()[field_index(f)] == f,
{
}

/// What the live config becomes when `new` is applied to `old`.
pub open spec fn config_after(old: DockConfig, new: DockConfig) -> DockConfig {
    if restart_changes(old, new).len() > 0 {
        with_restart_fields_of(new, old)
    } else if changed_fields(old, new).len() == 0 {
        old
    } else {
        new
    }
}

/// A restart-required change is a change.
proof fn lemma_restart_change_is_change(old: DockConfig, new: DockConfig)
    ensures
        restart_changes(old, new).len() > 0 ==> changed_fields(old, new).len() > 0,
{
    if restart_changes(old, new).len() > 0 {
        let all = all_config_fields();
        let pr = |f: ConfigField| field_differs(old, new, f) && is_restart_required(f);
        all.lemma_filter_pred(pr, 0);
        let f = all.filter(pr)[0];
        lemma_field_index(f);
        all.lemma_filter_contains(|g: ConfigField| field_differs(old, new, g), field_index(f));
    }
}

proof fn lemma_differs_trans(a: DockConfig, b: DockConfig, c: DockConfig, f: ConfigField)
    ensures
        !field_differs(a, b, f) && !field_differs(b, c, f) ==> !field_differs(a, c, f),
{
}

proof fn lemma_with_restart_fields_at(n: DockConfig, o: DockConfig, f: ConfigField)
    ensures
        is_restart_required(f) ==> !field_differs(with_restart_fields_of(n, o), o, f),
        !is_restart_required(f) ==> (field_differs(with_restart_fields_of(n, o), o, f)
            == field_differs(n, o, f)),
{
}

proof fn lemma_flagged_again(o: DockConfig, n1: DockConfig, n2: DockConfig, x: ConfigField)
    requires
        field_differs(o, n1, x),
        is_restart_required(x),
        !field_differs(n1, n2, x),
    ensures
        field_differs(config_after(o, n1), n2, x),
        restart_changes(config_after(o, n1), n2).contains(x),
        restart_changes(config_after(o, n1), n2).len() > 0,
{
    let all = all_config_fields();
    lemma_field_index(x);
    let i = field_index(x);
    all.lemma_filter_contains(|f: ConfigField| field_differs(o, n1, f) && is_restart_required(f), i);
    let c1 = config_after(o, n1);
    assert(c1 == with_restart_fields_of(n1, o));
    lemma_with_restart_fields_at(n1, o, x);
    lemma_field_differs_symmetric(c1, o, x);
    lemma_differs_trans(n2, n1, o, x);
    lemma_field_differs_symmetric(n1, n2, x);
    lemma_field_differs_symmetric(o, n1, x);
    lemma_differs_trans(c1, n2, n1, x);
    lemma_differs_trans(n1, c1, o, x);
    assert(field_differs(c1, n2, x));
    all.lemma_filter_contains(|f: ConfigField| field_differs(c1, n2, f) && is_restart_required(f), i);
}

proof fn lemma_revert_reports_nothing(o: DockConfig, n1: DockConfig, n2: DockConfig)
    requires
        hot_changes(o, n1).len() == 0,
        changed_fields(o, n2).len() == 0,
    ensures
        changed_fields(config_after(o, n1), n2).len() == 0,
{
    let all = all_config_fields();
    let c1 = config_after(o, n1);
    lemma_filter_empty_none(all, |f: ConfigField| field_differs(o, n1, f) && !is_restart_required(f));
    lemma_filter_empty_none(all, |f: ConfigField| field_differs(o, n2, f));
    let no_restart = restart_changes(o, n1).len() == 0;
    if no_restart {
        lemma_filter_empty_none(all, |f: ConfigField| field_differs(o, n1, f) && is_restart_required(f));
    }
    assert forall|i: int| 0 <= i < all.len() implies !field_differs(c1, n2, #[trigger] all[i]) by {
        let f = all[i];
        assert(!(field_differs(o, n1, f) && !is_restart_required(f)));
        assert(!field_differs(o, n2, f));
        if no_restart {
            assert(!(field_differs(o, n1, f) && is_restart_required(f)));
        }
        lemma_field_differs_symmetric(o, n1, f);
        lemma_with_restart_fields_at(n1, o, f);
        assert(!field_differs(c1, o, f));
        lemma_differs_trans(c1, o, n2, f);
    }
    lemma_filter_none(all, |f: ConfigField| field_differs(c1, n2, f));
}

/// Law over two saves. A restart-required setting flagged by the first
/// save is flagged again by every later save that keeps its new value, so
/// a pending restart stays reported until the dock restarts. A save that
/// changed only restart-required settings, followed by one that reverts
/// every setting to the running values, reports no change.
pub proof fn lemma_pending_restart_across_saves(
    o: DockConfig,
    n1: DockConfig,
    n2: DockConfig,
    x: ConfigField,
)
    ensures
        field_differs(o, n1, x) && is_restart_required(x) && !field_differs(n1, n2, x) ==> {
            &&& field_differs(config_after(o, n1), n2, x)
            &&& restart_changes(config_after(o, n1), n2).contains(x)
            &&& restart_changes(config_after(o, n1), n2).len() > 0
        },
        hot_changes(o, n1).len() == 0 && changed_fields(o, n2).len() == 0 ==> changed_fields(
            config_after(o, n1),
            n2,
        ).len() == 0,
{
    if field_differs(o, n1, x) && is_restart_required(x) && !field_differs(n1, n2, x) {
        lemma_flagged_again(o, n1, n2, x);
    }
    if hot_changes(o, n1).len() == 0 && changed_fields(o, n2).len() == 0 {
        lemma_revert_reports_nothing(o, n1, n2);
    }
}

/// The label of a setting is among the labels of a list of settings
/// exactly when the setting is in the list.
proof fn lemma_labels_contain(fs: Seq<ConfigField>, x: ConfigField)
    ensures
        labels(fs).contains(field_label(x)) <==> fs.contains(x),
{
    if labels(fs).contains(field_label(x)) {
        let k = choose|k: int| 0 <= k < labels(fs).len() && labels(fs)[k] == field_label(x);
        lemma_field_label_injective(fs[k], x);
        assert(fs[k] == x);
    }
    if fs.contains(x) {
        let k = choose|k: int| 0 <= k < fs.len() && fs[k] == x;
        assert(labels(fs)[k] == field_label(x));
    }
}

/// Law over two saves, stated over the reported labels. When the first
/// save reports setting `x` as needing a restart and the second save keeps
/// `x`'s new value, the second save reports `x` as needing a restart again.
/// When the first save changed only restart-required settings and the
/// second reverts every setting to the running values, the second save
/// reports no change.
pub proof fn lemma_pending_restart_reported_again(
    o: DockConfig,
    n1: DockConfig,
    n2: DockConfig,
    r1: DiffResult,
    r2: DiffResult,
    x: ConfigField,
)
    requires
        is_diff_of(o, n1, r1),
        is_diff_of(config_after(o, n1), n2, r2),
    ensures
        (r1 matches DiffResult::RestartRequired { restart_fields, .. } && str_views(
            restart_fields@,
        ).contains(field_label(x)) && !field_differs(n1, n2, x)) ==> (
        r2 matches DiffResult::RestartRequired { restart_fields: again, .. } && str_views(
            again@,
        ).contains(field_label(x))),
        hot_changes(o, n1).len() == 0 && changed_fields(o, n2).len() == 0 ==> r2 is NoChange,
{
    let c1 = config_after(o, n1);
    lemma_restart_change_is_change(c1, n2);
    if r1 matches DiffResult::RestartRequired { restart_fields, .. } && str_views(
        restart_fields@,
    ).contains(field_label(x)) && !field_differs(n1, n2, x) {
        let all = all_config_fields();
        let pr = |f: ConfigField| field_differs(o, n1, f) && is_restart_required(f);
        lemma_labels_contain(restart_changes(o, n1), x);
        let k = choose|k: int| 0 <= k < all.filter(pr).len() && all.filter(pr)[k] == x;
        all.lemma_filter_pred(pr, k);
        lemma_flagged_again(o, n1, n2, x);
        lemma_labels_contain(restart_changes(c1, n2), x);
    }
    if hot_changes(o, n1).len() == 0 && changed_fields(o, n2).len() == 0 {
        lemma_revert_reports_nothing(o, n1, n2);
    }
}

/// A setting is among the changed settings exactly when it differs.
proof fn lemma_changed_fields_contains(old: DockConfig, new: DockConfig, f: ConfigField)
    ensures
        changed_fields(old, new).contains(f) <==> field_differs(old, new, f),
{
    let all = all_config_fields();
    let p = |g: ConfigField| field_differs(old, new, g);
    lemma_field_index(f);
    if field_differs(old, new, f) {
        all.lemma_filter_contains(p, field_index(f));
    }
    if changed_fields(old, new).contains(f) {
        let k = choose|k: int| 0 <= k < all.filter(p).len() && all.filter(p)[k] == f;
        all.lemma_filter_pred(p, k);
    }
}

/// Law: a save reports a setting as changed exactly when its value in the
/// live config differs from its value in the saved one (text settings by
/// content), for every setting.
pub proof fn lemma_change_detected_per_setting(old: DockConfig, new: DockConfig)
    ensures
        changed_fields(old, new).contains(ConfigField::Autohide) <==> old.autohide != new.autohide,
        changed_fields(old, new).contains(ConfigField::Resident) <==> old.resident != new.resident,
        changed_fields(old, new).contains(ConfigField::Multi) <==> old.multi != new.multi,
        changed_fields(old, new).contains(ConfigField::Debug) <==> old.debug != new.debug,
        changed_fields(old, new).contains(ConfigField::Wm) <==> old.wm != new.wm,
        changed_fields(old, new).contains(ConfigField::HideTimeout) <==> old.hide_timeout != new.hide_timeout,
        changed_fields(old, new).contains(ConfigField::HotspotDelay) <==> old.hotspot_delay != new.hotspot_delay,
        changed_fields(old, new).contains(ConfigField::HotspotLayer) <==> old.hotspot_layer != new.hotspot_layer,
        changed_fields(old, new).contains(ConfigField::Position) <==> old.position != new.position,
        changed_fields(old, new).contains(ConfigField::Alignment) <==> old.alignment != new.alignment,
        changed_fields(old, new).contains(ConfigField::Full) <==> old.full != new.full,
        changed_fields(old, new).contains(ConfigField::Mt) <==> old.mt != new.mt,
        changed_fields(old, new).contains(ConfigField::Mb) <==> old.mb != new.mb,
        changed_fields(old, new).contains(ConfigField::Ml) <==> old.ml != new.ml,
        changed_fields(old, new).contains(ConfigField::Mr) <==> old.mr != new.mr,
        changed_fields(old, new).contains(ConfigField::Output) <==> old.output@ != new.output@,
        changed_fields(old, new).contains(ConfigField::Layer) <==> old.layer != new.layer,
        changed_fields(old, new).contains(ConfigField::Exclusive) <==> old.exclusive != new.exclusive,
        changed_fields(old, new).contains(ConfigField::IconSize) <==> old.icon_size != new.icon_size,
        changed_fields(old, new).contains(ConfigField::Opacity) <==> old.opacity != new.opacity,
        changed_fields(old, new).contains(ConfigField::CssFile) <==> old.css_file@ != new.css_file@,
        changed_fields(old, new).contains(ConfigField::LaunchAnimation) <==> old.launch_animation != new.launch_animation,
        changed_fields(old, new).contains(ConfigField::LauncherCmd) <==> old.launcher_cmd@ != new.launcher_cmd@,
        changed_fields(old, new).contains(ConfigField::LauncherPos) <==> old.launcher_pos != new.launcher_pos,
        changed_fields(old, new).contains(ConfigField::Nolauncher) <==> old.nolauncher != new.nolauncher,
        changed_fields(old, new).contains(ConfigField::Ico) <==> old.ico@ != new.ico@,
        changed_fields(old, new).contains(ConfigField::IgnoreClasses) <==> old.ignore_classes@ != new.ignore_classes@,
        changed_fields(old, new).contains(ConfigField::IgnoreWorkspaces) <==> old.ignore_workspaces@ != new.ignore_workspaces@,
        changed_fields(old, new).contains(ConfigField::NumWs) <==> old.num_ws != new.num_ws,
        changed_fields(old, new).contains(ConfigField::Ws) <==> old.ws != new.ws,
        changed_fields(old, new).contains(ConfigField::NoFullscreenSuppress) <==> old.no_fullscreen_suppress != new.no_fullscreen_suppress,
{
    lemma_changed_fields_contains(old, new, ConfigField::Autohide);
    lemma_changed_fields_contains(old, new, ConfigField::Resident);
    lemma_changed_fields_contains(old, new, ConfigField::Multi);
    lemma_changed_fields_contains(old, new, ConfigField::Debug);
    lemma_changed_fields_contains(old, new, ConfigField::Wm);
    lemma_changed_fields_contains(old, new, ConfigField::HideTimeout);
    lemma_changed_fields_contains(old, new, ConfigField::HotspotDelay);
    lemma_changed_fields_contains(old, new, ConfigField::HotspotLayer);
    lemma_changed_fields_contains(old, new, ConfigField::Position);
    lemma_changed_fields_contains(old, new, ConfigField::Alignment);
    lemma_changed_fields_contains(old, new, ConfigField::Full);
    lemma_changed_fields_contains(old, new, ConfigField::Mt);
    lemma_changed_fields_contains(old, new, ConfigField::Mb);
    lemma_changed_fields_contains(old, new, ConfigField::Ml);
    lemma_changed_fields_contains(old, new, ConfigField::Mr);
    lemma_changed_fields_contains(old, new, ConfigField::Output);
    lemma_changed_fields_contains(old, new, ConfigField::Layer);
    lemma_changed_fields_contains(old, new, ConfigField::Exclusive);
    lemma_changed_fields_contains(old, new, ConfigField::IconSize);
    lemma_changed_fields_contains(old, new, ConfigField::Opacity);
    lemma_changed_fields_contains(old, new, ConfigField::CssFile);
    lemma_changed_fields_contains(old, new, ConfigField::LaunchAnimation);
    lemma_changed_fields_contains(old, new, ConfigField::LauncherCmd);
    lemma_changed_fields_contains(old, new, ConfigField::LauncherPos);
    lemma_changed_fields_contains(old, new, ConfigField::Nolauncher);
    lemma_changed_fields_contains(old, new, ConfigField::Ico);
    lemma_changed_fields_contains(old, new, ConfigField::IgnoreClasses);
    lemma_changed_fields_contains(old, new, ConfigField::IgnoreWorkspaces);
    lemma_changed_fields_contains(old, new, ConfigField::NumWs);
    lemma_changed_fields_contains(old, new, ConfigField::Ws);
    lemma_changed_fields_contains(old, new, ConfigField::NoFullscreenSuppress);
}

/// Law: a save that changes any setting is reported as a change.
pub proof fn lemma_any_change_is_reported(old: DockConfig, new: DockConfig, f: ConfigField, r: DiffResult)
    requires
        is_diff_of(old, new, r),
        changed_fields(old, new).contains(f),
    ensures
        !(r is NoChange),
{
    assert(changed_fields(old, new).len() > 0);
}

/// With no restart-required change, each restart-required setting is
/// unchanged.
proof fn lemma_no_restart_change_at(old: DockConfig, new: DockConfig, f: ConfigField)
    requires
        restart_changes(old, new).len() == 0,
        is_restart_required(f),
    ensures
        !field_differs(old, new, f),
{
    lemma_field_index(f);
    if field_differs(old, new, f) {
        all_config_fields().lemma_filter_contains(
            |g: ConfigField| field_differs(old, new, g) && is_restart_required(g),
            field_index(f),
        );
    }
}

/// Law: after a save the live config holds the saved value of every
/// setting that applies live, and keeps the running value of every
/// restart-required setting until the dock restarts.
pub proof fn lemma_live_config_after_save(old: DockConfig, new: DockConfig)
    ensures
        config_after(old, new).autohide == old.autohide,
        config_after(old, new).resident == old.resident,
        config_after(old, new).multi == old.multi,
        config_after(old, new).debug == new.debug,
        config_after(old, new).wm == old.wm,
        config_after(old, new).hide_timeout == new.hide_timeout,
        config_after(old, new).hotspot_delay == new.hotspot_delay,
        config_after(old, new).hotspot_layer == old.hotspot_layer,
        config_after(old, new).position == old.position,
        config_after(old, new).alignment == new.alignment,
        config_after(old, new).full == old.full,
        config_after(old, new).mt == new.mt,
        config_after(old, new).mb == new.mb,
        config_after(old, new).ml == new.ml,
        config_after(old, new).mr == new.mr,
        config_after(old, new).output@ == new.output@,
        config_after(old, new).layer == old.layer,
        config_after(old, new).exclusive == old.exclusive,
        config_after(old, new).icon_size == new.icon_size,
        config_after(old, new).opacity == new.opacity,
        config_after(old, new).css_file@ == new.css_file@,
        config_after(old, new).launch_animation == new.launch_animation,
        config_after(old, new).launcher_cmd@ == new.launcher_cmd@,
        config_after(old, new).launcher_pos == new.launcher_pos,
        config_after(old, new).nolauncher == new.nolauncher,
        config_after(old, new).ico@ == new.ico@,
        config_after(old, new).ignore_classes@ == new.ignore_classes@,
        config_after(old, new).ignore_workspaces@ == new.ignore_workspaces@,
        config_after(old, new).num_ws == new.num_ws,
        config_after(old, new).ws == new.ws,
        config_after(old, new).no_fullscreen_suppress == new.no_fullscreen_suppress,
{
    let c = config_after(old, new);
    if restart_changes(old, new).len() > 0 {
        assert(c == with_restart_fields_of(new, old));
    } else if changed_fields(old, new).len() == 0 {
        assert(c == old);
        lemma_changed_fields_contains(old, new, ConfigField::Debug);
        lemma_changed_fields_contains(old, new, ConfigField::HideTimeout);
        lemma_changed_fields_contains(old, new, ConfigField::HotspotDelay);
        lemma_changed_fields_contains(old, new, ConfigField::Alignment);
        lemma_changed_fields_contains(old, new, ConfigField::Mt);
        lemma_changed_fields_contains(old, new, ConfigField::Mb);
        lemma_changed_fields_contains(old, new, ConfigField::Ml);
        lemma_changed_fields_contains(old, new, ConfigField::Mr);
        lemma_changed_fields_contains(old, new, ConfigField::Output);
        lemma_changed_fields_contains(old, new, ConfigField::IconSize);
        lemma_changed_fields_contains(old, new, ConfigField::Opacity);
        lemma_changed_fields_contains(old, new, ConfigField::CssFile);
        lemma_changed_fields_contains(old, new, ConfigField::LaunchAnimation);
        lemma_changed_fields_contains(old, new, ConfigField::LauncherCmd);
        lemma_changed_fields_contains(old, new, ConfigField::LauncherPos);
        lemma_changed_fields_contains(old, new, ConfigField::Nolauncher);
        lemma_changed_fields_contains(old, new, ConfigField::Ico);
        lemma_changed_fields_contains(old, new, ConfigField::IgnoreClasses);
        lemma_changed_fields_contains(old, new, ConfigField::IgnoreWorkspaces);
        lemma_changed_fields_contains(old, new, ConfigField::NumWs);
        lemma_changed_fields_contains(old, new, ConfigField::Ws);
        lemma_changed_fields_contains(old, new, ConfigField::NoFullscreenSuppress);
    } else {
        assert(c == new);
        lemma_no_restart_change_at(old, new, ConfigField::Autohide);
        lemma_no_restart_change_at(old, new, ConfigField::Resident);
        lemma_no_restart_change_at(old, new, ConfigField::Multi);
        lemma_no_restart_change_at(old, new, ConfigField::Wm);
        lemma_no_restart_change_at(old, new, ConfigField::HotspotLayer);
        lemma_no_restart_change_at(old, new, ConfigField::Layer);
        lemma_no_restart_change_at(old, new, ConfigField::Exclusive);
        lemma_no_restart_change_at(old, new, ConfigField::Position);
        lemma_no_restart_change_at(old, new, ConfigField::Full);
    }
}

} // verus!

//! Autohide: when the cursor shows the dock, on which monitor, and when
//! the dock hides again. The decisions of the cursor poller (compositors
//! that report the cursor position) and of the hotspot windows (the
//! others); the caller queries the compositor, runs the timers and shows or
//! hides the windows.

use vstd::prelude::*;
use crate::compositor::{WmClient, WmMonitor};
use crate::config::Position;
use crate::state::DockState;
use crate::text::str_equal;

verus! {

/// Distance in pixels from the screen edge that counts as the edge.
pub const EDGE_THRESHOLD: i32 = 2;

/// Thickness of a hotspot trigger window in pixels.
pub const HOTSPOT_THICKNESS: i32 = 4;

/// Cursor polls between two refreshes of the cached monitor list.
pub const MONITOR_REFRESH_POLLS: u32 = 50;

/// A cursor position in the compositor's logical coordinates.
#[derive(Debug, Clone, Copy, PartialEq, Eq, Structural)]
pub struct CursorPos {
    pub x: i32,
    pub y: i32,
}

/// The cursor lies on the monitor.
pub open spec fn on_monitor(c: CursorPos, m: WmMonitor) -> bool {
    m.x <= c.x < m.x + m.width && m.y <= c.y < m.y + m.height
}

/// The cursor is within the edge band of the monitor on the dock's side.
pub open spec fn at_edge_of(c: CursorPos, m: WmMonitor, position: Position) -> bool {
    match position {
        Position::Bottom => c.y >= m.y + m.height - EDGE_THRESHOLD,
        Position::Top => c.y < m.y + EDGE_THRESHOLD,
        Position::Left => c.x < m.x + EDGE_THRESHOLD,
        Position::Right => c.x >= m.x + m.width - EDGE_THRESHOLD,
    }
}

fn on_monitor_exec(c: &CursorPos, m: &WmMonitor) -> (r: bool)
    ensures
        r == on_monitor(*c, *m),
{
    let x = c.x as i64;
    let y = c.y as i64;
    x >= m.x as i64 && x < m.x as i64 + m.width as i64 && y >= m.y as i64 && y < m.y as i64
        + m.height as i64
}

fn at_edge_exec(c: &CursorPos, m: &WmMonitor, position: Position) -> (r: bool)
    ensures
        r == at_edge_of(*c, *m, position),
{
    let t = EDGE_THRESHOLD as i64;
    match position {
        Position::Bottom => c.y as i64 >= m.y as i64 + m.height as i64 - t,
        Position::Top => (c.y as i64) < m.y as i64 + t,
        Position::Left => (c.x as i64) < m.x as i64 + t,
        Position::Right => c.x as i64 >= m.x as i64 + m.width as i64 - t,
    }
}

/// Some monitor holds the cursor within its edge band on the dock's side.
pub open spec fn cursor_at_edge(c: CursorPos, monitors: Seq<WmMonitor>, position: Position) -> bool {
    exists|i: int|
        0 <= i < monitors.len() && on_monitor(c, #[trigger] monitors[i]) && at_edge_of(
            c,
            monitors[i],
            position,
        )
}

/// Whether the cursor is at the screen edge on the dock's side of the
/// monitor it is on.
pub fn is_cursor_at_edge(cursor: &CursorPos, monitors: &[WmMonitor], position: Position) -> (r: bool)
    ensures
        r == cursor_at_edge(*cursor, monitors@, position),
{
    let mut i: usize = 0;
    while i < monitors.len()
        invariant
            i <= monitors@.len(),
            forall|j: int|
                0 <= j < i ==> !(on_monitor(*cursor, #[trigger] monitors@[j]) && at_edge_of(
                    *cursor,
                    monitors@[j],
                    position,
                )),
        decreases monitors.len() - i,
    {
        let m = &monitors[i];
        if on_monitor_exec(cursor, m) && at_edge_exec(cursor, m, position) {
            assert(on_monitor(*cursor, monitors@[i as int]));
            return true;
        }
        i += 1;
    }
    false
}

/// Name of the first monitor holding the cursor.
pub open spec fn cursor_monitor(c: CursorPos, monitors: Seq<WmMonitor>) -> Option<Seq<char>>
    decreases monitors.len(),
{
    if monitors.len() == 0 {
        None
    } else if on_monitor(c, monitors[0]) {
        Some(monitors[0].name@)
    } else {
        cursor_monitor(c, monitors.drop_first())
    }
}

/// Output name of the monitor the cursor is on, if any.
pub fn find_cursor_monitor_name(cursor: &CursorPos, monitors: &[WmMonitor]) -> (r: Option<String>)
    ensures
        r is Some <==> cursor_monitor(*cursor, monitors@) is Some,
        r matches Some(n) ==> cursor_monitor(*cursor, monitors@) == Some(n@),
{
    let mut i: usize = 0;
    assert(monitors@.skip(0) =~= monitors@);
    while i < monitors.len()
        invariant
            i <= monitors@.len(),
            cursor_monitor(*cursor, monitors@) == cursor_monitor(*cursor, monitors@.skip(i as int)),
        decreases monitors.len() - i,
    {
        assert(monitors@.skip(i as int)[0] == monitors@[i as int]);
        assert(monitors@.skip(i as int).drop_first() =~= monitors@.skip(i + 1));
        if on_monitor_exec(cursor, &monitors[i]) {
            return Some(monitors[i].name.clone());
        }
        i += 1;
    }
    None
}

/// Rust's integer division by two (rounding toward zero).
pub open spec fn half(a: int) -> int {
    if a >= 0 {
        a / 2
    } else {
        -((-a) / 2)
    }
}

/// Origin of a `w` by `h` dock window on the monitor: centred along the
/// dock's edge, flush against it.
pub open spec fn dock_origin(m: WmMonitor, w: int, h: int, position: Position) -> (int, int) {
    match position {
        Position::Bottom => (m.x + half(m.width - w), m.y + m.height - h),
        Position::Top => (m.x + half(m.width - w), m.y as int),
        Position::Left => (m.x as int, m.y + half(m.height - h)),
        Position::Right => (m.x + m.width - w, m.y + half(m.height - h)),
    }
}

fn half_exec(a: i64) -> (r: i64)
    requires
        -0x1_0000_0000 <= a <= 0x1_0000_0000,
    ensures
        r == half(a as int),
{
    if a >= 0 {
        a / 2
    } else {
        -((-a) / 2)
    }
}

/// Computes the (x, y) origin of a dock window on a monitor.
pub fn dock_bounds_for_position(mon: &WmMonitor, w: i32, h: i32, position: Position) -> (r: (i32, i32))
    requires
        i32::MIN <= dock_origin(*mon, w as int, h as int, position).0 <= i32::MAX,
        i32::MIN <= dock_origin(*mon, w as int, h as int, position).1 <= i32::MAX,
    ensures
        (r.0 as int, r.1 as int) == dock_origin(*mon, w as int, h as int, position),
{
    let x = mon.x as i64;
    let y = mon.y as i64;
    let mw = mon.width as i64;
    let mh = mon.height as i64;
    let w = w as i64;
    let h = h as i64;
    let (ox, oy) = match position {
        Position::Bottom => (x + half_exec(mw - w), y + mh - h),
        Position::Top => (x + half_exec(mw - w), y),
        Position::Left => (x, y + half_exec(mh - h)),
        Position::Right => (x + mw - w, y + half_exec(mh - h)),
    };
    (ox as i32, oy as i32)
}

/// A dock window as the cursor logic sees it: its output, whether it is
/// shown with a surface, and its size.
#[derive(Debug)]
pub struct DockGeometry {
    pub output_name: String,
    pub shown: bool,
    pub width: i32,
    pub height: i32,
}

/// First monitor with the given name.
pub open spec fn monitor_named(monitors: Seq<WmMonitor>, name: Seq<char>) -> Option<WmMonitor>
    decreases monitors.len(),
{
    if monitors.len() == 0 {
        None
    } else if monitors[0].name@ == name {
        Some(monitors[0])
    } else {
        monitor_named(monitors.drop_first(), name)
    }
}

fn find_monitor<'a>(monitors: &'a [WmMonitor], name: &str) -> (r: Option<&'a WmMonitor>)
    ensures
        r is Some <==> monitor_named(monitors@, name@) is Some,
        r matches Some(m) ==> monitor_named(monitors@, name@) == Some(*m),
{
    let mut i: usize = 0;
    assert(monitors@.skip(0) =~= monitors@);
    while i < monitors.len()
        invariant
            i <= monitors@.len(),
            monitor_named(monitors@, name@) == monitor_named(monitors@.skip(i as int), name@),
        decreases monitors.len() - i,
    {
        assert(monitors@.skip(i as int)[0] == monitors@[i as int]);
        assert(monitors@.skip(i as int).drop_first() =~= monitors@.skip(i + 1));
        if str_equal(monitors[i].name.as_str(), name) {
            return Some(&monitors[i]);
        }
        i += 1;
    }
    None
}

/// The cursor lies inside the shown, non-empty dock window `d`, placed on
/// its monitor.
pub open spec fn cursor_in_dock(
    c: CursorPos,
    d: DockGeometry,
    monitors: Seq<WmMonitor>,
    position: Position,
) -> bool {
    &&& d.shown
    &&& d.width != 0 && d.height != 0
    &&& monitor_named(monitors, d.output_name@) matches Some(m) && {
        let (x, y) = dock_origin(m, d.width as int, d.height as int, position);
        x <= c.x < x + d.width && y <= c.y < y + d.height
    }
}

/// Whether the cursor lies inside any shown dock window.
pub fn is_cursor_in_visible_dock(
    cursor: &CursorPos,
    docks: &[DockGeometry],
    monitors: &[WmMonitor],
    position: Position,
) -> (r: bool)
    ensures
        r == exists|i: int|
            0 <= i < docks@.len() && cursor_in_dock(*cursor, #[trigger] docks@[i], monitors@, position),
{
    let mut i: usize = 0;
    while i < docks.len()
        invariant
            i <= docks@.len(),
            forall|j: int|
                0 <= j < i ==> !cursor_in_dock(*cursor, #[trigger] docks@[j], monitors@, position),
        decreases docks.len() - i,
    {
        let d = &docks[i];
        if d.shown && d.width != 0 && d.height != 0 {
            if let Some(m) = find_monitor(monitors, d.output_name.as_str()) {
                let (x, y) = match position {
                    Position::Bottom => (
                        m.x as i64 + half_exec(m.width as i64 - d.width as i64),
                        m.y as i64 + m.height as i64 - d.height as i64,
                    ),
                    Position::Top => (
                        m.x as i64 + half_exec(m.width as i64 - d.width as i64),
                        m.y as i64,
                    ),
                    Position::Left => (
                        m.x as i64,
                        m.y as i64 + half_exec(m.height as i64 - d.height as i64),
                    ),
                    Position::Right => (
                        m.x as i64 + m.width as i64 - d.width as i64,
                        m.y as i64 + half_exec(m.height as i64 - d.height as i64),
                    ),
                };
                let cx = cursor.x as i64;
                let cy = cursor.y as i64;
                if cx >= x && cx < x + d.width as i64 && cy >= y && cy < y + d.height as i64 {
                    assert(cursor_in_dock(*cursor, docks@[i as int], monitors@, position));
                    return true;
                }
            }
        }
        i += 1;
    }
    false
}

/// Some fullscreen window sits on the named monitor's active workspace.
pub open spec fn has_fullscreen_on(clients: Seq<WmClient>, monitors: Seq<WmMonitor>, name: Seq<char>) -> bool {
    monitor_named(monitors, name) matches Some(m) && exists|i: int|
        0 <= i < clients.len() && #[trigger] clients[i].fullscreen && clients[i].monitor_id == m.id
            && clients[i].workspace.id == m.active_workspace.id
}

/// Whether a fullscreen window occupies the named monitor's visible
/// workspace (a fullscreen window parked on a hidden workspace does not
/// count).
pub fn monitor_has_fullscreen(clients: &[WmClient], monitors: &[WmMonitor], monitor_name: &str) -> (r:
    bool)
    ensures
        r == has_fullscreen_on(clients@, monitors@, monitor_name@),
{
    let m = match find_monitor(monitors, monitor_name) {
        Some(m) => m,
        None => return false,
    };
    let mut i: usize = 0;
    while i < clients.len()
        invariant
            i <= clients@.len(),
            monitor_named(monitors@, monitor_name@) == Some(*m),
            forall|j: int|
                0 <= j < i ==> !(#[trigger] clients@[j].fullscreen && clients@[j].monitor_id == m.id
                    && clients@[j].workspace.id == m.active_workspace.id),
        decreases clients.len() - i,
    {
        let c = &clients[i];
        if c.fullscreen && c.monitor_id == m.id && c.workspace.id == m.active_workspace.id {
            assert(clients@[i as int].fullscreen);
            return true;
        }
        i += 1;
    }
    false
}

/// During a drag, records whether the cursor is outside the dock (neither
/// in a dock window nor at the edge); otherwise leaves the state alone.
pub fn update_drag_state<H>(state: &mut DockState<H>, dragging: bool, in_dock_area: bool, at_edge: bool)
    ensures
        crate::state::same_data(*final(state), *old(state)),
        final(state).drag.pending_view() == old(state).drag.pending_view(),
        final(state).drag.index_view() == old(state).drag.index_view(),
        final(state).drag.outside_view() == (if dragging && old(state).drag.pending_view() {
            !in_dock_area && !at_edge
        } else {
            old(state).drag.outside_view()
        }),
{
    if dragging {
        let now_outside = !in_dock_area && !at_edge;
        if state.is_drag_outside_dock() != now_outside {
            state.set_drag_outside(now_outside);
        }
    }
}

/// What the hide timer does on a poll.
#[derive(Debug, Clone, Copy, PartialEq, Eq, Structural)]
pub enum HideTimerAction {
    /// Start timing from now.
    Start,
    /// The timeout elapsed: hide every dock window and stop timing.
    Hide,
    /// Keep waiting.
    Wait,
}

/// With no timer running, start one; once `hide_timeout` milliseconds have
/// elapsed, hide; otherwise wait.
pub fn hide_timer_step(running_for_ms: Option<u64>, hide_timeout: u64) -> (r: HideTimerAction)
    ensures
        r == (match running_for_ms {
            None => HideTimerAction::Start,
            Some(e) => if e >= hide_timeout {
                HideTimerAction::Hide
            } else {
                HideTimerAction::Wait
            },
        }),
{
    match running_for_ms {
        None => HideTimerAction::Start,
        Some(e) => if e >= hide_timeout {
            HideTimerAction::Hide
        } else {
            HideTimerAction::Wait
        },
    }
}

/// A poll with every dock hidden: the monitor to show the dock on (the one
/// the cursor is on, when the cursor is at the edge), and whether a fresh
/// fullscreen check must pass first.
pub fn hidden_dock_step(
    cursor: &CursorPos,
    monitors: &[WmMonitor],
    position: Position,
    suppress_on_fullscreen: bool,
) -> (r: Option<(String, bool)>)
    ensures
        r is Some <==> cursor_at_edge(*cursor, monitors@, position) && cursor_monitor(
            *cursor,
            monitors@,
        ) is Some,
        r matches Some((name, check)) ==> Some(name@) == cursor_monitor(*cursor, monitors@) && check
            == suppress_on_fullscreen,
{
    if !is_cursor_at_edge(cursor, monitors, position) {
        return None;
    }
    match find_cursor_monitor_name(cursor, monitors) {
        Some(name) => Some((name, suppress_on_fullscreen)),
        None => None,
    }
}

/// What a poll does while a dock is shown.
#[derive(Debug)]
pub enum VisibleDockAction {
    /// The cursor reached the edge of another monitor: move the dock
    /// there (after a fresh fullscreen check when `check_fullscreen`;
    /// a fullscreen window there hides every dock instead).
    Migrate { monitor: String, check_fullscreen: bool },
    /// Keep the dock shown and stop the hide timer.
    KeepShown,
    /// The cursor is away: run the hide timer.
    RunHideTimer,
}

/// Decides a poll with a dock shown. `keep_visible` holds while a popover
/// menu is open or a drag is in progress.
pub fn visible_dock_step(
    cursor: &CursorPos,
    monitors: &[WmMonitor],
    position: Position,
    in_dock_area: bool,
    at_edge: bool,
    keep_visible: bool,
    suppress_on_fullscreen: bool,
) -> (r: VisibleDockAction)
    ensures
        at_edge && !in_dock_area && !keep_visible && cursor_monitor(*cursor, monitors@) is Some
            ==> (r matches VisibleDockAction::Migrate { monitor, check_fullscreen } && Some(monitor@)
            == cursor_monitor(*cursor, monitors@) && check_fullscreen == suppress_on_fullscreen),
        !(at_edge && !in_dock_area && !keep_visible && cursor_monitor(*cursor, monitors@) is Some)
            ==> (r is KeepShown <==> (in_dock_area || at_edge || keep_visible)) && (r is RunHideTimer
            <==> !(in_dock_area || at_edge || keep_visible)),
{
    if at_edge && !in_dock_area && !keep_visible {
        if let Some(name) = find_cursor_monitor_name(cursor, monitors) {
            return VisibleDockAction::Migrate { monitor: name, check_fullscreen: suppress_on_fullscreen };
        }
    }
    if in_dock_area || at_edge || keep_visible {
        VisibleDockAction::KeepShown
    } else {
        VisibleDockAction::RunHideTimer
    }
}

/// Counts a poll toward the monitor-cache refresh: refresh (and restart
/// the count) every `MONITOR_REFRESH_POLLS` polls or at once when the set
/// of dock outputs changed.
pub fn monitor_refresh_step(count: &mut u32, topology_changed: bool) -> (refresh: bool)
    requires
        *old(count) < MONITOR_REFRESH_POLLS,
    ensures
        refresh == (*old(count) + 1 >= MONITOR_REFRESH_POLLS || topology_changed),
        *final(count) == (if refresh { 0 } else { *old(count) + 1 }),
        *final(count) < MONITOR_REFRESH_POLLS,
{
    *count = *count + 1;
    if *count >= MONITOR_REFRESH_POLLS || topology_changed {
        *count = 0;
        true
    } else {
        false
    }
}

/// Which dock windows to show so that only the named output's is
/// visible; `None` when no dock window belongs to that output (nothing
/// changes).
pub fn show_on_monitor_only_by_name(outputs: &[String], target_name: &str) -> (r: Option<Vec<bool>>)
    ensures
        r is Some <==> exists|i: int| 0 <= i < outputs@.len() && #[trigger] outputs@[i]@ == target_name@,
        r matches Some(v) ==> v@.len() == outputs@.len() && forall|i: int|
            0 <= i < v@.len() ==> #[trigger] v@[i] == (outputs@[i]@ == target_name@),
{
    let mut vis: Vec<bool> = Vec::new();
    let mut any = false;
    let mut i: usize = 0;
    while i < outputs.len()
        invariant
            i <= outputs@.len(),
            vis@.len() == i,
            forall|j: int| 0 <= j < i ==> #[trigger] vis@[j] == (outputs@[j]@ == target_name@),
            any == exists|j: int| 0 <= j < i && #[trigger] outputs@[j]@ == target_name@,
        decreases outputs.len() - i,
    {
        let same = str_equal(outputs[i].as_str(), target_name);
        vis.push(same);
        if same {
            any = true;
        }
        i += 1;
    }
    if any {
        Some(vis)
    } else {
        None
    }
}

/// What the hotspot mode's hide poll does.
#[derive(Debug, Clone, Copy, PartialEq, Eq, Structural)]
pub enum HotspotHideAction {
    /// No hide timer is running.
    Idle,
    /// A popover or drag holds the dock: restart the countdown from now.
    Rebase,
    /// The timeout elapsed: hide every dock window and stop timing.
    Hide,
    /// Keep waiting.
    Wait,
}

/// The hotspot mode's hide poll, given how long the hide timer has run.
pub fn hotspot_hide_step(running_for_ms: Option<u64>, keep_visible: bool, hide_timeout: u64) -> (r:
    HotspotHideAction)
    ensures
        r == (match running_for_ms {
            None => HotspotHideAction::Idle,
            Some(e) => if keep_visible {
                HotspotHideAction::Rebase
            } else if e >= hide_timeout {
                HotspotHideAction::Hide
            } else {
                HotspotHideAction::Wait
            },
        }),
{
    match running_for_ms {
        None => HotspotHideAction::Idle,
        Some(e) => if keep_visible {
            HotspotHideAction::Rebase
        } else if e >= hide_timeout {
            HotspotHideAction::Hide
        } else {
            HotspotHideAction::Wait
        },
    }
}

/// Dwell before a hotspot shows the dock: the configured delay, negative
/// values meaning none.
pub fn hotspot_show_delay(hotspot_delay: i64) -> (r: u64)
    ensures
        r as int == (if hotspot_delay < 0 { 0 } else { hotspot_delay as int }),
{
    if hotspot_delay < 0 {
        0
    } else {
        hotspot_delay as u64
    }
}

/// What entering a hotspot does.
#[derive(Debug, PartialEq, Eq, Structural)]
pub enum HotspotEnterAction {
    /// A fullscreen window is on the monitor and suppression is on: nothing.
    Suppress,
    /// Show the dock on this monitor at once (no dwell configured).
    ShowNow,
    /// Start the dwell timer; the dock shows when it fires.
    StartTimer { delay_ms: u64 },
}

/// Entering a hotspot: suppressed when a fullscreen window is on the
/// monitor (unless suppression is off), else shown at once without a dwell,
/// else after the configured dwell.
pub fn hotspot_enter_step(no_fullscreen_suppress: bool, fullscreen_on_monitor: bool, hotspot_delay: i64) -> (r:
    HotspotEnterAction)
    ensures
        r == (if !no_fullscreen_suppress && fullscreen_on_monitor {
            HotspotEnterAction::Suppress
        } else if hotspot_delay <= 0 {
            HotspotEnterAction::ShowNow
        } else {
            HotspotEnterAction::StartTimer { delay_ms: hotspot_delay as u64 }
        }),
{
    if !no_fullscreen_suppress && fullscreen_on_monitor {
        return HotspotEnterAction::Suppress;
    }
    let delay = hotspot_show_delay(hotspot_delay);
    if delay == 0 {
        HotspotEnterAction::ShowNow
    } else {
        HotspotEnterAction::StartTimer { delay_ms: delay }
    }
}

/// When the dwell timer fires: the dock shows unless a fullscreen window
/// appeared on the monitor meanwhile (and suppression is on).
pub fn hotspot_timer_fired_step(no_fullscreen_suppress: bool, fullscreen_on_monitor: bool) -> (show: bool)
    ensures
        show == (no_fullscreen_suppress || !fullscreen_on_monitor),
{
    no_fullscreen_suppress || !fullscreen_on_monitor
}

/// A screen edge a layer-shell window anchors to.
#[derive(Debug, Clone, Copy, PartialEq, Eq, Structural)]
pub enum Edge {
    Top,
    Bottom,
    Left,
    Right,
}

/// A hotspot window: the edges it anchors to and its size request
/// (`-1` for the stretched dimension).
#[derive(Debug)]
pub struct HotspotGeometry {
    pub anchors: Vec<Edge>,
    pub width: i32,
    pub height: i32,
}

/// A thin strip along the dock's edge: anchored to that edge and the two
/// edges across it, `HOTSPOT_THICKNESS` pixels thick.
pub fn hotspot_geometry(position: Position) -> (r: HotspotGeometry)
    ensures
        r.anchors@ == (match position {
            Position::Bottom => seq![Edge::Bottom, Edge::Left, Edge::Right],
            Position::Top => seq![Edge::Top, Edge::Left, Edge::Right],
            Position::Left => seq![Edge::Left, Edge::Top, Edge::Bottom],
            Position::Right => seq![Edge::Right, Edge::Top, Edge::Bottom],
        }),
        (position == Position::Bottom || position == Position::Top) ==> r.width == -1 && r.height
            == HOTSPOT_THICKNESS,
        (position == Position::Left || position == Position::Right) ==> r.width == HOTSPOT_THICKNESS
            && r.height == -1,
{
    match position {
        Position::Bottom => HotspotGeometry {
            anchors: vec![Edge::Bottom, Edge::Left, Edge::Right],
            width: -1,
            height: HOTSPOT_THICKNESS,
        },
        Position::Top => HotspotGeometry {
            anchors: vec![Edge::Top, Edge::Left, Edge::Right],
            width: -1,
            height: HOTSPOT_THICKNESS,
        },
        Position::Left => HotspotGeometry {
            anchors: vec![Edge::Left, Edge::Top, Edge::Bottom],
            width: HOTSPOT_THICKNESS,
            height: -1,
        },
        Position::Right => HotspotGeometry {
            anchors: vec![Edge::Right, Edge::Top, Edge::Bottom],
            width: HOTSPOT_THICKNESS,
            height: -1,
        },
    }
}

/// Law: the edge band that reveals the dock lies on the dock's side of
/// the monitor. On a monitor wider and taller than two bands, a cursor in
/// the band of a side is in that half of the monitor, and the outermost
/// row or column on each side is in that side's band.
pub proof fn lemma_edge_band_on_dock_side(c: CursorPos, m: WmMonitor)
    requires
        on_monitor(c, m),
        m.width > 2 * EDGE_THRESHOLD,
        m.height > 2 * EDGE_THRESHOLD,
    ensures
        at_edge_of(c, m, Position::Right) ==> 2 * (c.x - m.x) >= m.width,
        at_edge_of(c, m, Position::Left) ==> 2 * (c.x - m.x) < m.width,
        at_edge_of(c, m, Position::Bottom) ==> 2 * (c.y - m.y) >= m.height,
        at_edge_of(c, m, Position::Top) ==> 2 * (c.y - m.y) < m.height,
        c.x == m.x + m.width - 1 ==> at_edge_of(c, m, Position::Right),
        c.x == m.x ==> at_edge_of(c, m, Position::Left),
        c.y == m.y + m.height - 1 ==> at_edge_of(c, m, Position::Bottom),
        c.y == m.y ==> at_edge_of(c, m, Position::Top),
{
}

/// Law: moving the cursor further towards the dock's edge, within the
/// monitor, keeps it in the edge band.
pub proof fn lemma_edge_band_towards_edge(c: CursorPos, d: CursorPos, m: WmMonitor)
    requires
        on_monitor(c, m),
        on_monitor(d, m),
    ensures
        at_edge_of(c, m, Position::Right) && d.x >= c.x ==> at_edge_of(d, m, Position::Right),
        at_edge_of(c, m, Position::Left) && d.x <= c.x ==> at_edge_of(d, m, Position::Left),
        at_edge_of(c, m, Position::Bottom) && d.y >= c.y ==> at_edge_of(d, m, Position::Bottom),
        at_edge_of(c, m, Position::Top) && d.y <= c.y ==> at_edge_of(d, m, Position::Top),
{
}

} // verus!

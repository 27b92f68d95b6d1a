//! The workspace switcher: which buttons it shows, which one is active,
//! and the margin that lines the row up with the icons.

use vstd::prelude::*;
use crate::compositor::WmMonitor;
use crate::config::Position;
use crate::text::{i32_text, int_text, str_equal};
use crate::ui::dock_box::div_toward_zero;

verus! {

/// Indicator height as a fraction of the icon size (`icon / 8`).
pub const INDICATOR_DIVISOR: i32 = 8;

/// One workspace button: its number, label and active mark.
#[derive(Debug, Clone, PartialEq, Eq)]
pub struct WorkspaceButton {
    pub n: i32,
    pub label: String,
    pub is_active: bool,
}

/// The button at position `i` is workspace `i + 1`, labelled with its
/// number, active exactly when it is the active workspace.
pub open spec fn button_at(b: WorkspaceButton, i: int, active_id: Option<i32>) -> bool {
    b.n == i + 1 && b.label@ == int_text(i + 1) && b.is_active == (active_id is Some && active_id->0
        == i + 1)
}

/// Buttons `1..=num_ws` (none when `num_ws <= 0`), each labelled with its
/// number and marked active when it is the active workspace.
pub fn workspace_button_plan(num_ws: i32, active_id: Option<i32>) -> (r: Vec<WorkspaceButton>)
    ensures
        r@.len() == (if num_ws <= 0 { 0 } else { num_ws as int }),
        forall|i: int| 0 <= i < r@.len() ==> button_at(#[trigger] r@[i], i, active_id),
{
    let mut out: Vec<WorkspaceButton> = Vec::new();
    if num_ws <= 0 {
        return out;
    }
    let mut n: i64 = 1;
    while n <= num_ws as i64
        invariant
            1 <= n,
            n <= num_ws + 1,
            num_ws > 0,
            out@.len() == n - 1,
            forall|i: int| 0 <= i < out@.len() ==> button_at(#[trigger] out@[i], i, active_id),
        decreases num_ws + 1 - n,
    {
        let k = n as i32;
        let is_active = match active_id {
            Some(a) => a == k,
            None => false,
        };
        let ghost before = out@;
        out.push(WorkspaceButton { n: k, label: i32_text(k), is_active });
        assert forall|i: int| 0 <= i < out@.len() implies button_at(#[trigger] out@[i], i, active_id) by {
            if i < before.len() {
                assert(out@[i] == before[i]);
            }
        }
        n += 1;
    }
    out
}

/// The active workspace of the first monitor named `monitor_name`.
pub open spec fn active_workspace_of(monitors: Seq<WmMonitor>, monitor_name: Seq<char>) -> Option<i32>
    decreases monitors.len(),
{
    if monitors.len() == 0 {
        None
    } else if monitors[0].name@ == monitor_name {
        Some(monitors[0].active_workspace.id)
    } else {
        active_workspace_of(monitors.drop_first(), monitor_name)
    }
}

/// Id of the workspace active on the named monitor, `None` when no monitor
/// has that name.
pub fn active_workspace_for_monitor(monitors: &[WmMonitor], monitor_name: &str) -> (r: Option<i32>)
    ensures
        r == active_workspace_of(monitors@, monitor_name@),
{
    let mut i: usize = 0;
    assert(monitors@.skip(0) =~= monitors@);
    while i < monitors.len()
        invariant
            i <= monitors@.len(),
            active_workspace_of(monitors@, monitor_name@) == active_workspace_of(
                monitors@.skip(i as int),
                monitor_name@,
            ),
        decreases monitors.len() - i,
    {
        assert(monitors@.skip(i as int)[0] == monitors@[i as int]);
        assert(monitors@.skip(i as int).drop_first() =~= monitors@.skip(i + 1));
        if str_equal(monitors[i].name.as_str(), monitor_name) {
            return Some(monitors[i].active_workspace.id);
        }
        i += 1;
    }
    None
}

/// The side of the workspace row that gets the indicator margin.
#[derive(Debug, Clone, Copy, PartialEq, Eq, Structural)]
pub enum MarginSide {
    Bottom,
    Top,
    Start,
    End,
}

/// Margin that cancels the indicator's bias: `icon_size / 8` pixels on the
/// dock's outer edge (bottom, top, start or end for a bottom, top, left or
/// right dock).
pub fn position_offset(position: Position, icon_size: i32) -> (r: (MarginSide, i32))
    ensures
        r.1 == div_toward_zero(icon_size as int, INDICATOR_DIVISOR as int),
        r.0 == (match position {
            Position::Bottom => MarginSide::Bottom,
            Position::Top => MarginSide::Top,
            Position::Left => MarginSide::Start,
            Position::Right => MarginSide::End,
        }),
{
    let offset = if icon_size >= 0 {
        icon_size / INDICATOR_DIVISOR
    } else {
        -((-(icon_size as i64)) / (INDICATOR_DIVISOR as i64)) as i32
    };
    let side = match position {
        Position::Bottom => MarginSide::Bottom,
        Position::Top => MarginSide::Top,
        Position::Left => MarginSide::Start,
        Position::Right => MarginSide::End,
    };
    (side, offset)
}

} // verus!

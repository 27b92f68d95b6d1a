//! How a dock window sits on its output: anchors, layer, exclusive zone,
//! margins and box orientations, and its answer to close requests.

use vstd::prelude::*;
use crate::config::{DockConfig, Layer, Position};
use crate::ui::hotspot::Edge;

verus! {

/// Answer to a window close request.
#[derive(Debug, Clone, Copy, PartialEq, Eq, Structural)]
pub enum Propagation {
    /// Veto the close.
    Stop,
    /// Let the window close.
    Proceed,
}

/// The dock vetoes every close request, so compositor close shortcuts
/// cannot take it down; code that really removes a dock window destroys
/// it instead.
pub fn dock_close_request_response() -> (r: Propagation)
    ensures
        r == Propagation::Stop,
{
    Propagation::Stop
}

/// Layer-shell placement of a dock window.
#[derive(Debug)]
pub struct WindowLayout {
    /// Each edge with whether the window anchors to it.
    pub anchors: Vec<(Edge, bool)>,
    pub layer: Layer,
    /// Reserve space (exclusive zone) automatically.
    pub auto_exclusive: bool,
    /// Ignore other windows' exclusive zones (overlay layer).
    pub ignore_exclusive_zones: bool,
    /// Margins: top, left, right, bottom.
    pub margins: (i32, i32, i32, i32),
}

/// Anchors of a dock window: its own edge always, the two edges across it
/// only for a full-length dock.
pub open spec fn dock_anchors(position: Position, full: bool) -> Seq<(Edge, bool)> {
    match position {
        Position::Bottom => seq![(Edge::Bottom, true), (Edge::Left, full), (Edge::Right, full)],
        Position::Top => seq![(Edge::Top, true), (Edge::Left, full), (Edge::Right, full)],
        Position::Left => seq![(Edge::Left, true), (Edge::Top, full), (Edge::Bottom, full)],
        Position::Right => seq![(Edge::Right, true), (Edge::Top, full), (Edge::Bottom, full)],
    }
}

/// Places a dock window: anchored to its edge (and across it when full),
/// on the top layer with an automatic exclusive zone when exclusive, else
/// on the configured layer (the overlay layer ignoring exclusive zones),
/// with the configured margins.
pub fn window_layout(config: &DockConfig) -> (r: WindowLayout)
    ensures
        r.anchors@ == dock_anchors(config.position, config.full),
        r.auto_exclusive == config.exclusive,
        r.layer == (if config.exclusive { Layer::Top } else { config.layer }),
        r.ignore_exclusive_zones == (r.layer == Layer::Overlay),
        r.margins == (config.mt, config.ml, config.mr, config.mb),
{
    let anchors = match config.position {
        Position::Bottom => vec![(Edge::Bottom, true), (Edge::Left, config.full), (Edge::Right, config.full)],
        Position::Top => vec![(Edge::Top, true), (Edge::Left, config.full), (Edge::Right, config.full)],
        Position::Left => vec![(Edge::Left, true), (Edge::Top, config.full), (Edge::Bottom, config.full)],
        Position::Right => vec![(Edge::Right, true), (Edge::Top, config.full), (Edge::Bottom, config.full)],
    };
    let layer = if config.exclusive { Layer::Top } else { config.layer };
    let ignore = match layer {
        Layer::Overlay => true,
        _ => false,
    };
    WindowLayout {
        anchors,
        layer,
        auto_exclusive: config.exclusive,
        ignore_exclusive_zones: ignore,
        margins: (config.mt, config.ml, config.mr, config.mb),
    }
}

/// Orientation of a box.
#[derive(Debug, Clone, Copy, PartialEq, Eq, Structural)]
pub enum Orientation {
    Horizontal,
    Vertical,
}

/// (outer, inner) box orientations: the items run along the dock's edge.
pub fn orientations(config: &DockConfig) -> (r: (Orientation, Orientation))
    ensures
        (config.position == Position::Left || config.position == Position::Right) ==> r == (
        Orientation::Horizontal,
        Orientation::Vertical,
        ),
        (config.position == Position::Bottom || config.position == Position::Top) ==> r == (
        Orientation::Vertical,
        Orientation::Horizontal,
        ),
{
    if config.is_vertical() {
        (Orientation::Horizontal, Orientation::Vertical)
    } else {
        (Orientation::Vertical, Orientation::Horizontal)
    }
}

/// A visibility command sent to the dock by signal (SIGRTMIN+1..3).
#[derive(Debug, Clone, Copy, PartialEq, Eq, Structural)]
pub enum VisibilityCommand {
    Toggle,
    Show,
    Hide,
}

/// Whether the docks are visible after a visibility command: toggle flips
/// the current state, show and hide set it.
pub fn visibility_after(command: VisibilityCommand, visible: bool) -> (r: bool)
    ensures
        r == (match command {
            VisibilityCommand::Toggle => !visible,
            VisibilityCommand::Show => true,
            VisibilityCommand::Hide => false,
        }),
{
    match command {
        VisibilityCommand::Toggle => !visible,
        VisibilityCommand::Show => true,
        VisibilityCommand::Hide => false,
    }
}

} // verus!

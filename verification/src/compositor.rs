//! What the dock reads of the compositor's windows and outputs, as plain
//! values.

use vstd::prelude::*;

verus! {

/// A workspace as the compositor names it.
#[derive(Debug)]
pub struct WmWorkspace {
    pub id: i32,
    pub name: String,
}

impl Clone for WmWorkspace {
    fn clone(&self) -> (r: Self)
        ensures
            r == *self,
    {
        WmWorkspace { id: self.id, name: self.name.clone() }
    }
}

/// A toplevel window.
#[derive(Debug)]
pub struct WmClient {
    /// Compositor window id (an address on Hyprland, a node id on Sway).
    pub id: String,
    pub class: String,
    /// Class the window was created with (groups child windows).
    pub initial_class: String,
    pub title: String,
    pub pid: i32,
    pub workspace: WmWorkspace,
    pub floating: bool,
    pub monitor_id: i32,
    pub fullscreen: bool,
}

impl Clone for WmClient {
    fn clone(&self) -> (r: Self)
        ensures
            r == *self,
    {
        WmClient {
            id: self.id.clone(),
            class: self.class.clone(),
            initial_class: self.initial_class.clone(),
            title: self.title.clone(),
            pid: self.pid,
            workspace: self.workspace.clone(),
            floating: self.floating,
            monitor_id: self.monitor_id,
            fullscreen: self.fullscreen,
        }
    }
}

/// An output, in logical (scaled, transformed) coordinates.
#[derive(Debug)]
pub struct WmMonitor {
    pub id: i32,
    /// Connector name, such as `DP-1`.
    pub name: String,
    pub width: i32,
    pub height: i32,
    pub x: i32,
    pub y: i32,
    pub focused: bool,
    pub active_workspace: WmWorkspace,
}

impl Clone for WmMonitor {
    fn clone(&self) -> (r: Self)
        ensures
            r == *self,
    {
        WmMonitor {
            id: self.id,
            name: self.name.clone(),
            width: self.width,
            height: self.height,
            x: self.x,
            y: self.y,
            focused: self.focused,
            active_workspace: self.active_workspace.clone(),
        }
    }
}

} // verus!

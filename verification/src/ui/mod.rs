//! Decisions behind the dock's widgets: which items it shows and how big,
//! drag-to-reorder, the workspace switcher, the hotspot and cursor logic,
//! generated CSS and menus.

pub mod pinning;
pub mod dock_box;
pub mod workspaces;
pub mod hotspot;
pub mod css;
pub mod menus;
pub mod window;
pub mod launch_bounce;
pub mod drag;

//! Verified core of a macOS-style dock for Hyprland and Sway: configuration
//! handling, hot-reload decisions, dock-item planning, drag/launch state and
//! cursor/monitor geometry.

pub mod lemmas;
pub mod text;
pub mod config;
pub mod config_file;
pub mod keyed;
pub mod compositor;
pub mod state;
pub mod events;
pub mod ui;
pub mod dock_windows;
pub mod monitor;
pub mod rebuild;
pub mod startup;

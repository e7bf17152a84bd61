//! Verified state machines and text layout helpers for the terminal UI.

pub mod scroll;
pub mod strs;
pub mod state;
pub mod theme;
pub mod text;
pub mod iocraft;
pub mod slash;
pub mod tool;
pub mod screen;
pub mod help_state;
pub mod settings;
pub mod fuzzy_finder;
pub mod sorting;
pub mod files;
pub mod snapshot_capture;
pub mod laws;
pub mod finder;
pub mod settings_state;
pub mod error;
pub mod app_step;
pub mod cmd;

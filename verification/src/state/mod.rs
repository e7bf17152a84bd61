//! Application state pieces that the screens drive.

pub mod input;
pub mod header;
pub mod composer;
pub mod memory_hits;
pub mod evidence;
pub mod approval;
pub mod model_selector;
pub mod session;
pub mod sidebar;
pub mod ui;
pub mod config;
pub mod welcome;
pub mod config_editor;
pub mod exit;

//! The file browser: the workspace tree and its listing.

pub mod tree;
pub mod browser;
pub mod content;
pub mod highlight;

//! Slash commands typed into the composer.

pub mod parser;

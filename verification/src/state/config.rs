//! Display settings and the small records shown in the sidebar.

use vstd::prelude::*;

verus! {

/// Verbosity levels for TUI display
#[derive(Debug, Clone, Copy, PartialEq, Eq)]
pub enum VerbosityLevel {
    /// Minimal output, essential information only
    Quiet,
    /// Balanced output (default)
    Default,
    /// Detailed output with all information
    Verbose,
}

impl VerbosityLevel {
    pub const VALUES: [VerbosityLevel; 3] = [VerbosityLevel::Quiet, VerbosityLevel::Default, VerbosityLevel::Verbose];

    pub fn as_str(&self) -> (r: &'static str)
        ensures
            r@ == match self {
                VerbosityLevel::Quiet => "quiet"@,
                VerbosityLevel::Default => "default"@,
                VerbosityLevel::Verbose => "verbose"@,
            },
    {
        match self {
            VerbosityLevel::Quiet => "quiet",
            VerbosityLevel::Default => "default",
            VerbosityLevel::Verbose => "verbose",
        }
    }

    /// Cycles quiet -> default -> verbose -> quiet.
    pub fn toggle(&mut self)
        ensures
            *final(self) == match *old(self) {
                VerbosityLevel::Quiet => VerbosityLevel::Default,
                VerbosityLevel::Default => VerbosityLevel::Verbose,
                VerbosityLevel::Verbose => VerbosityLevel::Quiet,
            },
    {
        *self = match self {
            VerbosityLevel::Quiet => VerbosityLevel::Default,
            VerbosityLevel::Default => VerbosityLevel::Verbose,
            VerbosityLevel::Verbose => VerbosityLevel::Quiet,
        }
    }
}

impl Default for VerbosityLevel {
    fn default() -> (v: Self)
        ensures
            v == VerbosityLevel::Quiet,
    {
        VerbosityLevel::Quiet
    }
}

/// How much the agent may do without asking.
#[derive(Debug, Clone, Copy, PartialEq, Eq)]
pub enum ApprovalMode {
    ReadOnly,
    Auto,
    FullAccess,
}

impl ApprovalMode {
    pub fn as_str(&self) -> (r: &'static str)
        ensures
            r@ == match self {
                ApprovalMode::ReadOnly => "read-only"@,
                ApprovalMode::Auto => "auto"@,
                ApprovalMode::FullAccess => "full-access"@,
            },
    {
        match self {
            ApprovalMode::ReadOnly => "read-only",
            ApprovalMode::Auto => "auto",
            ApprovalMode::FullAccess => "full-access",
        }
    }
}

/// Where tool execution is confined.
#[derive(Debug, Clone, Copy, PartialEq, Eq)]
pub enum SandboxMode {
    Policy,
    Os,
    Unconfined,
}

impl SandboxMode {
    pub fn as_str(&self) -> (r: &'static str)
        ensures
            r@ == match self {
                SandboxMode::Policy => "policy"@,
                SandboxMode::Os => "os"@,
                SandboxMode::Unconfined => "none"@,
            },
    {
        match self {
            SandboxMode::Policy => "policy",
            SandboxMode::Os => "os",
            SandboxMode::Unconfined => "none",
        }
    }
}

/// Session event for sidebar display
#[derive(Debug, Clone)]
pub struct SessionEvent {
    /// Event type
    pub event_type: String,
    /// Event message
    pub message: String,
    /// Timestamp (simplified as string for now)
    pub timestamp: String,
}

/// Modified file information
#[derive(Debug, Clone)]
pub struct ModifiedFile {
    /// File path
    pub path: String,
    /// Modification type (edited, created, deleted)
    pub mod_type: String,
}

/// Git diff entry for sidebar display
#[derive(Debug, Clone)]
pub struct GitDiff {
    /// File path
    pub path: String,
    /// Number of lines added
    pub added: usize,
    /// Number of lines deleted
    pub deleted: usize,
}

} // verus!

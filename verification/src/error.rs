//! Errors of the terminal front end, with the text shown for each.

use vstd::prelude::*;
use crate::strs::to_owned;

verus! {

/// What went wrong while driving the terminal.
pub enum UiError {
    /// An I/O failure, carried as the text of the underlying error.
    Io(String),
    /// A failure reported by the terminal backend.
    Terminal(String),
}

impl UiError {
    /// The text shown for the error: a kind prefix, then the detail.
    pub fn message(&self) -> (m: String)
        ensures
            m@ == match self {
                UiError::Io(d) => "IO error: "@ + d@,
                UiError::Terminal(d) => "Terminal error: "@ + d@,
            },
    {
        match self {
            UiError::Io(d) => to_owned("IO error: ").concat(d.as_str()),
            UiError::Terminal(d) => to_owned("Terminal error: ").concat(d.as_str()),
        }
    }
}

} // verus!

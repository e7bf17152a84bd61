//! Token and tool counters for the session.

use vstd::prelude::*;

verus! {

/// Tokens consumed by one exchange.
#[derive(Debug, Clone, Copy, PartialEq, Eq)]
pub struct TokensUsed {
    pub input: u32,
    pub output: u32,
}

impl TokensUsed {
    pub fn new(input: u32, output: u32) -> (t: Self)
        ensures
            t.input == input,
            t.output == output,
    {
        TokensUsed { input, output }
    }
}

/// Session statistics for the UI
#[derive(Debug, Clone, Default)]
pub struct SessionStats {
    /// Total input tokens used
    pub input_tokens: u32,
    /// Total output tokens used
    pub output_tokens: u32,
    /// Number of approval gates triggered
    pub approval_gates: u32,
    /// Number of tools executed
    pub tools_executed: u32,
}

impl SessionStats {
    pub fn new() -> (s: Self)
        ensures
            s.input_tokens == 0,
            s.output_tokens == 0,
            s.approval_gates == 0,
            s.tools_executed == 0,
    {
        SessionStats { input_tokens: 0, output_tokens: 0, approval_gates: 0, tools_executed: 0 }
    }

    pub fn total_tokens(&self) -> (t: u32)
        requires
            self.input_tokens + self.output_tokens <= u32::MAX,
        ensures
            t == self.input_tokens + self.output_tokens,
    {
        self.input_tokens + self.output_tokens
    }

    pub fn add_tokens(&mut self, tokens: &TokensUsed)
        requires
            old(self).input_tokens + tokens.input <= u32::MAX,
            old(self).output_tokens + tokens.output <= u32::MAX,
        ensures
            final(self).input_tokens == old(self).input_tokens + tokens.input,
            final(self).output_tokens == old(self).output_tokens + tokens.output,
            final(self).approval_gates == old(self).approval_gates,
            final(self).tools_executed == old(self).tools_executed,
    {
        self.input_tokens = self.input_tokens + tokens.input;
        self.output_tokens = self.output_tokens + tokens.output;
    }

    pub fn increment_approval_gate(&mut self)
        requires
            old(self).approval_gates < u32::MAX,
        ensures
            final(self).approval_gates == old(self).approval_gates + 1,
            final(self).input_tokens == old(self).input_tokens,
            final(self).output_tokens == old(self).output_tokens,
            final(self).tools_executed == old(self).tools_executed,
    {
        self.approval_gates = self.approval_gates + 1;
    }

    pub fn increment_tools_executed(&mut self)
        requires
            old(self).tools_executed < u32::MAX,
        ensures
            final(self).tools_executed == old(self).tools_executed + 1,
            final(self).input_tokens == old(self).input_tokens,
            final(self).output_tokens == old(self).output_tokens,
            final(self).approval_gates == old(self).approval_gates,
    {
        self.tools_executed = self.tools_executed + 1;
    }
}

} // verus!

//! User-interface settings and the groups of the settings screen.

use vstd::prelude::*;
use crate::strs::to_owned;

verus! {

pub const SETTING_GROUPS: [&'static str; 7] = ["General", "Appearance", "Editor", "Keyboard", "AI Model", "Tools", "Privacy"];

/// The settings screen's groups, in order.
pub fn setting_groups() -> (r: &'static [&'static str])
    ensures
        r@ == SETTING_GROUPS@,
{
    &SETTING_GROUPS
}

#[derive(Debug, Clone, PartialEq)]
pub struct UiSettings {
    pub auto_save_conversations: bool,
    pub show_tool_executions: bool,
    pub sound_effects: bool,
    pub theme: String,
    pub font_size: String,
    pub show_line_numbers: bool,
    pub word_wrap: bool,
    pub keymap: String,
    pub confirm_before_quit: bool,
    pub auto_approve_safe_tools: bool,
    pub enable_network_tools: bool,
    pub redact_workspace_paths: bool,
    pub anonymous_metrics: bool,
}

impl UiSettings {
    pub open spec fn is_default(&self) -> bool {
        &&& self.auto_save_conversations
        &&& self.show_tool_executions
        &&& !self.sound_effects
        &&& self.theme@ == "Oxocarbon Dark"@
        &&& self.font_size@ == "14px"@
        &&& self.show_line_numbers
        &&& self.word_wrap
        &&& self.keymap@ == "Default"@
        &&& self.confirm_before_quit
        &&& !self.auto_approve_safe_tools
        &&& self.enable_network_tools
        &&& self.redact_workspace_paths
        &&& !self.anonymous_metrics
    }
}

impl Default for UiSettings {
    fn default() -> (s: Self)
        ensures
            s.is_default(),
    {
        UiSettings {
            auto_save_conversations: true,
            show_tool_executions: true,
            sound_effects: false,
            theme: to_owned("Oxocarbon Dark"),
            font_size: to_owned("14px"),
            show_line_numbers: true,
            word_wrap: true,
            keymap: to_owned("Default"),
            confirm_before_quit: true,
            auto_approve_safe_tools: false,
            enable_network_tools: true,
            redact_workspace_paths: true,
            anonymous_metrics: false,
        }
    }
}

} // verus!

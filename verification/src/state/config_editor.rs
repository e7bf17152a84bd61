//! The config editor form: which field has focus and the values being edited.

use vstd::prelude::*;
use vstd::string::StringExecFns;
use crate::state::config::{ApprovalMode, SandboxMode};
use crate::strs::to_owned;

verus! {

/// Fields in the config editor form
#[derive(Debug, Clone, Copy, PartialEq, Eq)]
pub enum ConfigEditorField {
    ProfileName,
    ApprovalMode,
    SandboxMode,
    NetworkAccess,
    ModelName,
}

/// Fields in form order.
pub open spec fn field_at(i: int) -> ConfigEditorField {
    if i == 0 {
        ConfigEditorField::ProfileName
    } else if i == 1 {
        ConfigEditorField::ApprovalMode
    } else if i == 2 {
        ConfigEditorField::SandboxMode
    } else if i == 3 {
        ConfigEditorField::NetworkAccess
    } else if i == 4 {
        ConfigEditorField::ModelName
    } else {
        ConfigEditorField::ApprovalMode
    }
}

impl ConfigEditorField {
    pub const ALL: [ConfigEditorField; 5] = [
        ConfigEditorField::ProfileName,
        ConfigEditorField::ApprovalMode,
        ConfigEditorField::SandboxMode,
        ConfigEditorField::NetworkAccess,
        ConfigEditorField::ModelName,
    ];

    pub open spec fn editable(self) -> bool {
        self == ConfigEditorField::ApprovalMode || self == ConfigEditorField::SandboxMode
            || self == ConfigEditorField::NetworkAccess
    }

    pub fn label(&self) -> (r: &'static str)
        ensures
            r@ == match self {
                ConfigEditorField::ProfileName => "Profile"@,
                ConfigEditorField::ApprovalMode => "Approval Mode"@,
                ConfigEditorField::SandboxMode => "Sandbox Mode"@,
                ConfigEditorField::NetworkAccess => "Network Access"@,
                ConfigEditorField::ModelName => "Model"@,
            },
    {
        match self {
            ConfigEditorField::ProfileName => "Profile",
            ConfigEditorField::ApprovalMode => "Approval Mode",
            ConfigEditorField::SandboxMode => "Sandbox Mode",
            ConfigEditorField::NetworkAccess => "Network Access",
            ConfigEditorField::ModelName => "Model",
        }
    }

    pub fn is_editable(&self) -> (b: bool)
        ensures
            b == self.editable(),
    {
        match self {
            ConfigEditorField::ApprovalMode | ConfigEditorField::SandboxMode | ConfigEditorField::NetworkAccess => true,
            _ => false,
        }
    }
}

/// State for the config editor form
#[derive(Debug, Clone)]
pub struct ConfigEditorState {
    /// Current profile name (read-only display)
    pub profile_name: String,
    /// Current approval mode
    pub approval_mode: ApprovalMode,
    /// Current sandbox mode
    pub sandbox_mode: SandboxMode,
    /// Network access enabled
    pub network_access: bool,
    /// Current model name (read-only display)
    pub model_name: String,
    /// Currently focused field index
    pub focused_field_index: usize,
    /// Path to the config file
    pub config_path: Option<String>,
    /// Validation errors (field index -> error message)
    pub validation_errors: Vec<(usize, String)>,
    /// Whether the editor has unsaved changes
    pub has_changes: bool,
}

pub open spec fn next_approval(m: ApprovalMode) -> ApprovalMode {
    match m {
        ApprovalMode::ReadOnly => ApprovalMode::Auto,
        ApprovalMode::Auto => ApprovalMode::FullAccess,
        ApprovalMode::FullAccess => ApprovalMode::ReadOnly,
    }
}

pub open spec fn next_sandbox(m: SandboxMode) -> SandboxMode {
    match m {
        SandboxMode::Policy => SandboxMode::Os,
        SandboxMode::Os => SandboxMode::Unconfined,
        SandboxMode::Unconfined => SandboxMode::Policy,
    }
}

impl ConfigEditorState {
    pub open spec fn focused(&self) -> ConfigEditorField {
        field_at(self.focused_field_index as int)
    }

    /// The editable values and the focus are as in `other`.
    pub open spec fn same_values(&self, other: &Self) -> bool {
        &&& self.profile_name == other.profile_name
        &&& self.approval_mode == other.approval_mode
        &&& self.sandbox_mode == other.sandbox_mode
        &&& self.network_access == other.network_access
        &&& self.model_name == other.model_name
        &&& self.has_changes == other.has_changes
    }

    /// Create a new config editor state from current app config; focus starts
    /// on the first editable field.
    pub fn new(
        profile_name: String,
        approval_mode: ApprovalMode,
        sandbox_mode: SandboxMode,
        network_access: bool,
        model_name: String,
        config_path: Option<String>,
    ) -> (s: Self)
        ensures
            s.profile_name == profile_name,
            s.approval_mode == approval_mode,
            s.sandbox_mode == sandbox_mode,
            s.network_access == network_access,
            s.model_name == model_name,
            s.focused_field_index == 1,
            s.config_path == config_path,
            s.validation_errors@.len() == 0,
            !s.has_changes,
    {
        ConfigEditorState {
            profile_name,
            approval_mode,
            sandbox_mode,
            network_access,
            model_name,
            focused_field_index: 1,
            config_path,
            validation_errors: Vec::new(),
            has_changes: false,
        }
    }

    /// Get the currently focused field (Approval Mode when the index is out of range)
    pub fn focused_field(&self) -> (f: ConfigEditorField)
        ensures
            f == self.focused(),
    {
        if self.focused_field_index < 5 {
            Self::field_at_exec(self.focused_field_index)
        } else {
            ConfigEditorField::ApprovalMode
        }
    }

    fn field_at_exec(i: usize) -> (f: ConfigEditorField)
        requires
            i < 5,
        ensures
            f == field_at(i as int),
    {
        let all = ConfigEditorField::ALL;
        all[i]
    }

    /// Move to the next field, wrapping after the last
    pub fn next_field(&mut self)
        requires
            old(self).focused_field_index < usize::MAX,
        ensures
            final(self).focused_field_index == (old(self).focused_field_index + 1) % 5,
            final(self).same_values(old(self)),
    {
        self.focused_field_index = (self.focused_field_index + 1) % 5;
    }

    /// Move to the previous field, wrapping before the first
    pub fn prev_field(&mut self)
        requires
            old(self).focused_field_index + 5 <= usize::MAX,
        ensures
            final(self).focused_field_index == (old(self).focused_field_index + 4) % 5,
            final(self).same_values(old(self)),
    {
        self.focused_field_index = (self.focused_field_index + 5 - 1) % 5;
    }

    /// Toggle/cycle the value of the currently focused field
    pub fn toggle_value(&mut self)
        ensures
            final(self).focused_field_index == old(self).focused_field_index,
            final(self).profile_name == old(self).profile_name,
            final(self).model_name == old(self).model_name,
            !old(self).focused().editable() ==> final(self).same_values(old(self)),
            old(self).focused().editable() ==> {
                &&& final(self).has_changes
                &&& final(self).approval_mode == if old(self).focused() == ConfigEditorField::ApprovalMode {
                        next_approval(old(self).approval_mode)
                    } else {
                        old(self).approval_mode
                    }
                &&& final(self).sandbox_mode == if old(self).focused() == ConfigEditorField::SandboxMode {
                        next_sandbox(old(self).sandbox_mode)
                    } else {
                        old(self).sandbox_mode
                    }
                &&& final(self).network_access == if old(self).focused() == ConfigEditorField::NetworkAccess {
                        !old(self).network_access
                    } else {
                        old(self).network_access
                    }
            },
    {
        let field = self.focused_field();
        if !field.is_editable() {
            return;
        }
        self.has_changes = true;
        match field {
            ConfigEditorField::ApprovalMode => {
                self.approval_mode = match self.approval_mode {
                    ApprovalMode::ReadOnly => ApprovalMode::Auto,
                    ApprovalMode::Auto => ApprovalMode::FullAccess,
                    ApprovalMode::FullAccess => ApprovalMode::ReadOnly,
                };
            },
            ConfigEditorField::SandboxMode => {
                self.sandbox_mode = match self.sandbox_mode {
                    SandboxMode::Policy => SandboxMode::Os,
                    SandboxMode::Os => SandboxMode::Unconfined,
                    SandboxMode::Unconfined => SandboxMode::Policy,
                };
            },
            ConfigEditorField::NetworkAccess => {
                self.network_access = !self.network_access;
            },
            _ => {},
        }
    }

    /// Get the display value for a field
    pub fn field_value(&self, field: ConfigEditorField) -> (v: String)
        ensures
            v@ == match field {
                ConfigEditorField::ProfileName => self.profile_name@,
                ConfigEditorField::ApprovalMode => match self.approval_mode {
                    ApprovalMode::ReadOnly => "read-only"@,
                    ApprovalMode::Auto => "auto"@,
                    ApprovalMode::FullAccess => "full-access"@,
                },
                ConfigEditorField::SandboxMode => match self.sandbox_mode {
                    SandboxMode::Policy => "policy"@,
                    SandboxMode::Os => "os"@,
                    SandboxMode::Unconfined => "none"@,
                },
                ConfigEditorField::NetworkAccess => if self.network_access { "enabled"@ } else { "disabled"@ },
                ConfigEditorField::ModelName => self.model_name@ + " (use /model to change)"@,
            },
    {
        match field {
            ConfigEditorField::ProfileName => self.profile_name.clone(),
            ConfigEditorField::ApprovalMode => to_owned(self.approval_mode.as_str()),
            ConfigEditorField::SandboxMode => to_owned(self.sandbox_mode.as_str()),
            ConfigEditorField::NetworkAccess => {
                if self.network_access {
                    to_owned("enabled")
                } else {
                    to_owned("disabled")
                }
            },
            ConfigEditorField::ModelName => self.model_name.clone().concat(" (use /model to change)"),
        }
    }

    /// Validate the current configuration (no rule can fail yet)
    pub fn validate(&mut self) -> (ok: bool)
        ensures
            ok,
            final(self).validation_errors@.len() == 0,
            final(self).same_values(old(self)),
            final(self).focused_field_index == old(self).focused_field_index,
    {
        self.validation_errors = Vec::new();
        self.validation_errors.len() == 0
    }
}

} // verus!

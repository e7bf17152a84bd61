use thndrs_ui::state::config_editor::{ConfigEditorField, ConfigEditorState};
use thndrs_ui::state::config::{ApprovalMode, SandboxMode};

fn create_test_state() -> ConfigEditorState {
    ConfigEditorState::new(
        "default".to_string(),
        ApprovalMode::Auto,
        SandboxMode::Policy,
        false,
        "glm-4.7".to_string(),
        None,
    )
}

#[test]
fn test_new_starts_at_first_editable_field() {
    let state = create_test_state();
    assert_eq!(state.focused_field_index, 1);
    assert_eq!(state.focused_field(), ConfigEditorField::ApprovalMode);
}

#[test]
fn test_next_field_wraps() {
    let mut state = create_test_state();
    state.focused_field_index = 4;
    state.next_field();
    assert_eq!(state.focused_field_index, 0);
}

#[test]
fn test_prev_field_wraps() {
    let mut state = create_test_state();
    state.focused_field_index = 0;
    state.prev_field();
    assert_eq!(state.focused_field_index, 4);
}

#[test]
fn test_toggle_approval_mode() {
    let mut state = create_test_state();
    state.focused_field_index = 1;

    state.toggle_value();
    assert_eq!(state.approval_mode, ApprovalMode::FullAccess);

    state.toggle_value();
    assert_eq!(state.approval_mode, ApprovalMode::ReadOnly);

    state.toggle_value();
    assert_eq!(state.approval_mode, ApprovalMode::Auto);
}

#[test]
fn test_toggle_sandbox_mode() {
    let mut state = create_test_state();
    state.focused_field_index = 2;

    state.toggle_value();
    assert_eq!(state.sandbox_mode, SandboxMode::Os);

    state.toggle_value();
    assert_eq!(state.sandbox_mode, SandboxMode::Unconfined);

    state.toggle_value();
    assert_eq!(state.sandbox_mode, SandboxMode::Policy);
}

#[test]
fn test_toggle_network_access() {
    let mut state = create_test_state();
    state.focused_field_index = 3;

    state.toggle_value();
    assert!(state.network_access);

    state.toggle_value();
    assert!(!state.network_access);
}

#[test]
fn test_toggle_readonly_field_does_nothing() {
    let mut state = create_test_state();
    state.focused_field_index = 0;

    let original = state.profile_name.clone();
    state.toggle_value();
    assert_eq!(state.profile_name, original);
    assert!(!state.has_changes);
}

#[test]
fn test_field_value() {
    let state = create_test_state();

    assert_eq!(state.field_value(ConfigEditorField::ProfileName), "default");
    assert_eq!(state.field_value(ConfigEditorField::ApprovalMode), "auto");
    assert_eq!(state.field_value(ConfigEditorField::SandboxMode), "policy");
    assert_eq!(state.field_value(ConfigEditorField::NetworkAccess), "disabled");
    assert_eq!(
        state.field_value(ConfigEditorField::ModelName),
        "glm-4.7 (use /model to change)"
    );
}

#[test]
fn test_has_changes_tracks_modifications() {
    let mut state = create_test_state();
    assert!(!state.has_changes);

    state.focused_field_index = 1;
    state.toggle_value();
    assert!(state.has_changes);
}

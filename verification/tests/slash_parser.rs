use thndrs_ui::slash::parser::{parse_slash_command, KeyAction};

#[test]
fn test_parse_slash_command_model() {
    let action = parse_slash_command("model glm-4.7".to_string());
    assert!(matches!(action, Some(KeyAction::SlashCommandModel { .. })));
    if let Some(KeyAction::SlashCommandModel { model }) = action {
        assert_eq!(model, "glm-4.7");
    }
}

#[test]
fn test_parse_slash_command_model_list() {
    let action = parse_slash_command("model".to_string());
    assert!(matches!(action, Some(KeyAction::SlashCommandModel { .. })));
    if let Some(KeyAction::SlashCommandModel { model }) = action {
        assert_eq!(model, "list");
    }
}

#[test]
fn test_parse_slash_command_approvals() {
    let action = parse_slash_command("approvals read-only".to_string());
    assert!(matches!(action, Some(KeyAction::SlashCommandApprovals { .. })));
    if let Some(KeyAction::SlashCommandApprovals { mode }) = action {
        assert_eq!(mode, "read-only");
    }
}

#[test]
fn test_parse_slash_command_approvals_list() {
    let action = parse_slash_command("approvals".to_string());
    assert!(matches!(action, Some(KeyAction::SlashCommandApprovals { .. })));
    if let Some(KeyAction::SlashCommandApprovals { mode }) = action {
        assert_eq!(mode, "list");
    }
}

#[test]
fn test_parse_slash_command_verbosity() {
    let action = parse_slash_command("verbosity verbose".to_string());
    assert!(matches!(action, Some(KeyAction::SlashCommandVerbosity { .. })));
    if let Some(KeyAction::SlashCommandVerbosity { level }) = action {
        assert_eq!(level, "verbose");
    }
}

#[test]
fn test_parse_slash_command_verbosity_list() {
    let action = parse_slash_command("verbosity".to_string());
    assert!(matches!(action, Some(KeyAction::SlashCommandVerbosity { .. })));
    if let Some(KeyAction::SlashCommandVerbosity { level }) = action {
        assert_eq!(level, "list");
    }
}

#[test]
fn test_parse_slash_command_verbosity_all_levels() {
    let action_quiet = parse_slash_command("verbosity quiet".to_string());
    if let Some(KeyAction::SlashCommandVerbosity { level }) = action_quiet {
        assert_eq!(level, "quiet");
    }

    let action_default = parse_slash_command("verbosity default".to_string());
    if let Some(KeyAction::SlashCommandVerbosity { level }) = action_default {
        assert_eq!(level, "default");
    }

    let action_verbose = parse_slash_command("verbosity verbose".to_string());
    if let Some(KeyAction::SlashCommandVerbosity { level }) = action_verbose {
        assert_eq!(level, "verbose");
    }
}

#[test]
fn test_parse_slash_command_status() {
    let action = parse_slash_command("status".to_string());
    assert!(matches!(action, Some(KeyAction::SlashCommandStatus)));
}

#[test]
fn test_parse_slash_command_plan() {
    let action = parse_slash_command("plan".to_string());
    assert!(matches!(action, Some(KeyAction::SlashCommandPlan)));
}

#[test]
fn test_parse_slash_command_review() {
    let action = parse_slash_command("review".to_string());
    assert!(matches!(action, Some(KeyAction::SlashCommandReview)));
}

#[test]
fn test_parse_slash_command_memory() {
    let action = parse_slash_command("memory".to_string());
    assert!(matches!(action, Some(KeyAction::SlashCommandMemory)));
}

#[test]
fn test_parse_slash_command_clear() {
    let action = parse_slash_command("clear".to_string());
    assert!(matches!(action, Some(KeyAction::SlashCommandClear)));
}

#[test]
fn test_parse_slash_command_config() {
    let action = parse_slash_command("config".to_string());
    assert!(matches!(action, Some(KeyAction::SlashCommandConfig)));
}

#[test]
fn test_parse_slash_command_unknown() {
    let action = parse_slash_command("unknown_command".to_string());
    assert!(action.is_none());
}

#[test]
fn test_parse_slash_command_empty() {
    let action = parse_slash_command("".to_string());
    assert!(action.is_none());
}

#[test]
fn test_parse_slash_command_whitespace_only() {
    let action = parse_slash_command("   ".to_string());
    assert!(action.is_none());
}

#[test]
fn test_parse_slash_command_extra_whitespace() {
    let action = parse_slash_command("  model   glm-4.7  ".to_string());
    assert!(matches!(action, Some(KeyAction::SlashCommandModel { .. })));
    if let Some(KeyAction::SlashCommandModel { model }) = action {
        assert_eq!(model, "glm-4.7");
    }
}

#[test]
fn test_parse_slash_command_multiple_words() {
    let action = parse_slash_command("model some model name".to_string());
    assert!(matches!(action, Some(KeyAction::SlashCommandModel { .. })));
    if let Some(KeyAction::SlashCommandModel { model }) = action {
        assert_eq!(model, "some");
    }
}

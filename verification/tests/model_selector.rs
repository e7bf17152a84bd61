use thndrs_ui::state::model_selector::ModelSelectorState;

#[test]
fn test_model_selector_new() {
    let selector = ModelSelectorState::new("GLM-4.7".to_string());
    assert_eq!(selector.current_model, "GLM-4.7");
    assert_eq!(selector.available_models.len(), 3);
    assert!(selector.current_agent.is_none());
}

#[test]
fn test_select_model() {
    let mut selector = ModelSelectorState::new("GLM-4.7".to_string());
    selector.select_model("Gemini 3 Pro".to_string());
    assert_eq!(selector.current_model, "Gemini 3 Pro");
}

#[test]
fn test_select_invalid_model() {
    let mut selector = ModelSelectorState::new("GLM-4.7".to_string());
    selector.select_model("Invalid".to_string());
    assert_eq!(selector.current_model, "GLM-4.7");
}

#[test]
fn test_set_agent() {
    let mut selector = ModelSelectorState::new("GLM-4.7".to_string());
    selector.set_agent("test-agent".to_string());
    assert_eq!(selector.current_agent, Some("test-agent".to_string()));
}

#[test]
fn test_clear_agent() {
    let mut selector = ModelSelectorState::new("GLM-4.7".to_string());
    selector.set_agent("test-agent".to_string());
    selector.clear_agent();
    assert!(selector.current_agent.is_none());
}

use thndrs_ui::screen::ScreenAction;
use thndrs_ui::settings::UiSettings;
use thndrs_ui::settings_state::{
    update, CoreSettings, SettingItem, Settings, SettingsApp, SettingsEffect, SettingsKey,
};

fn core_values(provider: &str, model: Option<&str>) -> CoreSettings {
    CoreSettings { default_provider: provider.to_string(), default_model: model.map(|m| m.to_string()) }
}

fn app() -> SettingsApp {
    let saved = Settings { core: core_values("moonshot", None), ui: UiSettings::default() };
    SettingsApp::new(saved, core_values("moonshot", None), None)
}

#[test]
fn test_settings_app_new() {
    let app = app();
    assert_eq!(app.selected_group, 0);
    assert!(!app.has_changes);
    assert_eq!(app.status_text(), "Settings");
    assert_eq!(app.current_group_name(), "General");
}

#[test]
fn load_error_shows_in_status() {
    let saved = Settings { core: core_values("zhipu", None), ui: UiSettings::default() };
    let app = SettingsApp::new(saved, core_values("moonshot", None), Some("bad toml".to_string()));
    assert_eq!(app.status_text(), "Failed to load settings: bad toml");
}

#[test]
fn toggling_a_setting_marks_changes_and_back() {
    let mut app = app();
    let _ = update(&mut app, SettingsKey::Select);
    assert!(!app.temp_settings.ui.auto_save_conversations);
    assert!(app.has_changes);
    let _ = update(&mut app, SettingsKey::Select);
    assert!(app.temp_settings.ui.auto_save_conversations);
    assert!(!app.has_changes);
}

#[test]
fn groups_move_with_ctrl_arrows_and_reset_selection() {
    let mut app = app();
    let _ = update(&mut app, SettingsKey::Down);
    assert_eq!(app.active_setting_index(), 1);
    let _ = update(&mut app, SettingsKey::CtrlDown);
    assert_eq!(app.selected_group, 1);
    assert_eq!(app.active_setting_index(), 0);
    assert_eq!(app.current_group_name(), "Appearance");
    let _ = update(&mut app, SettingsKey::CtrlUp);
    let _ = update(&mut app, SettingsKey::CtrlUp);
    assert_eq!(app.selected_group, 0);
}

#[test]
fn select_settings_cycle_through_options() {
    let mut app = app();
    let _ = update(&mut app, SettingsKey::CtrlDown);
    let _ = update(&mut app, SettingsKey::Right);
    assert_eq!(app.temp_settings.ui.theme, "Oxocarbon Light");
    let _ = update(&mut app, SettingsKey::Right);
    assert_eq!(app.temp_settings.ui.theme, "Dracula");
    let _ = update(&mut app, SettingsKey::Right);
    assert_eq!(app.temp_settings.ui.theme, "Oxocarbon Dark");
    let _ = update(&mut app, SettingsKey::Left);
    assert_eq!(app.temp_settings.ui.theme, "Dracula");
    assert!(app.has_changes);
}

#[test]
fn numeric_settings_are_stepped_by_the_app() {
    let mut app = app();
    for _ in 0..4 {
        let _ = update(&mut app, SettingsKey::CtrlDown);
    }
    assert_eq!(app.current_group_name(), "AI Model");
    let _ = update(&mut app, SettingsKey::Down);
    let _ = update(&mut app, SettingsKey::Down);
    let (_, effect) = update(&mut app, SettingsKey::Right);
    match effect {
        SettingsEffect::StepNumber { key, up } => {
            assert_eq!(key, "temperature");
            assert!(up);
        }
        other => panic!("unexpected effect {other:?}"),
    }
    app.note_temperature(true);
    assert!(app.has_changes);
    let items = app.current_group_settings();
    assert!(matches!(items[2], SettingItem::Number { .. }));
}

#[test]
fn save_dialog_asks_the_app_to_save() {
    let mut app = app();
    let _ = update(&mut app, SettingsKey::Select);
    let _ = update(&mut app, SettingsKey::CtrlS);
    assert!(app.show_save_dialog);
    let (action, effect) = update(&mut app, SettingsKey::Char('y'));
    assert_eq!(action, ScreenAction::NoAction);
    assert!(matches!(effect, SettingsEffect::Save));
    assert!(!app.show_save_dialog);
    app.finish_save(None);
    assert!(!app.has_changes);
    assert!(!app.settings.ui.auto_save_conversations);
    assert_eq!(app.status_text(), "Settings saved successfully");
}

#[test]
fn failed_save_keeps_changes() {
    let mut app = app();
    let _ = update(&mut app, SettingsKey::Select);
    app.finish_save(Some("disk full".to_string()));
    assert!(app.has_changes);
    assert_eq!(app.status_text(), "Error saving: disk full");
}

#[test]
fn reset_dialog_restores_defaults() {
    let saved = Settings { core: core_values("zhipu", Some("glm-5")), ui: UiSettings::default() };
    let mut app = SettingsApp::new(saved, core_values("moonshot", None), None);
    let _ = update(&mut app, SettingsKey::CtrlR);
    assert!(app.show_reset_dialog);
    let (_, effect) = update(&mut app, SettingsKey::Char('Y'));
    assert!(matches!(effect, SettingsEffect::ResetNumbers));
    assert_eq!(app.temp_settings.core.default_provider, "moonshot");
    assert!(app.temp_settings.core.default_model.is_none());
    assert!(app.has_changes);
    assert_eq!(app.status_text(), "Settings reset to defaults. Press Ctrl+S to save.");
}

#[test]
fn esc_leaves_the_screen_unless_a_dialog_is_open() {
    let mut app = app();
    let _ = update(&mut app, SettingsKey::CtrlS);
    let (action, _) = update(&mut app, SettingsKey::Esc);
    assert_eq!(action, ScreenAction::NoAction);
    assert!(!app.show_save_dialog);
    let (action, _) = update(&mut app, SettingsKey::Esc);
    assert_eq!(action, ScreenAction::ReturnToPrevious);
}

#[test]
fn settings_page_follows_the_viewport() {
    use_page_sizes();
    let mut app = app();
    app.fit_viewport(2);
    assert_eq!(app.scroll.page_size, 2);
    assert_eq!(app.scroll.total, 3);
    let _ = update(&mut app, SettingsKey::Down);
    assert_eq!(app.scroll.page_size, 8);
}

fn use_page_sizes() {
    assert_eq!(thndrs_ui::settings_state::settings_page_size(28), (25, 7));
    assert_eq!(thndrs_ui::settings_state::settings_page_size(12), (9, 1));
    assert_eq!(thndrs_ui::settings_state::settings_page_size(13), (10, 2));
    assert_eq!(thndrs_ui::settings_state::settings_page_size(2), (1, 1));
}

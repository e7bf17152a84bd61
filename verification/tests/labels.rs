use thndrs_ui::files::browser::{map_file_browser_action, FileBrowserAction};
use thndrs_ui::help_state::{format_help_time_ago, format_time_ago};
use thndrs_ui::screen::{app_version_string, ScreenAction};
use thndrs_ui::settings_state::{setting_value, SettingItem};

#[test]
fn session_age_labels() {
    assert_eq!(format_help_time_ago(-5), "just now");
    assert_eq!(format_help_time_ago(59), "just now");
    assert_eq!(format_help_time_ago(60), "1m ago");
    assert_eq!(format_help_time_ago(3599), "59m ago");
    assert_eq!(format_help_time_ago(3600), "1h ago");
    assert_eq!(format_help_time_ago(86_399), "23h ago");
    assert_eq!(format_help_time_ago(86_400), "1d ago");
    assert_eq!(format_help_time_ago(30 * 86_400), "30d ago");
}

#[test]
fn older_sessions_show_a_date_after_a_week() {
    assert_eq!(format_time_ago(6 * 86_400).as_deref(), Some("6d ago"));
    assert_eq!(format_time_ago(7 * 86_400), None);
}

#[test]
fn browser_actions_map_to_screen_actions() {
    assert_eq!(map_file_browser_action(FileBrowserAction::NoAction), None);
    assert_eq!(map_file_browser_action(FileBrowserAction::Quit), Some(ScreenAction::Quit));
    assert_eq!(map_file_browser_action(FileBrowserAction::ExitToChat), Some(ScreenAction::ReturnToPrevious));
}

#[test]
fn setting_values_render_per_kind() {
    let on = SettingItem::Toggle { name: "a".into(), description: "b".into(), value: true, key: "k".into() };
    let off = SettingItem::Toggle { name: "a".into(), description: "b".into(), value: false, key: "k".into() };
    let sel = SettingItem::Select {
        name: "Theme".into(),
        description: "d".into(),
        value: "Dracula".into(),
        options: vec!["Dracula".into()],
        key: "theme".into(),
    };
    let num = SettingItem::Number { name: "T".into(), description: "d".into(), key: "temperature".into() };
    assert_eq!(setting_value(&on, ""), "[ON]");
    assert_eq!(setting_value(&off, ""), "[OFF]");
    assert_eq!(setting_value(&sel, ""), "Dracula");
    assert_eq!(setting_value(&num, "0.0 ◀ 0.7 ▶ 1.0"), "0.0 ◀ 0.7 ▶ 1.0");
}

#[test]
fn setting_descriptions() {
    let t = SettingItem::Toggle { name: "a".into(), description: "Play sounds".into(), value: true, key: "k".into() };
    let n = SettingItem::Number { name: "T".into(), description: "Creativity".into(), key: "temperature".into() };
    assert_eq!(t.description(), "Play sounds");
    assert_eq!(n.description(), "Creativity");
}

#[test]
fn help_test_version_string() {
    let version = app_version_string(Some("0.3.1"));
    assert!(version.starts_with("Thunderus v"));
}

#[test]
fn help_state_test_version_string() {
    assert!(app_version_string(None).starts_with("Thunderus v"));
}

#[test]
fn help_test_format_time_ago() {
    assert_eq!(format_time_ago(30).as_deref(), Some("just now"));
    assert_eq!(format_time_ago(5 * 60).as_deref(), Some("5m ago"));
    assert_eq!(format_time_ago(3 * 3600).as_deref(), Some("3h ago"));
    assert_eq!(format_time_ago(2 * 86_400).as_deref(), Some("2d ago"));
}

#[test]
fn help_state_test_format_time_ago() {
    assert_eq!(format_help_time_ago(5 * 60), "5m ago");
}

#[test]
fn test_setting_item_key() {
    let item = SettingItem::Toggle {
        name: "Test".to_string(),
        description: "Description".to_string(),
        value: true,
        key: "test_key".to_string(),
    };
    assert_eq!(item.key(), "test_key");
    assert_eq!(item.name(), "Test");
}

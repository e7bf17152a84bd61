use thndrs_ui::app_step::{app_step, AppAction, AppMsg, AppState};
use thndrs_ui::files::browser::{BrowserEffect, BrowserKey, FileBrowserApp};
use thndrs_ui::help_state::{HelpApp, HelpKey};
use thndrs_ui::screen::{ScreenMode, ScreenNavigation};
use thndrs_ui::settings::UiSettings;
use thndrs_ui::settings_state::{CoreSettings, Settings, SettingsApp, SettingsEffect, SettingsKey};

fn state() -> AppState {
    let core = CoreSettings { default_provider: "moonshot".to_string(), default_model: None };
    let saved = Settings { core: core.clone(), ui: UiSettings::default() };
    AppState {
        nav: ScreenNavigation::new(),
        file_browser: FileBrowserApp::new("/w".to_string(), "w".to_string()),
        settings: SettingsApp::new(saved, core, None),
        help: HelpApp::new(Vec::new()),
    }
}

#[test]
fn overlays_open_and_return_through_their_keys() {
    let mut s = state();
    assert!(matches!(app_step(&mut s, AppMsg::StartNewChat), AppAction::ResetChat));
    assert_eq!(s.nav.screen_mode, ScreenMode::Chat);
    app_step(&mut s, AppMsg::OpenSettings);
    assert_eq!(s.nav.screen_mode, ScreenMode::Settings);
    assert_eq!(s.nav.previous_screen, Some(ScreenMode::Chat));
    let a = app_step(&mut s, AppMsg::Settings(SettingsKey::Select));
    assert!(matches!(a, AppAction::Settings(SettingsEffect::Nothing)));
    assert!(!s.settings.temp_settings.ui.auto_save_conversations);
    app_step(&mut s, AppMsg::Settings(SettingsKey::Esc));
    assert_eq!(s.nav.screen_mode, ScreenMode::Chat);
    assert_eq!(s.nav.previous_screen, None);
    app_step(&mut s, AppMsg::OpenHelp);
    app_step(&mut s, AppMsg::Help(HelpKey::Tab));
    assert_eq!(s.help.selected_tab, 1);
    app_step(&mut s, AppMsg::Help(HelpKey::Esc));
    assert_eq!(s.nav.screen_mode, ScreenMode::Chat);
}

#[test]
fn browser_keys_reach_the_browser_and_its_exits() {
    let mut s = state();
    app_step(&mut s, AppMsg::StartNewChat);
    s.nav.screen_mode = ScreenMode::Files;
    s.nav.previous_screen = Some(ScreenMode::Chat);
    assert!(matches!(app_step(&mut s, AppMsg::Files(BrowserKey::CtrlR)), AppAction::Files(BrowserEffect::Reload)));
    app_step(&mut s, AppMsg::Files(BrowserKey::Esc));
    assert_eq!(s.nav.screen_mode, ScreenMode::Chat);
    app_step(&mut s, AppMsg::Files(BrowserKey::CtrlQ));
    assert!(!s.nav.running);
}

#[test]
fn closing_the_chat_goes_to_welcome_and_quit_stops() {
    let mut s = state();
    app_step(&mut s, AppMsg::StartNewChat);
    assert!(matches!(app_step(&mut s, AppMsg::CloseActiveChat), AppAction::CloseChatFinder));
    assert_eq!(s.nav.screen_mode, ScreenMode::Welcome);
    assert!(s.nav.running);
    app_step(&mut s, AppMsg::Quit);
    assert!(!s.nav.running);
}

#[test]
fn unknown_commands_get_the_list_of_known_ones() {
    let m = thndrs_ui::app_step::unknown_command_message("/nope");
    assert!(m.starts_with("Unknown command `/nope`. Available: `/help`, `/settings`"));
    assert!(m.ends_with("`/debug log <id>`."));
}

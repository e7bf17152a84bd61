//! One step of the whole terminal app: a message from the terminal (or from
//! a screen) moves between screens and into the screen it is for, and what
//! needs outside work comes back as an action. The chat and welcome screens
//! are kept by the caller; the step says when they are to be reset.

use vstd::prelude::*;
use crate::screen::{ScreenNavigation, ScreenMode, ScreenAction, opened, chat_closed, after_action};
use crate::files::browser::{FileBrowserApp, FileBrowserAction, BrowserKey, BrowserEffect, browser_step, paths_fit, map_file_browser_action};
use crate::settings_state::{SettingsApp, SettingsKey, SettingsEffect, settings_step};
use crate::help_state::{HelpApp, HelpKey, help_step};

verus! {

/// The screens the step drives, and which one is shown.
#[derive(Debug, Clone)]
pub struct AppState {
    pub nav: ScreenNavigation,
    pub file_browser: FileBrowserApp,
    pub settings: SettingsApp,
    pub help: HelpApp,
}

impl AppState {
    /// Every screen is in a state its own keys can be handled in.
    pub open spec fn wf(&self) -> bool {
        &&& self.file_browser.wf()
        &&& self.settings.wf()
        &&& self.help.selected_tab < 5
        &&& self.help.tip_index < usize::MAX
    }
}

/// What the app is asked to do.
#[derive(Debug, Clone, Copy, PartialEq, Eq)]
pub enum AppMsg {
    Quit,
    OpenSettings,
    OpenHelp,
    StartNewChat,
    CloseActiveChat,
    Files(BrowserKey),
    Settings(SettingsKey),
    Help(HelpKey),
}

/// Work the step leaves to the caller.
#[derive(Debug, Clone)]
pub enum AppAction {
    Nothing,
    /// Clear the chat and close its file finder.
    ResetChat,
    /// Close the chat's file finder.
    CloseChatFinder,
    /// Work the file browser asked for.
    Files(BrowserEffect),
    /// Work the settings screen asked for.
    Settings(SettingsEffect),
}

/// The screen change a browser action asks for.
pub open spec fn browser_screen_action(a: FileBrowserAction) -> ScreenAction {
    match a {
        FileBrowserAction::NoAction => ScreenAction::NoAction,
        FileBrowserAction::Quit => ScreenAction::Quit,
        FileBrowserAction::ExitToChat => ScreenAction::ReturnToPrevious,
    }
}

/// What one message does to the app.
pub open spec fn app_next(o: AppState, msg: AppMsg, n: AppState, action: AppAction) -> bool {
    match msg {
        AppMsg::Quit => n == (AppState { nav: ScreenNavigation { running: false, ..o.nav }, ..o }) && action is Nothing,
        AppMsg::OpenSettings => n == (AppState { nav: opened(o.nav, ScreenMode::Settings), ..o }) && action is Nothing,
        AppMsg::OpenHelp => n == (AppState { nav: opened(o.nav, ScreenMode::Help), ..o }) && action is Nothing,
        AppMsg::StartNewChat => n == (AppState {
            nav: ScreenNavigation { running: o.nav.running, screen_mode: ScreenMode::Chat, previous_screen: None },
            ..o
        }) && action is ResetChat,
        AppMsg::CloseActiveChat => n == (AppState { nav: chat_closed(o.nav), ..o }) && action is CloseChatFinder,
        AppMsg::Files(key) => exists|r: (FileBrowserAction, BrowserEffect)| {
            &&& #[trigger] browser_step(o.file_browser, key, n.file_browser, r)
            &&& n.nav == after_action(o.nav, browser_screen_action(r.0))
            &&& n.settings == o.settings
            &&& n.help == o.help
            &&& action == AppAction::Files(r.1)
        },
        AppMsg::Settings(key) => exists|r: (ScreenAction, SettingsEffect)| {
            &&& #[trigger] settings_step(o.settings, key, n.settings, r)
            &&& n.nav == after_action(o.nav, r.0)
            &&& n.file_browser == o.file_browser
            &&& n.help == o.help
            &&& action == AppAction::Settings(r.1)
        },
        AppMsg::Help(key) => exists|a: ScreenAction| {
            &&& #[trigger] help_step(o.help, key, n.help, a)
            &&& n.nav == after_action(o.nav, a)
            &&& n.file_browser == o.file_browser
            &&& n.settings == o.settings
            &&& action is Nothing
        },
    }
}

/// Carries out one message: moves between screens, or hands a key to the
/// screen it is for and carries out the screen change it asks for.
pub fn app_step(state: &mut AppState, msg: AppMsg) -> (action: AppAction)
    requires
        old(state).wf(),
        msg is Files ==> old(state).file_browser.finder.query@.len() < 65536 && paths_fit(old(state).file_browser.files@),
    ensures
        final(state).wf(),
        app_next(*old(state), msg, *final(state), action),
{
    match msg {
        AppMsg::Quit => {
            state.nav.running = false;
            AppAction::Nothing
        },
        AppMsg::OpenSettings => {
            state.nav.open_settings();
            AppAction::Nothing
        },
        AppMsg::OpenHelp => {
            state.nav.open_help();
            AppAction::Nothing
        },
        AppMsg::StartNewChat => {
            state.nav.screen_mode = ScreenMode::Chat;
            state.nav.previous_screen = None;
            AppAction::ResetChat
        },
        AppMsg::CloseActiveChat => {
            state.nav.close_active_chat();
            AppAction::CloseChatFinder
        },
        AppMsg::Files(key) => {
            let r = state.file_browser.handle_input(key);
            let screen = match map_file_browser_action(r.0) {
                Some(a) => a,
                None => ScreenAction::NoAction,
            };
            state.nav.apply_screen_action(screen);
            let action = AppAction::Files(r.1);
            assert(browser_step(old(state).file_browser, key, state.file_browser, r));
            action
        },
        AppMsg::Settings(key) => {
            let r = crate::settings_state::update(&mut state.settings, key);
            state.nav.apply_screen_action(r.0);
            let action = AppAction::Settings(r.1);
            assert(settings_step(old(state).settings, key, state.settings, r));
            action
        },
        AppMsg::Help(key) => {
            let a = crate::help_state::update(&mut state.help, key);
            state.nav.apply_screen_action(a);
            assert(help_step(old(state).help, key, state.help, a));
            AppAction::Nothing
        },
    }
}

/// The commands the chat accepts, as the reply to an unknown one lists them.
pub open spec fn available_commands() -> Seq<char> {
    "`/help`, `/settings`, `/debug chat`, `/debug files`, `/files`, `/history`, `/resume <id>`, `/clear`, `/tokens`, `/model`, `/debug memory stats`, `/debug memory recall <query>`, `/debug log <id>`."@
}

/// The reply to a slash command the app does not know: the command as typed,
/// then the commands it does know.
pub fn unknown_command_message(raw: &str) -> (m: String)
    ensures
        m@ == "Unknown command `"@ + raw@ + "`. Available: "@ + available_commands(),
{
    crate::strs::to_owned("Unknown command `").concat(raw).concat("`. Available: ").concat(
        "`/help`, `/settings`, `/debug chat`, `/debug files`, `/files`, `/history`, `/resume <id>`, `/clear`, `/tokens`, `/model`, `/debug memory stats`, `/debug memory recall <query>`, `/debug log <id>`.",
    )
}

} // verus!

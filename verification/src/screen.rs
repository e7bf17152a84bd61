//! Which screen is shown, and how screen actions move between screens.

use vstd::prelude::*;
use vstd::string::StringExecFns;
use crate::strs::to_owned;

verus! {

#[derive(Debug, Clone, Copy, PartialEq, Eq)]
pub enum ScreenMode {
    Welcome,
    Chat,
    Files,
    Settings,
    Help,
}

#[derive(Debug, Clone, Copy, PartialEq, Eq)]
pub enum ScreenAction {
    NoAction,
    Quit,
    SwitchTo(ScreenMode),
    ReturnToPrevious,
}

/// The screen shown, the one an overlay screen returns to, and whether the app runs.
#[derive(Debug, Clone, Copy, PartialEq, Eq)]
pub struct ScreenNavigation {
    pub running: bool,
    pub screen_mode: ScreenMode,
    pub previous_screen: Option<ScreenMode>,
}

/// State after opening the overlay screen `mode`.
pub open spec fn opened(n: ScreenNavigation, mode: ScreenMode) -> ScreenNavigation {
    ScreenNavigation { running: n.running, screen_mode: mode, previous_screen: Some(n.screen_mode) }
}

/// State after leaving to the remembered screen (chat when none).
pub open spec fn exited(n: ScreenNavigation) -> ScreenNavigation {
    ScreenNavigation {
        running: n.running,
        screen_mode: match n.previous_screen {
            Some(p) => p,
            None => ScreenMode::Chat,
        },
        previous_screen: None,
    }
}

/// State after leaving the chat: chat, files and welcome go to welcome; an
/// overlay screen returns to where it came from.
pub open spec fn chat_closed(n: ScreenNavigation) -> ScreenNavigation {
    match n.screen_mode {
        ScreenMode::Chat | ScreenMode::Files | ScreenMode::Welcome =>
            ScreenNavigation { running: n.running, screen_mode: ScreenMode::Welcome, previous_screen: None },
        _ => exited(n),
    }
}

/// State after carrying out `action`.
pub open spec fn after_action(n: ScreenNavigation, action: ScreenAction) -> ScreenNavigation {
    match action {
        ScreenAction::NoAction => n,
        ScreenAction::Quit => ScreenNavigation { running: false, ..n },
        ScreenAction::SwitchTo(mode) => ScreenNavigation {
            running: n.running,
            screen_mode: mode,
            previous_screen: if mode == ScreenMode::Settings || mode == ScreenMode::Help {
                Some(n.screen_mode)
            } else {
                n.previous_screen
            },
        },
        ScreenAction::ReturnToPrevious => exited(n),
    }
}

impl ScreenNavigation {
    /// Starts running on the welcome screen.
    pub fn new() -> (n: Self)
        ensures
            n.running,
            n.screen_mode == ScreenMode::Welcome,
            n.previous_screen.is_none(),
    {
        ScreenNavigation { running: true, screen_mode: ScreenMode::Welcome, previous_screen: None }
    }

    /// Shows settings, remembering the current screen.
    pub fn open_settings(&mut self)
        ensures
            *final(self) == opened(*old(self), ScreenMode::Settings),
    {
        self.previous_screen = Some(self.screen_mode);
        self.screen_mode = ScreenMode::Settings;
    }

    /// Shows help, remembering the current screen.
    pub fn open_help(&mut self)
        ensures
            *final(self) == opened(*old(self), ScreenMode::Help),
    {
        self.previous_screen = Some(self.screen_mode);
        self.screen_mode = ScreenMode::Help;
    }

    /// Goes back to the remembered screen (chat if none) and forgets it.
    pub fn exit_to_previous_or_chat(&mut self)
        ensures
            *final(self) == exited(*old(self)),
    {
        let prev = self.previous_screen.take();
        self.screen_mode = match prev {
            Some(p) => p,
            None => ScreenMode::Chat,
        };
    }

    /// Leaves the chat: chat, files and welcome go to welcome; an overlay
    /// screen returns to where it came from.
    pub fn close_active_chat(&mut self)
        ensures
            *final(self) == chat_closed(*old(self)),
            final(self).running == old(self).running,
            match old(self).screen_mode {
                ScreenMode::Chat | ScreenMode::Files | ScreenMode::Welcome =>
                    final(self).screen_mode == ScreenMode::Welcome && final(self).previous_screen.is_none(),
                _ => final(self).screen_mode == match old(self).previous_screen {
                        Some(p) => p,
                        None => ScreenMode::Chat,
                    } && final(self).previous_screen.is_none(),
            },
    {
        match self.screen_mode {
            ScreenMode::Chat | ScreenMode::Files | ScreenMode::Welcome => {
                self.screen_mode = ScreenMode::Welcome;
                self.previous_screen = None;
            },
            _ => self.exit_to_previous_or_chat(),
        }
    }

    /// Carries out what a screen asked for.
    pub fn apply_screen_action(&mut self, action: ScreenAction)
        ensures
            *final(self) == after_action(*old(self), action),
            match action {
                ScreenAction::NoAction => *final(self) == *old(self),
                ScreenAction::Quit => !final(self).running && final(self).screen_mode == old(self).screen_mode
                    && final(self).previous_screen == old(self).previous_screen,
                ScreenAction::SwitchTo(mode) => {
                    &&& final(self).screen_mode == mode
                    &&& final(self).running == old(self).running
                    &&& final(self).previous_screen == if mode == ScreenMode::Settings || mode == ScreenMode::Help {
                            Some(old(self).screen_mode)
                        } else {
                            old(self).previous_screen
                        }
                },
                ScreenAction::ReturnToPrevious => {
                    &&& final(self).screen_mode == match old(self).previous_screen {
                            Some(p) => p,
                            None => ScreenMode::Chat,
                        }
                    &&& final(self).previous_screen.is_none()
                    &&& final(self).running == old(self).running
                },
            },
    {
        match action {
            ScreenAction::NoAction => {},
            ScreenAction::Quit => self.running = false,
            ScreenAction::SwitchTo(mode) => {
                match mode {
                    ScreenMode::Settings | ScreenMode::Help => {
                        self.previous_screen = Some(self.screen_mode);
                    },
                    _ => {},
                }
                self.screen_mode = mode;
            },
            ScreenAction::ReturnToPrevious => self.exit_to_previous_or_chat(),
        }
    }
}

/// Opening settings or help and then leaving returns to the screen it was opened
/// from, with nothing left remembered.
pub proof fn law_overlay_round_trip(n: ScreenNavigation, mode: ScreenMode)
    ensures
        exited(opened(n, mode)) == (ScreenNavigation { previous_screen: None, ..n }),
{
}

/// Label of a screen in the status bar.
pub fn screen_label(mode: ScreenMode) -> (r: &'static str)
    ensures
        r@ == match mode {
            ScreenMode::Welcome => "WELCOME"@,
            ScreenMode::Chat => "CHAT"@,
            ScreenMode::Files => "FILES"@,
            ScreenMode::Settings => "SETTINGS"@,
            ScreenMode::Help => "HELP"@,
        },
{
    match mode {
        ScreenMode::Welcome => "WELCOME",
        ScreenMode::Chat => "CHAT",
        ScreenMode::Files => "FILES",
        ScreenMode::Settings => "SETTINGS",
        ScreenMode::Help => "HELP",
    }
}

/// "Thunderus v" and the package version (0.1.0 when the build did not record one).
pub fn app_version_string(version: Option<&str>) -> (r: String)
    ensures
        r@ == match version {
            Some(v) => "Thunderus v"@ + v@,
            None => "Thunderus v0.1.0"@,
        },
{
    match version {
        Some(v) => to_owned("Thunderus v").concat(v),
        None => to_owned("Thunderus v0.1.0"),
    }
}

/// Left and right texts of the status bar: the screen label, and the chat model
/// (in chat, when known) or the app version.
pub fn status_parts(mode: ScreenMode, chat_model: Option<&str>, version: Option<&str>) -> (r: (String, String))
    ensures
        r.0@ == screen_label_spec(mode) + " "@,
        r.1@ == match (mode, chat_model) {
            (ScreenMode::Chat, Some(m)) => "model: "@ + m@,
            _ => match version {
                Some(v) => "Thunderus v"@ + v@,
                None => "Thunderus v0.1.0"@,
            },
        },
{
    let left = to_owned(screen_label(mode)).concat(" ");
    let right = match mode {
        ScreenMode::Chat => match chat_model {
            Some(m) => to_owned("model: ").concat(m),
            None => app_version_string(version),
        },
        _ => app_version_string(version),
    };
    (left, right)
}

pub open spec fn screen_label_spec(mode: ScreenMode) -> Seq<char> {
    match mode {
        ScreenMode::Welcome => "WELCOME"@,
        ScreenMode::Chat => "CHAT"@,
        ScreenMode::Files => "FILES"@,
        ScreenMode::Settings => "SETTINGS"@,
        ScreenMode::Help => "HELP"@,
    }
}

} // verus!

//! The host-independent part of the user interface: which screen is shown,
//! whether the program keeps running, the status line and when it expires,
//! and the requests screens send back to the root. Times are plain
//! milliseconds handed in by the host, so every decision here is checkable.

use vstd::prelude::*;

verus! {

/// Whether the event loop keeps running.
#[derive(Default, Clone, Copy, PartialEq, Eq, Structural, Debug)]
pub enum State {
    /// Keep polling and rendering.
    #[default]
    Running,
    /// Leave the event loop.
    Stopped,
}

/// Screen to display in the body area.
#[derive(Default, Clone, Copy, PartialEq, Eq, Structural, Debug)]
pub enum Screen {
    /// The typing test itself.
    #[default]
    TestScreen,
    /// Results of the finished test.
    ResultsScreen,
    /// Accumulated statistics.
    StatisticsScreen,
    /// The about/help page.
    AboutScreen,
}

/// Request sent by screens to the root UI.
#[derive(Clone, Copy, PartialEq, Eq, Structural, Debug)]
pub enum UiRequest {
    /// Change the screen to the given one.
    ChangeScreen(Screen),
}

/// One reduced key event for the non-test screens, translated by the host
/// from raw key codes.
#[derive(Clone, Copy, PartialEq, Eq, Structural, Debug)]
pub enum UiKey {
    /// A plain printable character.
    Char(char),
    /// A character pressed together with the control modifier.
    Ctrl(char),
    /// A function key, by number.
    Function(u8),
    /// The escape key.
    Esc,
    /// The left arrow key.
    Left,
    /// The right arrow key.
    Right,
    /// Anything else; always ignored.
    Other,
}

/// The sentinel expiry meaning "the status line never expires".
pub const STATUS_NEVER: i64 = i64::MAX;

/// How long the welcome message stays, in milliseconds.
pub const WELCOME_MILLIS: i64 = 5000;

/// How long the help hint stays, in milliseconds.
pub const HINT_MILLIS: i64 = 3000;

/// The screen, run-state and status-line state of the root UI.
pub struct UiState {
    /// Whether the event loop keeps running.
    pub state: State,
    /// The screen currently shown.
    pub screen: Screen,
    /// The screen shown before the last change, to return to from overlays.
    pub last_screen: Screen,
    /// The status line's text.
    pub status: String,
    /// When the status line is to be cleared, in host milliseconds.
    pub clear_status_at: i64,
}

impl UiState {
    /// A fresh UI: running, on the test screen, greeting the user for a few
    /// seconds.
    pub fn new(now: i64) -> (r: Self)
        requires
            now <= STATUS_NEVER - WELCOME_MILLIS,
        ensures
            r.state == State::Running,
            r.screen == Screen::TestScreen,
            r.last_screen == Screen::TestScreen,
            r.status@ == "Welcome to arstyper! Press <F1> for help, or 'Ctrl+C' to exit."@,
            r.clear_status_at == now + WELCOME_MILLIS,
    {
        UiState {
            state: State::Running,
            screen: Screen::TestScreen,
            last_screen: Screen::TestScreen,
            status: "Welcome to arstyper! Press <F1> for help, or 'Ctrl+C' to exit.".to_owned(),
            clear_status_at: now + WELCOME_MILLIS,
        }
    }

    /// Switch to a screen, remembering the one that was shown.
    pub fn change_screen(&mut self, s: Screen)
        ensures
            final(self).screen == s,
            final(self).last_screen == old(self).screen,
            final(self).state == old(self).state,
            final(self).status == old(self).status,
            final(self).clear_status_at == old(self).clear_status_at,
    {
        self.last_screen = self.screen;
        self.screen = s;
    }

    /// Show a status message until `now + dur_millis`.
    pub fn set_status_for(&mut self, s: String, now: i64, dur_millis: i64)
        requires
            0 <= dur_millis,
            now <= STATUS_NEVER - dur_millis,
        ensures
            final(self).status == s,
            final(self).clear_status_at == now + dur_millis,
            final(self).state == old(self).state,
            final(self).screen == old(self).screen,
            final(self).last_screen == old(self).last_screen,
    {
        self.status = s;
        self.clear_status_at = now + dur_millis;
    }

    /// Blank the status line (a single space, so its background is kept) and
    /// stop it from expiring again.
    pub fn clear_status(&mut self)
        ensures
            final(self).status@ == " "@,
            final(self).clear_status_at == STATUS_NEVER,
            final(self).state == old(self).state,
            final(self).screen == old(self).screen,
            final(self).last_screen == old(self).last_screen,
    {
        self.status = " ".to_owned();
        self.clear_status_at = STATUS_NEVER;
    }

    /// Clear the status line once its expiry time has passed.
    pub fn maybe_clear_status(&mut self, now: i64)
        ensures
            now >= old(self).clear_status_at ==> final(self).status@ == " "@
                && final(self).clear_status_at == STATUS_NEVER,
            now < old(self).clear_status_at ==> *final(self) == *old(self),
            final(self).state == old(self).state,
            final(self).screen == old(self).screen,
            final(self).last_screen == old(self).last_screen,
    {
        if now >= self.clear_status_at {
            self.clear_status();
        }
    }

    /// The keys every screen answers to: control-c stops the program, and
    /// the first function key opens the about page with a short hint.
    pub fn handle_global_key(&mut self, key: UiKey, now: i64)
        requires
            now <= STATUS_NEVER - HINT_MILLIS,
        ensures
            key == UiKey::Ctrl('c') ==> final(self).state == State::Stopped
                && final(self).screen == old(self).screen
                && final(self).last_screen == old(self).last_screen
                && final(self).status == old(self).status
                && final(self).clear_status_at == old(self).clear_status_at,
            key == UiKey::Function(1u8) ==> final(self).state == old(self).state
                && final(self).screen == Screen::AboutScreen
                && final(self).last_screen == old(self).screen
                && final(self).status@ == "Press <ESC> or 'q' to go back."@
                && final(self).clear_status_at == now + HINT_MILLIS,
            key != UiKey::Ctrl('c') && key != UiKey::Function(1u8) ==> *final(self) == *old(self),
    {
        match key {
            UiKey::Ctrl(c) => {
                if c == 'c' {
                    self.state = State::Stopped;
                }
            }
            UiKey::Function(n) => {
                if n == 1 {
                    self.set_status_for("Press <ESC> or 'q' to go back.".to_owned(), now, HINT_MILLIS);
                    self.change_screen(Screen::AboutScreen);
                }
            }
            _ => {}
        }
    }

    /// Keys on the about page: escape or `q` clears the status line and goes
    /// back to the screen shown before.
    pub fn handle_about_events(&mut self, key: UiKey)
        ensures
            key == UiKey::Esc || key == UiKey::Char('q') ==> final(self).state == old(self).state
                && final(self).screen == old(self).last_screen
                && final(self).last_screen == old(self).screen
                && final(self).status@ == " "@
                && final(self).clear_status_at == STATUS_NEVER,
            key != UiKey::Esc && key != UiKey::Char('q') ==> *final(self) == *old(self),
    {
        match key {
            UiKey::Esc => {
                self.clear_status();
                let s = self.last_screen;
                self.change_screen(s);
            }
            UiKey::Char(c) => {
                if c == 'q' {
                    self.clear_status();
                    let s = self.last_screen;
                    self.change_screen(s);
                }
            }
            _ => {}
        }
    }

    /// Apply one request a screen sent back to the root.
    pub fn apply_request(&mut self, req: UiRequest)
        ensures
            final(self).screen == (match req {
                UiRequest::ChangeScreen(s) => s,
            }),
            final(self).state == old(self).state,
            final(self).last_screen == old(self).last_screen,
            final(self).status == old(self).status,
            final(self).clear_status_at == old(self).clear_status_at,
    {
        match req {
            UiRequest::ChangeScreen(s) => {
                self.screen = s;
            }
        }
    }
}

} // verus!

use vstd::prelude::*;
use crate::tui::screens::{Screen, spec_from_key, spec_next_screen};

verus! {

/// A key press, as far as the application reacts to it.
#[derive(Debug, Clone, Copy, PartialEq, Eq, Structural)]
pub enum KeyInput {
    Char(char),
    Esc,
    Tab,
    Other,
}

/// The application's navigation state: the screen shown and whether the
/// main loop keeps running.
#[derive(Debug, Clone, Copy, PartialEq, Eq, Structural)]
pub struct AppState {
    pub screen: Screen,
    pub running: bool,
}

/// The state after a key press: `q` or Esc quits, the number keys 1–5 pick
/// a screen, Tab moves to the next screen, any other key changes nothing.
pub open spec fn spec_handle_key(st: AppState, key: KeyInput) -> AppState {
    match key {
        KeyInput::Char('q') | KeyInput::Esc => AppState { running: false, ..st },
        KeyInput::Char('1') => AppState { screen: Screen::Home, ..st },
        KeyInput::Char('2') => AppState { screen: Screen::Search, ..st },
        KeyInput::Char('3') => AppState { screen: Screen::Library, ..st },
        KeyInput::Char('4') => AppState { screen: Screen::Queue, ..st },
        KeyInput::Char('5') => AppState { screen: Screen::Settings, ..st },
        KeyInput::Tab => AppState { screen: spec_next_screen(st.screen), ..st },
        _ => st,
    }
}

impl AppState {
    /// The state on start-up: the Home screen, running.
    pub fn new() -> (st: Self)
        ensures
            st == (AppState { screen: Screen::Home, running: true }),
    {
        AppState { screen: Screen::Home, running: true }
    }

    /// React to a key press.
    pub fn handle_key(&mut self, key: KeyInput)
        ensures
            *final(self) == spec_handle_key(*old(self), key),
    {
        match key {
            KeyInput::Char('q') | KeyInput::Esc => self.running = false,
            KeyInput::Char('1') => self.screen = Screen::Home,
            KeyInput::Char('2') => self.screen = Screen::Search,
            KeyInput::Char('3') => self.screen = Screen::Library,
            KeyInput::Char('4') => self.screen = Screen::Queue,
            KeyInput::Char('5') => self.screen = Screen::Settings,
            KeyInput::Tab => self.screen = self.screen.next(),
            _ => {},
        }
    }
}

/// Once the application has stopped running, no key starts it again, and
/// the number keys always land on the screen they name.
pub proof fn lemma_quit_is_final(st: AppState, key: KeyInput)
    ensures
        !st.running ==> !spec_handle_key(st, key).running,
        spec_handle_key(st, KeyInput::Esc).running == false,
        spec_handle_key(st, KeyInput::Char('q')).running == false,
        spec_handle_key(st, KeyInput::Char('3')).screen == Screen::Library,
{
}

/// Each number key 1 to 5 shows the screen of that number (Home, Search,
/// Library, Queue, Settings) and leaves the application running or not as
/// it was.
pub proof fn lemma_number_keys_pick_screens(st: AppState)
    ensures
        forall|n: int|
            1 <= n <= 5 ==> #[trigger] spec_handle_key(st, KeyInput::Char((48 + n) as char))
                == (AppState { screen: spec_from_key(n).unwrap(), running: st.running }),
        spec_handle_key(st, KeyInput::Char('1')) == (AppState { screen: Screen::Home, ..st }),
        spec_handle_key(st, KeyInput::Char('2')) == (AppState { screen: Screen::Search, ..st }),
        spec_handle_key(st, KeyInput::Char('3')) == (AppState { screen: Screen::Library, ..st }),
        spec_handle_key(st, KeyInput::Char('4')) == (AppState { screen: Screen::Queue, ..st }),
        spec_handle_key(st, KeyInput::Char('5')) == (AppState { screen: Screen::Settings, ..st }),
{
    assert forall|n: int| 1 <= n <= 5 implies #[trigger] spec_handle_key(
        st,
        KeyInput::Char((48 + n) as char),
    ) == (AppState { screen: spec_from_key(n).unwrap(), running: st.running }) by {
        if n == 1 {
            assert((48 + n) as char == '1');
        } else if n == 2 {
            assert((48 + n) as char == '2');
        } else if n == 3 {
            assert((48 + n) as char == '3');
        } else if n == 4 {
            assert((48 + n) as char == '4');
        } else {
            assert((48 + n) as char == '5');
        }
    }
}

} // verus!

use vstd::prelude::*;

verus! {

/// The screens of the interface.
#[derive(Debug, Clone, Copy, PartialEq, Eq, Structural)]
pub enum Screen {
    Home,
    Search,
    Library,
    Queue,
    Settings,
}

/// Position of a screen in the navigation order, from 1 (Home) to 5 (Settings).
pub open spec fn screen_number(s: Screen) -> int {
    match s {
        Screen::Home => 1,
        Screen::Search => 2,
        Screen::Library => 3,
        Screen::Queue => 4,
        Screen::Settings => 5,
    }
}

/// The screen numbered `n` (1 to 5), if any.
pub open spec fn spec_from_key(n: int) -> Option<Screen> {
    if n == 1 {
        Some(Screen::Home)
    } else if n == 2 {
        Some(Screen::Search)
    } else if n == 3 {
        Some(Screen::Library)
    } else if n == 4 {
        Some(Screen::Queue)
    } else if n == 5 {
        Some(Screen::Settings)
    } else {
        None
    }
}

/// The screen after `s`, wrapping from Settings back to Home.
pub open spec fn spec_next_screen(s: Screen) -> Screen {
    match s {
        Screen::Home => Screen::Search,
        Screen::Search => Screen::Library,
        Screen::Library => Screen::Queue,
        Screen::Queue => Screen::Settings,
        Screen::Settings => Screen::Home,
    }
}

/// The title shown for a screen.
pub open spec fn spec_title(s: Screen) -> Seq<char> {
    match s {
        Screen::Home => "Home"@,
        Screen::Search => "Search"@,
        Screen::Library => "Library"@,
        Screen::Queue => "Queue"@,
        Screen::Settings => "Settings"@,
    }
}

impl Screen {
    /// Cycle to the next screen (Tab key).
    pub fn next(self) -> (r: Self)
        ensures
            r == spec_next_screen(self),
    {
        match self {
            Screen::Home => Screen::Search,
            Screen::Search => Screen::Library,
            Screen::Library => Screen::Queue,
            Screen::Queue => Screen::Settings,
            Screen::Settings => Screen::Home,
        }
    }

    /// Map number keys 1–5 to screens.
    pub fn from_key(n: u8) -> (r: Option<Self>)
        ensures
            r == spec_from_key(n as int),
    {
        match n {
            1 => Some(Screen::Home),
            2 => Some(Screen::Search),
            3 => Some(Screen::Library),
            4 => Some(Screen::Queue),
            5 => Some(Screen::Settings),
            _ => None,
        }
    }

    /// The title shown for the screen.
    pub fn title(self) -> (r: &'static str)
        ensures
            r@ == spec_title(self),
    {
        match self {
            Screen::Home => "Home",
            Screen::Search => "Search",
            Screen::Library => "Library",
            Screen::Queue => "Queue",
            Screen::Settings => "Settings",
        }
    }
}

/// The number keys 1 to 5 name exactly the five screens, each its own:
/// key `screen_number(s)` gives `s`, and no other key gives a screen.
pub proof fn lemma_from_key_numbers_screens(s: Screen, n: int)
    ensures
        spec_from_key(screen_number(s)) == Some(s),
        spec_from_key(n) is Some <==> 1 <= n <= 5,
        spec_from_key(n) is Some ==> screen_number(spec_from_key(n).unwrap()) == n,
{
}

/// Tab moves to the screen with the next number, wrapping from 5 to 1, so
/// five presses of Tab come back to the starting screen.
pub proof fn lemma_next_follows_numbers(s: Screen)
    ensures
        screen_number(spec_next_screen(s)) == screen_number(s) % 5 + 1,
        spec_next_screen(spec_next_screen(spec_next_screen(spec_next_screen(spec_next_screen(s)))))
            == s,
{
}

/// Different screens have different titles.
pub proof fn lemma_titles_distinct(a: Screen, b: Screen)
    requires
        a != b,
    ensures
        spec_title(a) != spec_title(b),
{
    reveal_strlit("Home");
    reveal_strlit("Search");
    reveal_strlit("Library");
    reveal_strlit("Queue");
    reveal_strlit("Settings");
    assert(spec_title(a).len() != spec_title(b).len() || spec_title(a)[0] != spec_title(b)[0]);
}

} // verus!

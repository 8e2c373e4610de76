//! Which window the interface shows.

use vstd::prelude::*;
use crate::text::{str_eq, string_of};

verus! {

/// What `str::to_lowercase` makes of a text.
pub uninterp spec fn lower_of(s: Seq<char>) -> Seq<char>;

/// Relies on `str::to_lowercase`: the lowercase form of a text depends on
/// its characters alone.
#[verifier::external_body]
fn lowercase(s: &str) -> (r: String)
    ensures
        r@ == lower_of(s@),
{
    s.to_lowercase()
}

#[derive(Clone, Copy, Debug, PartialEq, Eq, Structural)]
pub enum State {
    Dashboard,
    Normal,
    Insert,
    Help,
    ChannelSwitch,
    MessageSearch,
    Debug,
}

/// A text that names no state.
#[derive(Clone, Copy, Debug, PartialEq, Eq, Structural)]
pub struct ParseStateError;

/// The state that a lowercase name stands for.
pub open spec fn state_named(s: Seq<char>) -> Option<State> {
    if s == "dashboard"@ || s == "start"@ {
        Some(State::Dashboard)
    } else if s == "normal"@ || s == "default"@ {
        Some(State::Normal)
    } else if s == "insert"@ || s == "input"@ {
        Some(State::Insert)
    } else if s == "help"@ {
        Some(State::Help)
    } else if s == "channelswitch"@ || s == "channels"@ {
        Some(State::ChannelSwitch)
    } else if s == "messagesearch"@ || s == "search"@ {
        Some(State::MessageSearch)
    } else if s == "debug"@ {
        Some(State::Debug)
    } else {
        None
    }
}

pub open spec fn state_title(s: State) -> Seq<char> {
    match s {
        State::Dashboard => "Dashboard"@,
        State::Normal => "Normal"@,
        State::Insert => "Insert"@,
        State::Help => "Help"@,
        State::ChannelSwitch => "Channel"@,
        State::MessageSearch => "Search"@,
        State::Debug => "Debug"@,
    }
}

impl State {
    pub open spec fn spec_in_insert_mode(&self) -> bool {
        *self == State::Insert || *self == State::ChannelSwitch || *self == State::MessageSearch
    }

    /// Whether the state takes typed text.
    pub fn in_insert_mode(&self) -> (r: bool)
        ensures
            r == self.spec_in_insert_mode(),
    {
        match self {
            State::Insert | State::ChannelSwitch | State::MessageSearch => true,
            _ => false,
        }
    }

    /// The state's title.
    pub fn to_string(&self) -> (r: String)
        ensures
            r@ == state_title(*self),
    {
        match self {
            State::Dashboard => string_of("Dashboard"),
            State::Normal => string_of("Normal"),
            State::Insert => string_of("Insert"),
            State::Help => string_of("Help"),
            State::ChannelSwitch => string_of("Channel"),
            State::MessageSearch => string_of("Search"),
            State::Debug => string_of("Debug"),
        }
    }

    /// What general category the state can be identified with.
    pub fn category(&self) -> (r: String)
        ensures
            self.spec_in_insert_mode() ==> r@ == "Insert modes"@,
            !self.spec_in_insert_mode() ==> r@ == state_title(*self),
    {
        if self.in_insert_mode() {
            string_of("Insert modes")
        } else {
            self.to_string()
        }
    }

    /// The state that a lowercase name stands for.
    pub fn from_lowercase(s: &str) -> (r: Option<State>)
        ensures
            r == state_named(s@),
    {
        if str_eq(s, "dashboard") || str_eq(s, "start") {
            Some(State::Dashboard)
        } else if str_eq(s, "normal") || str_eq(s, "default") {
            Some(State::Normal)
        } else if str_eq(s, "insert") || str_eq(s, "input") {
            Some(State::Insert)
        } else if str_eq(s, "help") {
            Some(State::Help)
        } else if str_eq(s, "channelswitch") || str_eq(s, "channels") {
            Some(State::ChannelSwitch)
        } else if str_eq(s, "messagesearch") || str_eq(s, "search") {
            Some(State::MessageSearch)
        } else if str_eq(s, "debug") {
            Some(State::Debug)
        } else {
            None
        }
    }

    /// The state a name stands for, in any case.
    pub fn parse(s: &str) -> (r: Result<State, ParseStateError>)
        ensures
            match state_named(lower_of(s@)) {
                Some(t) => r == Ok::<State, ParseStateError>(t),
                None => r == Err::<State, ParseStateError>(ParseStateError),
            },
    {
        let l = lowercase(s);
        match State::from_lowercase(l.as_str()) {
            Some(t) => Ok(t),
            None => Err(ParseStateError),
        }
    }
}

impl Default for State {
    fn default() -> (r: State)
        ensures
            r == State::Dashboard,
    {
        State::Dashboard
    }
}

impl std::str::FromStr for State {
    type Err = ParseStateError;

    fn from_str(s: &str) -> Result<State, ParseStateError> {
        State::parse(s)
    }
}

} // verus!

//! The interface's state and the decisions of its tick: what an inbound
//! entry, an action of the user, and a redraw do to it.

use vstd::prelude::*;
use crate::cache::{invalidated, EmoteCache, Invalidation};
use crate::config::{CompleteConfig, Theme};
use crate::session::TwitchAction;
use crate::state::State;
use crate::store::{truncated, Data, MessageStore, Scrolling};
use vstd::string::StringSliceAdditionalSpecFns;
use vstd::utf8::encode_utf8;

verus! {

/// The most bytes a chat message may hold.
pub const TWITCH_MESSAGE_LIMIT: usize = 500;

/// Whether a typed message may be sent: not empty, and its byte count (as
/// `str::len` gives it) within the limit.
pub open spec fn sendable(m: Seq<char>) -> bool {
    m.len() > 0 && encode_utf8(m).len() as usize <= TWITCH_MESSAGE_LIMIT
}

/// What an input event asks of the interface.
#[derive(Clone, Debug)]
pub enum TerminalAction {
    Quit,
    BackOneLayer,
    SwitchState(State),
    ClearMessages,
    Enter(TwitchAction),
}

/// The interface's state.
pub struct App {
    /// History of recorded messages, most recent first.
    messages: MessageStore,
    /// Which window the terminal is currently focused on
    state: State,
    /// The previous state, if any
    previous_state: Option<State>,
    /// Interactions with scrolling of the application
    scrolling: Scrolling,
    /// The theme selected by the user
    theme: Theme,
}

/// What the caller does after an action: stop, and what to send to the
/// session.
pub struct Reaction {
    pub quit: bool,
    pub send: Option<TwitchAction>,
    pub invalidation: Option<Invalidation>,
}

impl App {
    pub closed spec fn spec_messages(&self) -> Seq<Data> {
        self.messages@
    }

    pub closed spec fn spec_offset(&self) -> usize {
        self.scrolling.offset()
    }

    pub closed spec fn spec_inverted(&self) -> bool {
        self.scrolling.is_inverted()
    }

    pub closed spec fn spec_theme(&self) -> Theme {
        self.theme
    }

    pub closed spec fn spec_state(&self) -> State {
        self.state
    }

    pub closed spec fn spec_previous_state(&self) -> Option<State> {
        self.previous_state
    }

    pub fn new(config: &CompleteConfig) -> (r: App)
        ensures
            r.spec_messages().len() == 0,
            r.spec_state() == config.terminal.start_state,
            r.spec_previous_state() is None,
            r.spec_offset() == 0,
            r.spec_inverted() == config.frontend.inverted_scrolling,
            r.spec_theme() == config.frontend.theme,
    {
        App {
            messages: MessageStore::new(),
            state: config.terminal.start_state,
            previous_state: None,
            scrolling: Scrolling::new(config.frontend.inverted_scrolling),
            theme: config.frontend.theme,
        }
    }

    pub fn messages(&self) -> (r: &MessageStore)
        ensures
            r@ == self.spec_messages(),
    {
        &self.messages
    }

    pub fn scrolling(&self) -> (r: &Scrolling)
        ensures
            r.offset() == self.spec_offset(),
            r.is_inverted() == self.spec_inverted(),
    {
        &self.scrolling
    }

    pub fn scrolling_mut(&mut self) -> (r: &mut Scrolling)
        ensures
            r.offset() == old(self).spec_offset(),
            r.is_inverted() == old(self).spec_inverted(),
            final(r).offset() == final(self).spec_offset(),
            final(r).is_inverted() == final(self).spec_inverted(),
            final(self).spec_messages() == old(self).spec_messages(),
            final(self).spec_state() == old(self).spec_state(),
            final(self).spec_previous_state() == old(self).spec_previous_state(),
    {
        &mut self.scrolling
    }

    pub fn theme(&self) -> (r: Theme)
        ensures
            r == self.spec_theme(),
    {
        self.theme
    }

    pub fn clear_messages(&mut self)
        ensures
            final(self).spec_messages().len() == 0,
            final(self).spec_offset() == 0,
            final(self).spec_inverted() == old(self).spec_inverted(),
            final(self).spec_state() == old(self).spec_state(),
            final(self).spec_previous_state() == old(self).spec_previous_state(),
            final(self).spec_theme() == old(self).spec_theme(),
    {
        self.messages.clear();
        self.scrolling.jump_to(0);
    }

    pub fn get_previous_state(&self) -> (r: Option<State>)
        ensures
            r == self.spec_previous_state(),
    {
        self.previous_state
    }

    pub fn get_state(&self) -> (r: State)
        ensures
            r == self.spec_state(),
    {
        self.state
    }

    pub fn set_state(&mut self, other: State)
        ensures
            final(self).spec_state() == other,
            final(self).spec_previous_state() == Some(old(self).spec_state()),
            final(self).spec_messages() == old(self).spec_messages(),
            final(self).spec_offset() == old(self).spec_offset(),
            final(self).spec_inverted() == old(self).spec_inverted(),
            final(self).spec_theme() == old(self).spec_theme(),
    {
        self.previous_state = Some(self.state);
        self.state = other;
    }

    /// An entry from the session goes in front; a view scrolled away from
    /// the most recent entry moves along, so that it keeps showing the same
    /// entries.
    pub fn on_inbound(&mut self, entry: Data)
        ensures
            final(self).spec_messages() == seq![entry] + old(self).spec_messages(),
            final(self).spec_offset() == if old(self).spec_offset() == 0 {
                0
            } else if old(self).spec_offset() == usize::MAX {
                usize::MAX
            } else {
                (old(self).spec_offset() + 1) as usize
            },
            final(self).spec_inverted() == old(self).spec_inverted(),
            final(self).spec_state() == old(self).spec_state(),
            final(self).spec_previous_state() == old(self).spec_previous_state(),
    {
        self.messages.push_front(entry);
        let o = self.scrolling.get_offset();
        if o > 0 && o < usize::MAX {
            self.scrolling.up();
        }
    }

    /// Scrolls one entry towards older entries; the offset stays below the
    /// number of entries.
    pub fn scroll_up(&mut self)
        ensures
            final(self).spec_offset() == if old(self).spec_offset() + 1 < old(
                self,
            ).spec_messages().len() {
                (old(self).spec_offset() + 1) as usize
            } else {
                old(self).spec_offset()
            },
            final(self).spec_messages() == old(self).spec_messages(),
            final(self).spec_inverted() == old(self).spec_inverted(),
            final(self).spec_state() == old(self).spec_state(),
            final(self).spec_previous_state() == old(self).spec_previous_state(),
    {
        let o = self.scrolling.get_offset();
        if o < self.messages.len() && o + 1 < self.messages.len() {
            self.scrolling.up();
        }
    }

    /// Scrolls one entry towards the most recent entry.
    pub fn scroll_down(&mut self)
        ensures
            final(self).spec_offset() == if old(self).spec_offset() == 0 {
                0
            } else {
                (old(self).spec_offset() - 1) as usize
            },
            final(self).spec_messages() == old(self).spec_messages(),
            final(self).spec_inverted() == old(self).spec_inverted(),
            final(self).spec_state() == old(self).spec_state(),
            final(self).spec_previous_state() == old(self).spec_previous_state(),
    {
        self.scrolling.down();
    }

    /// Carries out one action of the user. `start_state` is where going back
    /// leads when there is no previous state; a message the user sends is
    /// shown at once as written by `username` at `time_sent`.
    pub fn on_action(
        &mut self,
        action: TerminalAction,
        emotes: &mut EmoteCache,
        start_state: State,
        username: String,
        time_sent: String,
    ) -> (r: Reaction)
        requires
            old(emotes).wf(),
        ensures
            final(emotes).wf(),
            final(emotes).viewport() == old(emotes).viewport(),
            final(self).spec_inverted() == old(self).spec_inverted(),
            match action {
                TerminalAction::Quit => r.quit && r.send is None && r.invalidation is None
                    && unchanged(*old(self), *final(self)),
                TerminalAction::BackOneLayer => !r.quit && r.send is None && r.invalidation is None
                    && final(self).spec_state() == or_start(
                    old(self).spec_previous_state(),
                    start_state,
                ) && final(self).spec_previous_state() == Some(old(self).spec_state())
                    && final(self).spec_messages() == old(self).spec_messages()
                    && final(self).spec_offset() == old(self).spec_offset(),
                TerminalAction::SwitchState(s) => !r.quit && r.send is None
                    && final(self).spec_state() == s && final(self).spec_previous_state() == Some(
                    old(self).spec_state(),
                ) && if s == State::Normal {
                    final(self).spec_messages().len() == 0 && final(self).spec_offset() == 0 && (
                    r.invalidation matches Some(i) && invalidated(*old(emotes), *final(emotes), i))
                } else {
                    r.invalidation is None && final(self).spec_messages() == old(self).spec_messages()
                        && final(self).spec_offset() == old(self).spec_offset()
                },
                TerminalAction::ClearMessages => !r.quit && r.send is None && r.invalidation is None
                    && final(self).spec_messages().len() == 0 && final(self).spec_offset() == 0
                    && final(self).spec_state() == old(self).spec_state()
                    && final(self).spec_previous_state() == old(self).spec_previous_state(),
                TerminalAction::Enter(TwitchAction::Privmsg(m)) => !r.quit && r.invalidation is None
                    && final(self).spec_state() == old(self).spec_state()
                    && final(self).spec_previous_state() == old(self).spec_previous_state()
                    && final(self).spec_offset() == old(self).spec_offset() && if sendable(m@) {
                    (r.send matches Some(TwitchAction::Privmsg(n)) && n@ == m@)
                        && final(self).spec_messages().len() == old(self).spec_messages().len() + 1
                        && final(self).spec_messages().drop_first() == old(self).spec_messages()
                        && final(self).spec_messages()[0].author@ == username@
                        && final(self).spec_messages()[0].message@ == m@
                        && final(self).spec_messages()[0].time_sent@ == time_sent@
                } else {
                    r.send is None && final(self).spec_messages() == old(self).spec_messages()
                },
                TerminalAction::Enter(TwitchAction::Join(c)) => !r.quit && r.invalidation is None
                    && (r.send matches Some(TwitchAction::Join(d)) && d@ == c@)
                    && final(self).spec_messages().len() == 0 && final(self).spec_offset() == 0
                    && final(self).spec_state() == State::Normal,
            },
            match action {
                TerminalAction::SwitchState(State::Normal) => true,
                _ => final(emotes).loaded() == old(emotes).loaded() && final(emotes).displayed()
                    == old(emotes).displayed(),
            },
    {
        match action {
            TerminalAction::Quit => Reaction { quit: true, send: None, invalidation: None },
            TerminalAction::BackOneLayer => {
                match self.get_previous_state() {
                    Some(p) => self.set_state(p),
                    None => self.set_state(start_state),
                }
                Reaction { quit: false, send: None, invalidation: None }
            },
            TerminalAction::SwitchState(s) => {
                let mut invalidation = None;
                if s == State::Normal {
                    invalidation = Some(emotes.invalidate());
                    self.clear_messages();
                }
                self.set_state(s);
                Reaction { quit: false, send: None, invalidation }
            },
            TerminalAction::ClearMessages => {
                self.clear_messages();
                Reaction { quit: false, send: None, invalidation: None }
            },
            TerminalAction::Enter(TwitchAction::Privmsg(m)) => {
                let text = m.as_str();
                let bytes = text.len();
                assert(text.spec_bytes() == encode_utf8(m@));
                if text.is_empty() || bytes > TWITCH_MESSAGE_LIMIT {
                    return Reaction { quit: false, send: None, invalidation: None };
                }
                let echo = Data::new(time_sent, username, m.clone());
                self.messages.push_front(echo);
                assert((seq![echo] + old(self).spec_messages()).drop_first() =~= old(self).spec_messages());
                Reaction { quit: false, send: Some(TwitchAction::Privmsg(m)), invalidation: None }
            },
            TerminalAction::Enter(TwitchAction::Join(c)) => {
                self.clear_messages();
                self.set_state(State::Normal);
                Reaction { quit: false, send: Some(TwitchAction::Join(c)), invalidation: None }
            },
        }
    }

    /// Before each redraw: entries past `max_messages` are dropped from the
    /// back, and if the viewport's size changed every image is dropped, so
    /// that nothing stale is drawn.
    pub fn before_redraw(&mut self, emotes: &mut EmoteCache, size: (u16, u16), max_messages: usize) -> (r:
        Option<Invalidation>)
        requires
            old(emotes).wf(),
        ensures
            final(emotes).wf(),
            final(self).spec_messages() == truncated(old(self).spec_messages(), max_messages as nat),
            final(self).spec_offset() == old(self).spec_offset(),
            final(self).spec_inverted() == old(self).spec_inverted(),
            final(self).spec_state() == old(self).spec_state(),
            final(self).spec_previous_state() == old(self).spec_previous_state(),
            final(self).spec_theme() == old(self).spec_theme(),
            final(emotes).viewport() == size,
            size != old(emotes).viewport() ==> (final(emotes).loaded().is_empty()
                && final(emotes).displayed().is_empty() && (r matches Some(i) && invalidated(
                *old(emotes),
                *final(emotes),
                i,
            ))),
            size == old(emotes).viewport() ==> (r is None && final(emotes).loaded() == old(
                emotes,
            ).loaded() && final(emotes).displayed() == old(emotes).displayed()),
    {
        self.messages.truncate(max_messages);
        emotes.prepare_redraw(size)
    }
}

/// Nothing of the interface's state changed.
pub open spec fn unchanged(a: App, b: App) -> bool {
    &&& b.spec_messages() == a.spec_messages()
    &&& b.spec_offset() == a.spec_offset()
    &&& b.spec_inverted() == a.spec_inverted()
    &&& b.spec_state() == a.spec_state()
    &&& b.spec_previous_state() == a.spec_previous_state()
}

pub open spec fn or_start(previous: Option<State>, start: State) -> State {
    match previous {
        Some(p) => p,
        None => start,
    }
}

} // verus!

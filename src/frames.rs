//! Inbound chat frames and what the session makes of them.

use vstd::prelude::*;
use crate::store::Data;
use crate::text::{push_char, push_str, str_eq, string_of};

verus! {

/// One `key=value` tag of a frame; a tag may carry no value.
#[derive(Clone, Debug)]
pub struct Tag {
    pub key: String,
    pub value: Option<String>,
}

/// The command of a frame, with what the session reads of it.
#[derive(Clone, Debug)]
pub enum Command {
    Privmsg { target: String, text: String },
    Notice { target: String, text: String },
    Raw { name: String },
    Other,
}

/// An inbound frame: its tags, the nickname of its source, and its command.
#[derive(Clone, Debug)]
pub struct Frame {
    pub tags: Vec<Tag>,
    pub nickname: Option<String>,
    pub command: Command,
}

/// What the session hands to the interface.
#[derive(Clone, Debug)]
pub enum InboundEvent {
    ChatMessage { author: String, text: String },
    SystemNotice(String),
    ServerNotice(String),
    RoomStateSummary(String),
}

/// An inbound event, as characters.
pub enum EventModel {
    Chat { author: Seq<char>, text: Seq<char> },
    System(Seq<char>),
    Server(Seq<char>),
    RoomState(Seq<char>),
}

impl View for InboundEvent {
    type V = EventModel;

    open spec fn view(&self) -> EventModel {
        match self {
            InboundEvent::ChatMessage { author, text } => EventModel::Chat {
                author: author@,
                text: text@,
            },
            InboundEvent::SystemNotice(t) => EventModel::System(t@),
            InboundEvent::ServerNotice(t) => EventModel::Server(t@),
            InboundEvent::RoomStateSummary(t) => EventModel::RoomState(t@),
        }
    }
}

pub open spec fn opt_view(o: Option<InboundEvent>) -> Option<EventModel> {
    match o {
        Some(e) => Some(e@),
        None => None,
    }
}

/// The value of the first tag named `key`, if there is one (`Some(None)`
/// where that tag has no value).
pub open spec fn first_value(tags: Seq<Tag>, key: Seq<char>) -> Option<Option<Seq<char>>>
    decreases tags.len(),
{
    if tags.len() == 0 {
        None
    } else if tags[0].key@ == key {
        Some(
            match tags[0].value {
                Some(v) => Some(v@),
                None => None,
            },
        )
    } else {
        first_value(tags.drop_first(), key)
    }
}

/// The value of the last tag named `key` that has one.
pub open spec fn last_value(tags: Seq<Tag>, key: Seq<char>) -> Option<Seq<char>>
    decreases tags.len(),
{
    if tags.len() == 0 {
        None
    } else if tags.last().key@ == key && tags.last().value is Some {
        Some(tags.last().value.unwrap()@)
    } else {
        last_value(tags.drop_last(), key)
    }
}

/// The author of a chat message: the display name where a tag gives one,
/// else the source's nickname. A frame without a source is malformed and
/// has no author, whatever its tags say.
pub open spec fn author_of(f: Frame) -> Option<Seq<char>> {
    match f.nickname {
        None => None,
        Some(n) => match first_value(f.tags@, "display-name"@) {
            Some(Some(v)) => Some(v),
            _ => Some(n@),
        },
    }
}

/// The line of the room-state summary for one flag, if the flag is on.
pub open spec fn roomstate_line(key: Seq<char>, value: Seq<char>) -> Option<Seq<char>> {
    if key == "emote-only"@ && value == "1"@ {
        Some("The channel is emote-only."@)
    } else if key == "followers-only"@ && value != "-1"@ {
        Some("The channel is followers-only."@)
    } else if key == "subs-only"@ && value == "1"@ {
        Some("The channel is subscribers-only."@)
    } else if key == "slow"@ && value != "0"@ {
        Some("The channel has a "@ + value + "s slowmode."@)
    } else {
        None
    }
}

/// The summary's lines, in the order of the tags.
pub open spec fn roomstate_lines(tags: Seq<Tag>) -> Seq<Seq<char>>
    decreases tags.len(),
{
    if tags.len() == 0 {
        Seq::empty()
    } else {
        let rest = roomstate_lines(tags.drop_last());
        match tags.last().value {
            Some(v) => match roomstate_line(tags.last().key@, v@) {
                Some(l) => rest.push(l),
                None => rest,
            },
            None => rest,
        }
    }
}

/// Lines joined by newlines.
pub open spec fn join_lines(ls: Seq<Seq<char>>) -> Seq<char>
    decreases ls.len(),
{
    if ls.len() == 0 {
        Seq::empty()
    } else if ls.len() == 1 {
        ls[0]
    } else {
        join_lines(ls.drop_last()) + seq!['\n'] + ls.last()
    }
}

/// The summary of a room-state frame's flags, if any flag is on.
pub open spec fn roomstate_summary(tags: Seq<Tag>) -> Option<Seq<char>> {
    if roomstate_lines(tags).len() == 0 {
        None
    } else {
        Some(join_lines(roomstate_lines(tags)))
    }
}

/// What a frame yields, given whether a room-state frame came before in this
/// session, and whether one has come once this frame is read.
pub open spec fn classified(f: Frame, seen: bool) -> (Option<EventModel>, bool) {
    match f.command {
        Command::Privmsg { text, .. } => (
            match author_of(f) {
                Some(author) => Some(EventModel::Chat { author, text: text@ }),
                None => None,
            },
            seen,
        ),
        Command::Notice { text, .. } => (Some(EventModel::Server(text@)), seen),
        Command::Raw { name } => if name@ == "ROOMSTATE"@ {
            (
                if seen {
                    None
                } else {
                    match roomstate_summary(f.tags@) {
                        Some(t) => Some(EventModel::RoomState(t)),
                        None => None,
                    }
                },
                true,
            )
        } else if name@ == "USERNOTICE"@ {
            (
                match last_value(f.tags@, "system-msg"@) {
                    Some(t) => Some(EventModel::Server(t)),
                    None => None,
                },
                seen,
            )
        } else {
            (None, seen)
        },
        Command::Other => (None, seen),
    }
}

fn opt_string_clone(o: &Option<String>) -> (r: Option<String>)
    ensures
        match (o, r) {
            (Some(a), Some(b)) => a@ == b@,
            (None, None) => true,
            _ => false,
        },
{
    match o {
        Some(s) => Some(s.clone()),
        None => None,
    }
}

/// The value of the first tag named `key`.
pub fn first_tag_value(tags: &Vec<Tag>, key: &str) -> (r: Option<Option<String>>)
    ensures
        match (first_value(tags@, key@), r) {
            (Some(Some(a)), Some(Some(b))) => a == b@,
            (Some(None), Some(None)) => true,
            (None, None) => true,
            _ => false,
        },
{
    let mut i: usize = 0;
    assert(tags@.subrange(0, tags@.len() as int) =~= tags@);
    while i < tags.len()
        invariant
            i <= tags@.len(),
            first_value(tags@, key@) == first_value(tags@.subrange(i as int, tags@.len() as int), key@),
        decreases tags@.len() - i,
    {
        assert(tags@.subrange(i as int, tags@.len() as int).drop_first() =~= tags@.subrange(
            i + 1,
            tags@.len() as int,
        ));
        if str_eq(tags[i].key.as_str(), key) {
            return Some(opt_string_clone(&tags[i].value));
        }
        i = i + 1;
    }
    None
}

/// The value of the last tag named `key` that has one.
pub fn last_tag_value(tags: &Vec<Tag>, key: &str) -> (r: Option<String>)
    ensures
        match (last_value(tags@, key@), r) {
            (Some(a), Some(b)) => a == b@,
            (None, None) => true,
            _ => false,
        },
{
    let mut found: Option<String> = None;
    let mut i: usize = 0;
    while i < tags.len()
        invariant
            i <= tags@.len(),
            match (last_value(tags@.take(i as int), key@), found) {
                (Some(a), Some(b)) => a == b@,
                (None, None) => true,
                _ => false,
            },
        decreases tags@.len() - i,
    {
        assert(tags@.take(i + 1).drop_last() =~= tags@.take(i as int));
        if str_eq(tags[i].key.as_str(), key) {
            match &tags[i].value {
                Some(v) => {
                    found = Some(v.clone());
                },
                None => {},
            }
        }
        i = i + 1;
    }
    assert(tags@.take(tags@.len() as int) =~= tags@);
    found
}

/// The line for one room-state flag, if it is on.
fn roomstate_line_of(key: &str, value: &str) -> (r: Option<String>)
    ensures
        match (roomstate_line(key@, value@), r) {
            (Some(a), Some(b)) => a == b@,
            (None, None) => true,
            _ => false,
        },
{
    if str_eq(key, "emote-only") && str_eq(value, "1") {
        Some(string_of("The channel is emote-only."))
    } else if str_eq(key, "followers-only") && !str_eq(value, "-1") {
        Some(string_of("The channel is followers-only."))
    } else if str_eq(key, "subs-only") && str_eq(value, "1") {
        Some(string_of("The channel is subscribers-only."))
    } else if str_eq(key, "slow") && !str_eq(value, "0") {
        let mut s = string_of("The channel has a ");
        push_str(&mut s, value);
        push_str(&mut s, "s slowmode.");
        Some(s)
    } else {
        None
    }
}

/// The summary of the channel's flags that a room-state frame's tags give:
/// one line per flag that is on (emote-only, followers-only,
/// subscribers-only, slow mode with its seconds), in the order of the tags;
/// `None` where no flag is on.
pub fn handle_roomstate(tags: &Vec<Tag>) -> (r: Option<String>)
    ensures
        match (roomstate_summary(tags@), r) {
            (Some(a), Some(b)) => a == b@,
            (None, None) => true,
            _ => false,
        },
{
    let mut s = String::new();
    let mut count: usize = 0;
    let mut i: usize = 0;
    while i < tags.len()
        invariant
            i <= tags@.len(),
            count == roomstate_lines(tags@.take(i as int)).len(),
            count <= i,
            s@ == join_lines(roomstate_lines(tags@.take(i as int))),
        decreases tags@.len() - i,
    {
        assert(tags@.take(i + 1).drop_last() =~= tags@.take(i as int));
        let ghost prev = roomstate_lines(tags@.take(i as int));
        match &tags[i].value {
            Some(v) => {
                match roomstate_line_of(tags[i].key.as_str(), v.as_str()) {
                    Some(line) => {
                        if count > 0 {
                            push_char(&mut s, '\n');
                        }
                        push_str(&mut s, line.as_str());
                        proof {
                            let now = prev.push(line@);
                            assert(now.drop_last() =~= prev);
                            if prev.len() == 0 {
                                assert(s@ =~= join_lines(now));
                            }
                        }
                        count = count + 1;
                    },
                    None => {},
                }
            },
            None => {},
        }
        i = i + 1;
    }
    assert(tags@.take(tags@.len() as int) =~= tags@);
    if count == 0 {
        None
    } else {
        Some(s)
    }
}

/// The event a frame yields, and whether a room-state frame has now come in
/// this session (`seen`: whether one had before). A chat message yields its
/// author and text, and nothing where it has no source; a server notice
/// its text; the first room-state frame of a session its summary, and later
/// ones nothing; a user notice its `system-msg` tag.
pub fn handle_message_command(frame: &Frame, seen: bool) -> (r: (Option<InboundEvent>, bool))
    ensures
        (opt_view(r.0), r.1) == classified(*frame, seen),
{
    match &frame.command {
        Command::Privmsg { text, .. } => {
            let nickname = match &frame.nickname {
                Some(n) => n,
                None => {
                    return (None, seen);
                },
            };
            let author = match first_tag_value(&frame.tags, "display-name") {
                Some(Some(v)) => v,
                _ => nickname.clone(),
            };
            (Some(InboundEvent::ChatMessage { author, text: text.clone() }), seen)
        },
        Command::Notice { text, .. } => (Some(InboundEvent::ServerNotice(text.clone())), seen),
        Command::Raw { name } => {
            if str_eq(name.as_str(), "ROOMSTATE") {
                if seen {
                    (None, true)
                } else {
                    match handle_roomstate(&frame.tags) {
                        Some(t) => (Some(InboundEvent::RoomStateSummary(t)), true),
                        None => (None, true),
                    }
                }
            } else if str_eq(name.as_str(), "USERNOTICE") {
                match last_tag_value(&frame.tags, "system-msg") {
                    Some(t) => (Some(InboundEvent::ServerNotice(t)), seen),
                    None => (None, seen),
                }
            } else {
                (None, seen)
            }
        },
        Command::Other => (None, seen),
    }
}

impl InboundEvent {
    /// The timeline entry for this event, sent at `time_sent`: notices are
    /// written by "System", "Twitch" or "Info".
    pub fn into_data(self, time_sent: String) -> (r: Data)
        ensures
            r.time_sent@ == time_sent@,
            match self@ {
                EventModel::Chat { author, text } => r.author@ == author && r.message@ == text,
                EventModel::System(t) => r.author@ == "System"@ && r.message@ == t,
                EventModel::Server(t) => r.author@ == "Twitch"@ && r.message@ == t,
                EventModel::RoomState(t) => r.author@ == "Info"@ && r.message@ == t,
            },
    {
        match self {
            InboundEvent::ChatMessage { author, text } => Data::new(time_sent, author, text),
            InboundEvent::SystemNotice(t) => Data::new(time_sent, string_of("System"), t),
            InboundEvent::ServerNotice(t) => Data::new(time_sent, string_of("Twitch"), t),
            InboundEvent::RoomStateSummary(t) => Data::new(time_sent, string_of("Info"), t),
        }
    }
}

} // verus!

//! The chat session's decisions: from its state and an event (a frame, an
//! action of the user, the outcome of outside work) to the next state and the
//! effects that the caller performs.

use vstd::prelude::*;
use crate::frames::{
    classified, handle_message_command, roomstate_summary, Command, EventModel, Frame, InboundEvent,
};
use crate::text::{push_char, push_str, string_of};

verus! {

/// What the interface asks the session to do.
#[derive(Clone, Debug)]
pub enum TwitchAction {
    Privmsg(String),
    Join(String),
}

/// Where a session stands.
#[derive(Clone, Copy, Debug, PartialEq, Eq, Structural)]
pub enum Phase {
    Connecting,
    Authenticated,
    Active,
}

/// What happened, as the session learns it.
#[derive(Clone, Debug)]
pub enum SessionEvent {
    /// The transport is up and the login was sent.
    Connected,
    /// The request for the optional capabilities went out (`true`) or failed.
    Capabilities(bool),
    /// An action of the user.
    Action(TwitchAction),
    /// Leaving the previous channel succeeded.
    Parted,
    /// Leaving a channel failed, with the reason.
    PartFailed(String),
    /// Joining a channel failed, with the reason.
    JoinFailed(String),
    /// Sending a message failed, with the reason.
    SendFailed(String),
    /// A frame arrived.
    Frame(Frame),
    /// Reading failed or the stream ended, with the reason.
    TransportFailed(String),
}

/// What the caller is to do.
#[derive(Clone, Debug)]
pub enum Effect {
    /// Ask for the command and tag capabilities.
    RequestCapabilities,
    /// Join the channel (written with its `#`).
    Join(String),
    /// Leave the channel (written with its `#`).
    Part(String),
    /// Send `text` to `channel` (written with its `#`).
    Privmsg { channel: String, text: String },
    /// Hand an event to the interface.
    Emit(InboundEvent),
    /// Tear the transport down, connect and log in again.
    Reconnect,
}

pub enum ActionModel {
    Privmsg(Seq<char>),
    Join(Seq<char>),
}

pub enum EventIn {
    Connected,
    Capabilities(bool),
    Action(ActionModel),
    Parted,
    PartFailed(Seq<char>),
    JoinFailed(Seq<char>),
    SendFailed(Seq<char>),
    Frame(Frame),
    TransportFailed(Seq<char>),
}

pub enum EffectModel {
    RequestCapabilities,
    Join(Seq<char>),
    Part(Seq<char>),
    Privmsg(Seq<char>, Seq<char>),
    Emit(EventModel),
    Reconnect,
}

impl View for SessionEvent {
    type V = EventIn;

    open spec fn view(&self) -> EventIn {
        match self {
            SessionEvent::Connected => EventIn::Connected,
            SessionEvent::Capabilities(ok) => EventIn::Capabilities(*ok),
            SessionEvent::Action(TwitchAction::Privmsg(t)) => EventIn::Action(
                ActionModel::Privmsg(t@),
            ),
            SessionEvent::Action(TwitchAction::Join(c)) => EventIn::Action(ActionModel::Join(c@)),
            SessionEvent::Parted => EventIn::Parted,
            SessionEvent::PartFailed(e) => EventIn::PartFailed(e@),
            SessionEvent::JoinFailed(e) => EventIn::JoinFailed(e@),
            SessionEvent::SendFailed(e) => EventIn::SendFailed(e@),
            SessionEvent::Frame(f) => EventIn::Frame(*f),
            SessionEvent::TransportFailed(e) => EventIn::TransportFailed(e@),
        }
    }
}

impl View for Effect {
    type V = EffectModel;

    open spec fn view(&self) -> EffectModel {
        match self {
            Effect::RequestCapabilities => EffectModel::RequestCapabilities,
            Effect::Join(c) => EffectModel::Join(c@),
            Effect::Part(c) => EffectModel::Part(c@),
            Effect::Privmsg { channel, text } => EffectModel::Privmsg(channel@, text@),
            Effect::Emit(e) => EffectModel::Emit(e@),
            Effect::Reconnect => EffectModel::Reconnect,
        }
    }
}

/// The session: the channel it is in (or will join once connected), its
/// phase, whether a room-state frame came in this session, and whether the
/// capabilities were refused. The refusal is noticed once, when the session
/// becomes degraded, not again while it stays so.
pub struct Session {
    channel: String,
    phase: Phase,
    room_state_seen: bool,
    degraded: bool,
}

pub struct SessionModel {
    pub channel: Seq<char>,
    pub phase: Phase,
    pub room_state_seen: bool,
    pub degraded: bool,
}

impl View for Session {
    type V = SessionModel;

    closed spec fn view(&self) -> SessionModel {
        SessionModel {
            channel: self.channel@,
            phase: self.phase,
            room_state_seen: self.room_state_seen,
            degraded: self.degraded,
        }
    }
}

/// A channel name as the protocol writes it.
pub open spec fn hashed(c: Seq<char>) -> Seq<char> {
    seq!['#'] + c
}

pub open spec fn capability_notice() -> Seq<char> {
    "Unable to request commands/tags capability, certain features may be affected."@
}

pub open spec fn joined_notice(c: Seq<char>) -> Seq<char> {
    "Joined "@ + hashed(c)
}

pub open spec fn failure_notice(reason: Seq<char>, c: Seq<char>) -> Seq<char> {
    "Connection error: "@ + reason + ". Reconnecting to "@ + hashed(c)
}

/// The next state and the effects, in order, for one event.
pub open spec fn step(s: SessionModel, e: EventIn) -> (SessionModel, Seq<EffectModel>) {
    match e {
        EventIn::Connected => (
            SessionModel { phase: Phase::Authenticated, ..s },
            seq![EffectModel::RequestCapabilities],
        ),
        EventIn::Capabilities(ok) => (
            SessionModel { phase: Phase::Active, degraded: !ok, ..s },
            if ok || s.degraded {
                seq![EffectModel::Join(hashed(s.channel))]
            } else {
                seq![
                    EffectModel::Emit(EventModel::System(capability_notice())),
                    EffectModel::Join(hashed(s.channel)),
                ]
            },
        ),
        EventIn::Action(ActionModel::Privmsg(t)) => (
            s,
            seq![EffectModel::Privmsg(hashed(s.channel), t)],
        ),
        EventIn::Action(ActionModel::Join(c)) => (
            SessionModel { channel: c, ..s },
            seq![EffectModel::Part(hashed(s.channel)), EffectModel::Join(hashed(c))],
        ),
        EventIn::Parted => (s, seq![EffectModel::Emit(EventModel::Server(joined_notice(s.channel)))]),
        EventIn::PartFailed(r) => (s, seq![EffectModel::Emit(EventModel::Server(r))]),
        EventIn::JoinFailed(r) => (s, seq![EffectModel::Emit(EventModel::Server(r))]),
        EventIn::SendFailed(r) => (s, seq![EffectModel::Emit(EventModel::System(r))]),
        EventIn::Frame(f) => {
            let (ev, seen) = classified(f, s.room_state_seen);
            (
                SessionModel { room_state_seen: seen, ..s },
                match ev {
                    Some(m) => seq![EffectModel::Emit(m)],
                    None => Seq::empty(),
                },
            )
        },
        EventIn::TransportFailed(r) => (
            SessionModel { phase: Phase::Connecting, ..s },
            seq![
                EffectModel::Emit(EventModel::System(failure_notice(r, s.channel))),
                EffectModel::Reconnect,
            ],
        ),
    }
}

fn hashed_of(c: &str) -> (r: String)
    ensures
        r@ == hashed(c@),
{
    let mut s = String::new();
    push_char(&mut s, '#');
    push_str(&mut s, c);
    assert(s@ =~= hashed(c@));
    s
}

impl Session {
    /// A session about to connect, that will join `channel`.
    pub fn new(channel: String) -> (r: Session)
        ensures
            r@.channel == channel@,
            r@.phase == Phase::Connecting,
            !r@.room_state_seen,
            !r@.degraded,
    {
        Session { channel, phase: Phase::Connecting, room_state_seen: false, degraded: false }
    }

    /// The channel the session is in.
    pub fn channel(&self) -> (r: &str)
        ensures
            r@ == self@.channel,
    {
        self.channel.as_str()
    }

    pub fn phase(&self) -> (r: Phase)
        ensures
            r == self@.phase,
    {
        self.phase
    }

    /// Takes one event; returns the effects to perform, in order.
    pub fn handle(&mut self, event: SessionEvent) -> (r: Vec<Effect>)
        ensures
            final(self)@ == step(old(self)@, event@).0,
            r@.map_values(|x: Effect| x@) == step(old(self)@, event@).1,
    {
        let ghost e = event@;
        let mut r: Vec<Effect> = Vec::new();
        match event {
            SessionEvent::Connected => {
                self.phase = Phase::Authenticated;
                r.push(Effect::RequestCapabilities);
            },
            SessionEvent::Capabilities(ok) => {
                self.phase = Phase::Active;
                let already = self.degraded;
                self.degraded = !ok;
                if !ok && !already {
                    let notice = string_of(
                        "Unable to request commands/tags capability, certain features may be affected.",
                    );
                    r.push(Effect::Emit(InboundEvent::SystemNotice(notice)));
                }
                r.push(Effect::Join(hashed_of(self.channel.as_str())));
            },
            SessionEvent::Action(TwitchAction::Privmsg(text)) => {
                r.push(Effect::Privmsg { channel: hashed_of(self.channel.as_str()), text });
            },
            SessionEvent::Action(TwitchAction::Join(c)) => {
                r.push(Effect::Part(hashed_of(self.channel.as_str())));
                r.push(Effect::Join(hashed_of(c.as_str())));
                self.channel = c;
            },
            SessionEvent::Parted => {
                let mut notice = string_of("Joined ");
                let h = hashed_of(self.channel.as_str());
                push_str(&mut notice, h.as_str());
                r.push(Effect::Emit(InboundEvent::ServerNotice(notice)));
            },
            SessionEvent::PartFailed(reason) => {
                r.push(Effect::Emit(InboundEvent::ServerNotice(reason)));
            },
            SessionEvent::JoinFailed(reason) => {
                r.push(Effect::Emit(InboundEvent::ServerNotice(reason)));
            },
            SessionEvent::SendFailed(reason) => {
                r.push(Effect::Emit(InboundEvent::SystemNotice(reason)));
            },
            SessionEvent::Frame(f) => {
                let (ev, seen) = handle_message_command(&f, self.room_state_seen);
                self.room_state_seen = seen;
                match ev {
                    Some(m) => r.push(Effect::Emit(m)),
                    None => {},
                }
            },
            SessionEvent::TransportFailed(reason) => {
                self.phase = Phase::Connecting;
                let mut notice = string_of("Connection error: ");
                push_str(&mut notice, reason.as_str());
                push_str(&mut notice, ". Reconnecting to ");
                let h = hashed_of(self.channel.as_str());
                push_str(&mut notice, h.as_str());
                r.push(Effect::Emit(InboundEvent::SystemNotice(notice)));
                r.push(Effect::Reconnect);
            },
        }
        assert(self@ == step(old(self)@, e).0);
        assert(r@.map_values(|x: Effect| x@) =~= step(old(self)@, e).1);
        r
    }
}

/// Which source the session reads next.
#[derive(Clone, Copy, Debug, PartialEq, Eq, Structural)]
pub enum Source {
    Outbound,
    Inbound,
}

/// Actions of the user go before frames whenever both are ready, so that
/// sending is never starved by a burst of inbound traffic.
pub fn next_source(outbound_ready: bool, inbound_ready: bool) -> (r: Option<Source>)
    ensures
        outbound_ready ==> r == Some(Source::Outbound),
        !outbound_ready && inbound_ready ==> r == Some(Source::Inbound),
        !outbound_ready && !inbound_ready ==> r is None,
{
    if outbound_ready {
        Some(Source::Outbound)
    } else if inbound_ready {
        Some(Source::Inbound)
    } else {
        None
    }
}

/// After a switch to channel `to`, a transport failure has the session
/// reconnect and, once logged in again, join `to`: the channel it is in, not
/// the one it was in before the switch or first configured.
pub proof fn lemma_reconnect_rejoins_current_channel(
    s0: SessionModel,
    to: Seq<char>,
    reason: Seq<char>,
    ok: bool,
)
    ensures
        ({
            let s1 = step(s0, EventIn::Action(ActionModel::Join(to))).0;
            let (s2, fx2) = step(s1, EventIn::TransportFailed(reason));
            let s3 = step(s2, EventIn::Connected).0;
            let (s4, fx4) = step(s3, EventIn::Capabilities(ok));
            &&& fx2.last() == EffectModel::Reconnect
            &&& s2.channel == to
            &&& s4.channel == to
            &&& s4.phase == Phase::Active
            &&& fx4.last() == EffectModel::Join(hashed(to))
            &&& forall|i: int|
                0 <= i < fx4.len() && (#[trigger] fx4[i] is Join) ==> fx4[i] == EffectModel::Join(
                    hashed(to),
                )
        }),
{
}

/// Within one session the room-state summary comes at most once: once a
/// room-state frame has been read, a later one yields no effect at all.
pub proof fn lemma_roomstate_summary_at_most_once(s: SessionModel, first: Frame, later: Frame)
    requires
        first.command matches Command::Raw { name } && name@ == "ROOMSTATE"@,
        later.command matches Command::Raw { name } && name@ == "ROOMSTATE"@,
    ensures
        step(s, EventIn::Frame(first)).0.room_state_seen,
        step(step(s, EventIn::Frame(first)).0, EventIn::Frame(later)).1.len() == 0,
        !s.room_state_seen && roomstate_summary(first.tags@) is Some ==> step(
            s,
            EventIn::Frame(first),
        ).1 == seq![
            EffectModel::Emit(EventModel::RoomState(roomstate_summary(first.tags@).unwrap())),
        ],
{
}

} // verus!

use twitch_tui::frames::{handle_message_command, handle_roomstate, Command, Frame, InboundEvent, Tag};
use twitch_tui::session::{next_source, Effect, Phase, Session, SessionEvent, Source, TwitchAction};

fn tag(k: &str, v: &str) -> Tag {
    Tag { key: k.to_string(), value: Some(v.to_string()) }
}

fn roomstate(tags: Vec<Tag>) -> Frame {
    Frame { tags, nickname: None, command: Command::Raw { name: "ROOMSTATE".to_string() } }
}

fn joins(effects: &[Effect]) -> Vec<String> {
    effects
        .iter()
        .filter_map(|e| match e {
            Effect::Join(c) => Some(c.clone()),
            _ => None,
        })
        .collect()
}

#[test]
fn chat_frame_yields_chat_message() {
    let frame = Frame {
        tags: vec![],
        nickname: Some("alice".to_string()),
        command: Command::Privmsg { target: "#foo".to_string(), text: "gg".to_string() },
    };
    match handle_message_command(&frame, false) {
        (Some(InboundEvent::ChatMessage { author, text }), false) => {
            assert_eq!(author, "alice");
            assert_eq!(text, "gg");
        }
        _ => panic!("a chat frame yields one chat message"),
    }
}

#[test]
fn display_name_tag_names_the_author() {
    let frame = Frame {
        tags: vec![tag("display-name", "Alice")],
        nickname: Some("alice".to_string()),
        command: Command::Privmsg { target: "#foo".to_string(), text: "hi".to_string() },
    };
    assert!(matches!(
        handle_message_command(&frame, false).0,
        Some(InboundEvent::ChatMessage { ref author, .. }) if author == "Alice"
    ));
}

#[test]
fn roomstate_summary_once_per_session() {
    let frame = roomstate(vec![tag("emote-only", "1"), tag("slow", "5")]);
    let mut session = Session::new("foo".to_string());
    let first = session.handle(SessionEvent::Frame(frame.clone()));
    assert_eq!(first.len(), 1);
    match &first[0] {
        Effect::Emit(InboundEvent::RoomStateSummary(text)) => {
            assert!(text.contains("emote-only"));
            assert!(text.contains("5s slowmode"));
            assert_eq!(text, "The channel is emote-only.\nThe channel has a 5s slowmode.");
        }
        _ => panic!("the first room state yields its summary"),
    }
    let second = session.handle(SessionEvent::Frame(frame));
    assert!(second.is_empty());
}

#[test]
fn roomstate_flags_that_are_off_give_no_summary() {
    let tags = vec![
        tag("emote-only", "0"),
        tag("followers-only", "-1"),
        tag("subs-only", "0"),
        tag("slow", "0"),
    ];
    assert_eq!(handle_roomstate(&tags), None);
    let on = vec![tag("followers-only", "10"), tag("subs-only", "1")];
    assert_eq!(
        handle_roomstate(&on),
        Some("The channel is followers-only.\nThe channel is subscribers-only.".to_string())
    );
}

#[test]
fn notices_and_user_notices() {
    let notice = Frame {
        tags: vec![],
        nickname: None,
        command: Command::Notice { target: "#foo".to_string(), text: "slow down".to_string() },
    };
    assert!(matches!(
        handle_message_command(&notice, true),
        (Some(InboundEvent::ServerNotice(ref t)), true) if t == "slow down"
    ));
    let usernotice = Frame {
        tags: vec![tag("system-msg", "bob subscribed")],
        nickname: None,
        command: Command::Raw { name: "USERNOTICE".to_string() },
    };
    assert!(matches!(
        handle_message_command(&usernotice, false).0,
        Some(InboundEvent::ServerNotice(ref t)) if t == "bob subscribed"
    ));
    let other = Frame { tags: vec![], nickname: None, command: Command::Other };
    assert!(handle_message_command(&other, false).0.is_none());
}

#[test]
fn reconnect_rejoins_current_channel() {
    let mut session = Session::new("bar".to_string());
    assert_eq!(joins(&session.handle(SessionEvent::Connected)), Vec::<String>::new());
    assert_eq!(joins(&session.handle(SessionEvent::Capabilities(true))), vec!["#bar"]);
    let switch = session.handle(SessionEvent::Action(TwitchAction::Join("foo".to_string())));
    assert!(matches!(&switch[0], Effect::Part(c) if c == "#bar"));
    assert_eq!(joins(&switch), vec!["#foo"]);
    let failure = session.handle(SessionEvent::TransportFailed("reset".to_string()));
    assert!(matches!(failure.last(), Some(Effect::Reconnect)));
    assert!(matches!(
        &failure[0],
        Effect::Emit(InboundEvent::SystemNotice(t)) if t == "Connection error: reset. Reconnecting to #foo"
    ));
    assert_eq!(session.phase(), Phase::Connecting);
    assert!(matches!(session.handle(SessionEvent::Connected)[0], Effect::RequestCapabilities));
    assert_eq!(joins(&session.handle(SessionEvent::Capabilities(true))), vec!["#foo"]);
    assert_eq!(session.channel(), "foo");
}

#[test]
fn capability_failure_is_a_notice() {
    let mut session = Session::new("bar".to_string());
    session.handle(SessionEvent::Connected);
    let fx = session.handle(SessionEvent::Capabilities(false));
    assert_eq!(fx.len(), 2);
    assert!(matches!(&fx[0], Effect::Emit(InboundEvent::SystemNotice(_))));
    assert_eq!(session.phase(), Phase::Active);
}

#[test]
fn sending_and_failures() {
    let mut session = Session::new("bar".to_string());
    let fx = session.handle(SessionEvent::Action(TwitchAction::Privmsg("hi".to_string())));
    assert!(matches!(&fx[0], Effect::Privmsg { channel, text } if channel == "#bar" && text == "hi"));
    let fx = session.handle(SessionEvent::SendFailed("closed".to_string()));
    assert!(matches!(&fx[0], Effect::Emit(InboundEvent::SystemNotice(t)) if t == "closed"));
    let fx = session.handle(SessionEvent::PartFailed("no".to_string()));
    assert!(matches!(&fx[0], Effect::Emit(InboundEvent::ServerNotice(t)) if t == "no"));
    let fx = session.handle(SessionEvent::JoinFailed("nope".to_string()));
    assert!(matches!(&fx[0], Effect::Emit(InboundEvent::ServerNotice(t)) if t == "nope"));
}

#[test]
fn outbound_goes_first() {
    assert_eq!(next_source(true, true), Some(Source::Outbound));
    assert_eq!(next_source(false, true), Some(Source::Inbound));
    assert_eq!(next_source(false, false), None);
}

#[test]
fn events_become_entries() {
    let d = InboundEvent::ServerNotice("x".to_string()).into_data("12:00".to_string());
    assert_eq!((d.author.as_str(), d.message.as_str(), d.time_sent.as_str()), ("Twitch", "x", "12:00"));
    let d = InboundEvent::RoomStateSummary("y".to_string()).into_data(String::new());
    assert_eq!(d.author, "Info");
    let d = InboundEvent::SystemNotice("z".to_string()).into_data(String::new());
    assert_eq!(d.author, "System");
}

#[test]
fn chat_frame_without_author_is_dropped() {
    let frame = Frame {
        tags: vec![Tag { key: "display-name".to_string(), value: None }],
        nickname: None,
        command: Command::Privmsg { target: "#foo".to_string(), text: "gg".to_string() },
    };
    assert!(matches!(handle_message_command(&frame, false), (None, false)));
    let mut session = Session::new("foo".to_string());
    assert!(session.handle(SessionEvent::Frame(frame)).is_empty());
}

#[test]
fn joined_notice_after_leaving() {
    let mut session = Session::new("bar".to_string());
    let switch = session.handle(SessionEvent::Action(TwitchAction::Join("foo".to_string())));
    assert_eq!(switch.len(), 2);
    let fx = session.handle(SessionEvent::Parted);
    assert!(matches!(&fx[0], Effect::Emit(InboundEvent::ServerNotice(t)) if t == "Joined #foo"));
}

#[test]
fn capability_notice_only_once() {
    let mut session = Session::new("bar".to_string());
    session.handle(SessionEvent::Connected);
    assert_eq!(session.handle(SessionEvent::Capabilities(false)).len(), 2);
    session.handle(SessionEvent::TransportFailed("reset".to_string()));
    session.handle(SessionEvent::Connected);
    let again = session.handle(SessionEvent::Capabilities(false));
    assert_eq!(again.len(), 1);
    assert!(matches!(&again[0], Effect::Join(c) if c == "#bar"));
}

#[test]
fn chat_frame_without_source_is_dropped_despite_display_name() {
    let frame = Frame {
        tags: vec![tag("display-name", "bob")],
        nickname: None,
        command: Command::Privmsg { target: "#foo".to_string(), text: "hi".to_string() },
    };
    assert!(matches!(handle_message_command(&frame, true), (None, true)));
}

use std::str::FromStr;
use twitch_tui::cache::EmoteCache;
use twitch_tui::config::{
    merge_args_into_config, Alignment, Cli, CompleteConfig, DatabaseConfig, FiltersConfig,
    FrontendConfig, Palette, TerminalConfig, Theme, TwitchConfig,
};
use twitch_tui::driver::{App, TerminalAction};
use twitch_tui::images::{Load, StaticImage};
use twitch_tui::layout::{centered_popup, clamp_into, middle_row, popup_columns, popup_rows, Centering, Constraint, Rect};
use twitch_tui::probe::{get_terminal_cell_size, support_graphics_protocol, Key, ReadStep, ResponseReader};
use twitch_tui::session::TwitchAction;
use twitch_tui::state::{ParseStateError, State};
use twitch_tui::store::Data;
use twitch_tui::widgets::{DebugWidget, Following};

fn config() -> CompleteConfig {
    CompleteConfig {
        twitch: TwitchConfig {
            username: "me".to_string(),
            channel: "bar".to_string(),
            server: "irc.chat.twitch.tv".to_string(),
            token: "SECRET-REDACTED".to_string(),
        },
        terminal: TerminalConfig {
            tick_delay: 30,
            maximum_messages: 100,
            log_file: None,
            verbose: false,
            start_state: State::Normal,
        },
        database: DatabaseConfig { channels: false, mentions: false },
        filters: FiltersConfig { enabled: false, reversed: false },
        frontend: FrontendConfig {
            date_shown: true,
            date_format: "%a %b %e %T %Y".to_string(),
            maximum_username_length: 26,
            username_alignment: Alignment::Right,
            palette: Palette::Pastel,
            title_shown: true,
            padding: true,
            badges: false,
            theme: Theme::Dark,
            inverted_scrolling: false,
        },
    }
}

#[test]
fn state_names_and_categories() {
    assert_eq!(State::Insert.category(), "Insert modes");
    assert_eq!(State::Help.category(), "Help");
    assert_eq!(State::ChannelSwitch.to_string(), "Channel");
    assert!(State::MessageSearch.in_insert_mode());
    assert!(!State::Normal.in_insert_mode());
    assert_eq!(State::default(), State::Dashboard);
}

#[test]
fn state_parses_in_any_case() {
    assert_eq!(State::from_str("NORMAL"), Ok(State::Normal));
    assert_eq!(State::from_str("Search"), Ok(State::MessageSearch));
    assert_eq!(State::from_str("start"), Ok(State::Dashboard));
    assert_eq!(State::from_str("nowhere"), Err(ParseStateError));
}

#[test]
fn palette_parses_with_pastel_default() {
    assert_eq!(Palette::from_str("warm"), Ok(Palette::Warm));
    assert_eq!(Palette::from_str("Warm"), Ok(Palette::Pastel));
    assert_eq!(Palette::default(), Palette::Pastel);
}

#[test]
fn arguments_override_config() {
    let mut c = config();
    let args = Cli {
        channel: Some("foo".to_string()),
        log_file: None,
        verbose: true,
        tick_delay: Some(10),
        max_messages: None,
        date_shown: false,
        max_username_length: Some(12),
        username_alignment: None,
        palette: Some(Palette::Cool),
        badges: true,
        theme: None,
    };
    merge_args_into_config(&mut c, args);
    assert_eq!(c.twitch.channel, "foo");
    assert!(c.terminal.verbose);
    assert_eq!(c.terminal.tick_delay, 10);
    assert_eq!(c.terminal.maximum_messages, 100);
    assert!(!c.frontend.date_shown);
    assert_eq!(c.frontend.maximum_username_length, 12);
    assert_eq!(c.frontend.username_alignment, Alignment::Right);
    assert_eq!(c.frontend.palette, Palette::Cool);
    assert!(c.frontend.badges);
    assert_eq!(c.frontend.theme, Theme::Dark);
}

#[test]
fn app_actions() {
    let c = config();
    let mut app = App::new(&c);
    let mut cache = EmoteCache::new();
    assert_eq!(app.get_state(), State::Normal);
    app.on_inbound(Data::new(String::new(), "a".to_string(), "1".to_string()));
    assert_eq!(app.messages().len(), 1);

    let r = app.on_action(TerminalAction::SwitchState(State::Help), &mut cache, State::Normal, "me".to_string(), String::new());
    assert!(!r.quit);
    assert_eq!(app.get_state(), State::Help);
    assert_eq!(app.get_previous_state(), Some(State::Normal));

    let r = app.on_action(TerminalAction::BackOneLayer, &mut cache, State::Normal, "me".to_string(), String::new());
    assert!(r.send.is_none());
    assert_eq!(app.get_state(), State::Normal);

    let r = app.on_action(
        TerminalAction::Enter(TwitchAction::Privmsg("hello".to_string())),
        &mut cache,
        State::Normal,
        "me".to_string(),
        "now".to_string(),
    );
    assert!(matches!(r.send, Some(TwitchAction::Privmsg(ref m)) if m == "hello"));
    assert_eq!(app.messages().len(), 2);
    assert_eq!(app.messages().get(0).author, "me");

    let r = app.on_action(
        TerminalAction::Enter(TwitchAction::Join("foo".to_string())),
        &mut cache,
        State::Normal,
        "me".to_string(),
        String::new(),
    );
    assert!(matches!(r.send, Some(TwitchAction::Join(ref m)) if m == "foo"));
    assert!(app.messages().is_empty());

    cache.load(Load::Static(StaticImage::new(1, 1, 1, "/tmp/a".to_string())));
    let r = app.on_action(TerminalAction::SwitchState(State::Normal), &mut cache, State::Normal, "me".to_string(), String::new());
    assert!(r.invalidation.is_some());
    assert!(!cache.is_loaded(1));

    let r = app.on_action(TerminalAction::ClearMessages, &mut cache, State::Normal, "me".to_string(), String::new());
    assert!(!r.quit);
    let r = app.on_action(TerminalAction::Quit, &mut cache, State::Normal, "me".to_string(), String::new());
    assert!(r.quit);
}

#[test]
fn scrolled_view_follows_new_entries() {
    let mut app = App::new(&config());
    for n in 0..3 {
        app.on_inbound(Data::new(String::new(), "a".to_string(), format!("{n}")));
    }
    assert_eq!(app.scrolling().get_offset(), 0);
    app.scrolling_mut().up();
    app.on_inbound(Data::new(String::new(), "a".to_string(), "x".to_string()));
    assert_eq!(app.scrolling().get_offset(), 2);
}

#[test]
fn redraw_truncates_and_checks_size() {
    let mut app = App::new(&config());
    let mut cache = EmoteCache::new();
    for n in 0..5 {
        app.on_inbound(Data::new(String::new(), "a".to_string(), format!("{n}")));
    }
    assert!(app.before_redraw(&mut cache, (80, 24), 3).is_some());
    assert_eq!(app.messages().len(), 3);
    assert_eq!(app.messages().get(0).message, "4");
    assert!(app.before_redraw(&mut cache, (80, 24), 3).is_none());
}

#[test]
fn graphics_support_decision() {
    assert!(support_graphics_protocol(Some("xterm-kitty"), None, Some("Gi=31;OK")));
    assert!(support_graphics_protocol(Some("xterm-256color"), Some("WezTerm"), Some("OK")));
    assert!(!support_graphics_protocol(Some("xterm-kitty"), None, Some("")));
    assert!(!support_graphics_protocol(Some("xterm-kitty"), None, None));
    assert!(!support_graphics_protocol(Some("xterm"), None, Some("OK")));
    assert!(!support_graphics_protocol(None, Some("WezTerm"), Some("OK")));
}

#[test]
fn response_reader_keeps_reply() {
    let mut reader = ResponseReader::new("\x1b[14t").unwrap();
    assert!(matches!(reader.feed(Key::Char('x')), ReadStep::Pending));
    assert!(matches!(reader.feed(Key::UnknownEscSeq), ReadStep::Pending));
    for c in "600;800".chars() {
        assert!(matches!(reader.feed(Key::Char(c)), ReadStep::Pending));
    }
    assert!(matches!(reader.feed(Key::Char('t')), ReadStep::Done(ref s) if s == "600;800"));
    let mut failing = ResponseReader::new("c").unwrap();
    assert!(matches!(failing.feed(Key::Error), ReadStep::Failed));
    assert!(ResponseReader::new("").is_none());
}

#[test]
fn cell_size_from_reply() {
    assert_eq!(get_terminal_cell_size("600;800", 80, 24), Some((10, 25)));
    assert_eq!(get_terminal_cell_size("+600;800;1", 80, 24), Some((10, 25)));
    assert_eq!(get_terminal_cell_size("600", 80, 24), None);
    assert_eq!(get_terminal_cell_size("600;x", 80, 24), None);
    assert_eq!(get_terminal_cell_size("70000;800", 80, 24), None);
    assert_eq!(get_terminal_cell_size("600;800", 0, 24), None);
}

#[test]
fn popup_is_centered_inside() {
    let size = Rect { x: 0, y: 0, width: 100, height: 50 };
    let r = centered_popup(Centering::Input(None), size);
    assert_eq!(r.height, 3);
    assert!(r.x > 0 && r.x + r.width < 100);
    let w = centered_popup(Centering::Window(10), size);
    assert_eq!(w.height, 14);
}

#[test]
fn widgets_toggle_focus() {
    let mut d = DebugWidget::new(config());
    assert!(!d.is_focused());
    d.toggle_focus();
    assert!(d.is_focused());
    assert_eq!(d.channel(), "bar");
    let f = Following::new(config().twitch);
    assert_eq!(f.twitch_config().channel, "bar");
}

#[test]
fn popup_constraints() {
    assert_eq!(
        popup_rows(Centering::Input(Some(10))),
        vec![Constraint::Length(7), Constraint::Length(3), Constraint::Percentage(20)]
    );
    assert_eq!(
        popup_rows(Centering::Window(5)),
        vec![Constraint::Percentage(20), Constraint::Length(9), Constraint::Percentage(20)]
    );
    assert_eq!(
        popup_columns(),
        vec![Constraint::Percentage(12), Constraint::Percentage(75), Constraint::Percentage(12)]
    );
    let size = Rect { x: 0, y: 0, width: 40, height: 20 };
    let rows = vec![
        Rect { x: 0, y: 0, width: 40, height: 4 },
        Rect { x: 0, y: 4, width: 50, height: 3 },
        Rect { x: 0, y: 7, width: 40, height: 4 },
    ];
    assert_eq!(middle_row(&rows, size), Rect { x: 0, y: 4, width: 40, height: 3 });
}

#[test]
fn scrolling_stays_within_entries() {
    let mut app = App::new(&config());
    app.scroll_up();
    assert_eq!(app.scrolling().get_offset(), 0);
    for n in 0..3 {
        app.on_inbound(Data::new(String::new(), "a".to_string(), format!("{n}")));
    }
    app.scroll_up();
    app.scroll_up();
    app.scroll_up();
    assert_eq!(app.scrolling().get_offset(), 2);
    app.scroll_down();
    assert_eq!(app.scrolling().get_offset(), 1);
    let mut cache = EmoteCache::new();
    app.before_redraw(&mut cache, (80, 24), 1);
    assert_eq!(app.scrolling().get_offset(), 1);
}

#[test]
fn messages_over_the_limit_are_not_sent() {
    let mut app = App::new(&config());
    let mut cache = EmoteCache::new();
    let long = "x".repeat(501);
    let r = app.on_action(TerminalAction::Enter(TwitchAction::Privmsg(long)), &mut cache, State::Normal, "me".to_string(), String::new());
    assert!(r.send.is_none());
    let r = app.on_action(TerminalAction::Enter(TwitchAction::Privmsg(String::new())), &mut cache, State::Normal, "me".to_string(), String::new());
    assert!(r.send.is_none());
    assert!(app.messages().is_empty());
    let r = app.on_action(TerminalAction::Enter(TwitchAction::Privmsg("x".repeat(500))), &mut cache, State::Normal, "me".to_string(), String::new());
    assert!(r.send.is_some());
    assert_eq!(app.messages().len(), 1);
}

#[test]
fn rectangles_clamp_into_area() {
    let area = Rect { x: 2, y: 2, width: 10, height: 5 };
    assert_eq!(clamp_into(Rect { x: 0, y: 3, width: 20, height: 2 }, area), Rect { x: 2, y: 3, width: 10, height: 2 });
    let inside = Rect { x: 3, y: 3, width: 2, height: 2 };
    assert_eq!(clamp_into(inside, area), inside);
}

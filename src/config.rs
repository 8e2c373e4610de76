//! The configuration, and how command-line arguments override it.

use vstd::prelude::*;
use crate::state::State;
use crate::text::str_eq;

verus! {

/// The color palette for usernames.
#[derive(Clone, Copy, Debug, PartialEq, Eq, Structural)]
pub enum Palette {
    Pastel,
    Vibrant,
    Warm,
    Cool,
}

/// A name that no palette has.
#[derive(Clone, Copy, Debug, PartialEq, Eq, Structural)]
pub struct ParsePaletteError;

impl Palette {
    /// The palette a name stands for; any other name stands for the pastel
    /// one.
    pub fn parse(s: &str) -> (r: Palette)
        ensures
            r == (if s@ == "vibrant"@ {
                Palette::Vibrant
            } else if s@ == "warm"@ {
                Palette::Warm
            } else if s@ == "cool"@ {
                Palette::Cool
            } else {
                Palette::Pastel
            }),
    {
        if str_eq(s, "vibrant") {
            Palette::Vibrant
        } else if str_eq(s, "warm") {
            Palette::Warm
        } else if str_eq(s, "cool") {
            Palette::Cool
        } else {
            Palette::Pastel
        }
    }
}

impl Default for Palette {
    fn default() -> (r: Palette)
        ensures
            r == Palette::Pastel,
    {
        Palette::Pastel
    }
}

impl std::str::FromStr for Palette {
    type Err = ParsePaletteError;

    fn from_str(s: &str) -> Result<Palette, ParsePaletteError> {
        Ok(Palette::parse(s))
    }
}

/// Which side the username column is aligned to.
#[derive(Clone, Copy, Debug, PartialEq, Eq, Structural)]
pub enum Alignment {
    Left,
    Center,
    Right,
}

#[derive(Clone, Copy, Debug, PartialEq, Eq, Structural)]
pub enum Theme {
    Dark,
    Light,
}

#[derive(Clone, Debug)]
pub struct TwitchConfig {
    /// The username that this user has on Twitch.
    pub username: String,
    /// The streamer's channel name.
    pub channel: String,
    /// The IRC server to connect to.
    pub server: String,
    /// The OAuth token.
    pub token: String,
}

#[derive(Clone, Debug)]
pub struct TerminalConfig {
    /// The delay between updates, in milliseconds.
    pub tick_delay: u64,
    /// The maximum amount of messages to be stored.
    pub maximum_messages: usize,
    /// The file to log to, if any.
    pub log_file: Option<String>,
    /// If debug logs should be shown.
    pub verbose: bool,
    /// The window shown at start.
    pub start_state: State,
}

#[derive(Clone, Debug)]
pub struct DatabaseConfig {
    /// If previous channels switched to should be tracked.
    pub channels: bool,
    /// If previous username mentions should be tracked.
    pub mentions: bool,
}

#[derive(Clone, Debug)]
pub struct FiltersConfig {
    /// If filters should be enabled at all.
    pub enabled: bool,
    /// If the regex filters should be reversed
    pub reversed: bool,
}

#[derive(Clone, Debug)]
pub struct FrontendConfig {
    /// If the time and date is to be shown.
    pub date_shown: bool,
    /// The format of string that will show up in the terminal.
    pub date_format: String,
    /// The maximum length of a Twitch username.
    pub maximum_username_length: u16,
    /// Which side the username should be aligned to.
    pub username_alignment: Alignment,
    /// The color palette.
    pub palette: Palette,
    /// Show Title with time and channel.
    pub title_shown: bool,
    /// Show padding around chat frame.
    pub padding: bool,
    /// Show twitch badges next to usernames.
    pub badges: bool,
    /// The theme of the terminal.
    pub theme: Theme,
    /// If scrolling is inverted.
    pub inverted_scrolling: bool,
}

#[derive(Clone, Debug)]
pub struct CompleteConfig {
    /// Connecting to Twitch.
    pub twitch: TwitchConfig,
    /// Internal functionality.
    pub terminal: TerminalConfig,
    /// If anything should be recorded for future use.
    pub database: DatabaseConfig,
    /// Filtering out messages.
    pub filters: FiltersConfig,
    /// How everything looks to the user.
    pub frontend: FrontendConfig,
}

/// The command-line arguments.
#[derive(Clone, Debug)]
pub struct Cli {
    /// The streamer's name
    pub channel: Option<String>,
    /// File to log to
    pub log_file: Option<String>,
    /// If debug logs should be shown
    pub verbose: bool,
    /// The delay in milliseconds between terminal updates
    pub tick_delay: Option<u64>,
    /// The maximum amount of messages to be stored
    pub max_messages: Option<usize>,
    /// Show the date/time
    pub date_shown: bool,
    /// Maximum length for Twitch usernames
    pub max_username_length: Option<u16>,
    /// Username column alignment
    pub username_alignment: Option<Alignment>,
    /// Username color palette
    pub palette: Option<Palette>,
    /// Twitch badges support
    pub badges: bool,
    /// The theme of the terminal
    pub theme: Option<Theme>,
}

/// `o`'s value where it has one, else `d`.
pub open spec fn or_else<T>(o: Option<T>, d: T) -> T {
    match o {
        Some(v) => v,
        None => d,
    }
}

pub open spec fn text_or_else(o: Option<String>, d: Seq<char>) -> Seq<char> {
    match o {
        Some(v) => v@,
        None => d,
    }
}

fn merge_terminal(
    t: &mut TerminalConfig,
    log_file: Option<String>,
    verbose: bool,
    tick_delay: Option<u64>,
    max_messages: Option<usize>,
)
    ensures
        final(t).log_file == (match log_file {
            Some(f) => Some(f),
            None => old(t).log_file,
        }),
        final(t).verbose == verbose,
        final(t).tick_delay == or_else(tick_delay, old(t).tick_delay),
        final(t).maximum_messages == or_else(max_messages, old(t).maximum_messages),
        final(t).start_state == old(t).start_state,
{
    if let Some(f) = log_file {
        t.log_file = Some(f);
    }
    t.verbose = verbose;
    if let Some(d) = tick_delay {
        t.tick_delay = d;
    }
    if let Some(m) = max_messages {
        t.maximum_messages = m;
    }
}

fn merge_frontend(
    f: &mut FrontendConfig,
    date_shown: bool,
    max_username_length: Option<u16>,
    username_alignment: Option<Alignment>,
    palette: Option<Palette>,
    badges: bool,
    theme: Option<Theme>,
)
    ensures
        final(f).date_shown == date_shown,
        final(f).maximum_username_length == or_else(
            max_username_length,
            old(f).maximum_username_length,
        ),
        final(f).username_alignment == or_else(username_alignment, old(f).username_alignment),
        final(f).palette == or_else(palette, old(f).palette),
        final(f).badges == badges,
        final(f).theme == or_else(theme, old(f).theme),
        final(f).date_format == old(f).date_format,
        final(f).title_shown == old(f).title_shown,
        final(f).padding == old(f).padding,
        final(f).inverted_scrolling == old(f).inverted_scrolling,
{
    f.date_shown = date_shown;
    if let Some(m) = max_username_length {
        f.maximum_username_length = m;
    }
    if let Some(a) = username_alignment {
        f.username_alignment = a;
    }
    if let Some(p) = palette {
        f.palette = p;
    }
    f.badges = badges;
    if let Some(t) = theme {
        f.theme = t;
    }
}

/// Overrides the configuration with each argument that was given; the
/// flags (verbose, date shown, badges) are taken as they are.
pub fn merge_args_into_config(config: &mut CompleteConfig, args: Cli)
    ensures
        final(config).terminal.log_file == (match args.log_file {
            Some(f) => Some(f),
            None => old(config).terminal.log_file,
        }),
        final(config).terminal.verbose == args.verbose,
        final(config).terminal.tick_delay == or_else(args.tick_delay, old(config).terminal.tick_delay),
        final(config).terminal.maximum_messages == or_else(
            args.max_messages,
            old(config).terminal.maximum_messages,
        ),
        final(config).terminal.start_state == old(config).terminal.start_state,
        final(config).twitch.channel@ == text_or_else(args.channel, old(config).twitch.channel@),
        final(config).twitch.username == old(config).twitch.username,
        final(config).twitch.server == old(config).twitch.server,
        final(config).twitch.token == old(config).twitch.token,
        final(config).frontend.date_shown == args.date_shown,
        final(config).frontend.maximum_username_length == or_else(
            args.max_username_length,
            old(config).frontend.maximum_username_length,
        ),
        final(config).frontend.username_alignment == or_else(
            args.username_alignment,
            old(config).frontend.username_alignment,
        ),
        final(config).frontend.palette == or_else(args.palette, old(config).frontend.palette),
        final(config).frontend.badges == args.badges,
        final(config).frontend.theme == or_else(args.theme, old(config).frontend.theme),
        final(config).frontend.date_format == old(config).frontend.date_format,
        final(config).frontend.title_shown == old(config).frontend.title_shown,
        final(config).frontend.padding == old(config).frontend.padding,
        final(config).frontend.inverted_scrolling == old(config).frontend.inverted_scrolling,
        final(config).database == old(config).database,
        final(config).filters == old(config).filters,
{
    let Cli {
        channel,
        log_file,
        verbose,
        tick_delay,
        max_messages,
        date_shown,
        max_username_length,
        username_alignment,
        palette,
        badges,
        theme,
    } = args;
    merge_terminal(&mut config.terminal, log_file, verbose, tick_delay, max_messages);
    if let Some(c) = channel {
        config.twitch.channel = c;
    }
    merge_frontend(
        &mut config.frontend,
        date_shown,
        max_username_length,
        username_alignment,
        palette,
        badges,
        theme,
    );
}

} // verus!

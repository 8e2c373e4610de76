//! Small pieces of the interface: window titles, the debug window, and the
//! list of followed channels.

use vstd::prelude::*;
use crate::config::{CompleteConfig, TwitchConfig};
use crate::text::{push_str, string_of};

verus! {

/// A piece of a title: its text, and whether it takes the title's style.
#[derive(Clone, Debug)]
pub struct Span {
    pub content: String,
    pub styled: bool,
}

/// One part of a window title.
#[derive(Clone, Debug)]
pub enum TitleStyle {
    /// A label and its value: `[ label: value ]`.
    Combined(String, String),
    /// A label alone: `[ label ]`.
    Single(String),
    /// A span given as it is: `[ span ]`.
    Custom(Span),
}

pub open spec fn span_view(s: Span) -> (Seq<char>, bool) {
    (s.content@, s.styled)
}

/// The spans of the `i`-th part of a title.
pub open spec fn part_spans(i: int, item: TitleStyle) -> Seq<(Seq<char>, bool)> {
    let open = (if i == 0 { Seq::empty() } else { seq![' '] }) + "[ "@;
    match item {
        TitleStyle::Combined(title, value) => seq![
            (open, false),
            (title@, true),
            (": "@ + value@ + " ]"@, false),
        ],
        TitleStyle::Single(value) => seq![(open, false), (value@, true), (" ]"@, false)],
        TitleStyle::Custom(span) => seq![(open, false), span_view(span), (" ]"@, false)],
    }
}

/// The spans of the first `n` parts.
pub open spec fn title_of(items: Seq<TitleStyle>, n: int) -> Seq<(Seq<char>, bool)>
    decreases n,
{
    if n <= 0 {
        Seq::empty()
    } else {
        title_of(items, n - 1) + part_spans(n - 1, items[n - 1])
    }
}

fn raw(s: String) -> (r: Span)
    ensures
        r.content@ == s@,
        !r.styled,
{
    Span { content: s, styled: false }
}

/// The spans of a window title: each part in brackets, the parts apart by
/// a space, labels in the title's style.
pub fn title_spans(contents: &[TitleStyle]) -> (r: Vec<Span>)
    ensures
        r@.map_values(|s: Span| span_view(s)) == title_of(contents@, contents@.len() as int),
{
    let mut complete: Vec<Span> = Vec::new();
    let mut i: usize = 0;
    while i < contents.len()
        invariant
            i <= contents@.len(),
            complete@.map_values(|s: Span| span_view(s)) == title_of(contents@, i as int),
        decreases contents@.len() - i,
    {
        let ghost before = complete@;
        let open = if i == 0 {
            string_of("[ ")
        } else {
            string_of(" [ ")
        };
        proof {
            reveal_strlit("[ ");
            reveal_strlit(" [ ");
            if i == 0 {
                assert(open@ =~= Seq::<char>::empty() + "[ "@);
            } else {
                assert(open@ =~= seq![' '] + "[ "@);
            }
        }
        complete.push(raw(open));
        match &contents[i] {
            TitleStyle::Combined(title, value) => {
                complete.push(Span { content: title.clone(), styled: true });
                let mut s = string_of(": ");
                push_str(&mut s, value.as_str());
                push_str(&mut s, " ]");
                complete.push(raw(s));
            },
            TitleStyle::Single(value) => {
                complete.push(Span { content: value.clone(), styled: true });
                complete.push(raw(string_of(" ]")));
            },
            TitleStyle::Custom(span) => {
                complete.push(Span { content: span.content.clone(), styled: span.styled });
                complete.push(raw(string_of(" ]")));
            },
        }
        proof {
            let a = complete@.map_values(|s: Span| span_view(s));
            let b = title_of(contents@, i + 1);
            let p = part_spans(i as int, contents@[i as int]);
            assert(b == title_of(contents@, i as int) + p);
            assert(a.len() == b.len());
            assert forall|k: int| 0 <= k < a.len() implies a[k] == b[k] by {
                if k < before.len() {
                    assert(a[k] == before.map_values(|s: Span| span_view(s))[k]);
                }
            }
            assert(a =~= b);
        }
        i = i + 1;
    }
    complete
}

/// A window that shows the state of the client.
#[derive(Clone, Debug)]
pub struct DebugWidget {
    config: CompleteConfig,
    focused: bool,
}

impl DebugWidget {
    pub closed spec fn spec_focused(&self) -> bool {
        self.focused
    }

    pub fn new(config: CompleteConfig) -> (r: DebugWidget)
        ensures
            !r.spec_focused(),
            r.spec_channel() == config.twitch.channel@,
    {
        DebugWidget { config, focused: false }
    }

    pub fn is_focused(&self) -> (r: bool)
        ensures
            r == self.spec_focused(),
    {
        self.focused
    }

    pub fn toggle_focus(&mut self)
        ensures
            final(self).spec_focused() == !old(self).spec_focused(),
            final(self).spec_channel() == old(self).spec_channel(),
    {
        self.focused = !self.focused;
    }

    pub closed spec fn spec_channel(&self) -> Seq<char> {
        self.config.twitch.channel@
    }

    /// The channel the window reports.
    pub fn channel(&self) -> (r: &str)
        ensures
            r@ == self.spec_channel(),
    {
        self.config.twitch.channel.as_str()
    }
}

/// A channel the user follows.
#[derive(Clone, Debug)]
pub struct FollowingUser {
    pub broadcaster_id: String,
    pub broadcaster_login: String,
    pub broadcaster_name: String,
    pub followed_at: String,
}

/// One page of followed channels.
#[derive(Clone, Debug)]
pub struct FollowingList {
    pub total: u64,
    pub data: Vec<FollowingUser>,
    pub cursor: Option<String>,
}

impl FollowingList {
    pub fn empty() -> (r: FollowingList)
        ensures
            r.total == 0,
            r.data@.len() == 0,
            r.cursor is None,
    {
        FollowingList { total: 0, data: Vec::new(), cursor: None }
    }

    /// The login of each followed channel, in order.
    pub fn logins(&self) -> (r: Vec<String>)
        ensures
            r@.map_values(|s: String| s@) == self.data@.map_values(
                |u: FollowingUser| u.broadcaster_login@,
            ),
    {
        let mut r: Vec<String> = Vec::new();
        let mut i: usize = 0;
        while i < self.data.len()
            invariant
                i <= self.data@.len(),
                r@.map_values(|s: String| s@) == self.data@.take(i as int).map_values(
                    |u: FollowingUser| u.broadcaster_login@,
                ),
            decreases self.data@.len() - i,
        {
            let ghost before = r@;
            let login = self.data[i].broadcaster_login.clone();
            r.push(login);
            proof {
                assert(r@ == before.push(login));
                assert(before.map_values(|s: String| s@).len() == i);
                let a = r@.map_values(|s: String| s@);
                let b = self.data@.take(i + 1).map_values(|u: FollowingUser| u.broadcaster_login@);
                let c = self.data@.take(i as int).map_values(|u: FollowingUser| u.broadcaster_login@);
                assert(a.len() == b.len());
                assert forall|k: int| 0 <= k < a.len() implies a[k] == b[k] by {
                    if k < i {
                        assert(a[k] == before.map_values(|s: String| s@)[k]);
                        assert(b[k] == c[k]);
                    }
                }
                assert(a =~= b);
            }
            i = i + 1;
        }
        assert(self.data@.take(i as int) =~= self.data@);
        r
    }
}

/// The channels the configured user follows, fetched on demand.
#[derive(Clone, Debug)]
pub struct Following {
    twitch_config: TwitchConfig,
    list: FollowingList,
}

impl Following {
    pub closed spec fn spec_list(&self) -> FollowingList {
        self.list
    }

    pub closed spec fn spec_twitch_config(&self) -> TwitchConfig {
        self.twitch_config
    }

    pub fn new(twitch_config: TwitchConfig) -> (r: Following)
        ensures
            r.spec_list().data@.len() == 0,
            r.spec_list().total == 0,
            r.spec_twitch_config() == twitch_config,
    {
        Following { twitch_config, list: FollowingList::empty() }
    }

    pub fn twitch_config(&self) -> (r: &TwitchConfig)
        ensures
            *r == self.spec_twitch_config(),
    {
        &self.twitch_config
    }
}

} // verus!

//! Text laid out for the terminal: aligned columns, completions, and where
//! the cursor stands.

use unicode_segmentation::UnicodeSegmentation;
use unicode_width::UnicodeWidthStr;
use vstd::prelude::*;
use crate::config::Alignment;
use crate::text::{push_char, push_str, starts_with};

verus! {

/// How many columns textwrap's `display_width` gives a text.
pub uninterp spec fn display_width_of(s: Seq<char>) -> usize;

/// Relies on textwrap's `core::display_width`: the columns a text takes,
/// which depend on its characters alone.
#[verifier::external_body]
fn text_display_width(s: &str) -> (r: usize)
    ensures
        r == display_width_of(s@),
{
    textwrap::core::display_width(s)
}

/// The extended grapheme clusters of a text, each with its byte offset.
pub uninterp spec fn graphemes_of(s: Seq<char>) -> Seq<(usize, Seq<char>)>;

/// Relies on unicode-segmentation's `grapheme_indices(true)`: the extended
/// grapheme clusters in order, each with its byte offset, which depend on
/// the text alone.
#[verifier::external_body]
fn grapheme_indices(s: &str) -> (r: Vec<(usize, String)>)
    ensures
        r@.map_values(|g: (usize, String)| (g.0, g.1@)) == graphemes_of(s@),
{
    s.grapheme_indices(true).map(|(i, g)| (i, g.to_string())).collect()
}

/// How many columns unicode-width gives a text.
pub uninterp spec fn width_of(s: Seq<char>) -> usize;

/// Relies on unicode-width's `UnicodeWidthStr::width`: the columns a text
/// takes, which depend on its characters alone.
#[verifier::external_body]
fn str_width(s: &str) -> (r: usize)
    ensures
        r == width_of(s@),
{
    s.width()
}

/// What textwrap's `fill` makes of a text for a width: its lines joined by
/// newlines.
pub uninterp spec fn fill_of(s: Seq<char>, width: usize) -> Seq<char>;

/// Relies on textwrap's `fill`: the text wrapped to the width, lines joined
/// by newlines, which depends on the text and the width alone.
#[verifier::external_body]
fn fill(s: &str, width: usize) -> (r: String)
    ensures
        r@ == fill_of(s@, width),
{
    textwrap::fill(s, width)
}

/// How many lines a text has: one more than its newlines.
pub open spec fn line_count(s: Seq<char>) -> nat
    decreases s.len(),
{
    if s.len() == 0 {
        1
    } else {
        line_count(s.drop_last()) + if s.last() == '\n' {
            1nat
        } else {
            0nat
        }
    }
}

/// A message wrapped to `limit` columns, and how many rows it takes.
pub fn wrap_message(message: &str, limit: usize) -> (r: (usize, String))
    ensures
        r.1@ == fill_of(message@, limit),
        r.0 == capped(line_count(r.1@)),
{
    let text = fill(message, limit);
    let n = text.unicode_len();
    let mut lines: usize = 1;
    let mut i: usize = 0;
    while i < n
        invariant
            n == text@.len(),
            i <= n,
            lines == capped(line_count(text@.take(i as int))),
        decreases n - i,
    {
        assert(text@.take(i + 1).drop_last() =~= text@.take(i as int));
        if text.get_char(i) == '\n' {
            lines = lines.saturating_add(1);
        }
        i = i + 1;
    }
    assert(text@.take(n as int) =~= text@);
    (lines, text)
}

pub open spec fn spaces(n: nat) -> Seq<char> {
    Seq::new(n, |i: int| ' ')
}

fn push_spaces(s: &mut String, n: usize)
    ensures
        final(s)@ == old(s)@ + spaces(n as nat),
{
    let mut i: usize = 0;
    while i < n
        invariant
            i <= n,
            s@ == old(s)@ + spaces(i as nat),
        decreases n - i,
    {
        push_char(s, ' ');
        assert(old(s)@ + spaces((i + 1) as nat) =~= old(s)@ + spaces(i as nat) + seq![' ']);
        i = i + 1;
    }
}

/// `text` padded with spaces to `maximum_length` columns on the side
/// `alignment` names (on both sides, equally, for the center). The text is
/// never cut; a text wider than the column is padded as one exactly as wide.
pub open spec fn aligned(text: Seq<char>, alignment: Alignment, maximum_length: u16) -> Seq<char> {
    let dw = if display_width_of(text) > maximum_length as usize {
        maximum_length as nat
    } else {
        display_width_of(text) as nat
    };
    match alignment {
        Alignment::Right => spaces((maximum_length as nat - dw) as nat) + text,
        Alignment::Center => spaces((maximum_length as nat / 2 - dw / 2) as nat) + text + spaces(
            (maximum_length as nat / 2 - dw / 2) as nat,
        ),
        Alignment::Left => text,
    }
}

pub fn align_text(text: &str, alignment: Alignment, maximum_length: u16) -> (r: String)
    requires
        maximum_length >= 1,
    ensures
        r@ == aligned(text@, alignment, maximum_length),
{
    let mut dw = text_display_width(text);
    if dw > maximum_length as usize {
        dw = maximum_length as usize;
    }
    let mut s = String::new();
    match alignment {
        Alignment::Right => {
            push_spaces(&mut s, maximum_length as usize - dw);
            push_str(&mut s, text);
        },
        Alignment::Center => {
            let side = (maximum_length as usize) / 2 - dw / 2;
            push_spaces(&mut s, side);
            push_str(&mut s, text);
            push_spaces(&mut s, side);
        },
        Alignment::Left => {
            push_str(&mut s, text);
        },
    }
    assert(s@ =~= aligned(text@, alignment, maximum_length));
    s
}

/// The index of the first possibility that begins with `search`.
pub open spec fn first_prefixed(ps: Seq<String>, search: Seq<char>) -> Option<int>
    decreases ps.len(),
{
    if ps.len() == 0 {
        None
    } else if search.len() <= ps[0]@.len() && ps[0]@.subrange(0, search.len() as int) == search {
        Some(0)
    } else {
        match first_prefixed(ps.drop_first(), search) {
            Some(i) => Some(i + 1),
            None => None,
        }
    }
}

proof fn lemma_first_prefixed_bounds(ps: Seq<String>, search: Seq<char>)
    ensures
        first_prefixed(ps, search) matches Some(i) ==> 0 <= i < ps.len(),
    decreases ps.len(),
{
    if ps.len() > 0 {
        lemma_first_prefixed_bounds(ps.drop_first(), search);
    }
}

/// Within the possibilities, the first that begins with `search`, if it is
/// longer than `search` (a completion must add something).
pub fn first_similarity(possibilities: &[String], search: &str) -> (r: Option<String>)
    ensures
        match first_prefixed(possibilities@, search@) {
            Some(i) => if possibilities@[i]@.len() > search@.len() {
                r matches Some(s) && s@ == possibilities@[i]@
            } else {
                r is None
            },
            None => r is None,
        },
{
    let n = possibilities.len();
    let mut i: usize = 0;
    assert(possibilities@.skip(0) =~= possibilities@);
    while i < n
        invariant
            n == possibilities@.len(),
            i <= n,
            first_prefixed(possibilities@, search@) == match first_prefixed(
                possibilities@.skip(i as int),
                search@,
            ) {
                Some(k) => Some(k + i),
                None => None,
            },
        decreases n - i,
    {
        let p = &possibilities[i];
        assert(possibilities@.skip(i as int).drop_first() =~= possibilities@.skip(i + 1));
        assert(possibilities@.skip(i as int)[0] == possibilities@[i as int]);
        if starts_with(p.as_str(), search) {
            if p.unicode_len() > search.unicode_len() {
                return Some(p.clone());
            } else {
                return None;
            }
        }
        i = i + 1;
    }
    None
}

/// The graphemes before the first one at byte offset `pos`.
pub open spec fn before_offset(gs: Seq<(usize, Seq<char>)>, pos: usize) -> Seq<(usize, Seq<char>)>
    decreases gs.len(),
{
    if gs.len() == 0 || gs[0].0 == pos {
        Seq::empty()
    } else {
        seq![gs[0]] + before_offset(gs.drop_first(), pos)
    }
}

pub open spec fn widths(gs: Seq<(usize, Seq<char>)>) -> nat
    decreases gs.len(),
{
    if gs.len() == 0 {
        0
    } else {
        widths(gs.drop_last()) + width_of(gs.last().1) as nat
    }
}

pub open spec fn capped(n: nat) -> usize {
    if n > usize::MAX {
        usize::MAX
    } else {
        n as usize
    }
}

/// The column of the cursor in `text` when it stands at byte offset `pos`:
/// the width of the graphemes before it.
pub fn get_cursor_position(text: &str, pos: usize) -> (r: usize)
    ensures
        r == capped(widths(before_offset(graphemes_of(text@), pos))),
{
    let gs = grapheme_indices(text);
    let ghost g = graphemes_of(text@);
    let n = gs.len();
    let mut acc: usize = 0;
    let mut i: usize = 0;
    assert(g.skip(0) =~= g);
    assert(g.take(0) =~= Seq::<(usize, Seq<char>)>::empty());
    while i < n
        invariant
            n == gs@.len() == g.len(),
            g == graphemes_of(text@),
            g == gs@.map_values(|x: (usize, String)| (x.0, x.1@)),
            i <= n,
            before_offset(g, pos) == g.take(i as int) + before_offset(g.skip(i as int), pos),
            acc == capped(widths(g.take(i as int))),
        decreases n - i,
    {
        let (off, ref cluster) = gs[i];
        assert(g[i as int] == (off, cluster@));
        assert(g.skip(i as int)[0] == g[i as int]);
        if off == pos {
            assert(before_offset(g.skip(i as int), pos) =~= Seq::empty());
            assert(before_offset(g, pos) =~= g.take(i as int));
            return acc;
        }
        let w = str_width(cluster.as_str());
        acc = acc.saturating_add(w);
        proof {
            assert(g.skip(i as int).drop_first() =~= g.skip(i + 1));
            assert(g.take(i + 1).drop_last() =~= g.take(i as int));
            assert(g.take(i + 1) =~= g.take(i as int) + seq![g[i as int]]);
            assert(g.take(i as int) + (seq![g[i as int]] + before_offset(g.skip(i + 1), pos))
                =~= g.take(i + 1) + before_offset(g.skip(i + 1), pos));
        }
        i = i + 1;
    }
    assert(g.skip(n as int) =~= Seq::<(usize, Seq<char>)>::empty());
    assert(before_offset(g, pos) =~= g.take(n as int));
    assert(g.take(n as int) =~= g);
    acc
}

} // verus!

//! Rectangles of the terminal and the popups centered in them.

use tui::layout::Constraint as TC;
use tui::layout::Direction::{Horizontal, Vertical};
use tui::layout::Layout;
use tui::layout::Rect as TRect;
use vstd::prelude::*;

verus! {

/// A rectangle of cells.
#[derive(Clone, Copy, Debug, PartialEq, Eq, Structural)]
pub struct Rect {
    pub x: u16,
    pub y: u16,
    pub width: u16,
    pub height: u16,
}

/// A constraint on one part of a split.
#[derive(Clone, Copy, Debug, PartialEq, Eq, Structural)]
pub enum Constraint {
    Percentage(u16),
    Ratio(u32, u32),
    Length(u16),
    Max(u16),
    Min(u16),
}

/// The constraints that tui's solver takes without overflow: a percentage
/// times the split extent fits in a `u16`, and no ratio divides by zero.
pub open spec fn solvable(vertical: bool, constraints: Seq<Constraint>, area: Rect) -> bool {
    forall|i: int|
        0 <= i < constraints.len() ==> match #[trigger] constraints[i] {
            Constraint::Percentage(p) => p * (if vertical {
                area.height
            } else {
                area.width
            }) <= u16::MAX,
            Constraint::Ratio(_, d) => d != 0,
            _ => true,
        }
}

/// Relies on tui's `Layout::split`: one rectangle per constraint. Where the
/// constraints cannot all be met, which rectangles come out depends on the
/// order in which the solver walks its hash maps, so nothing more is stated.
#[verifier::external_body]
fn split_layout(vertical: bool, constraints: &Vec<Constraint>, area: Rect) -> (r: Vec<Rect>)
    requires
        solvable(vertical, constraints@, area),
    ensures
        r@.len() == constraints@.len(),
{
    let cs: Vec<TC> = constraints.iter().map(|c| match *c {
        Constraint::Percentage(p) => TC::Percentage(p),
        Constraint::Ratio(n, m) => TC::Ratio(n, m),
        Constraint::Length(l) => TC::Length(l),
        Constraint::Max(m) => TC::Max(m),
        Constraint::Min(m) => TC::Min(m),
    }).collect();
    let Rect { x, y, width, height } = area;
    let layout = Layout::default().direction(if vertical { Vertical } else { Horizontal });
    let parts = layout.constraints(cs).split(TRect { x, y, width, height });
    parts.iter().map(|&TRect { x, y, width, height }| Rect { x, y, width, height }).collect()
}

/// The constraints of the last layout, and the chunks it gave.
#[derive(Clone, Debug)]
pub struct LayoutAttributes {
    pub constraints: Vec<Constraint>,
    pub chunks: Vec<Rect>,
}

impl LayoutAttributes {
    pub fn new(constraints: Vec<Constraint>, chunks: Vec<Rect>) -> (r: LayoutAttributes)
        ensures
            r.constraints@ == constraints@,
            r.chunks@ == chunks@,
    {
        LayoutAttributes { constraints, chunks }
    }
}

/// How a popup is placed.
#[derive(Clone, Copy, Debug, PartialEq, Eq, Structural)]
pub enum Centering {
    /// An input box; the number is how far down the box stands.
    Input(Option<u16>),
    /// A window for showing items; the number is how many rows of items.
    Window(u16),
}

pub open spec fn v_percentage() -> u16 {
    20
}

pub open spec fn h_percentage() -> u16 {
    12
}

/// The constraints of a popup's rows, top to bottom: the space above, the
/// popup, the space below.
pub open spec fn rows_of(c: Centering) -> Seq<Constraint> {
    let v = Constraint::Percentage(v_percentage());
    match c {
        Centering::Input(Some(i)) => seq![Constraint::Length((i - 3) as u16), Constraint::Length(3), v],
        Centering::Input(None) => seq![v, Constraint::Length(3), v],
        Centering::Window(i) => seq![v, Constraint::Length((i + 4) as u16), v],
    }
}

/// The constraints of a popup's columns: a margin, the middle three
/// quarters, a margin.
pub open spec fn columns_of() -> Seq<Constraint> {
    seq![
        Constraint::Percentage(h_percentage()),
        Constraint::Percentage(75),
        Constraint::Percentage(h_percentage()),
    ]
}

pub fn popup_rows(c: Centering) -> (r: Vec<Constraint>)
    requires
        c matches Centering::Input(Some(i)) ==> i >= 3,
        c matches Centering::Window(i) ==> i <= u16::MAX - 4,
    ensures
        r@ == rows_of(c),
{
    let v = Constraint::Percentage(20);
    let r = match c {
        Centering::Input(Some(i)) => vec![Constraint::Length(i - 3), Constraint::Length(3), v],
        Centering::Input(None) => vec![v, Constraint::Length(3), v],
        Centering::Window(i) => vec![v, Constraint::Length(i + 4), v],
    };
    assert(r@ =~= rows_of(c));
    r
}

pub fn popup_columns() -> (r: Vec<Constraint>)
    ensures
        r@ == columns_of(),
{
    let h = Constraint::Percentage(12);
    let r = vec![h, Constraint::Percentage(75), h];
    assert(r@ =~= columns_of());
    r
}

/// The middle one of the rows that a split gave, no wider than `size`
/// (a vertical split keeps its area's width; the bound makes that plain).
pub fn middle_row(rows: &Vec<Rect>, size: Rect) -> (r: Rect)
    requires
        rows@.len() == 3,
    ensures
        r == (Rect {
            width: if rows@[1].width > size.width {
                size.width
            } else {
                rows@[1].width
            },
            ..rows@[1]
        }),
        r.width <= size.width,
{
    let m = rows[1];
    Rect { width: if m.width > size.width { size.width } else { m.width }, ..m }
}

/// Whether `r` lies inside `area`.
pub open spec fn inside(r: Rect, area: Rect) -> bool {
    &&& r.x >= area.x
    &&& r.y >= area.y
    &&& r.x + r.width <= area.x + area.width
    &&& r.y + r.height <= area.y + area.height
}

fn clamp_span(start: u16, len: u16, lo: u16, extent: u16) -> (r: (u16, u16))
    ensures
        r.0 >= lo,
        r.0 + r.1 <= lo + extent,
        start >= lo && start + len <= lo + extent ==> r == (start, len),
{
    let hi: u32 = lo as u32 + extent as u32;
    let s: u32 = if (start as u32) < (lo as u32) {
        lo as u32
    } else if (start as u32) > hi {
        hi
    } else {
        start as u32
    };
    let l: u32 = if s + len as u32 > hi {
        hi - s
    } else {
        len as u32
    };
    (s as u16, l as u16)
}

/// `r` cut down to what of it lies inside `area`; a rectangle already inside
/// is kept as it is.
pub fn clamp_into(r: Rect, area: Rect) -> (c: Rect)
    ensures
        inside(c, area),
        inside(r, area) ==> c == r,
{
    let (x, width) = clamp_span(r.x, r.width, area.x, area.width);
    let (y, height) = clamp_span(r.y, r.height, area.y, area.height);
    Rect { x, y, width, height }
}

/// A popup centered in `size`: the middle three quarters of the middle row
/// of a split whose middle row is the popup's height. The sizes are those
/// of a terminal, well below what makes the layout's percentages overflow.
pub fn centered_popup(c: Centering, size: Rect) -> (r: Rect)
    requires
        size.width <= 873,
        size.height <= 3276,
        c matches Centering::Input(Some(i)) ==> i >= 3,
        c matches Centering::Window(i) ==> i <= u16::MAX - 4,
    ensures
        inside(r, size),
{
    let cs = popup_rows(c);
    assert(solvable(true, cs@, size)) by {
        assert forall|i: int| 0 <= i < cs@.len() implies match #[trigger] cs@[i] {
            Constraint::Percentage(p) => p * size.height <= u16::MAX,
            Constraint::Ratio(_, d) => d != 0,
            _ => true,
        } by {
            match cs@[i] {
                Constraint::Percentage(p) => {
                    assert(p == 20);
                    assert(p * size.height <= u16::MAX) by (nonlinear_arith)
                        requires
                            p == 20,
                            size.height <= 3276,
                    ;
                },
                _ => {},
            }
        }
    }
    let rows = split_layout(true, &cs, size);
    let rows_in = middle_row(&rows, size);
    let hs = popup_columns();
    assert(solvable(false, hs@, rows_in)) by {
        assert forall|i: int| 0 <= i < hs@.len() implies match #[trigger] hs@[i] {
            Constraint::Percentage(p) => p * rows_in.width <= u16::MAX,
            Constraint::Ratio(_, d) => d != 0,
            _ => true,
        } by {
            match hs@[i] {
                Constraint::Percentage(p) => {
                    assert(p <= 75);
                    assert(p * rows_in.width <= u16::MAX) by (nonlinear_arith)
                        requires
                            p <= 75,
                            rows_in.width <= 873,
                    ;
                },
                _ => {},
            }
        }
    }
    let parts = split_layout(false, &hs, rows_in);
    // The solver's values are cut to whole cells one by one, which may
    // reach past the area.
    clamp_into(parts[1], size)
}

} // verus!

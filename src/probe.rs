//! Asking the terminal what it supports: the decisions around the round
//! trips, which the caller performs.

use vstd::prelude::*;
use crate::text::{after_char, before_char, lemma_before_char, push_char, str_eq};

verus! {

/// Whether `pat` occurs in `s`.
pub open spec fn occurs(s: Seq<char>, pat: Seq<char>) -> bool {
    exists|i: int| 0 <= i && i + pat.len() <= s.len() && #[trigger] s.subrange(i, i + pat.len()) == pat
}

fn occurs_at(s: &str, pat: &str, i: usize) -> (r: bool)
    requires
        i + pat@.len() <= s@.len() <= usize::MAX,
    ensures
        r == (s@.subrange(i as int, i + pat@.len()) == pat@),
{
    let n = pat.unicode_len();
    let mut k: usize = 0;
    while k < n
        invariant
            n == pat@.len(),
            i + n <= s@.len() <= usize::MAX,
            k <= n,
            s@.subrange(i as int, i + k) == pat@.subrange(0, k as int),
        decreases n - k,
    {
        if s.get_char(i + k) != pat.get_char(k) {
            assert(s@.subrange(i as int, i + n)[k as int] != pat@[k as int]);
            return false;
        }
        assert(s@.subrange(i as int, i + k + 1) =~= s@.subrange(i as int, i + k).push(
            s@[i + k],
        ));
        assert(pat@.subrange(0, k + 1) =~= pat@.subrange(0, k as int).push(pat@[k as int]));
        k = k + 1;
    }
    assert(pat@ =~= pat@.subrange(0, n as int));
    true
}

/// Whether `pat` occurs in `s`.
pub fn contains(s: &str, pat: &str) -> (r: bool)
    ensures
        r == occurs(s@, pat@),
{
    let n = s.unicode_len();
    let m = pat.unicode_len();
    if m > n {
        return false;
    }
    let mut i: usize = 0;
    loop
        invariant
            n == s@.len(),
            m == pat@.len(),
            m <= n,
            i <= n - m,
            forall|j: int| 0 <= j < i ==> #[trigger] s@.subrange(j, j + m) != pat@,
        decreases n - m - i,
    {
        if occurs_at(s, pat, i) {
            return true;
        }
        if i == n - m {
            return false;
        }
        i = i + 1;
    }
}

/// Whether the terminal is one known to read images from files.
pub open spec fn known_terminal_spec(term: Option<Seq<char>>, program: Option<Seq<char>>) -> bool {
    match term {
        Some(t) => t == "xterm-kitty"@ || (program matches Some(p) && p == "WezTerm"@),
        None => false,
    }
}

pub open spec fn opt_chars(o: Option<&str>) -> Option<Seq<char>> {
    match o {
        Some(s) => Some(s@),
        None => None,
    }
}

/// Whether the terminal, named by `TERM` and `TERM_PROGRAM` where they are
/// set, is kitty or WezTerm.
pub fn known_terminal(term: Option<&str>, program: Option<&str>) -> (r: bool)
    ensures
        r == known_terminal_spec(opt_chars(term), opt_chars(program)),
{
    match term {
        Some(t) => {
            if str_eq(t, "xterm-kitty") {
                true
            } else {
                match program {
                    Some(p) => str_eq(p, "WezTerm"),
                    None => false,
                }
            }
        },
        None => false,
    }
}

/// Whether the graphics protocol may be used: the terminal is a known one,
/// and its reply to the query directive (read up to the reply to the
/// attribute request that follows it) holds the protocol's `OK`. Anything
/// else, a missing reply included, leaves the feature off.
pub fn support_graphics_protocol(term: Option<&str>, program: Option<&str>, reply: Option<&str>) -> (r:
    bool)
    ensures
        r == (known_terminal_spec(opt_chars(term), opt_chars(program)) && (reply matches Some(x)
            && occurs(x@, "OK"@))),
{
    if !known_terminal(term, program) {
        return false;
    }
    match reply {
        Some(x) => contains(x, "OK"),
        None => false,
    }
}

/// A key read from the terminal while waiting for its reply.
#[derive(Clone, Copy, Debug, PartialEq, Eq, Structural)]
pub enum Key {
    Char(char),
    /// An escape sequence the reader did not know: the start of the reply.
    UnknownEscSeq,
    Other,
    /// Reading failed.
    Error,
}

/// Where reading a reply stands.
#[derive(Clone, Debug)]
pub enum ReadStep {
    Pending,
    Done(String),
    Failed,
}

/// Reads the terminal's reply to a request ending in `terminator`: keys are
/// skipped up to the start of the reply, then characters are kept up to the
/// terminator (or a failed read).
pub struct ResponseReader {
    terminator: char,
    started: bool,
    finished: bool,
    response: String,
}

impl ResponseReader {
    pub closed spec fn spec_terminator(&self) -> char {
        self.terminator
    }

    pub closed spec fn spec_started(&self) -> bool {
        self.started
    }

    pub closed spec fn spec_finished(&self) -> bool {
        self.finished
    }

    pub closed spec fn spec_response(&self) -> Seq<char> {
        self.response@
    }

    /// A reader for the reply to `request`, whose last character ends the
    /// reply; `None` for an empty request.
    pub fn new(request: &str) -> (r: Option<ResponseReader>)
        ensures
            request@.len() == 0 <==> r is None,
            r matches Some(x) ==> x.spec_terminator() == request@.last() && !x.spec_started()
                && !x.spec_finished() && x.spec_response().len() == 0,
    {
        let n = request.unicode_len();
        if n == 0 {
            return None;
        }
        let terminator = request.get_char(n - 1);
        Some(ResponseReader { terminator, started: false, finished: false, response: String::new() })
    }

    /// Takes one key.
    pub fn feed(&mut self, key: Key) -> (r: ReadStep)
        requires
            !old(self).spec_finished(),
        ensures
            final(self).spec_terminator() == old(self).spec_terminator(),
            !old(self).spec_started() ==> match key {
                Key::UnknownEscSeq => r is Pending && final(self).spec_started()
                    && !final(self).spec_finished() && final(self).spec_response() == old(
                    self,
                ).spec_response(),
                Key::Error => r is Failed && final(self).spec_finished(),
                _ => r is Pending && !final(self).spec_started() && !final(self).spec_finished()
                    && final(self).spec_response() == old(self).spec_response(),
            },
            old(self).spec_started() ==> match key {
                Key::Char(c) => if c == old(self).spec_terminator() {
                    (r matches ReadStep::Done(s) && s@ == old(self).spec_response())
                        && final(self).spec_finished()
                } else {
                    r is Pending && final(self).spec_started() && !final(self).spec_finished()
                        && final(self).spec_response() == old(self).spec_response().push(c)
                },
                Key::Error => (r matches ReadStep::Done(s) && s@ == old(self).spec_response())
                    && final(self).spec_finished(),
                _ => r is Pending && final(self).spec_started() && !final(self).spec_finished()
                    && final(self).spec_response() == old(self).spec_response(),
            },
    {
        if !self.started {
            match key {
                Key::UnknownEscSeq => {
                    self.started = true;
                    ReadStep::Pending
                },
                Key::Error => {
                    self.finished = true;
                    ReadStep::Failed
                },
                _ => ReadStep::Pending,
            }
        } else {
            match key {
                Key::Char(c) => {
                    if c == self.terminator {
                        self.finished = true;
                        ReadStep::Done(self.response.clone())
                    } else {
                        push_char(&mut self.response, c);
                        ReadStep::Pending
                    }
                },
                Key::Error => {
                    self.finished = true;
                    ReadStep::Done(self.response.clone())
                },
                _ => ReadStep::Pending,
            }
        }
    }
}

pub open spec fn is_digit(c: char) -> bool {
    '0' <= c && c <= '9'
}

pub open spec fn digits_value(s: Seq<char>) -> nat
    decreases s.len(),
{
    if s.len() == 0 {
        0
    } else {
        digits_value(s.drop_last()) * 10 + (s.last() as nat - '0' as nat) as nat
    }
}

/// The text without a leading `+`.
pub open spec fn unsigned_part(s: Seq<char>) -> Seq<char> {
    if s.len() > 0 && s[0] == '+' {
        s.drop_first()
    } else {
        s
    }
}

pub open spec fn all_digits(d: Seq<char>) -> bool {
    forall|i: int| 0 <= i < d.len() ==> is_digit(#[trigger] d[i])
}

/// What parsing a `u16` reads from a text: an optional `+`, then one or more
/// digits, of a value below 65536.
pub open spec fn u16_of(s: Seq<char>) -> Option<u16> {
    let d = unsigned_part(s);
    if d.len() > 0 && all_digits(d) && digits_value(d) < 65536 {
        Some(digits_value(d) as u16)
    } else {
        None
    }
}

pub proof fn lemma_digits_value_grows(s: Seq<char>, k: int)
    requires
        0 <= k <= s.len(),
        forall|i: int| 0 <= i < s.len() ==> is_digit(#[trigger] s[i]),
    ensures
        digits_value(s.take(k)) <= digits_value(s),
    decreases s.len() - k,
{
    if k < s.len() {
        lemma_digits_value_grows(s, k + 1);
        assert(s.take(k + 1).drop_last() =~= s.take(k));
    } else {
        assert(s.take(k) =~= s);
    }
}

/// Reads a `u16` from `s[from..to]`.
fn parse_u16(s: &str, from: usize, to: usize) -> (r: Option<u16>)
    requires
        from <= to <= s@.len(),
    ensures
        r == u16_of(s@.subrange(from as int, to as int)),
{
    let ghost t = s@.subrange(from as int, to as int);
    let mut start = from;
    if from < to && s.get_char(from) == '+' {
        start = from + 1;
    }
    let ghost d = s@.subrange(start as int, to as int);
    proof {
        if from < to && s@[from as int] == '+' {
            assert(d =~= t.drop_first());
        } else {
            assert(d =~= t);
        }
    }
    if start == to {
        return None;
    }
    let mut v: u32 = 0;
    let mut i: usize = start;
    while i < to
        invariant
            from <= start <= i <= to <= s@.len(),
            start < to,
            t == s@.subrange(from as int, to as int),
            d == s@.subrange(start as int, to as int),
            d == unsigned_part(t),
            forall|j: int| 0 <= j < i - start ==> is_digit(#[trigger] d[j]),
            v as nat == digits_value(d.take(i - start)),
            v < 65536,
        decreases to - i,
    {
        let c = s.get_char(i);
        if c < '0' || c > '9' {
            assert(!is_digit(d[i - start]));
            assert(!all_digits(d));
            return None;
        }
        assert(d.take(i - start + 1).drop_last() =~= d.take(i - start));
        assert(c == d[i - start]);
        assert(d.take(i - start + 1).last() == c);
        let dig = (c as u32) - ('0' as u32);
        v = v * 10 + dig;
        assert(v as nat == digits_value(d.take(i - start + 1)));
        i = i + 1;
        if v >= 65536 {
            proof {
                assert forall|j: int| 0 <= j < i - start implies is_digit(#[trigger] d[j]) by {}
                if all_digits(d) {
                    lemma_digits_value_grows(d, i - start);
                }
            }
            return None;
        }
    }
    assert(d.take(to - start) =~= d);
    Some(v as u16)
}

/// The position of the first `c` in `s` from `from` on, if any.
fn find_char(s: &str, c: char, from: usize) -> (r: Option<usize>)
    requires
        from <= s@.len(),
    ensures
        match r {
            Some(i) => from <= i < s@.len() && s@[i as int] == c && forall|j: int|
                from <= j < i ==> s@[j] != c,
            None => forall|j: int| from <= j < s@.len() ==> s@[j] != c,
        },
{
    let n = s.unicode_len();
    let mut i = from;
    while i < n
        invariant
            n == s@.len(),
            from <= i <= n,
            forall|j: int| from <= j < i ==> s@[j] != c,
        decreases n - i,
    {
        if s.get_char(i) == c {
            return Some(i);
        }
        i = i + 1;
    }
    None
}

/// The cell size that a reply `<height>;<width>` to a request for the
/// terminal's size in pixels gives, for a terminal of `columns` by `rows`
/// cells.
pub open spec fn cell_size_of(s: Seq<char>, columns: u16, rows: u16) -> Option<(u16, u16)> {
    if columns == 0 || rows == 0 {
        None
    } else {
        match after_char(s, ';') {
            None => None,
            Some(rest) => match (u16_of(before_char(s, ';')), u16_of(before_char(rest, ';'))) {
                (Some(h), Some(w)) => Some(((w / columns) as u16, (h / rows) as u16)),
                _ => None,
            },
        }
    }
}

/// The size of one cell in pixels, `(width, height)`, from the terminal's
/// reply `<height>;<width>` to a request for its size in pixels, and its
/// size in cells. `None` where the reply does not hold two numbers or the
/// size in cells is zero.
pub fn get_terminal_cell_size(reply: &str, columns: u16, rows: u16) -> (r: Option<(u16, u16)>)
    ensures
        r == cell_size_of(reply@, columns, rows),
{
    if columns == 0 || rows == 0 {
        return None;
    }
    let n = reply.unicode_len();
    let i = match find_char(reply, ';', 0) {
        Some(i) => i,
        None => {
            proof {
                lemma_before_char(reply@, ';', reply@.len() as int);
            }
            return None;
        },
    };
    proof {
        lemma_before_char(reply@, ';', i as int);
    }
    let ghost rest = reply@.skip(i + 1);
    let k = match find_char(reply, ';', i + 1) {
        Some(k) => k,
        None => n,
    };
    proof {
        assert forall|j: int| 0 <= j < k - i - 1 implies rest[j] != ';' by {
            assert(rest[j] == reply@[i + 1 + j]);
        }
        if k < n {
            assert(rest[k - i - 1] == reply@[k as int]);
        }
        lemma_before_char(rest, ';', k - i - 1);
        assert(rest.take(k - i - 1) =~= reply@.subrange(i + 1, k as int));
        assert(reply@.take(i as int) =~= reply@.subrange(0, i as int));
    }
    let h = parse_u16(reply, 0, i);
    let w = parse_u16(reply, i + 1, k);
    match (h, w) {
        (Some(h), Some(w)) => Some((w / columns, h / rows)),
        _ => None,
    }
}

} // verus!

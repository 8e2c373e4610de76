//! Directives of the terminal graphics protocol: an escape sequence
//! `ESC _ G <control> ; <payload> ESC \` whose control data is a comma
//! separated list of `key=value` fields.

use base64::engine::general_purpose::STANDARD;
use base64::Engine;
use vstd::prelude::*;
use crate::text::{dec, push_char, push_decimal, push_str};

verus! {

/// What the base64 encoding (standard alphabet, padded) of the UTF-8 bytes of
/// `s` is.
pub uninterp spec fn base64_of(s: Seq<char>) -> Seq<char>;

/// Relies on base64's `STANDARD.encode`: the padded standard base64 encoding
/// of the text's UTF-8 bytes, which depends on the text alone.
#[verifier::external_body]
fn encode_base64(s: &str) -> (r: String)
    ensures
        r@ == base64_of(s@),
{
    STANDARD.encode(s)
}

/// The value of a control field: a number, or a one-letter code.
#[derive(Clone, Copy, Debug, PartialEq, Eq, Structural)]
pub enum Value {
    Num(u64),
    Code(char),
}

/// One `key=value` field of a directive's control data.
#[derive(Clone, Copy, Debug, PartialEq, Eq, Structural)]
pub struct Field {
    pub key: char,
    pub value: Value,
}

pub open spec fn value_chars(v: Value) -> Seq<char> {
    match v {
        Value::Num(n) => dec(n as nat),
        Value::Code(c) => seq![c],
    }
}

pub open spec fn field_chars(f: Field) -> Seq<char> {
    seq![f.key, '='] + value_chars(f.value)
}

/// The fields written one after another, separated by commas.
pub open spec fn control_chars(fs: Seq<Field>) -> Seq<char>
    decreases fs.len(),
{
    if fs.len() == 0 {
        Seq::empty()
    } else if fs.len() == 1 {
        field_chars(fs[0])
    } else {
        control_chars(fs.drop_last()) + seq![','] + field_chars(fs.last())
    }
}

/// The escape sequence that carries `fs` and `payload`.
pub open spec fn escape_chars(fs: Seq<Field>, payload: Seq<char>) -> Seq<char> {
    seq!['\x1b', '_', 'G'] + control_chars(fs) + seq![';'] + payload + seq!['\x1b', '\\']
}

/// The cursor movement to column `x`, row `y` (both from zero) that precedes
/// a placement: `ESC [ <y+1> ; <x+1> H`.
pub open spec fn move_to_chars(x: u16, y: u16) -> Seq<char> {
    seq!['\x1b', '['] + dec(y as nat + 1) + seq![';'] + dec(x as nat + 1) + seq!['H']
}

pub open spec fn num(key: char, n: u64) -> Field {
    Field { key, value: Value::Num(n) }
}

pub open spec fn code(key: char, c: char) -> Field {
    Field { key, value: Value::Code(c) }
}

fn num_field(key: char, n: u64) -> (r: Field)
    ensures
        r == num(key, n),
{
    Field { key, value: Value::Num(n) }
}

fn code_field(key: char, c: char) -> (r: Field)
    ensures
        r == code(key, c),
{
    Field { key, value: Value::Code(c) }
}

fn push_field(s: &mut String, f: Field)
    ensures
        final(s)@ == old(s)@ + field_chars(f),
{
    push_char(s, f.key);
    push_char(s, '=');
    match f.value {
        Value::Num(n) => push_decimal(s, n),
        Value::Code(c) => push_char(s, c),
    }
    assert(final(s)@ =~= old(s)@ + field_chars(f));
}

/// Appends the control data made of `fs`.
pub fn push_control(s: &mut String, fs: &Vec<Field>)
    ensures
        final(s)@ == old(s)@ + control_chars(fs@),
{
    let ghost s0 = s@;
    let mut i: usize = 0;
    while i < fs.len()
        invariant
            i <= fs@.len(),
            s@ == s0 + control_chars(fs@.take(i as int)),
        decreases fs@.len() - i,
    {
        let ghost before = s@;
        if i > 0 {
            push_char(s, ',');
        }
        push_field(s, fs[i]);
        assert(fs@.take(i + 1).drop_last() =~= fs@.take(i as int));
        if i == 0 {
            assert(control_chars(fs@.take(1)) == field_chars(fs@.take(1)[0]));
            assert(s@ =~= s0 + control_chars(fs@.take(i + 1)));
        } else {
            assert(s@ =~= s0 + control_chars(fs@.take(i + 1)));
        }
        i = i + 1;
    }
    assert(fs@.take(fs@.len() as int) =~= fs@);
}

/// Appends the escape sequence that carries `fs` and `payload`.
pub fn push_escape(s: &mut String, fs: &Vec<Field>, payload: &str)
    ensures
        final(s)@ == old(s)@ + escape_chars(fs@, payload@),
{
    push_char(s, '\x1b');
    push_char(s, '_');
    push_char(s, 'G');
    push_control(s, fs);
    push_char(s, ';');
    push_str(s, payload);
    push_char(s, '\x1b');
    push_char(s, '\\');
    assert(final(s)@ =~= old(s)@ + escape_chars(fs@, payload@));
}

/// Which images a delete directive removes. `Clear(0, 0)` deletes and
/// unloads every image, `Clear(0, _)` deletes every placement, and
/// `Clear(id, pid)` the placement `pid` of image `id`.
#[derive(Clone, Copy, Debug, PartialEq, Eq, Structural)]
pub struct Clear(pub u32, pub u32);

pub open spec fn transmit_fields(id: u32, width: u32, height: u32) -> Seq<Field> {
    seq![
        code('a', 't'),
        code('t', 't'),
        num('f', 32),
        num('s', width as u64),
        num('v', height as u64),
        num('i', id as u64),
        num('q', 2),
    ]
}

pub open spec fn first_frame_fields(id: u32, delay: u32) -> Seq<Field> {
    seq![code('a', 'a'), num('i', id as u64), num('r', 1), num('z', delay as u64), num('q', 2)]
}

pub open spec fn append_fields(id: u32, width: u32, height: u32, delay: u32) -> Seq<Field> {
    seq![
        code('a', 'f'),
        code('t', 't'),
        num('f', 32),
        num('s', width as u64),
        num('v', height as u64),
        num('i', id as u64),
        num('z', delay as u64),
        num('q', 2),
    ]
}

pub open spec fn animate_fields(id: u32) -> Seq<Field> {
    seq![code('a', 'a'), num('i', id as u64), num('s', 3), num('v', 1), num('q', 2)]
}

pub open spec fn place_fields(id: u32, pid: u32, width: u16, offset: u16, layer: u16) -> Seq<
    Field,
> {
    seq![
        code('a', 'p'),
        num('i', id as u64),
        num('p', pid as u64),
        num('r', 1),
        num('c', width as u64),
        num('X', offset as u64),
        num('z', layer as u64),
        num('q', 2),
    ]
}

pub open spec fn delete_fields(c: Clear) -> Seq<Field> {
    if c.0 == 0 && c.1 == 0 {
        seq![code('a', 'd'), code('d', 'A'), num('q', 2)]
    } else if c.0 == 0 {
        seq![code('a', 'd'), code('d', 'a'), num('q', 2)]
    } else {
        seq![code('a', 'd'), code('d', 'i'), num('i', c.0 as u64), num('p', c.1 as u64), num('q', 2)]
    }
}

pub open spec fn query_fields() -> Seq<Field> {
    seq![num('i', 31), num('s', 1), num('v', 1), code('a', 'q'), code('t', 'd'), num('f', 24)]
}

/// The directives this library emits; each is rendered by `render`.
#[derive(Clone, Debug)]
pub enum Directive {
    /// Transmit an image from a file: raw 32-bit pixels of the given size.
    Transmit { id: u32, width: u32, height: u32, path: String },
    /// Set the delay of an animation's first frame.
    FirstFrame { id: u32, delay: u32 },
    /// Append one frame, read from a file, with its delay.
    AppendFrame { id: u32, width: u32, height: u32, delay: u32, path: String },
    /// Start the animation, looping forever.
    Animate { id: u32 },
    /// Show image `id` as placement `pid` at a cell, one
    /// row high and `columns` cells wide, shifted `offset` pixels right, on
    /// z-layer `layer`.
    Place { x: u16, y: u16, id: u32, pid: u32, columns: u16, offset: u16, layer: u16 },
    /// Delete images.
    Delete(Clear),
    /// Ask whether the terminal reads images from files: a one-pixel image,
    /// followed by a request for the terminal's attributes.
    Query,
}

/// The text that the probe directive carries.
pub open spec fn probe_pixel() -> Seq<char> {
    seq!['A', 'A', 'A', 'A']
}

impl Directive {
    /// The control fields, in the order written.
    pub open spec fn fields(&self) -> Seq<Field> {
        match *self {
            Directive::Transmit { id, width, height, .. } => transmit_fields(id, width, height),
            Directive::FirstFrame { id, delay } => first_frame_fields(id, delay),
            Directive::AppendFrame { id, width, height, delay, .. } => append_fields(
                id,
                width,
                height,
                delay,
            ),
            Directive::Animate { id } => animate_fields(id),
            Directive::Place { id, pid, columns, offset, layer, .. } => place_fields(
                id,
                pid,
                columns,
                offset,
                layer,
            ),
            Directive::Delete(c) => delete_fields(c),
            Directive::Query => query_fields(),
        }
    }

    /// The payload: the base64 of the file's path where one is read.
    pub open spec fn payload(&self) -> Seq<char> {
        match *self {
            Directive::Transmit { path, .. } => base64_of(path@),
            Directive::AppendFrame { path, .. } => base64_of(path@),
            Directive::Query => base64_of(probe_pixel()),
            _ => Seq::empty(),
        }
    }

    /// What is written around the escape sequence: a cursor move before a
    /// placement, a request for the terminal's attributes after the query.
    pub open spec fn before(&self) -> Seq<char> {
        match *self {
            Directive::Place { x, y, .. } => move_to_chars(x, y),
            _ => Seq::empty(),
        }
    }

    pub open spec fn after(&self) -> Seq<char> {
        match *self {
            Directive::Query => seq!['\x1b', '[', 'c'],
            _ => Seq::empty(),
        }
    }

    /// The characters written for this directive.
    pub open spec fn chars(&self) -> Seq<char> {
        self.before() + escape_chars(self.fields(), self.payload()) + self.after()
    }

    fn control(&self) -> (r: Vec<Field>)
        ensures
            r@ == self.fields(),
    {
        let r = match self {
            Directive::Transmit { id, width, height, .. } => vec![
                code_field('a', 't'),
                code_field('t', 't'),
                num_field('f', 32),
                num_field('s', *width as u64),
                num_field('v', *height as u64),
                num_field('i', *id as u64),
                num_field('q', 2),
            ],
            Directive::FirstFrame { id, delay } => vec![
                code_field('a', 'a'),
                num_field('i', *id as u64),
                num_field('r', 1),
                num_field('z', *delay as u64),
                num_field('q', 2),
            ],
            Directive::AppendFrame { id, width, height, delay, .. } => vec![
                code_field('a', 'f'),
                code_field('t', 't'),
                num_field('f', 32),
                num_field('s', *width as u64),
                num_field('v', *height as u64),
                num_field('i', *id as u64),
                num_field('z', *delay as u64),
                num_field('q', 2),
            ],
            Directive::Animate { id } => vec![
                code_field('a', 'a'),
                num_field('i', *id as u64),
                num_field('s', 3),
                num_field('v', 1),
                num_field('q', 2),
            ],
            Directive::Place { id, pid, columns, offset, layer, .. } => vec![
                code_field('a', 'p'),
                num_field('i', *id as u64),
                num_field('p', *pid as u64),
                num_field('r', 1),
                num_field('c', *columns as u64),
                num_field('X', *offset as u64),
                num_field('z', *layer as u64),
                num_field('q', 2),
            ],
            Directive::Delete(Clear(id, pid)) => if *id == 0 && *pid == 0 {
                vec![code_field('a', 'd'), code_field('d', 'A'), num_field('q', 2)]
            } else if *id == 0 {
                vec![code_field('a', 'd'), code_field('d', 'a'), num_field('q', 2)]
            } else {
                vec![
                    code_field('a', 'd'),
                    code_field('d', 'i'),
                    num_field('i', *id as u64),
                    num_field('p', *pid as u64),
                    num_field('q', 2),
                ]
            },
            Directive::Query => vec![
                num_field('i', 31),
                num_field('s', 1),
                num_field('v', 1),
                code_field('a', 'q'),
                code_field('t', 'd'),
                num_field('f', 24),
            ],
        };
        assert(r@ =~= self.fields());
        r
    }

    /// Appends this directive's characters to `s`.
    pub fn render_into(&self, s: &mut String)
        ensures
            final(s)@ == old(s)@ + self.chars(),
    {
        let fs = self.control();
        match self {
            Directive::Place { x, y, .. } => {
                push_char(s, '\x1b');
                push_char(s, '[');
                push_decimal(s, *y as u64 + 1);
                push_char(s, ';');
                push_decimal(s, *x as u64 + 1);
                push_char(s, 'H');
            },
            _ => {},
        }
        let ghost mid = s@;
        match self {
            Directive::Transmit { path, .. } => {
                let p = encode_base64(path.as_str());
                push_escape(s, &fs, p.as_str());
            },
            Directive::AppendFrame { path, .. } => {
                let p = encode_base64(path.as_str());
                push_escape(s, &fs, p.as_str());
            },
            Directive::Query => {
                let p = encode_base64("AAAA");
                proof {
                    reveal_strlit("AAAA");
                    assert("AAAA"@ =~= probe_pixel());
                }
                push_escape(s, &fs, p.as_str());
                push_char(s, '\x1b');
                push_char(s, '[');
                push_char(s, 'c');
            },
            _ => {
                push_escape(s, &fs, "");
                proof {
                    reveal_strlit("");
                }
            },
        }
        assert(final(s)@ =~= old(s)@ + self.chars());
    }

    /// The characters written for this directive.
    pub fn render(&self) -> (r: String)
        ensures
            r@ == self.chars(),
    {
        let mut s = String::new();
        self.render_into(&mut s);
        assert(s@ =~= self.chars());
        s
    }
}

/// The characters of a sequence of directives, one after another.
pub open spec fn all_chars(ds: Seq<Directive>) -> Seq<char>
    decreases ds.len(),
{
    if ds.len() == 0 {
        Seq::empty()
    } else {
        all_chars(ds.drop_last()) + ds.last().chars()
    }
}

/// Renders each directive in turn.
pub fn render_all(ds: &Vec<Directive>) -> (r: String)
    ensures
        r@ == all_chars(ds@),
{
    let mut s = String::new();
    let mut i: usize = 0;
    while i < ds.len()
        invariant
            i <= ds@.len(),
            s@ == all_chars(ds@.take(i as int)),
        decreases ds@.len() - i,
    {
        ds[i].render_into(&mut s);
        assert(ds@.take(i + 1).drop_last() =~= ds@.take(i as int));
        i = i + 1;
    }
    assert(ds@.take(ds@.len() as int) =~= ds@);
    s
}

} // verus!

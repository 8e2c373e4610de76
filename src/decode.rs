//! Reading back what a directive declares.

use vstd::prelude::*;
use crate::graphics::{base64_of, control_chars, escape_chars, field_chars, transmit_fields, Field, Value};
use crate::images::{AnimatedImage, Size, StaticImage};
use crate::probe::{all_digits, digits_value, is_digit, lemma_digits_value_grows};
use crate::text::{before_char, dec, digit_char, lemma_before_char, lemma_before_char_len};

verus! {

/// The value of the first `key=value` item of comma-separated control data
/// whose key is `key`.
pub open spec fn lookup(c: Seq<char>, key: char) -> Option<Seq<char>>
    decreases c.len(),
{
    let item = before_char(c, ',');
    if item.len() >= 2 && item[0] == key && item[1] == '=' {
        Some(item.skip(2))
    } else if item.len() < c.len() {
        proof {
            lemma_before_char_len(c, ',');
        }
        lookup(c.skip(item.len() as int + 1), key)
    } else {
        None
    }
}

/// A decimal number that fits in a `u32`.
pub open spec fn u32_of(s: Seq<char>) -> Option<u32> {
    if s.len() > 0 && all_digits(s) && digits_value(s) <= u32::MAX {
        Some(digits_value(s) as u32)
    } else {
        None
    }
}

/// The control data of a directive: what stands between `ESC _ G` and the
/// first `;`.
pub open spec fn control_of(s: Seq<char>) -> Option<Seq<char>> {
    if s.len() >= 3 && s[0] == '\x1b' && s[1] == '_' && s[2] == 'G' {
        Some(before_char(s.skip(3), ';'))
    } else {
        None
    }
}

/// The width (`s`) and height (`v`) that a directive declares.
pub open spec fn declared_size_of(s: Seq<char>) -> Option<(u32, u32)> {
    match control_of(s) {
        Some(c) => match (lookup(c, 's'), lookup(c, 'v')) {
            (Some(a), Some(b)) => match (u32_of(a), u32_of(b)) {
                (Some(w), Some(h)) => Some((w, h)),
                _ => None,
            },
            _ => None,
        },
        None => None,
    }
}

proof fn lemma_digit_char(d: nat)
    requires
        d < 10,
    ensures
        is_digit(digit_char(d)),
        digit_char(d) as nat - '0' as nat == d,
{
}

proof fn lemma_dec(n: nat)
    ensures
        dec(n).len() >= 1,
        all_digits(dec(n)),
        digits_value(dec(n)) == n,
    decreases n,
{
    lemma_digit_char(n % 10);
    if n >= 10 {
        lemma_dec(n / 10);
        let d = dec(n / 10);
        assert(dec(n) == d.push(digit_char(n % 10)));
        assert(dec(n).drop_last() =~= d);
        assert(digits_value(dec(n)) == digits_value(d) * 10 + (digit_char(n % 10) as nat
            - '0' as nat));
        assert(n == (n / 10) * 10 + n % 10) by (nonlinear_arith);
        assert forall|i: int| 0 <= i < dec(n).len() implies is_digit(#[trigger] dec(n)[i]) by {
            if i < d.len() {
                assert(dec(n)[i] == d[i]);
            }
        }
    } else {
        assert(dec(n).drop_last() =~= Seq::<char>::empty());
        assert(n % 10 == n);
        assert(digits_value(dec(n)) == digits_value(Seq::<char>::empty()) * 10 + (digit_char(n)
            as nat - '0' as nat));
    }
}

/// An item without commas, followed by a comma and more items.
proof fn lemma_lookup_cons(item: Seq<char>, rest: Seq<char>, key: char)
    requires
        forall|j: int| 0 <= j < item.len() ==> item[j] != ',',
    ensures
        lookup(item + seq![','] + rest, key) == if item.len() >= 2 && item[0] == key && item[1]
            == '=' {
            Some(item.skip(2))
        } else {
            lookup(rest, key)
        },
{
    let c = item + seq![','] + rest;
    lemma_before_char(c, ',', item.len() as int);
    assert(c.take(item.len() as int) =~= item);
    assert(c.skip(item.len() as int + 1) =~= rest);
}

proof fn lemma_field_plain(f: Field)
    requires
        f.key != ',' && f.key != ';',
        f.value matches Value::Code(c) ==> c != ',' && c != ';',
    ensures
        forall|j: int| 0 <= j < field_chars(f).len() ==> field_chars(f)[j] != ',' && field_chars(f)[j] != ';',
{
    match f.value {
        Value::Num(n) => {
            lemma_dec(n as nat);
            assert forall|j: int| 0 <= j < field_chars(f).len() implies field_chars(f)[j] != ','
                && field_chars(f)[j] != ';' by {
                if j >= 2 {
                    assert(field_chars(f)[j] == dec(n as nat)[j - 2]);
                    assert(is_digit(dec(n as nat)[j - 2]));
                }
            }
        },
        Value::Code(_) => {},
    }
}

pub open spec fn free_of(s: Seq<char>, ch: char) -> bool {
    forall|j: int| 0 <= j < s.len() ==> s[j] != ch
}

proof fn lemma_free_of_concat(a: Seq<char>, b: Seq<char>, c: Seq<char>, ch: char)
    requires
        free_of(a, ch),
        free_of(b, ch),
        free_of(c, ch),
    ensures
        free_of(a + b + c, ch),
{
    assert forall|j: int| 0 <= j < (a + b + c).len() implies (a + b + c)[j] != ch by {
        if j < a.len() {
            assert((a + b + c)[j] == a[j]);
        } else if j < a.len() + b.len() {
            assert((a + b + c)[j] == b[j - a.len()]);
        } else {
            assert((a + b + c)[j] == c[j - a.len() - b.len()]);
        }
    }
}

#[verifier::rlimit(80)]
proof fn lemma_control_declares_size(id: u32, width: u32, height: u32, rest: Seq<char>)
    ensures
        declared_size_of(
            seq!['\x1b', '_', 'G'] + control_chars(transmit_fields(id, width, height)) + seq![';']
                + rest,
        ) == Some((width, height)),
{
    let fs = transmit_fields(id, width, height);
    let f = |k: int| field_chars(fs[k]);
    reveal_with_fuel(control_chars, 8);
    let c = control_chars(fs);
    assert(fs.drop_last().drop_last().drop_last().drop_last().drop_last().drop_last() =~= seq![fs[0]]);
    assert(c =~= f(0) + seq![','] + (f(1) + seq![','] + (f(2) + seq![','] + (f(3) + seq![','] + (
        f(4) + seq![','] + (f(5) + seq![','] + f(6)))))));
    assert forall|k: int| 0 <= k < 7 implies free_of(#[trigger] f(k), ',') && free_of(f(k), ';') by {
        lemma_field_plain(fs[k]);
    }
    let r5 = f(5) + seq![','] + f(6);
    let r4 = f(4) + seq![','] + r5;
    let r3 = f(3) + seq![','] + r4;
    let r2 = f(2) + seq![','] + r3;
    let r1 = f(1) + seq![','] + r2;
    // The control data holds no `;`.
    assert(free_of(seq![','], ';'));
    lemma_free_of_concat(f(5), seq![','], f(6), ';');
    lemma_free_of_concat(f(4), seq![','], r5, ';');
    lemma_free_of_concat(f(3), seq![','], r4, ';');
    lemma_free_of_concat(f(2), seq![','], r3, ';');
    lemma_free_of_concat(f(1), seq![','], r2, ';');
    lemma_free_of_concat(f(0), seq![','], r1, ';');
    let s = seq!['\x1b', '_', 'G'] + c + seq![';'] + rest;
    let tail = s.skip(3);
    assert(tail =~= c + (seq![';'] + rest));
    lemma_before_char(tail, ';', c.len() as int);
    assert(tail.take(c.len() as int) =~= c);
    assert(control_of(s) == Some(c));
    lemma_lookup_cons(f(0), r1, 's');
    lemma_lookup_cons(f(1), r2, 's');
    lemma_lookup_cons(f(2), r3, 's');
    lemma_lookup_cons(f(3), r4, 's');
    lemma_lookup_cons(f(0), r1, 'v');
    lemma_lookup_cons(f(1), r2, 'v');
    lemma_lookup_cons(f(2), r3, 'v');
    lemma_lookup_cons(f(3), r4, 'v');
    lemma_lookup_cons(f(4), r5, 'v');
    assert(f(3).skip(2) =~= dec(width as nat));
    assert(f(4).skip(2) =~= dec(height as nat));
    lemma_dec(width as nat);
    lemma_dec(height as nat);
}

/// A transmit directive declares the true size of its image: reading back
/// its width and height gives the numbers it was made with.
pub proof fn lemma_transmit_declares_size(id: u32, width: u32, height: u32, payload: Seq<char>)
    ensures
        declared_size_of(escape_chars(transmit_fields(id, width, height), payload)) == Some(
            (width, height),
        ),
{
    let fs = transmit_fields(id, width, height);
    let rest = payload + seq!['\x1b', '\\'];
    lemma_control_declares_size(id, width, height, rest);
    assert(escape_chars(fs, payload) =~= seq!['\x1b', '_', 'G'] + control_chars(fs) + seq![';']
        + rest);
}

/// What a still image writes declares the image's size.
pub proof fn lemma_static_image_declares_size(img: StaticImage)
    ensures
        declared_size_of(img.chars()) == Some(img.spec_size()),
{
    lemma_transmit_declares_size(
        img.spec_id(),
        img.spec_dims().0,
        img.spec_dims().1,
        base64_of(img.spec_path()),
    );
}

/// What an animation writes declares the animation's size, in its first
/// directive.
pub proof fn lemma_animation_declares_size(a: AnimatedImage)
    requires
        a.wf(),
    ensures
        declared_size_of(a.chars()) == Some(a.spec_size()),
{
    let (w, h) = a.spec_dims();
    let fs = transmit_fields(a.spec_id(), w, h);
    let first = escape_chars(fs, base64_of(a.spec_frames()[0].0));
    let after = a.chars().skip(first.len() as int);
    let rest = base64_of(a.spec_frames()[0].0) + seq!['\x1b', '\\'] + after;
    assert(a.chars() =~= first + after);
    assert(a.chars() =~= seq!['\x1b', '_', 'G'] + control_chars(fs) + seq![';'] + rest);
    lemma_control_declares_size(a.spec_id(), w, h, rest);
}

/// The first position in `from..to` that holds `c`, or `to`.
fn find_from(s: &str, c: char, from: usize, to: usize) -> (r: usize)
    requires
        from <= to <= s@.len(),
    ensures
        from <= r <= to,
        forall|j: int| from <= j < r ==> s@[j] != c,
        r < to ==> s@[r as int] == c,
{
    let mut i = from;
    while i < to
        invariant
            from <= i <= to <= s@.len(),
            forall|j: int| from <= j < i ==> s@[j] != c,
        decreases to - i,
    {
        if s.get_char(i) == c {
            return i;
        }
        i = i + 1;
    }
    i
}

/// Where the value of `key` stands in the control data `s[lo..hi]`.
fn find_value(s: &str, lo: usize, hi: usize, key: char) -> (r: Option<(usize, usize)>)
    requires
        lo <= hi <= s@.len(),
    ensures
        match lookup(s@.subrange(lo as int, hi as int), key) {
            Some(v) => r matches Some((a, b)) && lo <= a <= b <= hi && s@.subrange(a as int, b as int)
                == v,
            None => r is None,
        },
{
    let mut pos = lo;
    while pos <= hi
        invariant
            lo <= pos <= hi <= s@.len(),
            lookup(s@.subrange(lo as int, hi as int), key) == lookup(
                s@.subrange(pos as int, hi as int),
                key,
            ),
        decreases hi - pos,
    {
        let e = find_from(s, ',', pos, hi);
        let ghost c = s@.subrange(pos as int, hi as int);
        proof {
            lemma_before_char(c, ',', e - pos);
            assert(c.take(e - pos) =~= s@.subrange(pos as int, e as int));
        }
        if e - pos >= 2 && s.get_char(pos) == key && s.get_char(pos + 1) == '=' {
            assert(s@.subrange(pos as int, e as int).skip(2) =~= s@.subrange(pos + 2, e as int));
            return Some((pos + 2, e));
        }
        if e == hi {
            return None;
        }
        assert(c.skip((e - pos) as int + 1) =~= s@.subrange(e + 1, hi as int));
        pos = e + 1;
    }
    None
}

/// Reads a `u32` written in decimal from `s[from..to]`.
fn parse_u32(s: &str, from: usize, to: usize) -> (r: Option<u32>)
    requires
        from <= to <= s@.len(),
    ensures
        r == u32_of(s@.subrange(from as int, to as int)),
{
    let ghost d = s@.subrange(from as int, to as int);
    if from == to {
        return None;
    }
    let mut v: u64 = 0;
    let mut i: usize = from;
    while i < to
        invariant
            from <= i <= to <= s@.len(),
            from < to,
            d == s@.subrange(from as int, to as int),
            forall|j: int| 0 <= j < i - from ==> is_digit(#[trigger] d[j]),
            v as nat == digits_value(d.take(i - from)),
            v <= u32::MAX,
        decreases to - i,
    {
        let c = s.get_char(i);
        if c < '0' || c > '9' {
            assert(!is_digit(d[i - from]));
            assert(!all_digits(d));
            return None;
        }
        assert(d.take(i - from + 1).drop_last() =~= d.take(i - from));
        assert(c == d[i - from]);
        assert(d.take(i - from + 1).last() == c);
        let dig = (c as u64) - ('0' as u64);
        v = v * 10 + dig;
        assert(v as nat == digits_value(d.take(i - from + 1)));
        i = i + 1;
        if v > 0xffff_ffff {
            proof {
                if all_digits(d) {
                    lemma_digits_value_grows(d, i - from);
                }
            }
            return None;
        }
    }
    assert(d.take(to - from) =~= d);
    Some(v as u32)
}

/// The width and height that a directive declares in its `s` and `v`
/// fields, if it declares both as numbers.
pub fn declared_size(directive: &str) -> (r: Option<(u32, u32)>)
    ensures
        r == declared_size_of(directive@),
{
    let n = directive.unicode_len();
    if n < 3 || directive.get_char(0) != '\x1b' || directive.get_char(1) != '_'
        || directive.get_char(2) != 'G' {
        return None;
    }
    let k = find_from(directive, ';', 3, n);
    proof {
        let t = directive@.skip(3);
        assert forall|j: int| 0 <= j < k - 3 implies t[j] != ';' by {
            assert(t[j] == directive@[j + 3]);
        }
        if k < n {
            assert(t[k - 3] == directive@[k as int]);
        }
        lemma_before_char(t, ';', k - 3);
        assert(t.take(k - 3) =~= directive@.subrange(3, k as int));
    }
    let w = match find_value(directive, 3, k, 's') {
        Some((a, b)) => parse_u32(directive, a, b),
        None => None,
    };
    let h = match find_value(directive, 3, k, 'v') {
        Some((a, b)) => parse_u32(directive, a, b),
        None => None,
    };
    match (w, h) {
        (Some(w), Some(h)) => Some((w, h)),
        _ => None,
    }
}

} // verus!

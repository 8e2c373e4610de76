//! The bounded, ordered store of chat entries, and scrolling over it.

use std::collections::VecDeque;
use vstd::prelude::*;

verus! {

/// One entry of the chat timeline.
#[derive(Debug, Clone)]
pub struct Data {
    pub time_sent: String,
    pub author: String,
    pub message: String,
}

impl Data {
    pub fn new(time_sent: String, author: String, message: String) -> (r: Data)
        ensures
            r.time_sent@ == time_sent@,
            r.author@ == author@,
            r.message@ == message@,
    {
        Data { time_sent, author, message }
    }
}

/// The entries ordered most recent first. Entries beyond the capacity are
/// dropped from the back by `truncate`, once per redraw.
pub struct MessageStore {
    entries: VecDeque<Data>,
}

/// What `truncate(max)` leaves of a sequence.
pub open spec fn truncated<T>(s: Seq<T>, max: nat) -> Seq<T> {
    if s.len() > max {
        s.take(max as int)
    } else {
        s
    }
}

/// The store after `xs` were pushed to its front, first to last.
pub open spec fn pushed_all<T>(s: Seq<T>, xs: Seq<T>) -> Seq<T>
    decreases xs.len(),
{
    if xs.len() == 0 {
        s
    } else {
        seq![xs.last()] + pushed_all(s, xs.drop_last())
    }
}

impl View for MessageStore {
    type V = Seq<Data>;

    closed spec fn view(&self) -> Seq<Data> {
        self.entries@
    }
}

impl MessageStore {
    pub fn new() -> (r: MessageStore)
        ensures
            r@.len() == 0,
    {
        MessageStore { entries: VecDeque::new() }
    }

    pub fn len(&self) -> (r: usize)
        ensures
            r == self@.len(),
    {
        self.entries.len()
    }

    pub fn is_empty(&self) -> (r: bool)
        ensures
            r == (self@.len() == 0),
    {
        self.entries.len() == 0
    }

    /// The entry at `index`, counted from the most recent.
    pub fn get(&self, index: usize) -> (r: &Data)
        requires
            index < self@.len(),
        ensures
            *r == self@[index as int],
    {
        &self.entries[index]
    }

    /// Puts `entry` in front, as the most recent.
    pub fn push_front(&mut self, entry: Data)
        ensures
            final(self)@ == seq![entry] + old(self)@,
    {
        self.entries.push_front(entry);
        assert(final(self)@ =~= seq![entry] + old(self)@);
    }

    /// Drops the oldest entries past `max`.
    pub fn truncate(&mut self, max: usize)
        ensures
            final(self)@ == truncated(old(self)@, max as nat),
    {
        self.entries.truncate(max);
        assert(final(self)@ =~= truncated(old(self)@, max as nat));
    }

    /// Removes every entry.
    pub fn clear(&mut self)
        ensures
            final(self)@.len() == 0,
    {
        self.entries.clear();
    }
}

proof fn lemma_pushed_all<T>(s: Seq<T>, xs: Seq<T>)
    ensures
        pushed_all(s, xs) == xs.reverse() + s,
    decreases xs.len(),
{
    if xs.len() == 0 {
        assert(xs.reverse() =~= Seq::<T>::empty());
        assert(xs.reverse() + s =~= s);
    } else {
        lemma_pushed_all(s, xs.drop_last());
        assert(xs.reverse() =~= seq![xs.last()] + xs.drop_last().reverse());
        assert(seq![xs.last()] + (xs.drop_last().reverse() + s)
            =~= (seq![xs.last()] + xs.drop_last().reverse()) + s);
    }
}

/// After more pushes than the capacity, one truncation to the capacity leaves
/// exactly the `capacity` most recently pushed entries, most recent first.
pub proof fn lemma_truncate_keeps_most_recent<T>(s: Seq<T>, xs: Seq<T>, capacity: nat)
    requires
        xs.len() > capacity,
    ensures
        truncated(pushed_all(s, xs), capacity).len() == capacity,
        forall|i: int|
            0 <= i < capacity ==> #[trigger] truncated(pushed_all(s, xs), capacity)[i]
                == xs[xs.len() - 1 - i],
{
    lemma_pushed_all(s, xs);
    let r = truncated(pushed_all(s, xs), capacity);
    assert forall|i: int| 0 <= i < capacity implies #[trigger] r[i] == xs[xs.len() - 1 - i] by {
        assert(r[i] == (xs.reverse() + s)[i]);
        assert((xs.reverse() + s)[i] == xs.reverse()[i]);
    }
}

/// Scroll state of a view over the store.
pub struct Scrolling {
    /// Offset of scroll
    offset: usize,
    /// If the scrolling is currently inverted
    inverted: bool,
}

impl Scrolling {
    pub closed spec fn offset(&self) -> usize {
        self.offset
    }

    pub closed spec fn is_inverted(&self) -> bool {
        self.inverted
    }

    pub fn new(inverted: bool) -> (r: Scrolling)
        ensures
            r.offset() == 0,
            r.is_inverted() == inverted,
    {
        Scrolling { offset: 0, inverted }
    }

    /// Scrolling upwards, towards the start of the chat
    pub fn up(&mut self)
        requires
            old(self).offset() < usize::MAX,
        ensures
            final(self).offset() == old(self).offset() + 1,
            final(self).is_inverted() == old(self).is_inverted(),
    {
        self.offset = self.offset + 1;
    }

    /// Scrolling downwards, towards the most recent message(s)
    pub fn down(&mut self)
        ensures
            final(self).offset() == if old(self).offset() == 0 {
                0
            } else {
                old(self).offset() - 1
            },
            final(self).is_inverted() == old(self).is_inverted(),
    {
        self.offset = self.offset.saturating_sub(1);
    }

    pub fn inverted(&self) -> (r: bool)
        ensures
            r == self.is_inverted(),
    {
        self.inverted
    }

    pub fn jump_to(&mut self, index: usize)
        ensures
            final(self).offset() == index,
            final(self).is_inverted() == old(self).is_inverted(),
    {
        self.offset = index;
    }

    pub fn get_offset(&self) -> (r: usize)
        ensures
            r == self.offset(),
    {
        self.offset
    }
}

/// The part of `s` shown from `offset` on: `amount` items, or all the rest
/// where `amount` is zero or reaches past the end.
pub open spec fn window<T>(s: Seq<T>, offset: int, amount: int) -> Seq<T> {
    if amount == 0 || offset + amount > s.len() {
        s.subrange(offset, s.len() as int)
    } else {
        s.subrange(offset, offset + amount)
    }
}

/// The items of `v` that a view scrolled to `offset` shows, `amount` at most
/// (all that follow where `amount` is zero).
pub fn scroll_view<T: Copy>(v: VecDeque<T>, offset: usize, amount: usize) -> (r: VecDeque<T>)
    requires
        offset <= v@.len(),
    ensures
        r@ == window(v@, offset as int, amount as int),
{
    let len = v.len();
    if (offset == 0 && amount == len) || len == 0 {
        assert(v@ =~= window(v@, offset as int, amount as int));
        return v;
    }
    let end: usize = if amount == 0 || amount > len - offset {
        len
    } else {
        offset + amount
    };
    let mut r: VecDeque<T> = VecDeque::new();
    let mut i: usize = offset;
    while i < end
        invariant
            len == v@.len(),
            offset <= i <= end <= len,
            r@ == v@.subrange(offset as int, i as int),
        decreases end - i,
    {
        r.push_back(v[i]);
        assert(v@.subrange(offset as int, i + 1) =~= v@.subrange(offset as int, i as int).push(
            v@[i as int],
        ));
        i = i + 1;
    }
    r
}

} // verus!

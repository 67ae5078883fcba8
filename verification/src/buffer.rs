//! A fixed-size circular buffer for tracking recent keystrokes.

use vstd::prelude::*;

use crate::text_utils::push_char;

verus! {

broadcast use vstd::string::group_string_axioms;

/// Keeps the last `cap` characters of `t` (all of them when it is short enough).
pub open spec fn keep_last(t: Seq<char>, cap: nat) -> Seq<char> {
    if t.len() <= cap {
        t
    } else {
        t.subrange(t.len() - cap, t.len() as int)
    }
}

/// The window after typing `ch` into a window `s` of capacity `cap`:
/// a zero-capacity buffer never changes, otherwise the oldest character
/// falls out once the window is full.
pub open spec fn window_push(s: Seq<char>, ch: char, cap: nat) -> Seq<char> {
    if cap == 0 {
        s
    } else {
        keep_last(s.push(ch), cap)
    }
}

/// The window after typing every character of `chars`, in order.
pub open spec fn window_push_all(s: Seq<char>, chars: Seq<char>, cap: nat) -> Seq<char>
    decreases chars.len(),
{
    if chars.len() == 0 {
        s
    } else {
        window_push(window_push_all(s, chars.drop_last(), cap), chars.last(), cap)
    }
}

/// `s` ends with `suffix` (every sequence ends with the empty one).
pub open spec fn seq_ends_with(s: Seq<char>, suffix: Seq<char>) -> bool {
    suffix.len() <= s.len() && s.subrange(s.len() - suffix.len(), s.len() as int) == suffix
}

/// Popping right after a push gives back the pushed character; when the
/// buffer was not yet full it also restores the earlier content, and when it
/// was full only the oldest character, which the push evicted, stays lost.
pub proof fn lemma_pop_undoes_push(s: Seq<char>, ch: char, cap: nat)
    requires
        cap > 0,
        s.len() <= cap,
    ensures
        window_push(s, ch, cap).len() > 0,
        window_push(s, ch, cap).last() == ch,
        s.len() < cap ==> window_push(s, ch, cap).drop_last() == s,
        s.len() == cap ==> window_push(s, ch, cap).drop_last() == s.subrange(1, cap as int),
{
    if s.len() < cap {
        assert(window_push(s, ch, cap).drop_last() =~= s);
    } else {
        assert(window_push(s, ch, cap).drop_last() =~= s.subrange(1, cap as int));
    }
}

/// Typing characters into a window that holds `s` leaves exactly the last
/// `cap` characters of everything typed (for a non-zero capacity), so the
/// window never holds more than `cap` characters.
pub proof fn lemma_window_keeps_last(s: Seq<char>, chars: Seq<char>, cap: nat)
    requires
        cap > 0,
        s.len() <= cap,
    ensures
        window_push_all(s, chars, cap) == keep_last(s + chars, cap),
        window_push_all(s, chars, cap).len() <= cap,
    decreases chars.len(),
{
    if chars.len() == 0 {
        assert(s + chars =~= s);
    } else {
        let init = chars.drop_last();
        let x = chars.last();
        lemma_window_keeps_last(s, init, cap);
        let prev = window_push_all(s, init, cap);
        assert(prev == keep_last(s + init, cap));
        assert((s + init).push(x) =~= s + chars);
        let t = (s + init).push(x);
        if (s + init).len() <= cap {
            assert(prev.push(x) =~= t);
        } else {
            let u = (s + init).subrange((s + init).len() - cap, (s + init).len() as int);
            assert(prev == u);
            assert(keep_last(u.push(x), cap) =~= keep_last(t, cap));
        }
    }
}

/// Once every character of a trigger that fits in the buffer has been typed,
/// the buffer ends with that trigger.
pub proof fn lemma_typed_trigger_matches(s: Seq<char>, trigger: Seq<char>, cap: nat)
    requires
        cap > 0,
        s.len() <= cap,
        trigger.len() <= cap,
    ensures
        seq_ends_with(window_push_all(s, trigger, cap), trigger),
{
    lemma_window_keeps_last(s, trigger, cap);
    let w = window_push_all(s, trigger, cap);
    let t = s + trigger;
    assert(w.subrange(w.len() - trigger.len(), w.len() as int) =~= trigger);
}

/// Physical slot of a position `v` in `0 .. 2 * cap`.
pub open spec fn wrap_index(v: int, cap: int) -> int {
    if v < cap {
        v
    } else {
        v - cap
    }
}

/// A fixed-size circular buffer for tracking recent keystrokes.
///
/// Used by the keyboard hook to maintain a rolling window of typed characters
/// for matching against snippet triggers. No heap allocation after construction.
pub struct KeyBuffer {
    buffer: Vec<char>,
    capacity: usize,
    head: usize,
    len: usize,
}

impl View for KeyBuffer {
    type V = Seq<char>;

    /// The characters held, oldest first.
    closed spec fn view(&self) -> Seq<char> {
        Seq::new(
            self.len as nat,
            |i: int| self.buffer@[self.slot(i)],
        )
    }
}

impl KeyBuffer {
    /// Physical slot holding the `i`-th oldest character.
    closed spec fn slot(&self, i: int) -> int {
        wrap_index(self.head + self.capacity - self.len + i, self.capacity as int)
    }

    /// The internal representation is consistent.
    pub closed spec fn wf(&self) -> bool {
        &&& self.buffer@.len() == self.capacity
        &&& self.len <= self.capacity
        &&& (self.capacity == 0 ==> self.head == 0)
        &&& (self.capacity > 0 ==> self.head < self.capacity)
    }

    /// The number of characters the buffer can hold.
    pub closed spec fn cap(&self) -> nat {
        self.capacity as nat
    }

    /// A buffer never holds more characters than its capacity.
    pub proof fn lemma_len_within_cap(&self)
        requires
            self.wf(),
        ensures
            self@.len() <= self.cap(),
    {
    }

    /// On a buffer that can hold anything, `pop` right after `push(ch)` gives
    /// back `ch` and the content from before the push, except that a push into
    /// a full buffer has already dropped the oldest character for good.
    pub proof fn lemma_push_then_pop(&self, ch: char)
        requires
            self.wf(),
            self.cap() > 0,
        ensures
            window_push(self@, ch, self.cap()).len() > 0,
            window_push(self@, ch, self.cap()).last() == ch,
            window_push(self@, ch, self.cap()).drop_last() == (if self@.len() < self.cap() {
                self@
            } else {
                self@.subrange(1, self.cap() as int)
            }),
    {
        lemma_pop_undoes_push(self@, ch, self.cap());
    }

    /// Creates a new buffer with the specified capacity.
    pub fn new(capacity: usize) -> (r: Self)
        ensures
            r.wf(),
            r.cap() == capacity,
            r@ == Seq::<char>::empty(),
            r@.len() <= r.cap(),
    {
        let r = KeyBuffer { buffer: vec!['\0'; capacity], capacity, head: 0, len: 0 };
        assert(r@ =~= Seq::<char>::empty());
        r
    }

    /// Appends a character, wrapping if full (oldest char lost).
    pub fn push(&mut self, ch: char)
        requires
            old(self).wf(),
        ensures
            final(self).wf(),
            final(self).cap() == old(self).cap(),
            final(self)@.len() <= final(self).cap(),
            final(self)@ == window_push(old(self)@, ch, old(self).cap()),
    {
        if self.capacity == 0 {
            return;
        }
        let ghost old_view = self@;
        let ghost old_buf = self.buffer@;
        let ghost old_head = self.head;
        let ghost old_len = self.len;
        let ghost cap = self.capacity as int;
        self.buffer.set(self.head, ch);
        self.head = if self.head + 1 == self.capacity {
            0
        } else {
            self.head + 1
        };
        if self.len < self.capacity {
            self.len = self.len + 1;
            assert forall|i: int| 0 <= i < old_len implies #[trigger] self.slot(i)
                == wrap_index(old_head + cap - old_len + i, cap) && self.slot(i) != old_head by {}
            assert(self.slot(old_len as int) == old_head);
            assert(self@ =~= old_view.push(ch));
        } else {
            assert forall|i: int| 0 <= i < old_len - 1 implies #[trigger] self.slot(i)
                == wrap_index(old_head + cap - old_len + i + 1, cap) && self.slot(i) != old_head by {}
            assert(self.slot(old_len - 1) == old_head);
            assert(self@ =~= old_view.push(ch).subrange(1, old_len + 1));
        }
    }

    /// Removes and returns the most recent character.
    pub fn pop(&mut self) -> (r: Option<char>)
        requires
            old(self).wf(),
        ensures
            final(self).wf(),
            final(self).cap() == old(self).cap(),
            final(self)@.len() <= final(self).cap(),
            old(self)@.len() == 0 ==> r is None && final(self)@ == old(self)@,
            old(self)@.len() > 0 ==> r == Some(old(self)@.last()) && final(self)@
                == old(self)@.drop_last(),
    {
        if self.len == 0 {
            return None;
        }
        let ghost old_view = self@;
        let ghost old_head = self.head;
        let ghost old_len = self.len;
        let ghost cap = self.capacity as int;
        assert(old_view[old_len - 1] == self.buffer@[self.slot(old_len - 1)]);
        self.head = if self.head == 0 {
            self.capacity - 1
        } else {
            self.head - 1
        };
        self.len = self.len - 1;
        assert forall|i: int| 0 <= i < self.len implies #[trigger] self.slot(i) == wrap_index(
            old_head + cap - old_len + i,
            cap,
        ) by {}
        assert(self.head as int == wrap_index(old_head + cap - old_len + old_len - 1, cap));
        assert(self@ =~= old_view.drop_last());
        Some(self.buffer[self.head])
    }

    /// Empties the buffer.
    pub fn clear(&mut self)
        requires
            old(self).wf(),
        ensures
            final(self).wf(),
            final(self).cap() == old(self).cap(),
            final(self)@.len() <= final(self).cap(),
            final(self)@ == Seq::<char>::empty(),
    {
        self.head = 0;
        self.len = 0;
        assert(self@ =~= Seq::<char>::empty());
    }

    /// Returns the current number of characters in the buffer.
    pub fn len(&self) -> (r: usize)
        requires
            self.wf(),
        ensures
            r == self@.len(),
    {
        self.len
    }

    /// Returns true if the buffer is empty.
    pub fn is_empty(&self) -> (r: bool)
        requires
            self.wf(),
        ensures
            r == (self@.len() == 0),
    {
        self.len == 0
    }

    /// The physical slot of the `i`-th oldest character, computed without overflow.
    fn slot_exec(&self, i: usize) -> (r: usize)
        requires
            self.wf(),
            i < self.len,
        ensures
            r == self.slot(i as int),
            r < self.buffer@.len(),
    {
        // start = (head - len) mod capacity
        let start = if self.head >= self.len {
            self.head - self.len
        } else {
            self.capacity - (self.len - self.head)
        };
        if i < self.capacity - start {
            start + i
        } else {
            i - (self.capacity - start)
        }
    }

    /// Returns true if the buffer content ends with the given trigger string.
    ///
    /// Compares from the most recent character backwards and stops at the
    /// first mismatch; allocates nothing.
    pub fn ends_with(&self, trigger: &str) -> (r: bool)
        requires
            self.wf(),
        ensures
            r == seq_ends_with(self@, trigger@),
    {
        let n = trigger.unicode_len();
        if n == 0 {
            assert(self@.subrange(self@.len() as int, self@.len() as int) =~= trigger@);
            return true;
        }
        if self.len == 0 || self.capacity == 0 || n > self.len {
            return false;
        }
        let ghost view = self@;
        let ghost len = self.len as int;
        // The slot of the newest character.
        let mut curr: usize = if self.head == 0 {
            self.capacity - 1
        } else {
            self.head - 1
        };
        let mut k: usize = 0;
        while k < n
            invariant
                self.wf(),
                view == self@,
                len == self.len,
                n == trigger@.len(),
                0 < n <= self.len,
                k <= n,
                k < n ==> curr as int == self.slot(len - 1 - k),
                forall|i: int| len - k <= i < len ==> #[trigger] view[i] == trigger@[i - (len - n)],
            decreases n - k,
        {
            if self.buffer[curr] != trigger.get_char(n - 1 - k) {
                assert(view[len - 1 - k] != trigger@[n - 1 - k]);
                return false;
            }
            curr = if curr == 0 {
                self.capacity - 1
            } else {
                curr - 1
            };
            k = k + 1;
        }
        assert(view.subrange(len - n, len) =~= trigger@) by {
            assert forall|i: int| 0 <= i < n implies view.subrange(len - n, len)[i]
                == trigger@[i] by {
                assert(view[len - n + i] == trigger@[i]);
            }
        }
        true
    }

    /// Returns the current buffer content as a String (oldest character first).
    pub fn content(&self) -> (r: String)
        requires
            self.wf(),
        ensures
            r@ == self@,
    {
        let mut res = String::new();
        let mut i: usize = 0;
        while i < self.len
            invariant
                self.wf(),
                i <= self.len,
                res@ =~= self@.subrange(0, i as int),
            decreases self.len - i,
        {
            let pos = self.slot_exec(i);
            push_char(&mut res, self.buffer[pos]);
            i = i + 1;
        }
        assert(self@.subrange(0, self.len as int) =~= self@);
        res
    }
}

} // verus!

//! A fixed-capacity circular buffer of sample words for one logical channel.
//!
//! The buffer owns `capacity` cells but reads and writes through a logical
//! `buffer_len` chosen by its owner (at most the capacity), so the visible
//! window can shrink or grow without reallocating. The window of length
//! `buffer_len` starts at the write cursor and wraps: element 0 is the
//! oldest sample, element `buffer_len - 1` the newest.

use vstd::prelude::*;
use vstd::arithmetic::div_mod::{
    lemma_add_mod_noop, lemma_fundamental_div_mod, lemma_mod_division_less_than_divisor,
    lemma_mod_multiples_basic, lemma_small_mod,
};

use crate::words::{spec_flush_denormal, WORD_ZERO};

verus! {

/// Mathematical model of a channel ring: the raw cells and the write cursor.
#[verifier::ext_equal]
pub struct RingView {
    pub cells: Seq<u32>,
    pub cursor: nat,
}

impl RingView {
    /// Whether the ring can be driven at logical length `len`.
    pub open spec fn valid_for(self, len: nat) -> bool {
        1 <= len <= self.cells.len() && self.cursor < len
    }

    /// The chronological window of length `len`: oldest sample first,
    /// newest (the cell just behind the cursor) last.
    pub open spec fn window(self, len: nat) -> Seq<u32> {
        Seq::new(len, |i: int| self.cells[(self.cursor + i) % (len as int)])
    }
}

/// The window after one sample is pushed: the oldest element is evicted and
/// the new sample becomes the newest.
pub open spec fn pushed(w: Seq<u32>, sample: u32) -> Seq<u32>
    recommends
        w.len() >= 1,
{
    w.subrange(1, w.len() as int) + seq![sample]
}

/// The ring after one sample is pushed at logical length `len`: the cell at
/// the cursor is overwritten and the cursor advances by one, wrapping.
pub open spec fn ring_push(r: RingView, sample: u32, len: nat) -> RingView {
    RingView {
        cells: r.cells.update(r.cursor as int, sample),
        cursor: (((r.cursor + 1) as int % (len as int))) as nat,
    }
}

/// The ring after the window element at logical `index` is overwritten at
/// logical length `len`; out-of-window indices leave the ring unchanged.
pub open spec fn ring_write(r: RingView, index: int, sample: u32, len: nat) -> RingView {
    if 0 <= index < len {
        RingView { cells: r.cells.update((r.cursor + index) % (len as int), sample), ..r }
    } else {
        r
    }
}

/// Pushing turns the window into the old window with the oldest element
/// evicted and the pushed sample appended.
pub proof fn lemma_ring_push_window(r: RingView, sample: u32, len: nat)
    requires
        r.valid_for(len),
    ensures
        ring_push(r, sample, len).valid_for(len),
        ring_push(r, sample, len).cells.len() == r.cells.len(),
        ring_push(r, sample, len).window(len) == pushed(r.window(len), sample),
{
    let post = ring_push(r, sample, len);
    let c = r.cursor as int;
    let l = len as int;
    lemma_mod_division_less_than_divisor(c + 1, l);
    lemma_small_mod(r.cursor, len);
    assert forall|i: int| 0 <= i < l implies post.window(len)[i]
        == pushed(r.window(len), sample)[i] by {
        // The new cursor is (c + 1) % len, so window slot i reads cell
        // (c + 1 + i) % len.
        lemma_small_mod(i as nat, len);
        lemma_add_mod_noop(c + 1, i, l);
        lemma_mod_division_less_than_divisor(c + 1 + i, l);
        if i < l - 1 {
            // That cell is not the one just overwritten, so it still holds
            // old window element i + 1.
            lemma_slot_injective(c, i + 1, 0, l);
            lemma_small_mod((i + 1) as nat, len);
            lemma_add_mod_noop(c, i + 1, l);
            assert((c + 1 + i) % l != c);
        } else {
            // Slot len - 1 wraps back onto the overwritten cell.
            assert((c + 1 + i) % l == c) by {
                lemma_mod_multiples_basic(1, l);
                lemma_add_mod_noop(c, l, l);
                lemma_small_mod(r.cursor, len);
            }
        }
    }
    assert(post.window(len) =~= pushed(r.window(len), sample));
}

/// Overwriting window element `index` updates exactly that element of the
/// window; an out-of-window index changes nothing.
pub proof fn lemma_ring_write_window(r: RingView, index: int, sample: u32, len: nat)
    requires
        r.valid_for(len),
    ensures
        ring_write(r, index, sample, len).valid_for(len),
        ring_write(r, index, sample, len).cells.len() == r.cells.len(),
        0 <= index < len ==> ring_write(r, index, sample, len).window(len)
            == r.window(len).update(index, sample),
        !(0 <= index < len) ==> ring_write(r, index, sample, len) == r,
{
    if 0 <= index < len {
        let post = ring_write(r, index, sample, len);
        let c = r.cursor as int;
        let l = len as int;
        lemma_mod_division_less_than_divisor(c + index, l);
        assert forall|i: int| 0 <= i < l implies post.window(len)[i]
            == r.window(len).update(index, sample)[i] by {
            lemma_mod_division_less_than_divisor(c + i, l);
            if i != index {
                // Distinct logical indices map to distinct cells.
                lemma_slot_injective(c, i, index, l);
            }
        }
        assert(post.window(len) =~= r.window(len).update(index, sample));
    }
}

/// The window after a whole sequence of samples is pushed, oldest first.
pub open spec fn scrolled(w: Seq<u32>, s: Seq<u32>) -> Seq<u32>
    decreases s.len(),
{
    if s.len() == 0 {
        w
    } else {
        scrolled(pushed(w, s[0]), s.drop_first())
    }
}

/// Pushing a sequence turns the window into the last `w.len()` elements of
/// the old window followed by the pushed samples.
pub proof fn lemma_scrolled_shape(w: Seq<u32>, s: Seq<u32>)
    requires
        w.len() >= 1,
    ensures
        scrolled(w, s).len() == w.len(),
        scrolled(w, s) == (w + s).subrange(s.len() as int, (s.len() + w.len()) as int),
    decreases s.len(),
{
    if s.len() == 0 {
        assert(scrolled(w, s) =~= (w + s).subrange(s.len() as int, (s.len() + w.len()) as int));
    } else {
        let rest = s.drop_first();
        lemma_scrolled_shape(pushed(w, s[0]), rest);
        let a = pushed(w, s[0]) + rest;
        let b = w + s;
        assert forall|j: int| 0 <= j < w.len() implies #[trigger] a[rest.len() + j]
            == b[s.len() + j] by {
            if rest.len() + j < w.len() - 1 {
                assert(a[rest.len() + j] == w[rest.len() + j + 1]);
            } else if rest.len() + j == w.len() - 1 {
                assert(a[rest.len() + j] == s[0]);
            } else {
                assert(a[rest.len() + j] == rest[rest.len() + j - w.len()]);
            }
        }
        assert(a.subrange(rest.len() as int, (rest.len() + w.len()) as int)
            =~= b.subrange(s.len() as int, (s.len() + w.len()) as int));
    }
}

/// Ring invariant: after at least `w.len()` samples are pushed into a
/// window `w`, the window holds exactly the last `w.len()` pushed samples
/// in push order. Each `push_sample` call performs one `pushed` step, so
/// this covers every sequence of pushes to one channel.
pub proof fn lemma_ring_invariant(w: Seq<u32>, s: Seq<u32>)
    requires
        w.len() >= 1,
        s.len() >= w.len(),
    ensures
        scrolled(w, s) == s.subrange(s.len() - w.len(), s.len() as int),
{
    lemma_scrolled_shape(w, s);
    assert((w + s).subrange(s.len() as int, (s.len() + w.len()) as int)
        =~= s.subrange(s.len() - w.len(), s.len() as int));
}

/// Distinct logical window indices land on distinct cells: adding two
/// different offsets below `len` to the cursor gives different residues.
proof fn lemma_slot_injective(c: int, a: int, b: int, len: int)
    requires
        0 <= c < len,
        0 <= a < len,
        0 <= b < len,
        a != b,
    ensures
        (c + a) % len != (c + b) % len,
{
    lemma_fundamental_div_mod(c + a, len);
    lemma_fundamental_div_mod(c + b, len);
    lemma_mod_division_less_than_divisor(c + a, len);
    lemma_mod_division_less_than_divisor(c + b, len);
    if (c + a) % len == (c + b) % len {
        let q1 = (c + a) / len;
        let q2 = (c + b) / len;
        assert(a - b == len * (q1 - q2)) by (nonlinear_arith)
            requires
                c + a == len * q1 + (c + a) % len,
                c + b == len * q2 + (c + b) % len,
                (c + a) % len == (c + b) % len,
        {
        }
        assert(q1 != q2);
        assert(len * (q1 - q2) >= len || len * (q1 - q2) <= -len) by (nonlinear_arith)
            requires
                len > 0,
                q1 != q2,
        {
        }
    }
}

/// One channel's sample storage: a vector of cells and a write cursor.
pub struct ChannelBuffer {
    data: Vec<u32>,
    write_index: usize,
}

impl View for ChannelBuffer {
    type V = RingView;

    closed spec fn view(&self) -> RingView {
        RingView { cells: self.data@, cursor: self.write_index as nat }
    }
}

impl ChannelBuffer {
    /// A fresh ring of `size` zeroed cells with the cursor at the start.
    pub fn new(size: usize) -> (r: Self)
        ensures
            r@.cells.len() == size,
            r@.cells =~= Seq::new(size as nat, |i: int| WORD_ZERO),
            r@.cursor == 0,
    {
        let mut data: Vec<u32> = Vec::new();
        while data.len() < size
            invariant
                data.len() <= size,
                data@ =~= Seq::new(data.len() as nat, |i: int| WORD_ZERO),
            decreases size - data.len(),
        {
            data.push(WORD_ZERO);
        }
        ChannelBuffer { data, write_index: 0 }
    }

    /// Grows the cell store to at least `new_size` cells, padding with
    /// zeroes; never shrinks.
    pub fn resize(&mut self, new_size: usize)
        ensures
            final(self)@.cursor == old(self)@.cursor,
            old(self)@.cells.len() >= new_size ==> final(self)@.cells == old(self)@.cells,
            old(self)@.cells.len() < new_size ==> final(self)@.cells =~= old(self)@.cells
                + Seq::new((new_size - old(self)@.cells.len()) as nat, |i: int| WORD_ZERO),
    {
        while self.data.len() < new_size
            invariant
                self.write_index == old(self).write_index,
                old(self)@.cells.len() >= new_size ==> self@.cells == old(self)@.cells,
                old(self)@.cells.len() < new_size ==> self@.cells.len() <= new_size
                    && self@.cells =~= old(self)@.cells
                        + Seq::new((self@.cells.len() - old(self)@.cells.len()) as nat, |i: int| WORD_ZERO),
            decreases new_size - self.data.len(),
        {
            self.data.push(WORD_ZERO);
        }
    }

    /// Writes `sample` at the cursor and advances the cursor by one, modulo
    /// `buffer_len`: the oldest window element is evicted, `sample` becomes
    /// the newest.
    pub fn push_sample(&mut self, sample: u32, buffer_len: usize)
        requires
            old(self)@.valid_for(buffer_len as nat),
        ensures
            final(self)@.valid_for(buffer_len as nat),
            final(self)@.cells.len() == old(self)@.cells.len(),
            final(self)@.cells == old(self)@.cells.update(old(self)@.cursor as int, sample),
            final(self)@ == ring_push(old(self)@, sample, buffer_len as nat),
            final(self)@.window(buffer_len as nat)
                == pushed(old(self)@.window(buffer_len as nat), sample),
    {
        let ghost pre = self@;
        self.data.set(self.write_index, sample);
        self.write_index = (self.write_index + 1) % buffer_len;
        proof {
            lemma_ring_push_window(pre, sample, buffer_len as nat);
        }
    }

    /// Overwrites the window element at logical `index` (0 = oldest) without
    /// moving the cursor. An index outside the current window is a no-op,
    /// never a panic: a stale in-place cursor must not corrupt the ring.
    pub fn update_sample(&mut self, index: usize, sample: u32, buffer_len: usize)
        requires
            old(self)@.valid_for(buffer_len as nat),
        ensures
            final(self)@.valid_for(buffer_len as nat),
            final(self)@ == ring_write(old(self)@, index as int, sample, buffer_len as nat),
            index < buffer_len ==> final(self)@.window(buffer_len as nat)
                == old(self)@.window(buffer_len as nat).update(index as int, sample),
            index >= buffer_len ==> *final(self) == *old(self),
    {
        if index < buffer_len {
            let ghost pre = self@;
            let ghost len = buffer_len as int;
            let slot = if index < buffer_len - self.write_index {
                self.write_index + index
            } else {
                index - (buffer_len - self.write_index)
            };
            proof {
                if index < buffer_len - self.write_index {
                    lemma_small_mod((pre.cursor + index) as nat, len as nat);
                } else {
                    lemma_mod_multiples_basic(1, len);
                    lemma_add_mod_noop(pre.cursor + index - len, len, len);
                    lemma_small_mod((pre.cursor + index - len) as nat, len as nat);
                }
                assert(slot == (pre.cursor + index) % len);
            }
            self.data.set(slot, sample);
            proof {
                lemma_ring_write_window(pre, index as int, sample, buffer_len as nat);
            }
        }
    }

    /// Clears every cell to the zero word and rewinds the cursor.
    pub fn zero_out(&mut self)
        ensures
            final(self)@.cells.len() == old(self)@.cells.len(),
            final(self)@.cells =~= Seq::new(old(self)@.cells.len(), |i: int| WORD_ZERO),
            final(self)@.cursor == 0,
    {
        let n = self.data.len();
        let mut x: usize = 0;
        while x < n
            invariant
                n == self.data.len(),
                x <= n,
                self@.cells.len() == old(self)@.cells.len(),
                forall|i: int| 0 <= i < x ==> self@.cells[i] == WORD_ZERO,
                forall|i: int| x <= i < n ==> self@.cells[i] == old(self)@.cells[i],
            decreases n - x,
        {
            self.data.set(x, WORD_ZERO);
            x = x + 1;
        }
        self.write_index = 0;
    }

    /// The window element at logical `index`, or `None` outside the window.
    pub fn get_sample(&self, index: usize, buffer_len: usize) -> (r: Option<u32>)
        requires
            self@.valid_for(buffer_len as nat),
        ensures
            index < buffer_len ==> r == Some(self@.window(buffer_len as nat)[index as int]),
            index >= buffer_len ==> r is None,
    {
        if index < buffer_len {
            let slot = if index < buffer_len - self.write_index {
                self.write_index + index
            } else {
                index - (buffer_len - self.write_index)
            };
            proof {
                let len = buffer_len as int;
                if index < buffer_len - self.write_index {
                    lemma_small_mod((self@.cursor + index) as nat, len as nat);
                } else {
                    lemma_mod_multiples_basic(1, len);
                    lemma_add_mod_noop(self@.cursor + index - len, len, len);
                    lemma_small_mod((self@.cursor + index - len) as nat, len as nat);
                }
            }
            Some(self.data[slot])
        } else {
            None
        }
    }

    /// A copy of the whole window, oldest sample first.
    pub fn get_samples(&self, buffer_len: usize) -> (r: Vec<u32>)
        requires
            self@.valid_for(buffer_len as nat),
        ensures
            r@ == self@.window(buffer_len as nat),
    {
        let mut samples: Vec<u32> = Vec::new();
        let mut i: usize = 0;
        while i < buffer_len
            invariant
                self@.valid_for(buffer_len as nat),
                i <= buffer_len,
                samples@ =~= self@.window(buffer_len as nat).take(i as int),
            decreases buffer_len - i,
        {
            let s = match self.get_sample(i, buffer_len) {
                Some(s) => s,
                None => WORD_ZERO,
            };
            samples.push(s);
            i = i + 1;
        }
        proof {
            assert(samples@ =~= self@.window(buffer_len as nat));
        }
        samples
    }

    /// The first `min(length, buffer_len)` window elements with denormal
    /// magnitudes flushed to zero: the real parts handed to a frequency
    /// transform.
    pub fn get_flushed_samples(&self, length: usize, buffer_len: usize) -> (r: Vec<u32>)
        requires
            self@.valid_for(buffer_len as nat),
        ensures
            r@.len() == if length < buffer_len { length as int } else { buffer_len as int },
            forall|i: int| 0 <= i < r@.len() ==> r@[i] == spec_flush_denormal(
                self@.window(buffer_len as nat)[i]),
    {
        let count = if length < buffer_len {
            length
        } else {
            buffer_len
        };
        let mut samples: Vec<u32> = Vec::new();
        let mut i: usize = 0;
        while i < count
            invariant
                self@.valid_for(buffer_len as nat),
                count <= buffer_len,
                i <= count,
                samples@.len() == i,
                forall|j: int| 0 <= j < i ==> samples@[j] == spec_flush_denormal(
                    self@.window(buffer_len as nat)[j]),
            decreases count - i,
        {
            let s = match self.get_sample(i, buffer_len) {
                Some(s) => s,
                None => WORD_ZERO,
            };
            samples.push(crate::words::flush_denormal_bits(s));
            i = i + 1;
        }
        samples
    }

    /// Folds the cursor back into a (possibly smaller) logical length, so
    /// the ring is valid for `buffer_len` again after the length changed.
    pub fn wrap_cursor(&mut self, buffer_len: usize)
        requires
            buffer_len >= 1,
        ensures
            final(self)@.cells == old(self)@.cells,
            final(self)@.cursor == old(self)@.cursor % (buffer_len as nat),
            final(self)@.cursor < buffer_len,
    {
        self.write_index = self.write_index % buffer_len;
        proof {
            lemma_mod_division_less_than_divisor(old(self)@.cursor as int, buffer_len as int);
        }
    }

    /// Zeroes the cells in `[from, to)`: the owner clears reused cells when
    /// the logical length grows past a previously shrunken value, so stale
    /// samples are never presented as fresh ones.
    pub fn zero_range(&mut self, from: usize, to: usize)
        requires
            to <= old(self)@.cells.len(),
        ensures
            final(self)@.cells.len() == old(self)@.cells.len(),
            final(self)@.cursor == old(self)@.cursor,
            forall|i: int| from <= i < to ==> final(self)@.cells[i] == WORD_ZERO,
            forall|i: int| 0 <= i < final(self)@.cells.len() && !(from <= i < to)
                ==> final(self)@.cells[i] == old(self)@.cells[i],
    {
        let mut x: usize = from;
        while x < to
            invariant
                to <= self@.cells.len(),
                self@.cells.len() == old(self)@.cells.len(),
                self@.cursor == old(self)@.cursor,
                from <= x,
                x <= to || x == from,
                forall|i: int| from <= i < x ==> self@.cells[i] == WORD_ZERO,
                forall|i: int| 0 <= i < self@.cells.len() && !(from <= i < x)
                    ==> self@.cells[i] == old(self)@.cells[i],
            decreases to - x,
        {
            self.data.set(x, WORD_ZERO);
            x = x + 1;
        }
    }
}

} // verus!

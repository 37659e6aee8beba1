//! The channel sample store: one fixed-capacity ring per logical channel
//! (main, five aux sidechains, the beat-marker track and the running-sum
//! track), all sharing a single logical length.
//!
//! Every ring is allocated once at the hard maximum length, so changing the
//! logical length never reallocates; growing past a previously smaller
//! length zeroes the reused cells so stale samples are never presented as
//! fresh ones.

use vstd::prelude::*;
use vstd::arithmetic::div_mod::lemma_small_mod;

use crate::ring::{pushed, ring_push, ring_write, ChannelBuffer, RingView};
use crate::words::WORD_ZERO;

verus! {

/// Logical channels: main input, five aux sidechains, the beat-marker track
/// and the running-sum track.
pub const NUM_CHANNELS: usize = 8;

/// Hard maximum ring length in samples; bounds worst-case memory and lets
/// the length change without reallocating.
pub const MAX_BUFFER_LEN: usize = 48000;

/// Channel index of the main input.
pub const CHANNEL_MAIN: usize = 0;

/// Channel index of the beat-marker track.
pub const CHANNEL_BEAT: usize = 6;

/// Channel index of the running-sum track.
pub const CHANNEL_SUM: usize = 7;

/// Mathematical model of the store: one ring per channel plus the shared
/// logical length.
#[verifier::ext_equal]
pub struct StoreView {
    pub rings: Seq<RingView>,
    pub length: nat,
}

impl StoreView {
    /// Every channel ring is allocated at the hard maximum and valid for
    /// the shared logical length.
    pub open spec fn inv(self) -> bool {
        &&& self.rings.len() == NUM_CHANNELS
        &&& 1 <= self.length <= MAX_BUFFER_LEN
        &&& forall|ch: int| 0 <= ch < NUM_CHANNELS ==> (#[trigger] self.rings[ch]).cells.len()
            == MAX_BUFFER_LEN
        &&& forall|ch: int| 0 <= ch < NUM_CHANNELS ==> (#[trigger] self.rings[ch]).valid_for(
            self.length)
    }

    /// The chronological window of one channel, oldest sample first.
    pub open spec fn window(self, ch: int) -> Seq<u32> {
        self.rings[ch].window(self.length)
    }
}

/// The store after pushing one sample to one channel; an out-of-range
/// channel index changes nothing.
pub open spec fn store_push(v: StoreView, ch: int, sample: u32) -> StoreView {
    if 0 <= ch < NUM_CHANNELS {
        StoreView { rings: v.rings.update(ch, ring_push(v.rings[ch], sample, v.length)), ..v }
    } else {
        v
    }
}

/// The store after one batch entry `(channel, sample)` is pushed.
pub open spec fn store_push_entry(v: StoreView, entry: (usize, u32)) -> StoreView {
    store_push(v, entry.0 as int, entry.1)
}

/// The store after all batch entries from position `i` on are pushed in
/// order.
pub open spec fn store_push_batch(v: StoreView, batch: Seq<(usize, u32)>, i: int) -> StoreView
    decreases batch.len() - i,
{
    if i < 0 || i >= batch.len() {
        v
    } else {
        store_push_batch(store_push_entry(v, batch[i]), batch, i + 1)
    }
}

/// A requested logical length clamped into what the store accepts.
pub open spec fn spec_clamped_length(requested: int) -> int {
    if requested < 1 {
        1
    } else if requested > MAX_BUFFER_LEN {
        MAX_BUFFER_LEN as int
    } else {
        requested
    }
}

/// One ring after the store's logical length changed from `old_len` to
/// `new_len`: cells reused by growth are zeroed and the cursor is folded
/// back into the new length.
pub open spec fn ring_resized(r: RingView, old_len: nat, new_len: nat) -> RingView {
    RingView {
        cells: Seq::new(r.cells.len(), |i: int| if old_len <= i < new_len {
            WORD_ZERO
        } else {
            r.cells[i]
        }),
        cursor: (r.cursor as int % new_len as int) as nat,
    }
}

/// The store after its logical length is changed to the clamped requested
/// value.
pub open spec fn store_resized(v: StoreView, requested: int) -> StoreView {
    let clamped = spec_clamped_length(requested) as nat;
    StoreView {
        rings: Seq::new(v.rings.len(), |ch: int| ring_resized(v.rings[ch], v.length, clamped)),
        length: clamped,
    }
}

/// The store after overwriting the window element `index` of one channel;
/// out-of-range channels and out-of-window indices change nothing.
pub open spec fn store_write(v: StoreView, ch: int, index: int, sample: u32) -> StoreView {
    if 0 <= ch < NUM_CHANNELS {
        StoreView { rings: v.rings.update(ch, ring_write(v.rings[ch], index, sample, v.length)), ..v }
    } else {
        v
    }
}

/// Pushing preserves the store invariant and turns the pushed channel's
/// window into the old window with the oldest sample evicted and the new
/// one appended; other channels keep their windows.
pub proof fn lemma_store_push(v: StoreView, ch: int, sample: u32)
    requires
        v.inv(),
    ensures
        store_push(v, ch, sample).inv(),
        store_push(v, ch, sample).length == v.length,
        0 <= ch < NUM_CHANNELS ==> store_push(v, ch, sample).window(ch)
            == pushed(v.window(ch), sample),
        forall|other: int| 0 <= other < NUM_CHANNELS && other != ch
            ==> store_push(v, ch, sample).window(other) == v.window(other),
{
    if 0 <= ch < NUM_CHANNELS {
        crate::ring::lemma_ring_push_window(v.rings[ch], sample, v.length);
    }
}

/// Overwriting preserves the store invariant and updates exactly the one
/// window element it names, when that element exists.
pub proof fn lemma_store_write(v: StoreView, ch: int, index: int, sample: u32)
    requires
        v.inv(),
    ensures
        store_write(v, ch, index, sample).inv(),
        store_write(v, ch, index, sample).length == v.length,
        0 <= ch < NUM_CHANNELS && 0 <= index < v.length ==> store_write(v, ch, index, sample)
            .window(ch) == v.window(ch).update(index, sample),
        !(0 <= ch < NUM_CHANNELS && 0 <= index < v.length) ==> store_write(v, ch, index, sample)
            == v,
        forall|other: int| 0 <= other < NUM_CHANNELS && other != ch
            ==> store_write(v, ch, index, sample).window(other) == v.window(other),
{
    if 0 <= ch < NUM_CHANNELS {
        crate::ring::lemma_ring_write_window(v.rings[ch], index, sample, v.length);
        if !(0 <= index < v.length) {
            assert(store_write(v, ch, index, sample).rings =~= v.rings);
        }
    }
}

/// In-place overwrite bounds: overwriting at an index at or past the
/// current length changes nothing at all — no cell, no cursor — so a stale
/// in-place cursor can never corrupt the store, and a later read of any
/// window is unaffected.
pub proof fn lemma_overwrite_out_of_window(v: StoreView, ch: int, index: int, sample: u32)
    requires
        v.inv(),
        index >= v.length,
    ensures
        store_write(v, ch, index, sample) == v,
{
    lemma_store_write(v, ch, index, sample);
}

/// One mutation of the store, as the capture controller and the
/// presentation side perform them.
pub enum StoreOp {
    Push(usize, u32),
    Overwrite(usize, usize, u32),
    Resize(usize),
}

/// The store after one mutation.
pub open spec fn apply_store_op(v: StoreView, op: StoreOp) -> StoreView {
    match op {
        StoreOp::Push(ch, sample) => store_push(v, ch as int, sample),
        StoreOp::Overwrite(ch, index, sample) => store_write(v, ch as int, index as int,
            sample),
        StoreOp::Resize(requested) => store_resized(v, requested as int),
    }
}

/// The store after the mutations from position `i` on are applied in
/// order.
pub open spec fn apply_store_ops(v: StoreView, ops: Seq<StoreOp>, i: int) -> StoreView
    decreases ops.len() - i,
{
    if i < 0 || i >= ops.len() {
        v
    } else {
        apply_store_ops(apply_store_op(v, ops[i]), ops, i + 1)
    }
}

/// Changing the logical length preserves the store invariant: every ring
/// keeps its pre-allocated cell count and its cursor lands inside the new
/// length.
pub proof fn lemma_store_resized_inv(v: StoreView, requested: int)
    requires
        v.inv(),
    ensures
        store_resized(v, requested).inv(),
        store_resized(v, requested).length == spec_clamped_length(requested),
{
    let clamped = spec_clamped_length(requested);
    assert forall|ch: int| 0 <= ch < NUM_CHANNELS implies (#[trigger] store_resized(v,
        requested).rings[ch]).valid_for(clamped as nat) by {
        vstd::arithmetic::div_mod::lemma_mod_bound(v.rings[ch].cursor as int, clamped);
    }
}

/// Resize safety: any interleaving of pushes, in-place overwrites and
/// length changes — shrinking, growing, in any order — keeps the store
/// invariant. In particular every ring keeps exactly its pre-allocated
/// maximum cell count (no reallocation, no out-of-bounds cell), and every
/// window element stays a defined cell value.
pub proof fn lemma_resize_safety(v: StoreView, ops: Seq<StoreOp>, i: int)
    requires
        v.inv(),
    ensures
        apply_store_ops(v, ops, i).inv(),
    decreases ops.len() - i,
{
    if 0 <= i < ops.len() {
        match ops[i] {
            StoreOp::Push(ch, sample) => lemma_store_push(v, ch as int, sample),
            StoreOp::Overwrite(ch, index, sample) => lemma_store_write(v, ch as int,
                index as int, sample),
            StoreOp::Resize(requested) => lemma_store_resized_inv(v, requested as int),
        }
        lemma_resize_safety(apply_store_op(v, ops[i]), ops, i + 1);
    }
}

/// Fixed-capacity sample storage for all logical channels, written by the
/// capture controller and read back by the presentation side.
pub struct SampleStore {
    channels: Vec<ChannelBuffer>,
    length: usize,
}

impl View for SampleStore {
    type V = StoreView;

    closed spec fn view(&self) -> StoreView {
        StoreView {
            rings: Seq::new(self.channels@.len(), |ch: int| self.channels@[ch]@),
            length: self.length as nat,
        }
    }
}

impl SampleStore {
    /// A fresh store whose logical length is `size` clamped into
    /// `[1, MAX_BUFFER_LEN]`; every channel window starts out all zero.
    pub fn new(size: usize) -> (r: Self)
        ensures
            r@.inv(),
            r@.length == if size < 1 {
                1int
            } else if size > MAX_BUFFER_LEN {
                MAX_BUFFER_LEN as int
            } else {
                size as int
            },
            forall|ch: int, i: int| 0 <= ch < NUM_CHANNELS && 0 <= i < r@.length
                ==> #[trigger] r@.window(ch)[i] == WORD_ZERO,
    {
        let clamped = if size < 1 {
            1
        } else if size > MAX_BUFFER_LEN {
            MAX_BUFFER_LEN
        } else {
            size
        };
        let mut channels: Vec<ChannelBuffer> = Vec::new();
        while channels.len() < NUM_CHANNELS
            invariant
                channels@.len() <= NUM_CHANNELS,
                forall|ch: int| 0 <= ch < channels@.len() ==> {
                    &&& (#[trigger] channels@[ch]@).cells.len() == MAX_BUFFER_LEN
                    &&& channels@[ch]@.cursor == 0
                    &&& forall|i: int| 0 <= i < MAX_BUFFER_LEN
                        ==> channels@[ch]@.cells[i] == WORD_ZERO
                },
            decreases NUM_CHANNELS - channels.len(),
        {
            channels.push(ChannelBuffer::new(MAX_BUFFER_LEN));
        }
        let r = SampleStore { channels, length: clamped };
        proof {
            assert forall|ch: int, i: int| 0 <= ch < NUM_CHANNELS && 0 <= i < r@.length
                implies #[trigger] r@.window(ch)[i] == WORD_ZERO by {
                vstd::arithmetic::div_mod::lemma_mod_division_less_than_divisor(
                    i, r@.length as int);
                lemma_small_mod(i as nat, r@.length);
            }
        }
        r
    }

    /// The current logical length in samples.
    pub fn length(&self) -> (r: usize)
        ensures
            r == self@.length,
    {
        self.length
    }

    /// Pushes a batch of `(channel, sample)` pairs in order; entries naming
    /// a channel outside the store are skipped.
    pub fn push_samples(&mut self, batch: &Vec<(usize, u32)>)
        requires
            old(self)@.inv(),
        ensures
            final(self)@.inv(),
            final(self)@ == store_push_batch(old(self)@, batch@, 0),
    {
        let ghost pre = self@;
        let mut i: usize = 0;
        while i < batch.len()
            invariant
                pre.inv(),
                self@.inv(),
                self@.length == pre.length,
                i <= batch@.len(),
                store_push_batch(pre, batch@, 0) == store_push_batch(self@, batch@, i as int),
            decreases batch.len() - i,
        {
            let (ch, sample) = batch[i];
            let ghost mid = self@;
            if ch < NUM_CHANNELS {
                let buffer_len = self.length;
                let target = &mut self.channels[ch];
                proof {
                    assert(mid.rings[ch as int].valid_for(mid.length));
                }
                target.push_sample(sample, buffer_len);
                proof {
                    lemma_store_push(mid, ch as int, sample);
                    assert(self@.rings =~= store_push(mid, ch as int, sample).rings);
                }
            } else {
                proof {
                    assert(store_push_entry(mid, batch@[i as int]) == mid);
                }
            }
            i = i + 1;
        }
    }

    /// Pushes one sample to one channel; a channel outside the store is
    /// skipped.
    pub fn push_sample(&mut self, channel: usize, sample: u32)
        requires
            old(self)@.inv(),
        ensures
            final(self)@.inv(),
            final(self)@ == store_push(old(self)@, channel as int, sample),
    {
        let ghost pre = self@;
        if channel < NUM_CHANNELS {
            let buffer_len = self.length;
            let target = &mut self.channels[channel];
            proof {
                assert(pre.rings[channel as int].valid_for(pre.length));
            }
            target.push_sample(sample, buffer_len);
            proof {
                lemma_store_push(pre, channel as int, sample);
                assert(self@.rings =~= store_push(pre, channel as int, sample).rings);
            }
        }
    }

    /// Overwrites the window element at logical `index` of one channel; an
    /// out-of-range channel or an index outside the current window is a
    /// silent no-op, never a panic.
    pub fn update_sample(&mut self, channel: usize, index: usize, sample: u32)
        requires
            old(self)@.inv(),
        ensures
            final(self)@.inv(),
            final(self)@ == store_write(old(self)@, channel as int, index as int, sample),
    {
        let ghost pre = self@;
        if channel < NUM_CHANNELS {
            let buffer_len = self.length;
            let target = &mut self.channels[channel];
            proof {
                assert(pre.rings[channel as int].valid_for(pre.length));
            }
            target.update_sample(index, sample, buffer_len);
            proof {
                lemma_store_write(pre, channel as int, index as int, sample);
                assert(self@.rings =~= store_write(pre, channel as int, index as int,
                    sample).rings);
            }
        }
    }

    /// The window element at logical `index` of one channel, or `None` when
    /// the channel or the index is out of range.
    pub fn get_sample(&self, channel: usize, index: usize) -> (r: Option<u32>)
        requires
            self@.inv(),
        ensures
            channel < NUM_CHANNELS && index < self@.length ==> r == Some(
                self@.window(channel as int)[index as int]),
            !(channel < NUM_CHANNELS && index < self@.length) ==> r is None,
    {
        if channel >= NUM_CHANNELS {
            return None;
        }
        proof {
            assert(self@.rings[channel as int].valid_for(self@.length));
        }
        self.channels[channel].get_sample(index, self.length)
    }

    /// A copy of one channel's window, oldest sample first; a channel
    /// outside the store yields an empty result rather than an error.
    pub fn get_samples(&self, channel: usize) -> (r: Vec<u32>)
        requires
            self@.inv(),
        ensures
            channel < NUM_CHANNELS ==> r@ == self@.window(channel as int),
            channel >= NUM_CHANNELS ==> r@ == Seq::<u32>::empty(),
    {
        if channel >= NUM_CHANNELS {
            let r: Vec<u32> = Vec::new();
            proof {
                assert(r@ =~= Seq::<u32>::empty());
            }
            return r;
        }
        proof {
            assert(self@.rings[channel as int].valid_for(self@.length));
        }
        self.channels[channel].get_samples(self.length)
    }

    /// The first `min(length, window length)` window elements of one
    /// channel with denormals flushed to zero, ready to become the real
    /// parts of a frequency-transform input; empty for a channel outside
    /// the store.
    pub fn get_flushed_samples_with_length(&self, channel: usize, length: usize) -> (r: Vec<
        u32>)
        requires
            self@.inv(),
        ensures
            channel >= NUM_CHANNELS ==> r@ == Seq::<u32>::empty(),
            channel < NUM_CHANNELS ==> {
                &&& r@.len() == if length < self@.length {
                    length as int
                } else {
                    self@.length as int
                }
                &&& forall|i: int| 0 <= i < r@.len() ==> r@[i]
                    == crate::words::spec_flush_denormal(self@.window(channel as int)[i])
            },
    {
        if channel >= NUM_CHANNELS {
            let r: Vec<u32> = Vec::new();
            proof {
                assert(r@ =~= Seq::<u32>::empty());
            }
            return r;
        }
        proof {
            assert(self@.rings[channel as int].valid_for(self@.length));
        }
        self.channels[channel].get_flushed_samples(length, self.length)
    }

    /// Changes the logical length, clamped into `[1, MAX_BUFFER_LEN]`,
    /// without reallocating. Cells reused by growth are zeroed first so a
    /// longer window never resurrects stale samples, and each cursor is
    /// folded back into the new length.
    pub fn update_internal_length(&mut self, new_length: usize)
        requires
            old(self)@.inv(),
        ensures
            final(self)@.inv(),
            final(self)@ == store_resized(old(self)@, new_length as int),
            final(self)@.length == spec_clamped_length(new_length as int),
    {
        let clamped = if new_length < 1 {
            1
        } else if new_length > MAX_BUFFER_LEN {
            MAX_BUFFER_LEN
        } else {
            new_length
        };
        let ghost pre = self@;
        let old_length = self.length;
        let mut ch: usize = 0;
        while ch < NUM_CHANNELS
            invariant
                pre.inv(),
                self.channels@.len() == NUM_CHANNELS,
                self.length == old_length,
                old_length as nat == pre.length,
                1 <= clamped <= MAX_BUFFER_LEN,
                ch <= NUM_CHANNELS,
                forall|c: int| ch <= c < NUM_CHANNELS ==> #[trigger] self.channels@[c]@
                    == pre.rings[c],
                forall|c: int| 0 <= c < ch ==> {
                    &&& (#[trigger] self.channels@[c]@).cells.len() == MAX_BUFFER_LEN
                    &&& self.channels@[c]@.cursor == pre.rings[c].cursor as int % clamped as int
                    &&& self.channels@[c]@.cursor < clamped
                    &&& forall|i: int| pre.length <= i < clamped
                        ==> self.channels@[c]@.cells[i] == WORD_ZERO
                    &&& forall|i: int| 0 <= i < MAX_BUFFER_LEN && !(pre.length <= i < clamped)
                        ==> self.channels@[c]@.cells[i] == pre.rings[c].cells[i]
                },
            decreases NUM_CHANNELS - ch,
        {
            let target = &mut self.channels[ch];
            let from = if old_length < clamped {
                old_length
            } else {
                clamped
            };
            target.zero_range(from, clamped);
            target.wrap_cursor(clamped);
            ch = ch + 1;
        }
        self.length = clamped;
        proof {
            assert forall|c: int| 0 <= c < NUM_CHANNELS implies self@.rings[c]
                =~= store_resized(pre, new_length as int).rings[c] by {
                assert(self.channels@[c]@.cells =~= ring_resized(pre.rings[c], pre.length,
                    clamped as nat).cells);
            }
            assert(self@ =~~= store_resized(pre, new_length as int));
        }
    }
}

} // verus!

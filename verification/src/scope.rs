//! The capture controller: owns the per-side sample stores and the capture
//! state, and orchestrates gate, synchronizer and store for every audio
//! block. The caller converts host data to plain values (sample words,
//! milli-beat positions, control flags), applies the visual gain and adds
//! up the sum terms; everything the controller itself decides and writes is
//! verified here.

use vstd::prelude::*;

use crate::frame::{
    spec_group_clips, spec_visual, group_clips, visual_group, Controls, SampleGroup,
};
use crate::gate::{should_capture, spec_should_capture};
use crate::store::{
    spec_clamped_length, store_push, store_resized, store_write, SampleStore, StoreView,
    CHANNEL_BEAT, CHANNEL_SUM, MAX_BUFFER_LEN, NUM_CHANNELS,
};
use crate::sync::{spec_sync_decision, sync_decision, Transport};
use crate::words::{
    WORD_MARKER_NEG, WORD_MARKER_NEG_WIDE, WORD_MARKER_POS, WORD_MARKER_POS_WIDE, WORD_ZERO,
};

verus! {

/// How many redraw ticks the clipping indicator stays lit after an
/// over-threshold sample.
pub const CLIP_HOLD_TICKS: u32 = 120;

/// Hard maximum display time in milliseconds; with the sample rate it
/// bounds the pre-allocated capture length.
pub const MAX_DISPLAY_MS: u32 = 1000;

/// Capture-length formula used at initialization and on sample-rate
/// changes: the display time in milliseconds times the sample rate,
/// rounded up, capped by the hard maximum allocation.
pub open spec fn spec_calculate_buffer_size(sample_rate: int, max_display_ms: int) -> int {
    let exact = (sample_rate * max_display_ms + 999) / 1000;
    if exact > MAX_BUFFER_LEN {
        MAX_BUFFER_LEN as int
    } else {
        exact
    }
}

/// Computes the capture length in samples for a display time in
/// milliseconds at the given sample rate, capped by the pre-allocated
/// maximum.
pub fn calculate_buffer_size(sample_rate: u32, max_display_ms: u32) -> (r: usize)
    ensures
        r == spec_calculate_buffer_size(sample_rate as int, max_display_ms as int),
{
    proof {
        assert(sample_rate as int * max_display_ms as int <= 0xffff_ffff * 0xffff_ffff)
            by (nonlinear_arith)
            requires
                0 <= sample_rate as int <= 0xffff_ffff,
                0 <= max_display_ms as int <= 0xffff_ffff,
        {
        }
    }
    let exact = (sample_rate as u64 * max_display_ms as u64 + 999) / 1000;
    if exact > MAX_BUFFER_LEN as u64 {
        MAX_BUFFER_LEN
    } else {
        exact as usize
    }
}

/// Capture-length formula used by the presentation side on each redraw:
/// samples per millisecond (rounded down) times the display time, capped
/// by the pre-allocated maximum.
pub open spec fn spec_display_length(sample_rate: int, display_ms: int) -> int {
    let exact = (sample_rate / 1000) * display_ms;
    if exact > MAX_BUFFER_LEN {
        MAX_BUFFER_LEN as int
    } else {
        exact
    }
}

/// Computes the displayed capture length for the current sample rate and
/// the display-time setting.
pub fn display_length(sample_rate: u32, display_ms: u32) -> (r: usize)
    ensures
        r == spec_display_length(sample_rate as int, display_ms as int),
{
    proof {
        assert((sample_rate as int / 1000) * display_ms as int <= 0x500000 * 0xffff_ffff)
            by (nonlinear_arith)
            requires
                0 <= sample_rate as int / 1000 <= 0x500000,
                0 <= display_ms as int <= 0xffff_ffff,
        {
        }
    }
    let exact = (sample_rate as u64 / 1000) * display_ms as u64;
    if exact > MAX_BUFFER_LEN as u64 {
        MAX_BUFFER_LEN
    } else {
        exact as usize
    }
}

/// The capture state carried between blocks: the in-place cursor, the
/// boundary debounce counter and the clipping-hold countdown.
#[derive(Clone, Copy, PartialEq, Eq, Structural, Debug)]
pub struct CaptureState {
    /// Index into the logical window overwritten next in in-place mode;
    /// rewound to zero on each detected boundary.
    pub in_place_index: usize,
    /// Debounce counter of the synchronizer: nonzero while the boundary
    /// signal holds.
    pub beat_threshold: u32,
    /// Redraw ticks the clipping indicator stays lit.
    pub clip_hold: u32,
}

/// One redraw tick of the clipping-hold countdown: counts down to zero and
/// stays there.
pub open spec fn spec_clip_decay_step(hold: nat) -> nat {
    if hold > 0 {
        (hold - 1) as nat
    } else {
        0
    }
}

/// The clipping-hold countdown after `ticks` redraw ticks.
pub open spec fn spec_clip_decay(hold: nat, ticks: nat) -> nat
    decreases ticks,
{
    if ticks == 0 {
        hold
    } else {
        spec_clip_decay(spec_clip_decay_step(hold), (ticks - 1) as nat)
    }
}

/// Clipping-hold decay: starting from a countdown of `hold`, the indicator
/// stays lit for exactly `hold` redraw ticks and is dark from then on.
pub proof fn lemma_clip_hold_decay(hold: nat, ticks: nat)
    ensures
        spec_clip_decay(hold, ticks) > 0 <==> ticks < hold,
    decreases ticks,
{
    if ticks > 0 {
        lemma_clip_hold_decay(spec_clip_decay_step(hold), (ticks - 1) as nat);
    }
}

/// The whole oscilloscope core: one store per stereo side (mono uses only
/// the first) and the capture state, plus the sample rate the stores were
/// sized for.
pub struct Scrollscope {
    /// Sample store of the first (left, or mono) side.
    pub sample_buffer: SampleStore,
    /// Sample store of the second (right) side.
    pub sample_buffer_2: SampleStore,
    /// Capture state carried between blocks.
    pub state: CaptureState,
    /// Sample rate the stores are currently sized for, in Hz.
    pub sample_rate_hz: u32,
}

impl Scrollscope {
    /// Both stores satisfy their invariant and share one logical length.
    pub open spec fn wf(&self) -> bool {
        &&& self.sample_buffer@.inv()
        &&& self.sample_buffer_2@.inv()
        &&& self.sample_buffer@.length == self.sample_buffer_2@.length
    }

    /// Whether the clipping indicator is lit: an over-threshold sample was
    /// captured within the last `CLIP_HOLD_TICKS` redraw ticks.
    pub fn is_clipping(&self) -> (r: bool)
        ensures
            r == (self.state.clip_hold > 0),
    {
        self.state.clip_hold > 0
    }

    /// One redraw tick: counts the clipping hold down by one, to zero at
    /// the lowest.
    pub fn redraw_tick(&mut self)
        ensures
            final(self).state.clip_hold as nat == spec_clip_decay_step(
                old(self).state.clip_hold as nat),
            final(self).state.in_place_index == old(self).state.in_place_index,
            final(self).state.beat_threshold == old(self).state.beat_threshold,
            final(self).sample_buffer == old(self).sample_buffer,
            final(self).sample_buffer_2 == old(self).sample_buffer_2,
            final(self).sample_rate_hz == old(self).sample_rate_hz,
    {
        if self.state.clip_hold > 0 {
            self.state.clip_hold = self.state.clip_hold - 1;
        }
    }

    /// Adopts a new sample rate: remembers it and resizes both stores to
    /// the capture length it implies at the maximum display time.
    pub fn initialize(&mut self, sample_rate: u32)
        requires
            old(self).wf(),
        ensures
            final(self).wf(),
            final(self).sample_rate_hz == sample_rate,
            final(self).state == old(self).state,
            final(self).sample_buffer@ == store_resized(old(self).sample_buffer@,
                spec_calculate_buffer_size(sample_rate as int, MAX_DISPLAY_MS as int)),
            final(self).sample_buffer_2@ == store_resized(old(self).sample_buffer_2@,
                spec_calculate_buffer_size(sample_rate as int, MAX_DISPLAY_MS as int)),
            final(self).sample_buffer@.length == spec_clamped_length(
                spec_calculate_buffer_size(sample_rate as int, MAX_DISPLAY_MS as int)),
            final(self).sample_buffer_2@.length == final(self).sample_buffer@.length,
    {
        self.sample_rate_hz = sample_rate;
        let buffer_size = calculate_buffer_size(sample_rate, MAX_DISPLAY_MS);
        self.sample_buffer.update_internal_length(buffer_size);
        self.sample_buffer_2.update_internal_length(buffer_size);
    }

    /// Changes both stores' logical length, as the presentation side does
    /// when the capture-length setting or the sample rate changed.
    pub fn set_display_length(&mut self, new_length: usize)
        requires
            old(self).wf(),
        ensures
            final(self).wf(),
            final(self).state == old(self).state,
            final(self).sample_rate_hz == old(self).sample_rate_hz,
            final(self).sample_buffer@ == store_resized(old(self).sample_buffer@,
                new_length as int),
            final(self).sample_buffer_2@ == store_resized(old(self).sample_buffer_2@,
                new_length as int),
            final(self).sample_buffer@.length == spec_clamped_length(new_length as int),
            final(self).sample_buffer_2@.length == final(self).sample_buffer@.length,
    {
        self.sample_buffer.update_internal_length(new_length);
        self.sample_buffer_2.update_internal_length(new_length);
    }
}

/// The upward beat-marker word for the current view mode.
pub open spec fn spec_marker_pos(wide: bool) -> u32 {
    if wide {
        WORD_MARKER_POS_WIDE
    } else {
        WORD_MARKER_POS
    }
}

/// The downward beat-marker word for the current view mode.
pub open spec fn spec_marker_neg(wide: bool) -> u32 {
    if wide {
        WORD_MARKER_NEG_WIDE
    } else {
        WORD_MARKER_NEG
    }
}

/// The in-place cursor after one captured tick: advances by one, held at
/// the hard maximum once past every possible window.
pub open spec fn spec_advance_cursor(ipi: nat) -> nat {
    if ipi < MAX_BUFFER_LEN {
        ipi + 1
    } else {
        ipi
    }
}

/// The first side's store after one captured in-place tick: the visual
/// samples overwrite window element `ipi` of their channels, the marker
/// channel gets the spike pair (when one is pending) or the zero word, and
/// the sum channel gets the caller's sum word. Out-of-window cursors make
/// every write a no-op.
pub open spec fn spec_in_place_left(
    v: StoreView,
    vis: SampleGroup,
    sum: u32,
    ipi: int,
    marker: bool,
    wide: bool,
) -> StoreView {
    let v0 = store_write(v, 0, ipi, vis.main);
    let v1 = store_write(v0, 1, ipi, vis.aux1);
    let v2 = store_write(v1, 2, ipi, vis.aux2);
    let v3 = store_write(v2, 3, ipi, vis.aux3);
    let v4 = store_write(v3, 4, ipi, vis.aux4);
    let v5 = store_write(v4, 5, ipi, vis.aux5);
    let v6 = if marker {
        let va = store_write(v5, CHANNEL_BEAT as int, ipi, spec_marker_pos(wide));
        if ipi > 0 {
            store_write(va, CHANNEL_BEAT as int, ipi - 1, spec_marker_neg(wide))
        } else {
            store_write(va, CHANNEL_BEAT as int, ipi + 1, spec_marker_neg(wide))
        }
    } else {
        store_write(v5, CHANNEL_BEAT as int, ipi, WORD_ZERO)
    };
    store_write(v6, CHANNEL_SUM as int, ipi, sum)
}

/// The second side's store after one captured in-place tick: data and sum
/// channels only; the marker track lives in the first store.
pub open spec fn spec_in_place_right(v: StoreView, vis: SampleGroup, sum: u32, ipi: int)
    -> StoreView {
    let v0 = store_write(v, 0, ipi, vis.main);
    let v1 = store_write(v0, 1, ipi, vis.aux1);
    let v2 = store_write(v1, 2, ipi, vis.aux2);
    let v3 = store_write(v2, 3, ipi, vis.aux3);
    let v4 = store_write(v3, 4, ipi, vis.aux4);
    let v5 = store_write(v4, 5, ipi, vis.aux5);
    store_write(v5, CHANNEL_SUM as int, ipi, sum)
}

/// The first side's store after one captured scrolling tick: the marker
/// channel first receives the spike pair (when one is pending) or one zero
/// word, then each visual sample and the sum word are appended to their
/// channels.
pub open spec fn spec_scroll_left(
    v: StoreView,
    vis: SampleGroup,
    sum: u32,
    marker: bool,
    wide: bool,
) -> StoreView {
    let v6 = if marker {
        store_push(store_push(v, CHANNEL_BEAT as int, spec_marker_pos(wide)),
            CHANNEL_BEAT as int, spec_marker_neg(wide))
    } else {
        store_push(v, CHANNEL_BEAT as int, WORD_ZERO)
    };
    let v0 = store_push(v6, 0, vis.main);
    let v1 = store_push(v0, 1, vis.aux1);
    let v2 = store_push(v1, 2, vis.aux2);
    let v3 = store_push(v2, 3, vis.aux3);
    let v4 = store_push(v3, 4, vis.aux4);
    let v5 = store_push(v4, 5, vis.aux5);
    store_push(v5, CHANNEL_SUM as int, sum)
}

/// The second side's store after one captured scrolling tick: data and sum
/// channels only.
pub open spec fn spec_scroll_right(v: StoreView, vis: SampleGroup, sum: u32) -> StoreView {
    let v0 = store_push(v, 0, vis.main);
    let v1 = store_push(v0, 1, vis.aux1);
    let v2 = store_push(v1, 2, vis.aux2);
    let v3 = store_push(v2, 3, vis.aux3);
    let v4 = store_push(v3, 4, vis.aux4);
    let v5 = store_push(v4, 5, vis.aux5);
    store_push(v5, CHANNEL_SUM as int, sum)
}

impl Default for Scrollscope {
    /// A scope sized for a 44.1 kHz host with the maximum display time,
    /// with cleared capture state.
    fn default() -> (r: Self)
        ensures
            r.wf(),
            r.sample_rate_hz == 44100,
            r.state == (CaptureState { in_place_index: 0usize, beat_threshold: 0u32,
                clip_hold: 0u32 }),
            r.sample_buffer@.length == spec_calculate_buffer_size(44100, MAX_DISPLAY_MS as int),
            r.sample_buffer_2@.length == r.sample_buffer@.length,
            forall|ch: int, i: int| 0 <= ch < NUM_CHANNELS && 0 <= i < r.sample_buffer@.length
                ==> #[trigger] r.sample_buffer@.window(ch)[i] == WORD_ZERO,
            forall|ch: int, i: int| 0 <= ch < NUM_CHANNELS && 0 <= i < r.sample_buffer@.length
                ==> #[trigger] r.sample_buffer_2@.window(ch)[i] == WORD_ZERO,
    {
        let initial = calculate_buffer_size(44100, MAX_DISPLAY_MS);
        Scrollscope {
            sample_buffer: SampleStore::new(initial),
            sample_buffer_2: SampleStore::new(initial),
            state: CaptureState { in_place_index: 0, beat_threshold: 0, clip_hold: 0 },
            sample_rate_hz: 44100,
        }
    }
}

/// What one tick hands the controller: the first side's raw and scaled
/// samples with their sum word, and the second side's triple in stereo.
pub struct TickInput {
    pub raw_l: SampleGroup,
    pub scaled_l: SampleGroup,
    pub sum_l: u32,
    pub right: Option<(SampleGroup, SampleGroup, u32)>,
}

/// The state one oscilloscope tick transforms: both store models, the
/// in-place cursor, the clipping hold, the pending beat marker and the
/// block-local sample ordinal.
#[verifier::ext_equal]
pub struct TickState {
    pub left: StoreView,
    pub right: StoreView,
    pub in_place_index: nat,
    pub clip_hold: nat,
    pub marker_pending: bool,
    pub ordinal: nat,
}

/// One oscilloscope tick. A tick the decimation gate skips only advances
/// the ordinal. A captured tick forms the visual samples, lights the
/// clipping hold if any of them clips, dispatches every channel to the
/// store for the block's mode (`in_place` comes from the synchronizer and
/// is false while sync is off or the transport reports no data), consumes
/// a pending beat marker, and in in-place mode advances the cursor once
/// for the whole tick — unless `hold` keeps capture frozen at the window
/// start while the transport is stopped.
pub open spec fn spec_osc_tick(
    s: TickState,
    inp: TickInput,
    c: Controls,
    in_place: bool,
    hold: bool,
) -> TickState {
    if !spec_should_capture(s.ordinal as int, c.skip_factor as int) {
        TickState { ordinal: s.ordinal + 1, ..s }
    } else {
        let vis_l = spec_visual(inp.raw_l, inp.scaled_l);
        let clips = spec_group_clips(vis_l) || match inp.right {
            Some((raw_r, scaled_r, _)) => spec_group_clips(spec_visual(raw_r, scaled_r)),
            None => false,
        };
        let left1 = if in_place {
            spec_in_place_left(s.left, vis_l, inp.sum_l, s.in_place_index as int,
                s.marker_pending, c.stereo_view)
        } else {
            spec_scroll_left(s.left, vis_l, inp.sum_l, s.marker_pending, c.stereo_view)
        };
        let right1 = match inp.right {
            Some((raw_r, scaled_r, sum_r)) => {
                let vis_r = spec_visual(raw_r, scaled_r);
                if in_place {
                    spec_in_place_right(s.right, vis_r, sum_r, s.in_place_index as int)
                } else {
                    spec_scroll_right(s.right, vis_r, sum_r)
                }
            },
            None => s.right,
        };
        TickState {
            left: left1,
            right: right1,
            in_place_index: if in_place && !hold {
                spec_advance_cursor(s.in_place_index)
            } else {
                s.in_place_index
            },
            clip_hold: if clips {
                CLIP_HOLD_TICKS as nat
            } else {
                s.clip_hold
            },
            marker_pending: false,
            ordinal: s.ordinal + 1,
        }
    }
}

/// The state after the ticks from position `i` on are processed in order.
pub open spec fn spec_osc_run(
    s: TickState,
    inputs: Seq<TickInput>,
    c: Controls,
    in_place: bool,
    hold: bool,
    i: int,
) -> TickState
    decreases inputs.len() - i,
{
    if i < 0 || i >= inputs.len() {
        s
    } else {
        spec_osc_run(spec_osc_tick(s, inputs[i], c, in_place, hold), inputs, c, in_place,
            hold, i + 1)
    }
}

/// The per-tick inputs of a block, assembled from the per-side sample and
/// sum sequences; the second side is present when its sequences are
/// non-empty.
pub open spec fn spec_block_inputs(
    left_raw: Seq<SampleGroup>,
    left_scaled: Seq<SampleGroup>,
    left_sums: Seq<u32>,
    right_raw: Seq<SampleGroup>,
    right_scaled: Seq<SampleGroup>,
    right_sums: Seq<u32>,
) -> Seq<TickInput> {
    Seq::new(left_raw.len(), |t: int| TickInput {
        raw_l: left_raw[t],
        scaled_l: left_scaled[t],
        sum_l: left_sums[t],
        right: if right_raw.len() > 0 {
            Some((right_raw[t], right_scaled[t], right_sums[t]))
        } else {
            None
        },
    })
}

/// One side's store after one captured analyzer tick: the visual samples
/// are appended to the six data channels; the marker and sum tracks are
/// not fed in analyzer mode.
pub open spec fn spec_analyzer_push(v: StoreView, vis: SampleGroup) -> StoreView {
    let v0 = store_push(v, 0, vis.main);
    let v1 = store_push(v0, 1, vis.aux1);
    let v2 = store_push(v1, 2, vis.aux2);
    let v3 = store_push(v2, 3, vis.aux3);
    let v4 = store_push(v3, 4, vis.aux4);
    store_push(v4, 5, vis.aux5)
}

/// One analyzer tick: the decimation gate and the clipping check work as
/// in oscilloscope mode, but captured samples always scroll into the data
/// channels; sync state and marker track are untouched.
pub open spec fn spec_ana_tick(s: TickState, inp: TickInput, c: Controls) -> TickState {
    if !spec_should_capture(s.ordinal as int, c.skip_factor as int) {
        TickState { ordinal: s.ordinal + 1, ..s }
    } else {
        let vis_l = spec_visual(inp.raw_l, inp.scaled_l);
        let clips = spec_group_clips(vis_l) || match inp.right {
            Some((raw_r, scaled_r, _)) => spec_group_clips(spec_visual(raw_r, scaled_r)),
            None => false,
        };
        TickState {
            left: spec_analyzer_push(s.left, vis_l),
            right: match inp.right {
                Some((raw_r, scaled_r, _)) => spec_analyzer_push(s.right,
                    spec_visual(raw_r, scaled_r)),
                None => s.right,
            },
            clip_hold: if clips {
                CLIP_HOLD_TICKS as nat
            } else {
                s.clip_hold
            },
            ordinal: s.ordinal + 1,
            ..s
        }
    }
}

/// The state after the analyzer ticks from position `i` on are processed.
pub open spec fn spec_ana_run(s: TickState, inputs: Seq<TickInput>, c: Controls, i: int)
    -> TickState
    decreases inputs.len() - i,
{
    if i < 0 || i >= inputs.len() {
        s
    } else {
        spec_ana_run(spec_ana_tick(s, inputs[i], c), inputs, c, i + 1)
    }
}

impl Scrollscope {
    /// Processes one captured oscilloscope tick: forms the visual samples,
    /// lights the clipping hold on any over-threshold sample, dispatches
    /// both sides to their stores in the block's mode, and advances the
    /// in-place cursor unless it is held for a stopped transport.
    fn capture_tick(
        &mut self,
        raw_l: SampleGroup,
        scaled_l: SampleGroup,
        sum_l: u32,
        right: Option<(SampleGroup, SampleGroup, u32)>,
        in_place: bool,
        hold: bool,
        wide: bool,
        marker: bool,
    )
        requires
            old(self).wf(),
        ensures
            final(self).wf(),
            final(self).sample_buffer@ == if in_place {
                spec_in_place_left(old(self).sample_buffer@, spec_visual(raw_l, scaled_l),
                    sum_l, old(self).state.in_place_index as int, marker, wide)
            } else {
                spec_scroll_left(old(self).sample_buffer@, spec_visual(raw_l, scaled_l),
                    sum_l, marker, wide)
            },
            final(self).sample_buffer_2@ == match right {
                Some((raw_r, scaled_r, sum_r)) => if in_place {
                    spec_in_place_right(old(self).sample_buffer_2@,
                        spec_visual(raw_r, scaled_r), sum_r,
                        old(self).state.in_place_index as int)
                } else {
                    spec_scroll_right(old(self).sample_buffer_2@,
                        spec_visual(raw_r, scaled_r), sum_r)
                },
                None => old(self).sample_buffer_2@,
            },
            final(self).state.in_place_index as nat == if in_place && !hold {
                spec_advance_cursor(old(self).state.in_place_index as nat)
            } else {
                old(self).state.in_place_index as nat
            },
            final(self).state.clip_hold == if spec_group_clips(spec_visual(raw_l, scaled_l))
                || match right {
                Some((raw_r, scaled_r, _)) => spec_group_clips(spec_visual(raw_r, scaled_r)),
                None => false,
            } {
                CLIP_HOLD_TICKS
            } else {
                old(self).state.clip_hold
            },
            final(self).state.beat_threshold == old(self).state.beat_threshold,
            final(self).sample_rate_hz == old(self).sample_rate_hz,
    {
        let vis_l = visual_group(&raw_l, &scaled_l);
        let mut clips = group_clips(&vis_l);
        let vis_right: Option<(SampleGroup, u32)> = match right {
            Some((raw_r, scaled_r, sum_r)) => {
                let vis_r = visual_group(&raw_r, &scaled_r);
                clips = clips || group_clips(&vis_r);
                Some((vis_r, sum_r))
            },
            None => None,
        };
        if clips {
            self.state.clip_hold = CLIP_HOLD_TICKS;
        }
        if in_place {
            let ipi = self.state.in_place_index;
            self.sample_buffer.update_sample(0, ipi, vis_l.main);
            self.sample_buffer.update_sample(1, ipi, vis_l.aux1);
            self.sample_buffer.update_sample(2, ipi, vis_l.aux2);
            self.sample_buffer.update_sample(3, ipi, vis_l.aux3);
            self.sample_buffer.update_sample(4, ipi, vis_l.aux4);
            self.sample_buffer.update_sample(5, ipi, vis_l.aux5);
            if marker {
                let pos = if wide {
                    WORD_MARKER_POS_WIDE
                } else {
                    WORD_MARKER_POS
                };
                let neg = if wide {
                    WORD_MARKER_NEG_WIDE
                } else {
                    WORD_MARKER_NEG
                };
                self.sample_buffer.update_sample(CHANNEL_BEAT, ipi, pos);
                if ipi > 0 {
                    self.sample_buffer.update_sample(CHANNEL_BEAT, ipi - 1, neg);
                } else {
                    self.sample_buffer.update_sample(CHANNEL_BEAT, ipi + 1, neg);
                }
            } else {
                self.sample_buffer.update_sample(CHANNEL_BEAT, ipi, WORD_ZERO);
            }
            self.sample_buffer.update_sample(CHANNEL_SUM, ipi, sum_l);
            match vis_right {
                Some((vis_r, sum_r)) => {
                    self.sample_buffer_2.update_sample(0, ipi, vis_r.main);
                    self.sample_buffer_2.update_sample(1, ipi, vis_r.aux1);
                    self.sample_buffer_2.update_sample(2, ipi, vis_r.aux2);
                    self.sample_buffer_2.update_sample(3, ipi, vis_r.aux3);
                    self.sample_buffer_2.update_sample(4, ipi, vis_r.aux4);
                    self.sample_buffer_2.update_sample(5, ipi, vis_r.aux5);
                    self.sample_buffer_2.update_sample(CHANNEL_SUM, ipi, sum_r);
                },
                None => {},
            }
            if !hold && self.state.in_place_index < MAX_BUFFER_LEN {
                self.state.in_place_index = self.state.in_place_index + 1;
            }
        } else {
            if marker {
                let pos = if wide {
                    WORD_MARKER_POS_WIDE
                } else {
                    WORD_MARKER_POS
                };
                let neg = if wide {
                    WORD_MARKER_NEG_WIDE
                } else {
                    WORD_MARKER_NEG
                };
                self.sample_buffer.push_sample(CHANNEL_BEAT, pos);
                self.sample_buffer.push_sample(CHANNEL_BEAT, neg);
            } else {
                self.sample_buffer.push_sample(CHANNEL_BEAT, WORD_ZERO);
            }
            self.sample_buffer.push_sample(0, vis_l.main);
            self.sample_buffer.push_sample(1, vis_l.aux1);
            self.sample_buffer.push_sample(2, vis_l.aux2);
            self.sample_buffer.push_sample(3, vis_l.aux3);
            self.sample_buffer.push_sample(4, vis_l.aux4);
            self.sample_buffer.push_sample(5, vis_l.aux5);
            self.sample_buffer.push_sample(CHANNEL_SUM, sum_l);
            match vis_right {
                Some((vis_r, sum_r)) => {
                    self.sample_buffer_2.push_sample(0, vis_r.main);
                    self.sample_buffer_2.push_sample(1, vis_r.aux1);
                    self.sample_buffer_2.push_sample(2, vis_r.aux2);
                    self.sample_buffer_2.push_sample(3, vis_r.aux3);
                    self.sample_buffer_2.push_sample(4, vis_r.aux4);
                    self.sample_buffer_2.push_sample(5, vis_r.aux5);
                    self.sample_buffer_2.push_sample(CHANNEL_SUM, sum_r);
                },
                None => {},
            }
        }
    }

    /// Processes one audio block in oscilloscope mode: takes the
    /// synchronizer's decision once for the block (choosing in-place or
    /// scrolling dispatch, rewinding or holding the in-place cursor and
    /// arming the beat marker as it says), then runs the decimation gate
    /// and the capture dispatch over every tick.
    pub fn process_oscilloscope_block(
        &mut self,
        left_raw: &Vec<SampleGroup>,
        left_scaled: &Vec<SampleGroup>,
        left_sums: &Vec<u32>,
        right_raw: &Vec<SampleGroup>,
        right_scaled: &Vec<SampleGroup>,
        right_sums: &Vec<u32>,
        c: &Controls,
        t: &Transport,
    )
        requires
            old(self).wf(),
            left_scaled.len() == left_raw.len(),
            left_sums.len() == left_raw.len(),
            right_raw.len() == 0 || right_raw.len() == left_raw.len(),
            right_scaled.len() == right_raw.len(),
            right_sums.len() == right_raw.len(),
            left_raw.len() < 0x8000_0000,
        ensures
            final(self).wf(),
            ({
                let d = spec_sync_decision(c.sync_active, c.alt_sync, c.sync_timing,
                    old(self).state.beat_threshold, *t);
                let s0 = TickState {
                    left: old(self).sample_buffer@,
                    right: old(self).sample_buffer_2@,
                    in_place_index: if d.reset_cursor {
                        0
                    } else {
                        old(self).state.in_place_index as nat
                    },
                    clip_hold: old(self).state.clip_hold as nat,
                    marker_pending: d.add_beat_line,
                    ordinal: 0,
                };
                let sn = spec_osc_run(s0, spec_block_inputs(left_raw@, left_scaled@,
                    left_sums@, right_raw@, right_scaled@, right_sums@), *c, d.in_place,
                    d.hold_cursor, 0);
                &&& final(self).sample_buffer@ == sn.left
                &&& final(self).sample_buffer_2@ == sn.right
                &&& final(self).state.in_place_index as nat == sn.in_place_index
                &&& final(self).state.clip_hold as nat == sn.clip_hold
                &&& final(self).state.beat_threshold == d.beat_threshold
                &&& final(self).sample_rate_hz == old(self).sample_rate_hz
            }),
    {
        let d = sync_decision(c.sync_active, c.alt_sync, c.sync_timing,
            self.state.beat_threshold, t);
        self.state.beat_threshold = d.beat_threshold;
        if d.reset_cursor {
            self.state.in_place_index = 0;
        }
        let ghost inputs = spec_block_inputs(left_raw@, left_scaled@, left_sums@, right_raw@,
            right_scaled@, right_sums@);
        let ghost s0 = TickState {
            left: self.sample_buffer@,
            right: self.sample_buffer_2@,
            in_place_index: self.state.in_place_index as nat,
            clip_hold: self.state.clip_hold as nat,
            marker_pending: d.add_beat_line,
            ordinal: 0,
        };
        let stereo = right_raw.len() > 0;
        let n = left_raw.len();
        let mut marker = d.add_beat_line;
        let mut i: usize = 0;
        while i < n
            invariant
                self.wf(),
                n == left_raw@.len(),
                left_scaled@.len() == n,
                left_sums@.len() == n,
                stereo ==> right_raw@.len() == n && right_scaled@.len() == n
                    && right_sums@.len() == n,
                !stereo ==> right_raw@.len() == 0,
                n < 0x8000_0000,
                i <= n,
                inputs == spec_block_inputs(left_raw@, left_scaled@, left_sums@, right_raw@,
                    right_scaled@, right_sums@),
                inputs.len() == n,
                spec_osc_run(s0, inputs, *c, d.in_place, d.hold_cursor, 0)
                    == spec_osc_run(TickState {
                    left: self.sample_buffer@,
                    right: self.sample_buffer_2@,
                    in_place_index: self.state.in_place_index as nat,
                    clip_hold: self.state.clip_hold as nat,
                    marker_pending: marker,
                    ordinal: i as nat,
                }, inputs, *c, d.in_place, d.hold_cursor, i as int),
                self.state.beat_threshold == d.beat_threshold,
                self.sample_rate_hz == old(self).sample_rate_hz,
            decreases n - i,
        {
            let ghost cur = TickState {
                left: self.sample_buffer@,
                right: self.sample_buffer_2@,
                in_place_index: self.state.in_place_index as nat,
                clip_hold: self.state.clip_hold as nat,
                marker_pending: marker,
                ordinal: i as nat,
            };
            let captured = should_capture(i as i32, c.skip_factor);
            if captured {
                let right_opt: Option<(SampleGroup, SampleGroup, u32)> = if stereo {
                    Some((right_raw[i], right_scaled[i], right_sums[i]))
                } else {
                    None
                };
                self.capture_tick(left_raw[i], left_scaled[i], left_sums[i], right_opt,
                    d.in_place, d.hold_cursor, c.stereo_view, marker);
                marker = false;
            }
            proof {
                let next = TickState {
                    left: self.sample_buffer@,
                    right: self.sample_buffer_2@,
                    in_place_index: self.state.in_place_index as nat,
                    clip_hold: self.state.clip_hold as nat,
                    marker_pending: marker,
                    ordinal: (i + 1) as nat,
                };
                assert(next =~= spec_osc_tick(cur, inputs[i as int], *c, d.in_place,
                    d.hold_cursor));
            }
            i = i + 1;
        }
    }

    /// Processes one captured analyzer tick: forms the visual samples,
    /// lights the clipping hold on any over-threshold sample, and appends
    /// both sides' samples to the data channels of their stores.
    fn analyzer_tick(
        &mut self,
        raw_l: SampleGroup,
        scaled_l: SampleGroup,
        right: Option<(SampleGroup, SampleGroup, u32)>,
    )
        requires
            old(self).wf(),
        ensures
            final(self).wf(),
            final(self).sample_buffer@ == spec_analyzer_push(old(self).sample_buffer@,
                spec_visual(raw_l, scaled_l)),
            final(self).sample_buffer_2@ == match right {
                Some((raw_r, scaled_r, _)) => spec_analyzer_push(old(self).sample_buffer_2@,
                    spec_visual(raw_r, scaled_r)),
                None => old(self).sample_buffer_2@,
            },
            final(self).state.clip_hold == if spec_group_clips(spec_visual(raw_l, scaled_l))
                || match right {
                Some((raw_r, scaled_r, _)) => spec_group_clips(spec_visual(raw_r, scaled_r)),
                None => false,
            } {
                CLIP_HOLD_TICKS
            } else {
                old(self).state.clip_hold
            },
            final(self).state.in_place_index == old(self).state.in_place_index,
            final(self).state.beat_threshold == old(self).state.beat_threshold,
            final(self).sample_rate_hz == old(self).sample_rate_hz,
    {
        let vis_l = visual_group(&raw_l, &scaled_l);
        let mut clips = group_clips(&vis_l);
        let vis_right: Option<SampleGroup> = match right {
            Some((raw_r, scaled_r, _)) => {
                let vis_r = visual_group(&raw_r, &scaled_r);
                clips = clips || group_clips(&vis_r);
                Some(vis_r)
            },
            None => None,
        };
        if clips {
            self.state.clip_hold = CLIP_HOLD_TICKS;
        }
        self.sample_buffer.push_sample(0, vis_l.main);
        self.sample_buffer.push_sample(1, vis_l.aux1);
        self.sample_buffer.push_sample(2, vis_l.aux2);
        self.sample_buffer.push_sample(3, vis_l.aux3);
        self.sample_buffer.push_sample(4, vis_l.aux4);
        self.sample_buffer.push_sample(5, vis_l.aux5);
        match vis_right {
            Some(vis_r) => {
                self.sample_buffer_2.push_sample(0, vis_r.main);
                self.sample_buffer_2.push_sample(1, vis_r.aux1);
                self.sample_buffer_2.push_sample(2, vis_r.aux2);
                self.sample_buffer_2.push_sample(3, vis_r.aux3);
                self.sample_buffer_2.push_sample(4, vis_r.aux4);
                self.sample_buffer_2.push_sample(5, vis_r.aux5);
            },
            None => {},
        }
    }

    /// Processes one audio block in analyzer mode: only the decimation
    /// gate, the clipping check and the scrolling data channels; sync
    /// state, markers and sums are untouched.
    pub fn process_analyzer_block(
        &mut self,
        left_raw: &Vec<SampleGroup>,
        left_scaled: &Vec<SampleGroup>,
        right_raw: &Vec<SampleGroup>,
        right_scaled: &Vec<SampleGroup>,
        c: &Controls,
    )
        requires
            old(self).wf(),
            left_scaled.len() == left_raw.len(),
            right_raw.len() == 0 || right_raw.len() == left_raw.len(),
            right_scaled.len() == right_raw.len(),
            left_raw.len() < 0x8000_0000,
        ensures
            final(self).wf(),
            ({
                let s0 = TickState {
                    left: old(self).sample_buffer@,
                    right: old(self).sample_buffer_2@,
                    in_place_index: old(self).state.in_place_index as nat,
                    clip_hold: old(self).state.clip_hold as nat,
                    marker_pending: false,
                    ordinal: 0,
                };
                let sn = spec_ana_run(s0, spec_block_inputs(left_raw@, left_scaled@,
                    Seq::new(left_raw@.len(), |t: int| WORD_ZERO), right_raw@, right_scaled@,
                    Seq::new(right_raw@.len(), |t: int| WORD_ZERO)), *c, 0);
                &&& final(self).sample_buffer@ == sn.left
                &&& final(self).sample_buffer_2@ == sn.right
                &&& final(self).state.clip_hold as nat == sn.clip_hold
                &&& final(self).state.in_place_index == old(self).state.in_place_index
                &&& final(self).state.beat_threshold == old(self).state.beat_threshold
                &&& final(self).sample_rate_hz == old(self).sample_rate_hz
            }),
    {
        let ghost inputs = spec_block_inputs(left_raw@, left_scaled@,
            Seq::new(left_raw@.len(), |t: int| WORD_ZERO), right_raw@, right_scaled@,
            Seq::new(right_raw@.len(), |t: int| WORD_ZERO));
        let ghost s0 = TickState {
            left: self.sample_buffer@,
            right: self.sample_buffer_2@,
            in_place_index: self.state.in_place_index as nat,
            clip_hold: self.state.clip_hold as nat,
            marker_pending: false,
            ordinal: 0,
        };
        let stereo = right_raw.len() > 0;
        let n = left_raw.len();
        let mut i: usize = 0;
        while i < n
            invariant
                self.wf(),
                n == left_raw@.len(),
                left_scaled@.len() == n,
                stereo ==> right_raw@.len() == n && right_scaled@.len() == n,
                !stereo ==> right_raw@.len() == 0,
                n < 0x8000_0000,
                i <= n,
                inputs == spec_block_inputs(left_raw@, left_scaled@,
                    Seq::new(left_raw@.len(), |t: int| WORD_ZERO), right_raw@, right_scaled@,
                    Seq::new(right_raw@.len(), |t: int| WORD_ZERO)),
                inputs.len() == n,
                spec_ana_run(s0, inputs, *c, 0) == spec_ana_run(TickState {
                    left: self.sample_buffer@,
                    right: self.sample_buffer_2@,
                    in_place_index: self.state.in_place_index as nat,
                    clip_hold: self.state.clip_hold as nat,
                    marker_pending: false,
                    ordinal: i as nat,
                }, inputs, *c, i as int),
                self.state.in_place_index == old(self).state.in_place_index,
                self.state.beat_threshold == old(self).state.beat_threshold,
                self.sample_rate_hz == old(self).sample_rate_hz,
            decreases n - i,
        {
            let ghost cur = TickState {
                left: self.sample_buffer@,
                right: self.sample_buffer_2@,
                in_place_index: self.state.in_place_index as nat,
                clip_hold: self.state.clip_hold as nat,
                marker_pending: false,
                ordinal: i as nat,
            };
            let captured = should_capture(i as i32, c.skip_factor);
            if captured {
                let right_opt: Option<(SampleGroup, SampleGroup, u32)> = if stereo {
                    Some((right_raw[i], right_scaled[i], WORD_ZERO))
                } else {
                    None
                };
                self.analyzer_tick(left_raw[i], left_scaled[i], right_opt);
            }
            proof {
                let next = TickState {
                    left: self.sample_buffer@,
                    right: self.sample_buffer_2@,
                    in_place_index: self.state.in_place_index as nat,
                    clip_hold: self.state.clip_hold as nat,
                    marker_pending: false,
                    ordinal: (i + 1) as nat,
                };
                assert(next =~= spec_ana_tick(cur, inputs[i as int], *c));
            }
            i = i + 1;
        }
    }

    /// Processes one audio block: adapts to a changed host sample rate by
    /// resizing both stores to the capture length the current settings
    /// imply, then feeds the block to the oscilloscope or the analyzer
    /// path as selected.
    pub fn process_block(
        &mut self,
        left_raw: &Vec<SampleGroup>,
        left_scaled: &Vec<SampleGroup>,
        left_sums: &Vec<u32>,
        right_raw: &Vec<SampleGroup>,
        right_scaled: &Vec<SampleGroup>,
        right_sums: &Vec<u32>,
        c: &Controls,
        t: &Transport,
    )
        requires
            old(self).wf(),
            left_scaled.len() == left_raw.len(),
            left_sums.len() == left_raw.len(),
            right_raw.len() == 0 || right_raw.len() == left_raw.len(),
            right_scaled.len() == right_raw.len(),
            right_sums.len() == right_raw.len(),
            left_raw.len() < 0x8000_0000,
        ensures
            final(self).wf(),
            final(self).sample_rate_hz == t.sample_rate_hz,
            ({
                let resized = t.sample_rate_hz != old(self).sample_rate_hz;
                let size = spec_calculate_buffer_size(t.sample_rate_hz as int,
                    c.scrollspeed_ms as int);
                let left0 = if resized {
                    store_resized(old(self).sample_buffer@, size)
                } else {
                    old(self).sample_buffer@
                };
                let right0 = if resized {
                    store_resized(old(self).sample_buffer_2@, size)
                } else {
                    old(self).sample_buffer_2@
                };
                if c.show_analyzer {
                    let s0 = TickState {
                        left: left0,
                        right: right0,
                        in_place_index: old(self).state.in_place_index as nat,
                        clip_hold: old(self).state.clip_hold as nat,
                        marker_pending: false,
                        ordinal: 0,
                    };
                    let sn = spec_ana_run(s0, spec_block_inputs(left_raw@, left_scaled@,
                        Seq::new(left_raw@.len(), |x: int| WORD_ZERO), right_raw@,
                        right_scaled@, Seq::new(right_raw@.len(), |x: int| WORD_ZERO)), *c, 0);
                    &&& final(self).sample_buffer@ == sn.left
                    &&& final(self).sample_buffer_2@ == sn.right
                    &&& final(self).state.clip_hold as nat == sn.clip_hold
                    &&& final(self).state.in_place_index == old(self).state.in_place_index
                    &&& final(self).state.beat_threshold == old(self).state.beat_threshold
                } else {
                    let d = spec_sync_decision(c.sync_active, c.alt_sync, c.sync_timing,
                        old(self).state.beat_threshold, *t);
                    let s0 = TickState {
                        left: left0,
                        right: right0,
                        in_place_index: if d.reset_cursor {
                            0
                        } else {
                            old(self).state.in_place_index as nat
                        },
                        clip_hold: old(self).state.clip_hold as nat,
                        marker_pending: d.add_beat_line,
                        ordinal: 0,
                    };
                    let sn = spec_osc_run(s0, spec_block_inputs(left_raw@, left_scaled@,
                        left_sums@, right_raw@, right_scaled@, right_sums@), *c, d.in_place,
                        d.hold_cursor, 0);
                    &&& final(self).sample_buffer@ == sn.left
                    &&& final(self).sample_buffer_2@ == sn.right
                    &&& final(self).state.in_place_index as nat == sn.in_place_index
                    &&& final(self).state.clip_hold as nat == sn.clip_hold
                    &&& final(self).state.beat_threshold == d.beat_threshold
                }
            }),
    {
        if t.sample_rate_hz != self.sample_rate_hz {
            self.sample_rate_hz = t.sample_rate_hz;
            let size = calculate_buffer_size(t.sample_rate_hz, c.scrollspeed_ms);
            self.sample_buffer.update_internal_length(size);
            self.sample_buffer_2.update_internal_length(size);
        }
        if c.show_analyzer {
            self.process_analyzer_block(left_raw, left_scaled, right_raw, right_scaled, c);
        } else {
            self.process_oscilloscope_block(left_raw, left_scaled, left_sums, right_raw,
                right_scaled, right_sums, c, t);
        }
    }
}

} // verus!

//! Beat/transport synchronization: decides, from a host transport snapshot,
//! whether "now" sits on a beat or bar boundary, and whether the in-place
//! capture cursor should be rewound.
//!
//! Beat positions are carried as integer milli-beats (the host's
//! floating-point position rounded to 1/1000 beat by the caller), which
//! absorbs the host's floating-point jitter; all boundary tests are then
//! exact integer arithmetic. Two detection strategies exist: the primary one
//! tests the rounded beat position for an exact multiple of the granularity,
//! the alternate one reconstructs beat times from the sample clock and tempo
//! and accepts a small window around each expected beat. A debounce counter
//! ensures a boundary rewinds the cursor once per crossing, not once per
//! block while the position stays within tolerance.

use vstd::prelude::*;
use vstd::arithmetic::div_mod::{
    lemma_fundamental_div_mod, lemma_fundamental_div_mod_converse_mod,
    lemma_mod_division_less_than_divisor,
};

verus! {

/// Milli-beats per beat: beat positions are rounded to this resolution.
pub const MILLI_PER_BEAT: i64 = 1000;

/// Milli-beats per bar (four beats).
pub const MILLI_PER_BAR: i64 = 4000;

/// Tolerance, in milli-beats, within which a position counts as "on" a
/// beat for the marker/bar query (0.01 beat on either side).
pub const BEAT_TOLERANCE_MILLI: i64 = 10;

/// Lookahead, in samples, added to the transport's sample position by the
/// alternate strategy to compensate for host scheduling jitter.
pub const ALT_SYNC_LOOKAHEAD_SAMPLES: i64 = 1000;

/// Reciprocal of the alternate strategy's time tolerance: a sample time
/// within 1/50 s (0.02 s) of an expected beat time counts as on the beat.
pub const ALT_SYNC_TOLERANCE_RECIP: i64 = 50;

/// The sync granularity: retrigger the in-place capture every beat or
/// every bar.
#[derive(Clone, Copy, PartialEq, Eq, Structural, Debug)]
pub enum BeatSync {
    Beat,
    Bar,
}

/// A host transport snapshot, taken once per audio block. Fields the host
/// does not report are `None`; the synchronizer then degrades to "no
/// boundary" instead of failing.
#[derive(Clone, Copy, Debug)]
pub struct Transport {
    /// Whether the host transport is rolling.
    pub playing: bool,
    /// Playback position in milli-beats, when the host reports one.
    pub pos_beats_milli: Option<i64>,
    /// Playback position in samples, when the host reports one.
    pub pos_samples: Option<i64>,
    /// Tempo in milli-beats per minute, when the host reports one.
    pub tempo_milli_bpm: Option<u32>,
    /// Host sample rate in Hz.
    pub sample_rate_hz: u32,
}

/// Euclidean remainder: the mathematical `pos mod modulus`, non-negative
/// even for positions before the song start.
pub fn euclid_rem(pos: i64, modulus: i64) -> (r: i64)
    requires
        1 <= modulus <= 0x10000,
    ensures
        r == pos as int % modulus as int,
{
    if pos >= 0 {
        pos % modulus
    } else {
        // pos == -1 - neg, so pos mod m == m - 1 - (neg mod m).
        let neg = -(pos + 1);
        let r0 = neg % modulus;
        proof {
            let p = pos as int;
            let m = modulus as int;
            let n = neg as int;
            lemma_fundamental_div_mod(n, m);
            lemma_mod_division_less_than_divisor(n, m);
            vstd::arithmetic::div_mod::lemma_mod_bound(n, m);
            assert((-(n / m) - 1) * m == -(m * (n / m)) - m) by (nonlinear_arith);
            lemma_fundamental_div_mod_converse_mod(p, m, -(n / m) - 1, m - 1 - (n % m));
        }
        modulus - 1 - r0
    }
}

/// Whether a milli-beat position lies within tolerance of a beat: its
/// fractional beat part is near zero from either side.
pub open spec fn spec_on_beat(pos_milli: int) -> bool {
    pos_milli % (MILLI_PER_BEAT as int) < BEAT_TOLERANCE_MILLI
        || pos_milli % (MILLI_PER_BEAT as int) > MILLI_PER_BEAT - BEAT_TOLERANCE_MILLI
}

/// Whether a milli-beat position lies within tolerance of a bar (and hence
/// also of a beat).
pub open spec fn spec_on_bar(pos_milli: int) -> bool {
    spec_on_beat(pos_milli) && (pos_milli % (MILLI_PER_BAR as int) < BEAT_TOLERANCE_MILLI
        || pos_milli % (MILLI_PER_BAR as int) > MILLI_PER_BAR - BEAT_TOLERANCE_MILLI)
}

/// The beat/bar query on a transport snapshot: `(false, false)` when the
/// transport is stopped or reports no beat position.
pub open spec fn spec_detect_beat(t: Transport) -> (bool, bool) {
    if t.playing && t.pos_beats_milli is Some {
        let pos = t.pos_beats_milli->Some_0 as int;
        (spec_on_beat(pos), spec_on_bar(pos))
    } else {
        (false, false)
    }
}

/// Queries whether the transport sits on a beat and on a bar, within the
/// milli-beat tolerance. A stopped transport, or one that reports no beat
/// position, is on neither.
pub fn detect_beat(t: &Transport) -> (r: (bool, bool))
    ensures
        r == spec_detect_beat(*t),
{
    if !t.playing {
        return (false, false);
    }
    match t.pos_beats_milli {
        Some(pos) => {
            let beat_rem = euclid_rem(pos, MILLI_PER_BEAT);
            let bar_rem = euclid_rem(pos, MILLI_PER_BAR);
            let on_beat = beat_rem < BEAT_TOLERANCE_MILLI
                || beat_rem > MILLI_PER_BEAT - BEAT_TOLERANCE_MILLI;
            let on_bar = on_beat && (bar_rem < BEAT_TOLERANCE_MILLI
                || bar_rem > MILLI_PER_BAR - BEAT_TOLERANCE_MILLI);
            (on_beat, on_bar)
        },
        None => (false, false),
    }
}

/// The milli-beat granularity of a sync setting: one beat or one bar.
pub open spec fn spec_granularity_milli(timing: BeatSync) -> int {
    match timing {
        BeatSync::Beat => MILLI_PER_BEAT as int,
        BeatSync::Bar => MILLI_PER_BAR as int,
    }
}

/// Primary boundary test: the rounded beat position is an exact multiple
/// of the granularity. False when the host reports no beat position.
pub open spec fn spec_primary_boundary(t: Transport, timing: BeatSync) -> bool {
    t.pos_beats_milli is Some && t.pos_beats_milli->Some_0 as int % spec_granularity_milli(
        timing) == 0
}

/// Alternate boundary test on mathematical integers: the sample position,
/// pushed forward by the lookahead, lies within the time tolerance of some
/// multiple of the beat (or bar) period derived from the tempo. With
/// `n` samples, rate `r` and tempo `b` milli-beats per minute, the beat
/// period is `60000 r / b` samples, so `n` is within `r/50` samples of a
/// multiple exactly when `n b mod 60000 r` is within `r b / 50` of zero
/// from either side.
pub open spec fn spec_near_beat_time(n: int, rate: int, tempo: int, timing: BeatSync) -> bool {
    let period_units = 60000 * rate * (spec_granularity_milli(timing) / 1000);
    let m = (n * tempo) % period_units;
    ALT_SYNC_TOLERANCE_RECIP * m <= rate * tempo
        || ALT_SYNC_TOLERANCE_RECIP * (period_units - m) <= rate * tempo
}

/// Alternate boundary test on a transport snapshot: false when the host
/// reports no sample position or tempo, when either is degenerate, or
/// before the song start.
pub open spec fn spec_alt_boundary(t: Transport, timing: BeatSync) -> bool {
    &&& t.pos_samples is Some
    &&& t.tempo_milli_bpm is Some
    &&& t.sample_rate_hz >= 1
    &&& t.tempo_milli_bpm->Some_0 >= 1
    &&& t.pos_samples->Some_0 <= i64::MAX - ALT_SYNC_LOOKAHEAD_SAMPLES
    &&& t.pos_samples->Some_0 + ALT_SYNC_LOOKAHEAD_SAMPLES >= 0
    &&& spec_near_beat_time(
        t.pos_samples->Some_0 + ALT_SYNC_LOOKAHEAD_SAMPLES,
        t.sample_rate_hz as int,
        t.tempo_milli_bpm->Some_0 as int,
        timing,
    )
}

/// Decides the alternate-strategy boundary from the sample clock and
/// tempo.
pub fn alt_boundary(t: &Transport, timing: BeatSync) -> (r: bool)
    ensures
        r == spec_alt_boundary(*t, timing),
{
    let (pos, tempo) = match (t.pos_samples, t.tempo_milli_bpm) {
        (Some(p), Some(b)) => (p, b),
        _ => {
            return false;
        },
    };
    if t.sample_rate_hz < 1 || tempo < 1 {
        return false;
    }
    if pos > i64::MAX - ALT_SYNC_LOOKAHEAD_SAMPLES {
        // A sample position this close to the integer limit cannot occur in
        // practice; treat it as off the beat rather than overflow.
        return false;
    }
    let n = pos + ALT_SYNC_LOOKAHEAD_SAMPLES;
    if n < 0 {
        return false;
    }
    let granularity_beats: u128 = match timing {
        BeatSync::Beat => 1,
        BeatSync::Bar => 4,
    };
    let rate = t.sample_rate_hz as u128;
    let tempo_units = tempo as u128;
    proof {
        assert(60000 * rate as int * granularity_beats as int <= 60000 * 0x1_0000_0000 * 4
            && 60000 * rate as int * granularity_beats as int >= 60000) by (nonlinear_arith)
            requires
                1 <= rate as int <= 0x1_0000_0000,
                1 <= granularity_beats as int <= 4,
        {
        }
        assert(n as int * tempo_units as int <= 0x8000_0000_0000_0000 * 0x1_0000_0000
            && n as int * tempo_units as int >= 0) by (nonlinear_arith)
            requires
                0 <= n as int <= 0x8000_0000_0000_0000,
                1 <= tempo_units as int <= 0x1_0000_0000,
        {
        }
    }
    let period_units: u128 = 60000u128 * rate * granularity_beats;
    let m = (n as u128 * tempo_units) % period_units;
    proof {
        lemma_mod_division_less_than_divisor(n as int * tempo_units as int,
            period_units as int);
        vstd::arithmetic::div_mod::lemma_mod_bound(n as int * tempo_units as int,
            period_units as int);
        assert(rate as int * tempo_units as int <= 0x1_0000_0000 * 0x1_0000_0000)
            by (nonlinear_arith)
            requires
                1 <= rate as int <= 0x1_0000_0000,
                1 <= tempo_units as int <= 0x1_0000_0000,
        {
        }
        assert(m as int <= 60000 * 0x1_0000_0000 * 4);
        assert(50 * m as int <= 50 * (60000 * 0x1_0000_0000 * 4));
    }
    (ALT_SYNC_TOLERANCE_RECIP as u128) * m <= rate * tempo_units
        || (ALT_SYNC_TOLERANCE_RECIP as u128) * (period_units - m) <= rate * tempo_units
}

/// The boundary signal the active strategy produces for this snapshot.
pub open spec fn spec_boundary(alt_sync: bool, timing: BeatSync, t: Transport) -> bool {
    if alt_sync {
        spec_alt_boundary(t, timing)
    } else {
        spec_primary_boundary(t, timing)
    }
}

/// Whether the transport reports what the active boundary strategy needs:
/// a beat position for the primary one; a sample position, a tempo and a
/// non-degenerate clock for the alternate one.
pub open spec fn spec_sync_available(alt_sync: bool, t: Transport) -> bool {
    if alt_sync {
        t.pos_samples is Some && t.tempo_milli_bpm is Some && t.sample_rate_hz >= 1
            && t.tempo_milli_bpm->Some_0 >= 1
    } else {
        t.pos_beats_milli is Some
    }
}

/// What the synchronizer tells the capture controller for one block.
#[derive(Clone, Copy, PartialEq, Eq, Structural, Debug)]
pub struct SyncDecision {
    /// Capture in place this block: sync is on and the transport reports
    /// what the active strategy needs. When false the controller scrolls,
    /// so a host without transport data degrades silently.
    pub in_place: bool,
    /// Rewind the in-place cursor to the window start now.
    pub reset_cursor: bool,
    /// Keep the in-place cursor where it is for the whole block: the
    /// transport is stopped, so capture freezes at the window start
    /// instead of advancing.
    pub hold_cursor: bool,
    /// The debounce counter after this block: nonzero while the boundary
    /// signal holds, so one crossing rewinds the cursor only once.
    pub beat_threshold: u32,
    /// Restart the decimation phase (primary strategy only; informational,
    /// since the controller's block-local ordinal restarts with every
    /// block anyway).
    pub reset_skip: bool,
    /// Draw a beat-marker spike into the marker channel this block.
    pub add_beat_line: bool,
}

/// The synchronizer's per-block decision. The marker signal follows the
/// beat query regardless of sync mode. In-place capture asks for sync to
/// be on and the transport data the strategy needs to be present; missing
/// data falls back to scrolling with the debounce counter untouched. With
/// data present, a stopped transport rewinds the cursor and holds it, and
/// a rolling one rewinds once per boundary crossing, debounced by the
/// threshold counter.
pub open spec fn spec_sync_decision(
    sync_active: bool,
    alt_sync: bool,
    timing: BeatSync,
    threshold: u32,
    t: Transport,
) -> SyncDecision {
    let marker = t.playing && if alt_sync {
        spec_detect_beat(t).0
    } else {
        t.pos_beats_milli is Some && t.pos_beats_milli->Some_0 as int % (MILLI_PER_BEAT as int)
            == 0
    };
    let in_place = sync_active && spec_sync_available(alt_sync, t);
    if !in_place {
        SyncDecision { in_place: false, reset_cursor: false, hold_cursor: false,
            beat_threshold: threshold, reset_skip: false, add_beat_line: marker }
    } else if !t.playing {
        SyncDecision { in_place: true, reset_cursor: true, hold_cursor: true,
            beat_threshold: threshold, reset_skip: false, add_beat_line: marker }
    } else {
        let boundary = spec_boundary(alt_sync, timing, t);
        if boundary && threshold == 0 {
            SyncDecision { in_place: true, reset_cursor: true, hold_cursor: false,
                beat_threshold: 1, reset_skip: !alt_sync, add_beat_line: marker }
        } else if !boundary && threshold > 0 {
            SyncDecision { in_place: true, reset_cursor: false, hold_cursor: false,
                beat_threshold: 0, reset_skip: false, add_beat_line: marker }
        } else {
            SyncDecision { in_place: true, reset_cursor: false, hold_cursor: false,
                beat_threshold: threshold, reset_skip: false, add_beat_line: marker }
        }
    }
}

/// Computes the synchronizer's decision for one block from the mode flags,
/// the debounce counter carried between blocks, and the transport.
pub fn sync_decision(
    sync_active: bool,
    alt_sync: bool,
    timing: BeatSync,
    threshold: u32,
    t: &Transport,
) -> (r: SyncDecision)
    ensures
        r == spec_sync_decision(sync_active, alt_sync, timing, threshold, *t),
{
    let marker = t.playing && if alt_sync {
        detect_beat(t).0
    } else {
        match t.pos_beats_milli {
            Some(pos) => euclid_rem(pos, MILLI_PER_BEAT) == 0,
            None => false,
        }
    };
    let available = if alt_sync {
        match (t.pos_samples, t.tempo_milli_bpm) {
            (Some(_), Some(tempo)) => t.sample_rate_hz >= 1 && tempo >= 1,
            _ => false,
        }
    } else {
        matches!(t.pos_beats_milli, Some(_))
    };
    if !(sync_active && available) {
        return SyncDecision { in_place: false, reset_cursor: false, hold_cursor: false,
            beat_threshold: threshold, reset_skip: false, add_beat_line: marker };
    }
    if !t.playing {
        return SyncDecision { in_place: true, reset_cursor: true, hold_cursor: true,
            beat_threshold: threshold, reset_skip: false, add_beat_line: marker };
    }
    let boundary = if alt_sync {
        alt_boundary(t, timing)
    } else {
        match t.pos_beats_milli {
            Some(pos) => euclid_rem(pos, match timing {
                BeatSync::Beat => MILLI_PER_BEAT,
                BeatSync::Bar => MILLI_PER_BAR,
            }) == 0,
            None => false,
        }
    };
    if boundary && threshold == 0 {
        SyncDecision { in_place: true, reset_cursor: true, hold_cursor: false,
            beat_threshold: 1, reset_skip: !alt_sync, add_beat_line: marker }
    } else if !boundary && threshold > 0 {
        SyncDecision { in_place: true, reset_cursor: false, hold_cursor: false,
            beat_threshold: 0, reset_skip: false, add_beat_line: marker }
    } else {
        SyncDecision { in_place: true, reset_cursor: false, hold_cursor: false,
            beat_threshold: threshold, reset_skip: false, add_beat_line: marker }
    }
}

/// Beat-boundary debounce: along one crossing, the cursor is rewound
/// exactly once. From a rearmed state, a block on the boundary rewinds and
/// raises the threshold; a second block still on the boundary does not
/// rewind again; a block off the boundary rearms without rewinding; the
/// next block on the boundary rewinds once more.
pub proof fn lemma_beat_detection_idempotent(
    alt_sync: bool,
    timing: BeatSync,
    t_on1: Transport,
    t_on2: Transport,
    t_off: Transport,
    t_on3: Transport,
)
    requires
        t_on1.playing,
        t_on2.playing,
        t_off.playing,
        t_on3.playing,
        spec_sync_available(alt_sync, t_off),
        spec_boundary(alt_sync, timing, t_on1),
        spec_boundary(alt_sync, timing, t_on2),
        !spec_boundary(alt_sync, timing, t_off),
        spec_boundary(alt_sync, timing, t_on3),
    ensures
        ({
            let d1 = spec_sync_decision(true, alt_sync, timing, 0, t_on1);
            let d2 = spec_sync_decision(true, alt_sync, timing, d1.beat_threshold, t_on2);
            let d3 = spec_sync_decision(true, alt_sync, timing, d2.beat_threshold, t_off);
            let d4 = spec_sync_decision(true, alt_sync, timing, d3.beat_threshold, t_on3);
            d1.reset_cursor && !d2.reset_cursor && !d3.reset_cursor && d4.reset_cursor
        }),
{
}

} // verus!

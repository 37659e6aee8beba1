//! Per-tick sample frames and the externally-set control snapshot.
//!
//! For each captured tick the controller sees one `SampleGroup` of raw
//! words (main input plus five aux sidechains) and one of gain-scaled
//! words, prepared by the caller; the floating-point scaling itself happens
//! outside this crate. The controller decides, exactly on the bits, which
//! aux samples are duplicated main audio, which samples clip, and which
//! words enter the running sum.

use vstd::prelude::*;

use crate::sync::BeatSync;
use crate::words::{spec_word_clips, word_clips, WORD_ZERO};

verus! {

/// One tick's samples across the six input channels: the main input and
/// the five aux sidechains.
#[derive(Clone, Copy, PartialEq, Eq, Structural, Debug)]
pub struct SampleGroup {
    pub main: u32,
    pub aux1: u32,
    pub aux2: u32,
    pub aux3: u32,
    pub aux4: u32,
    pub aux5: u32,
}

/// The externally-owned control values, read once per block: mode flags,
/// sync configuration, decimation factor, capture length and per-channel
/// visibility.
#[derive(Clone, Copy, Debug)]
pub struct Controls {
    /// In-place (beat-synchronous) capture instead of scrolling.
    pub sync_active: bool,
    /// Use the sample-clock boundary strategy instead of the beat-position
    /// one.
    pub alt_sync: bool,
    /// Retrigger on beats or on bars.
    pub sync_timing: BeatSync,
    /// Stereo view: beat markers use the wide spike words.
    pub stereo_view: bool,
    /// Decimation factor: capture every n-th sample (clamped to at least 1
    /// where used).
    pub skip_factor: i32,
    /// Capture length setting in milliseconds.
    pub scrollspeed_ms: u32,
    /// Feed the analyzer capture path instead of the oscilloscope one.
    pub show_analyzer: bool,
    /// Main channel contributes to the running sum.
    pub en_main: bool,
    /// Aux channels contributing to the running sum.
    pub en_aux1: bool,
    pub en_aux2: bool,
    pub en_aux3: bool,
    pub en_aux4: bool,
    pub en_aux5: bool,
    /// The running-sum track is computed at all.
    pub en_sum: bool,
}

/// The visual samples of one tick: the scaled main word, and each scaled
/// aux word unless the raw aux word is bit-identical to the raw main word,
/// in which case the aux is a host-duplicated input and shows as silence.
pub open spec fn spec_visual(raw: SampleGroup, scaled: SampleGroup) -> SampleGroup {
    SampleGroup {
        main: scaled.main,
        aux1: if raw.aux1 == raw.main {
            WORD_ZERO
        } else {
            scaled.aux1
        },
        aux2: if raw.aux2 == raw.main {
            WORD_ZERO
        } else {
            scaled.aux2
        },
        aux3: if raw.aux3 == raw.main {
            WORD_ZERO
        } else {
            scaled.aux3
        },
        aux4: if raw.aux4 == raw.main {
            WORD_ZERO
        } else {
            scaled.aux4
        },
        aux5: if raw.aux5 == raw.main {
            WORD_ZERO
        } else {
            scaled.aux5
        },
    }
}

/// Builds the visual samples for one tick from the raw and the scaled
/// words. An aux sample bit-identical to the main sample becomes the zero
/// word, never the duplicated value.
pub fn visual_group(raw: &SampleGroup, scaled: &SampleGroup) -> (r: SampleGroup)
    ensures
        r == spec_visual(*raw, *scaled),
{
    SampleGroup {
        main: scaled.main,
        aux1: if raw.aux1 == raw.main {
            WORD_ZERO
        } else {
            scaled.aux1
        },
        aux2: if raw.aux2 == raw.main {
            WORD_ZERO
        } else {
            scaled.aux2
        },
        aux3: if raw.aux3 == raw.main {
            WORD_ZERO
        } else {
            scaled.aux3
        },
        aux4: if raw.aux4 == raw.main {
            WORD_ZERO
        } else {
            scaled.aux4
        },
        aux5: if raw.aux5 == raw.main {
            WORD_ZERO
        } else {
            scaled.aux5
        },
    }
}

/// Whether any of the six visual samples of a tick clips.
pub open spec fn spec_group_clips(g: SampleGroup) -> bool {
    ||| spec_word_clips(g.main)
    ||| spec_word_clips(g.aux1)
    ||| spec_word_clips(g.aux2)
    ||| spec_word_clips(g.aux3)
    ||| spec_word_clips(g.aux4)
    ||| spec_word_clips(g.aux5)
}

/// Tests whether any sample of the group clips.
pub fn group_clips(g: &SampleGroup) -> (r: bool)
    ensures
        r == spec_group_clips(*g),
{
    word_clips(g.main) || word_clips(g.aux1) || word_clips(g.aux2) || word_clips(g.aux3)
        || word_clips(g.aux4) || word_clips(g.aux5)
}

/// The visual words that enter the running sum for one tick: the visual
/// sample of every channel whose sum contribution is enabled, in channel
/// order; empty when the sum track itself is disabled.
pub open spec fn spec_sum_terms(vis: SampleGroup, c: Controls) -> Seq<u32> {
    if !c.en_sum {
        Seq::empty()
    } else {
        (if c.en_main {
            seq![vis.main]
        } else {
            Seq::empty()
        }) + (if c.en_aux1 {
            seq![vis.aux1]
        } else {
            Seq::empty()
        }) + (if c.en_aux2 {
            seq![vis.aux2]
        } else {
            Seq::empty()
        }) + (if c.en_aux3 {
            seq![vis.aux3]
        } else {
            Seq::empty()
        }) + (if c.en_aux4 {
            seq![vis.aux4]
        } else {
            Seq::empty()
        }) + (if c.en_aux5 {
            seq![vis.aux5]
        } else {
            Seq::empty()
        })
    }
}

/// Lists the visual words the caller must add up (in floating point,
/// outside this crate) to form the running-sum sample for one tick.
pub fn sum_terms_for(raw: &SampleGroup, scaled: &SampleGroup, c: &Controls) -> (r: Vec<u32>)
    ensures
        r@ == spec_sum_terms(spec_visual(*raw, *scaled), *c),
{
    let mut terms: Vec<u32> = Vec::new();
    if c.en_sum {
        let vis = visual_group(raw, scaled);
        if c.en_main {
            terms.push(vis.main);
        }
        if c.en_aux1 {
            terms.push(vis.aux1);
        }
        if c.en_aux2 {
            terms.push(vis.aux2);
        }
        if c.en_aux3 {
            terms.push(vis.aux3);
        }
        if c.en_aux4 {
            terms.push(vis.aux4);
        }
        if c.en_aux5 {
            terms.push(vis.aux5);
        }
    }
    proof {
        assert(terms@ =~= spec_sum_terms(spec_visual(*raw, *scaled), *c));
    }
    terms
}

} // verus!

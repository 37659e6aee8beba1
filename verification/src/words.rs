//! Sample words: `u32` values holding the bit pattern of an IEEE 754
//! single-precision number. The oscilloscope never computes with the encoded
//! value; it only stores words and compares their magnitudes against fixed
//! thresholds, which is exact on the bit pattern for every non-NaN word.

use vstd::prelude::*;

verus! {

/// The word encoding 0.0, substituted for duplicated aux samples and used as
/// the quiet value of the beat-marker channel.
pub const WORD_ZERO: u32 = 0x0000_0000;

/// The word encoding 1.0: upward beat-marker spike in mono view.
pub const WORD_MARKER_POS: u32 = 0x3f80_0000;

/// The word encoding -1.0: downward beat-marker spike in mono view.
pub const WORD_MARKER_NEG: u32 = 0xbf80_0000;

/// The word encoding 2.1: upward beat-marker spike in stereo view, drawn
/// outside the per-side plotting band.
pub const WORD_MARKER_POS_WIDE: u32 = 0x4006_6666;

/// The word encoding -2.1: downward beat-marker spike in stereo view.
pub const WORD_MARKER_NEG_WIDE: u32 = 0xc006_6666;

/// Magnitude bits of the clipping threshold: the word encoding 1.0.
pub const CLIP_THRESHOLD_BITS: u32 = 0x3f80_0000;

/// Magnitude bits of the denormal cutoff: the word encoding 1.0e-20.
pub const DENORMAL_CUTOFF_BITS: u32 = 0x1e3c_e508;

/// Mask clearing the sign bit of a sample word.
pub const MAGNITUDE_MASK: u32 = 0x7fff_ffff;

/// The magnitude bits of a word: its bit pattern with the sign cleared.
/// For finite and infinite encoded values, unsigned order on magnitude bits
/// agrees with order on the encoded absolute values.
pub open spec fn magnitude_bits(w: u32) -> u32 {
    w & MAGNITUDE_MASK
}

/// Whether a sample word counts as clipping: its magnitude bits exceed those
/// of 1.0. This agrees with `|x| > 1.0` on the encoded value for every word
/// except a NaN, which this test also counts as clipping.
pub open spec fn spec_word_clips(w: u32) -> bool {
    magnitude_bits(w) > CLIP_THRESHOLD_BITS
}

/// Whether a sample word is flushed to zero as a denormal: its magnitude
/// bits lie below those of 1.0e-20. This agrees with `|x| < 1.0e-20` on the
/// encoded value for every word, NaN included.
pub open spec fn spec_is_denormal(w: u32) -> bool {
    magnitude_bits(w) < DENORMAL_CUTOFF_BITS
}

/// The word with tiny magnitudes flushed to the zero word, leaving every
/// other word unchanged.
pub open spec fn spec_flush_denormal(w: u32) -> u32 {
    if spec_is_denormal(w) {
        WORD_ZERO
    } else {
        w
    }
}

/// Clipping test on a sample word.
pub fn word_clips(w: u32) -> (r: bool)
    ensures
        r == spec_word_clips(w),
{
    (w & MAGNITUDE_MASK) > CLIP_THRESHOLD_BITS
}

/// Replaces a word of tiny magnitude by the zero word, so that downstream
/// frequency analysis never feeds denormals to the transform.
pub fn flush_denormal_bits(w: u32) -> (r: u32)
    ensures
        r == spec_flush_denormal(w),
{
    if (w & MAGNITUDE_MASK) < DENORMAL_CUTOFF_BITS {
        WORD_ZERO
    } else {
        w
    }
}

} // verus!

//! The decimation gate: of each block's samples, only every `skip_factor`-th
//! one is captured, trading temporal resolution for throughput. The
//! externally controlled factor is clamped to at least one before it is used
//! as a modulus. The block-local ordinal restarts at zero with every block, so
//! phase alignment across block boundaries is not promised; that is a known
//! visual limitation, not something this gate papers over.

use vstd::prelude::*;
use vstd::arithmetic::div_mod::{
    lemma_div_pos_is_pos, lemma_fundamental_div_mod, lemma_fundamental_div_mod_converse_mod,
    lemma_mod_multiples_basic, lemma_small_mod,
};

verus! {

/// The skip factor actually used: the externally-set value clamped to at
/// least one, so it is always a valid modulus.
pub open spec fn spec_effective_skip(skip_factor: int) -> int {
    if skip_factor < 1 {
        1
    } else {
        skip_factor
    }
}

/// Whether the sample with block-local ordinal `ordinal` is captured:
/// exactly the multiples of the effective skip factor are.
pub open spec fn spec_should_capture(ordinal: int, skip_factor: int) -> bool {
    ordinal % spec_effective_skip(skip_factor) == 0
}

/// The externally-set skip factor clamped to at least one.
pub fn effective_skip(skip_factor: i32) -> (r: i32)
    ensures
        r == spec_effective_skip(skip_factor as int),
{
    if skip_factor < 1 {
        1
    } else {
        skip_factor
    }
}

/// Decides whether the sample with block-local ordinal `ordinal` is
/// captured under the externally-set skip factor.
pub fn should_capture(ordinal: i32, skip_factor: i32) -> (r: bool)
    requires
        ordinal >= 0,
    ensures
        r == spec_should_capture(ordinal as int, skip_factor as int),
{
    ordinal % effective_skip(skip_factor) == 0
}

/// Decimation correctness: the captured ordinals are exactly the
/// non-negative multiples of the effective skip factor (0, k, 2k, ...).
pub proof fn lemma_decimation_multiples(ordinal: int, skip_factor: int)
    requires
        ordinal >= 0,
    ensures
        spec_should_capture(ordinal, skip_factor) <==> exists|j: int|
            j >= 0 && ordinal == #[trigger] (j * spec_effective_skip(skip_factor)),
{
    let k = spec_effective_skip(skip_factor);
    if spec_should_capture(ordinal, skip_factor) {
        lemma_fundamental_div_mod(ordinal, k);
        lemma_div_pos_is_pos(ordinal, k);
        assert(ordinal == (ordinal / k) * k) by {
            assert(ordinal == k * (ordinal / k) + (ordinal % k));
        }
        assert((ordinal / k) >= 0 && ordinal == (ordinal / k) * k);
    }
    if exists|j: int| j >= 0 && ordinal == #[trigger] (j * k) {
        let j = choose|j: int| j >= 0 && ordinal == #[trigger] (j * k);
        lemma_mod_multiples_basic(j, k);
    }
}

/// With a skip factor of one, every sample is captured.
pub proof fn lemma_capture_every_sample(ordinal: int)
    requires
        ordinal >= 0,
    ensures
        spec_should_capture(ordinal, 1),
{
    lemma_fundamental_div_mod_converse_mod(ordinal, 1, ordinal, 0);
}

/// With a skip factor at least the block length, only the block's first
/// sample is captured.
pub proof fn lemma_capture_once_per_block(ordinal: int, skip_factor: int, block_len: int)
    requires
        0 <= ordinal < block_len,
        skip_factor >= block_len,
    ensures
        spec_should_capture(ordinal, skip_factor) <==> ordinal == 0,
{
    let k = spec_effective_skip(skip_factor);
    lemma_small_mod(ordinal as nat, k as nat);
    if ordinal == 0 {
        assert(spec_should_capture(ordinal, skip_factor));
    }
}

} // verus!

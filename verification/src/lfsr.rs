//! 32-bit Galois LFSR shared by the noise oscillator, the hi-hats and the
//! arpeggiator's random mode.

use vstd::prelude::*;

verus! {

/// Non-zero seed every generator starts from.
pub const LFSR_SEED: u32 = 0xACE1_FEED;

/// Feedback polynomial of the generator.
pub const LFSR_TAPS: u32 = 0xB4BC_D35C;

/// One Galois step: shift right, and fold in the taps when a one fell out.
pub open spec fn lfsr_next(s: u32) -> u32 {
    if s & 1 != 0 {
        (s >> 1u32) ^ LFSR_TAPS
    } else {
        s >> 1u32
    }
}

/// Advance the generator state by one step.
pub fn lfsr_step(state: u32) -> (r: u32)
    ensures
        r == lfsr_next(state),
{
    let bit = state & 1;
    let shifted = state >> 1u32;
    if bit != 0 {
        shifted ^ LFSR_TAPS
    } else {
        shifted
    }
}

/// A generator seeded with a non-zero state never falls into the all-zero
/// lock-up state.
pub proof fn lemma_lfsr_never_zero(s: u32)
    requires
        s != 0,
    ensures
        lfsr_next(s) != 0,
{
    assert(s != 0 ==> (if s & 1 != 0 {
        (s >> 1u32) ^ 0xB4BC_D35Cu32
    } else {
        s >> 1u32
    }) != 0) by (bit_vector);
}

} // verus!

//! Mathematical model of the WELL1024a recurrence.
//!
//! States are modelled in canonical (rotation-resolved) order: a sequence of
//! 32 words whose position 0 is the slot the next draw works on. All
//! executable contracts are stated over this model.

use vstd::prelude::*;

verus! {

/// `v ^ (v >> t)`: the right-shift tempering step of the recurrence.
pub open spec fn mix_right(t: u32, v: u32) -> u32 {
    v ^ (v >> t)
}

/// `v ^ (v << t)`: the left-shift tempering step of the recurrence.
pub open spec fn mix_left(t: u32, v: u32) -> u32 {
    v ^ (v << t)
}

/// One draw of the recurrence on a canonical state.
///
/// The taps are the WELL1024a constants: offsets 3, 24 and 10 with shifts
/// 8, 19 and 14, and final mixing shifts 11, 7 and 13. The result is the
/// canonical state after the draw; its element 0 is the word the draw
/// returns, and elements 2..32 are the previous elements 1..31 unchanged.
pub open spec fn step_state(s: Seq<u32>) -> Seq<u32>
    recommends
        s.len() == 32,
{
    let z0 = s[31];
    let z1 = s[0] ^ mix_right(8, s[3]);
    let z2 = mix_left(19, s[24]) ^ mix_left(14, s[10]);
    Seq::new(
        32,
        |k: int|
            if k == 0 {
                mix_left(11, z0) ^ mix_left(7, z1) ^ mix_left(13, z2)
            } else if k == 1 {
                z1 ^ z2
            } else {
                s[k - 1]
            },
    )
}

/// The word a single draw from canonical state `s` returns.
pub open spec fn step_output(s: Seq<u32>) -> u32 {
    step_state(s)[0]
}

/// The canonical state after `n` draws from `s`.
pub open spec fn advance(s: Seq<u32>, n: nat) -> Seq<u32>
    decreases n,
{
    if n == 0 {
        s
    } else {
        step_state(advance(s, (n - 1) as nat))
    }
}

/// The word returned by draw number `n` (counting from 0) after state `s`.
pub open spec fn output_at(s: Seq<u32>, n: nat) -> u32 {
    step_output(advance(s, n))
}

/// Word `k` of the weak seed expansion: `seed + k` with wraparound.
pub open spec fn seed_word(seed: u32, k: int) -> u32 {
    ((seed + k) % 0x1_0000_0000) as u32
}

/// The all-zero canonical state.
pub open spec fn zero_state() -> Seq<u32> {
    Seq::new(32, |k: int| 0u32)
}

/// The all-zero state is a fixed point of the recurrence: every draw from it
/// returns 0 and leaves the state all zero. Callers must avoid seeding into
/// this degenerate state; once reached it is never left.
pub proof fn lemma_zero_fixed_point(n: nat)
    ensures
        advance(zero_state(), n) == zero_state(),
        output_at(zero_state(), n) == 0,
    decreases n,
{
    assert(0u32 >> 8u32 == 0u32) by (bit_vector);
    assert(0u32 << 19u32 == 0u32) by (bit_vector);
    assert(0u32 << 14u32 == 0u32) by (bit_vector);
    assert(0u32 << 11u32 == 0u32) by (bit_vector);
    assert(0u32 << 7u32 == 0u32) by (bit_vector);
    assert(0u32 << 13u32 == 0u32) by (bit_vector);
    assert(0u32 ^ 0u32 == 0u32) by (bit_vector);
    assert(step_state(zero_state()) =~= zero_state());
    if n > 0 {
        lemma_zero_fixed_point((n - 1) as nat);
    }
}

} // verus!

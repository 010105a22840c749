//! The WELL1024a generator: a 32-word circular state buffer with a rotation
//! index, advanced one word per draw by the recurrence in [`crate::model`].

use vstd::prelude::*;

use crate::entropy::entropy_source;
use crate::entropy::entropy_word;
use crate::model::advance;
use crate::model::output_at;
use crate::model::seed_word;
use crate::model::step_output;
use crate::model::step_state;

verus! {

/// The generator's internal state: a circular buffer of 32 words and the
/// rotation index of the current slot.
pub struct State {
    /// Rotation index: always in [0, 32).
    pub i: usize,
    /// The 32 words of the 1024-bit state, indexed physically.
    pub data: Vec<u32>,
}

impl State {
    /// Internal invariant: the buffer holds exactly 32 words and the
    /// rotation index is in range.
    pub open spec fn well_formed(self) -> bool {
        self.i < 32 && self.data.len() == 32
    }

    /// The canonical (rotation-resolved) order of the buffer: element `k`
    /// is the word at physical slot `(i + k) mod 32`.
    pub open spec fn canonical(self) -> Seq<u32> {
        Seq::new(32, |k: int| self.data[(self.i + k) % 32])
    }
}

/// A WELL1024a pseudorandom number generator.
///
/// Deterministic: the whole future output stream is a function of the
/// canonical snapshot alone, so a snapshot taken with [`Well1024aRng::state`]
/// and fed back to [`Well1024aRng::load`] replays the remaining outputs
/// exactly. Not cryptographically secure.
pub struct Well1024aRng {
    /// The circular buffer and rotation index.
    pub state: State,
}

impl View for Well1024aRng {
    type V = Seq<u32>;

    /// A generator is abstractly its canonical 32-word snapshot.
    open spec fn view(&self) -> Seq<u32> {
        self.state.canonical()
    }
}

/// Error returned by [`Well1024aRng::load`] when the supplied state sequence
/// does not hold exactly the expected number of words.
#[derive(Clone, Copy, Debug, PartialEq, Eq, Structural)]
pub struct InvalidStateLength {
    /// The required length: 32.
    pub expected: usize,
    /// The length of the sequence actually supplied.
    pub actual: usize,
}

impl Well1024aRng {
    /// Internal invariant of the generator.
    pub open spec fn well_formed(self) -> bool {
        self.state.well_formed()
    }

    /// Constructs a generator with the fixed all-ones starting state.
    pub fn new() -> (r: Well1024aRng)
        ensures
            r.well_formed(),
            r.state.i == 0,
            forall|k: int| 0 <= k < 32 ==> r@[k] == 1u32,
    {
        let mut data: Vec<u32> = Vec::new();
        let mut k: usize = 0;
        while k < 32
            invariant
                k <= 32,
                data.len() == k,
                forall|j: int| 0 <= j < k ==> data[j] == 1u32,
            decreases 32 - k,
        {
            data.push(1u32);
            k = k + 1;
        }
        let r = Well1024aRng { state: State { i: 0, data } };
        proof {
            assert forall|j: int| 0 <= j < 32 implies r@[j] == 1u32 by {
                assert((0 + j) % 32 == j);
            }
        }
        r
    }

    /// Constructs a generator from 32 words drawn from the thread-local
    /// entropy source of the `rand` crate. The drawn words are arbitrary:
    /// the generator is well formed with the rotation index at 0, and
    /// nothing more is promised of its state.
    pub fn from_entropy() -> (r: Well1024aRng)
        ensures
            r.well_formed(),
            r.state.i == 0,
    {
        let mut src = entropy_source();
        let mut data: Vec<u32> = Vec::new();
        let mut k: usize = 0;
        while k < 32
            invariant
                k <= 32,
                data.len() == k,
            decreases 32 - k,
        {
            data.push(entropy_word(&mut src));
            k = k + 1;
        }
        Well1024aRng { state: State { i: 0, data } }
    }

    /// Constructs a generator from a single 32-bit seed, expanded into the
    /// 32-word state `[seed, seed + 1, ..., seed + 31]` with wraparound
    /// addition, with the rotation index at 0.
    ///
    /// The expansion is deliberately weak — nearby seeds give nearly
    /// identical, correlated starting states — and is kept as documented
    /// behaviour: strengthening it would change the output stream of every
    /// seed.
    pub fn seed(seed: u32) -> (r: Well1024aRng)
        ensures
            r.well_formed(),
            r.state.i == 0,
            forall|k: int| 0 <= k < 32 ==> r@[k] == seed_word(seed, k),
    {
        let mut data: Vec<u32> = Vec::new();
        let mut k: usize = 0;
        while k < 32
            invariant
                k <= 32,
                data.len() == k,
                forall|j: int| 0 <= j < k ==> data[j] == seed_word(seed, j),
            decreases 32 - k,
        {
            data.push(seed.wrapping_add(k as u32));
            k = k + 1;
        }
        let r = Well1024aRng { state: State { i: 0, data } };
        proof {
            assert forall|j: int| 0 <= j < 32 implies r@[j] == seed_word(seed, j) by {
                assert((0 + j) % 32 == j);
            }
        }
        r
    }

    /// Constructs a generator from a full 32-word state. The state can be
    /// the result of a previous [`Well1024aRng::state`] call, allowing for
    /// exact replay of output.
    ///
    /// Succeeds exactly when `state` holds 32 words; the words are taken
    /// verbatim (logical order equals physical order) and the rotation index
    /// starts at 0. Otherwise fails with [`InvalidStateLength`] reporting
    /// the length received.
    pub fn load(state: Vec<u32>) -> (r: Result<Well1024aRng, InvalidStateLength>)
        ensures
            r is Ok <==> state.len() == 32,
            r matches Ok(g) ==> g.well_formed() && g.state.i == 0 && g@ == state@,
            r matches Err(e) ==> e.expected == 32 && e.actual == state.len(),
    {
        if state.len() != 32 {
            Err(InvalidStateLength { expected: 32, actual: state.len() })
        } else {
            let g = Well1024aRng { state: State { i: 0, data: state } };
            proof {
                assert forall|j: int| 0 <= j < 32 implies g@[j] == g.state.data[j] by {
                    assert((0 + j) % 32 == j);
                }
                assert(g@ =~= g.state.data@);
            }
            Ok(g)
        }
    }

    /// Draws one word: applies one step of the recurrence, rotating the
    /// index one slot backwards, and returns the freshly written word at the
    /// new current slot.
    ///
    /// On the all-zero state this returns 0 and leaves the state all zero,
    /// forever ([`crate::model::lemma_zero_fixed_point`]): callers must
    /// avoid seeding into that degenerate state.
    pub fn next_u32(&mut self) -> (r: u32)
        requires
            old(self).well_formed(),
        ensures
            final(self).well_formed(),
            final(self)@ == step_state(old(self)@),
            r == step_output(old(self)@),
            final(self).state.i == (old(self).state.i + 31) % 32,
    {
        let i = self.state.i;
        let z0 = self.state.data[(i + 31) % 32];
        let v1 = self.state.data[(i + 3) % 32];
        let z1 = self.state.data[i] ^ (v1 ^ (v1 >> 8u32));
        let v2 = self.state.data[(i + 24) % 32];
        let v3 = self.state.data[(i + 10) % 32];
        let z2 = (v2 ^ (v2 << 19u32)) ^ (v3 ^ (v3 << 14u32));
        self.state.data[i] = z1 ^ z2;
        let w = (z0 ^ (z0 << 11u32)) ^ (z1 ^ (z1 << 7u32)) ^ (z2 ^ (z2 << 13u32));
        self.state.data[(i + 31) % 32] = w;
        self.state.i = (i + 31) % 32;
        let r = self.state.data[self.state.i];
        proof {
            let s_old = old(self)@;
            let s_new = self@;
            assert forall|k: int| 0 <= k < 32 implies s_new[k] == step_state(s_old)[k] by {
                let i0 = old(self).state.i as int;
                assert((i0 + 0) % 32 == i0);
                if k == 0 {
                    assert(((i0 + 31) % 32 + 0) % 32 == (i0 + 31) % 32);
                } else if k == 1 {
                    assert(((i0 + 31) % 32 + 1) % 32 == i0);
                } else {
                    assert(((i0 + 31) % 32 + k) % 32 == (i0 + k - 1) % 32);
                    assert((i0 + k - 1) % 32 != i0);
                    assert((i0 + k - 1) % 32 != (i0 + 31) % 32);
                }
            }
            assert(s_new =~= step_state(s_old));
        }
        r
    }

    /// Draws two words and packs them into one 64-bit value: the first draw
    /// supplies the high 32 bits, the second the low 32 bits, with no
    /// additional mixing.
    pub fn next_u64(&mut self) -> (r: u64)
        requires
            old(self).well_formed(),
        ensures
            final(self).well_formed(),
            final(self)@ == advance(old(self)@, 2),
            r == output_at(old(self)@, 0) * 0x1_0000_0000 + output_at(old(self)@, 1),
    {
        let a = self.next_u32();
        let b = self.next_u32();
        proof {
            let s = old(self)@;
            assert(advance(s, 0) == s);
            assert(advance(s, 1) == step_state(advance(s, 0)));
            assert(advance(s, 2) == step_state(advance(s, 1)));
            assert(((a as u64) << 32u64) == (a as u64) * 0x1_0000_0000) by (bit_vector);
        }
        ((a as u64) << 32u64) + (b as u64)
    }

    /// Returns the canonical snapshot of the full 1024-bit state: exactly 32
    /// words, element `k` being the word at physical slot `(i + k) mod 32`.
    /// Feeding the result back to [`Well1024aRng::load`] reproduces the same
    /// future output sequence, "rewinding" the generator.
    pub fn state(&self) -> (r: Vec<u32>)
        requires
            self.well_formed(),
        ensures
            r@ == self@,
            r.len() == 32,
    {
        let mut out: Vec<u32> = Vec::new();
        let mut k: usize = 0;
        while k < 32
            invariant
                self.well_formed(),
                k <= 32,
                out.len() == k,
                forall|j: int| 0 <= j < k ==> out[j] == self@[j],
            decreases 32 - k,
        {
            let slot: usize = (self.state.i + k) % 32;
            out.push(self.state.data[slot]);
            k = k + 1;
        }
        proof {
            assert(out@ =~= self@);
        }
        out
    }
}

/// Determinism and replay: the future behaviour of a generator is a function
/// of its canonical snapshot alone. Two well-formed generators with equal
/// snapshots — in particular one freshly loaded from the other's snapshot —
/// agree on the state after, and the word returned by, every subsequent draw.
pub proof fn lemma_replay(g1: Well1024aRng, g2: Well1024aRng, n: nat)
    requires
        g1.well_formed(),
        g2.well_formed(),
        g1@ == g2@,
    ensures
        advance(g1@, n) == advance(g2@, n),
        output_at(g1@, n) == output_at(g2@, n),
{
}

} // verus!

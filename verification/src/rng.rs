//! The deterministic random source: a seeded splitmix64 stream.
//!
//! Every draw is an exact function of the current 64-bit state, and the state
//! advances by a fixed increment, so a whole generation run is a pure
//! function of its seed. The contracts pin both the drawn value and the
//! successor state, which is what makes the generator's output replayable.

use vstd::prelude::*;
use crate::fixed::ONE;

verus! {

/// Successor state of the stream.
pub open spec fn next_state_m(s: u64) -> u64 {
    ((s + 0x9E37_79B9_7F4A_7C15) % 0x1_0000_0000_0000_0000) as u64
}

/// Output mixing of a state into a pseudo-random 64-bit word.
pub open spec fn mix_m(z0: u64) -> u64 {
    let z1 = (((z0 ^ (z0 >> 30)) * 0xBF58_476D_1CE4_E5B9) % 0x1_0000_0000_0000_0000) as u64;
    let z2 = (((z1 ^ (z1 >> 27)) * 0x94D0_49BB_1331_11EB) % 0x1_0000_0000_0000_0000) as u64;
    z2 ^ (z2 >> 31)
}

/// The word produced by one draw from state `s`.
#[verifier::opaque]
pub open spec fn word_m(s: u64) -> u64 {
    mix_m(next_state_m(s))
}

/// A uniform draw in `[0, ONE)` (a fraction of one model unit).
pub open spec fn unit_m(s: u64) -> int {
    (word_m(s) % 1_000_000) as int
}

/// A uniform draw in `[1, ONE]` (never zero, safe for logarithms).
pub open spec fn unit_pos_m(s: u64) -> int {
    (word_m(s) % 1_000_000) as int + 1
}

/// A seeded pseudo-random stream; one instance is threaded through a whole
/// generation run.
pub struct RandomSource {
    pub state: u64,
}

impl RandomSource {
    /// Start a stream from a seed.
    pub fn new(seed: u64) -> (r: RandomSource)
        ensures
            r.state == seed,
    {
        RandomSource { state: seed }
    }

    /// Draw one 64-bit word and advance the state.
    pub fn next_word(&mut self) -> (w: u64)
        ensures
            final(self).state == next_state_m(old(self).state),
            w == word_m(old(self).state),
    {
        proof {
            reveal(word_m);
        }
        let s2: u64 = (((self.state as u128) + 0x9E37_79B9_7F4A_7C15) % 0x1_0000_0000_0000_0000) as u64;
        self.state = s2;
        let z0: u64 = s2;
        let z1: u64 = ((((z0 ^ (z0 >> 30)) as u128) * 0xBF58_476D_1CE4_E5B9) % 0x1_0000_0000_0000_0000) as u64;
        let z2: u64 = ((((z1 ^ (z1 >> 27)) as u128) * 0x94D0_49BB_1331_11EB) % 0x1_0000_0000_0000_0000) as u64;
        z2 ^ (z2 >> 31)
    }

    /// Draw a uniform fraction of a model unit, in `[0, ONE)`.
    pub fn next_unit(&mut self) -> (u: i128)
        ensures
            final(self).state == next_state_m(old(self).state),
            u == unit_m(old(self).state),
            0 <= u < ONE,
    {
        let w = self.next_word();
        (w % 1_000_000) as i128
    }

    /// Draw a uniform fraction of a model unit, in `[1, ONE]`.
    pub fn next_unit_pos(&mut self) -> (u: i128)
        ensures
            final(self).state == next_state_m(old(self).state),
            u == unit_pos_m(old(self).state),
            1 <= u <= ONE,
    {
        let w = self.next_word();
        (w % 1_000_000) as i128 + 1
    }
}

} // verus!

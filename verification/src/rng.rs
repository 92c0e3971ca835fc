//! The source of randomness that the caller hands to the engine.
//!
//! The generator is a linear congruential one over 64 bits: the same seed
//! gives the same rolls on every machine, so a turn can be replayed.

use crate::ratio::SCALE;
use vstd::prelude::*;

verus! {

/// The state that follows `state`.
pub open spec fn next_state(state: u64) -> u64 {
    ((state as int * 6364136223846793005 + 1442695040888963407) % 0x1_0000_0000_0000_0000) as u64
}

/// The roll that a state yields: its upper half scaled down to the range
/// from 0 up to, but not including, `SCALE`.
pub open spec fn roll_of(state: u64) -> int {
    ((state as int / 0x1_0000_0000) * SCALE as int) / 0x1_0000_0000
}

/// A seedable generator of rolls.
#[derive(Debug, Clone, Copy, PartialEq, Eq)]
pub struct Rng {
    pub state: u64,
}

impl Rng {
    /// The generator after `n` draws.
    pub open spec fn advanced(self, n: nat) -> Rng
        decreases n,
    {
        if n == 0 {
            self
        } else {
            (Rng { state: next_state(self.state) }).advanced((n - 1) as nat)
        }
    }

    /// The roll that the next draw yields.
    pub open spec fn roll(self) -> int {
        roll_of(next_state(self.state))
    }

    /// The roll that the draw after `k` others yields.
    pub open spec fn roll_at(self, k: nat) -> int {
        self.advanced(k).roll()
    }

    /// A generator that starts from `seed`.
    pub fn new(seed: u64) -> (r: Self)
        ensures
            r.state == seed,
    {
        Rng { state: seed }
    }

    /// Draws one roll.
    pub fn next_roll(&mut self) -> (r: u32)
        ensures
            r == old(self).roll(),
            r < SCALE,
            *final(self) == old(self).advanced(1),
    {
        assert(self.state as int * 6364136223846793005 <= 0xffff_ffff_ffff_ffff
            * 6364136223846793005) by (nonlinear_arith)
            requires
                self.state as int <= 0xffff_ffff_ffff_ffff,
        ;
        let wide: u128 = (self.state as u128) * 6364136223846793005u128
            + 1442695040888963407u128;
        let next: u64 = (wide % 0x1_0000_0000_0000_0000u128) as u64;
        proof {
            let ghost before = *old(self);
            assert(next == next_state(before.state));
            assert(before.advanced(1) == (Rng { state: next }).advanced(0));
        }
        self.state = next;
        let upper: u64 = next / 0x1_0000_0000;
        let scaled: u64 = upper * 10_000;
        let roll: u64 = scaled / 0x1_0000_0000;
        roll as u32
    }
}

/// Drawing `a` times and then `b` times is drawing `a + b` times.
pub proof fn lemma_advanced_sum(rng: Rng, a: nat, b: nat)
    ensures
        rng.advanced(a).advanced(b) == rng.advanced(a + b),
    decreases a,
{
    if a > 0 {
        lemma_advanced_sum(Rng { state: next_state(rng.state) }, (a - 1) as nat, b);
    }
}

/// Every roll lies in the range from 0 up to, but not including, `SCALE`.
pub proof fn lemma_roll_range(rng: Rng)
    ensures
        0 <= rng.roll() < SCALE,
{
}

} // verus!

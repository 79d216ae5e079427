//! The source of randomness, injected into the simulation so that tests
//! can substitute a fixed sequence for the process-wide generator.

use vstd::prelude::*;

verus! {

/// A supplier of uniform random draws.
pub trait RandomSource {
    /// A draw from `0 .. n`.
    fn below(&mut self, n: u32) -> (r: u32)
        requires
            n >= 1,
        ensures
            r < n,
    ;
}

/// A deterministic generator with 64-bit linear-congruential state, for
/// seeded runs and tests.
#[derive(Clone, Copy, PartialEq, Eq, Structural, Debug)]
pub struct SeededRandom {
    pub state: u64,
}

impl SeededRandom {
    pub fn new(seed: u64) -> (r: SeededRandom)
        ensures
            r.state == seed,
    {
        SeededRandom { state: seed }
    }
}

impl RandomSource for SeededRandom {
    /// One linear-congruential step; the draw is the high bits of the new
    /// state reduced modulo `n`, so a seeded run is reproducible.
    fn below(&mut self, n: u32) -> (r: u32)
        ensures
            final(self).state == vstd::wrapping::u64_specs::wrapping_add(
                vstd::wrapping::u64_specs::wrapping_mul(old(self).state, 6364136223846793005),
                1442695040888963407,
            ),
            r as int == (final(self).state >> 33) as int % n as int,
    {
        self.state = self.state.wrapping_mul(6364136223846793005).wrapping_add(
            1442695040888963407,
        );
        let hi: u64 = self.state >> 33;
        let m: u64 = hi % (n as u64);
        proof {
            vstd::arithmetic::div_mod::lemma_mod_division_less_than_divisor(hi as int, n as int);
        }
        m as u32
    }
}

/// Draws taken from the process-wide generator.
pub struct ThreadRandom;

impl ThreadRandom {
    pub fn new() -> (r: ThreadRandom) {
        ThreadRandom
    }
}

/// Relies on `rand::random_range` over `0..n`: the result lies in the
/// given range, so it is below `n`; the range is nonempty since `n >= 1`.
#[verifier::external_body]
fn rand_below(n: u32) -> (r: u32)
    requires
        n >= 1,
    ensures
        r < n,
{
    rand::random_range(0..n)
}

impl RandomSource for ThreadRandom {
    fn below(&mut self, n: u32) -> (r: u32) {
        rand_below(n)
    }
}

} // verus!

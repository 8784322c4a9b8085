//! A seedable linear-congruential pseudorandom generator.
//!
//! The generator owns a single 64-bit state word and three fixed constants
//! (multiplier, increment, modulus). Each draw advances the state as
//! `state' = (a * state + c) mod m` and returns the new state, so the whole
//! draw sequence is a function of the seed alone.

use vstd::arithmetic::div_mod::{lemma_add_mod_noop, lemma_mod_sub_multiples_vanish, lemma_small_mod};
use vstd::prelude::*;

verus! {

/// Multiplier of the linear-congruential step, from Knuth,
/// "The Art of Computer Programming", Volume 2, Section 3.2.1.
pub const LCG_MULTIPLIER: u64 = 6364136223846793005;

/// Increment of the linear-congruential step, from the same table.
pub const LCG_INCREMENT: u64 = 1442695040888963407;

/// One step of the generator: multiply and add in the wrapping arithmetic of
/// the machine (modulo 2^64), then reduce modulo `u64::MAX`, the generator's
/// modulus.
pub open spec fn lcg_step(s: u64) -> u64 {
    (((LCG_MULTIPLIER * s + LCG_INCREMENT) % 0x1_0000_0000_0000_0000int) % (u64::MAX as int)) as u64
}

/// The state reached after `n` steps from `seed`.
pub open spec fn lcg_iterate(seed: u64, n: nat) -> u64
    decreases n,
{
    if n == 0 {
        seed
    } else {
        lcg_step(lcg_iterate(seed, (n - 1) as nat))
    }
}

/// The first `n` draws of a generator seeded with `seed`: draw `i` is the
/// state reached after `i + 1` steps.
pub open spec fn lcg_stream(seed: u64, n: nat) -> Seq<u64> {
    Seq::new(n, |i: int| lcg_iterate(seed, (i + 1) as nat))
}

/// A linear-congruential pseudorandom generator (Lehmer-style).
///
/// The state is exclusively owned by one instance and advances
/// deterministically on each draw; there is no global or shared state.
pub struct LcgRng {
    state: u64,
    a: u64,
    c: u64,
    m: u64,
}

impl View for LcgRng {
    type V = u64;

    /// A generator is abstracted by its current state word.
    closed spec fn view(&self) -> u64 {
        self.state
    }
}

impl LcgRng {
    /// The constants hold their fixed values: the Knuth multiplier and
    /// increment, and the maximum representable 64-bit value as modulus.
    pub closed spec fn well_formed(&self) -> bool {
        &&& self.a == LCG_MULTIPLIER
        &&& self.c == LCG_INCREMENT
        &&& self.m == u64::MAX
    }

    /// Construct a generator whose state is exactly the given seed.
    pub fn new(seed: u64) -> (rng: Self)
        ensures
            rng.well_formed(),
            rng@ == seed,
    {
        LcgRng { state: seed, a: LCG_MULTIPLIER, c: LCG_INCREMENT, m: u64::MAX }
    }

    /// Advance the state one linear-congruential step and return the new
    /// state.
    pub fn next_u64(&mut self) -> (r: u64)
        requires
            old(self).well_formed(),
        ensures
            final(self).well_formed(),
            final(self)@ == lcg_step(old(self)@),
            r == final(self)@,
    {
        let product = self.a.wrapping_mul(self.state);
        let sum = product.wrapping_add(self.c);
        proof {
            let two64: int = 0x1_0000_0000_0000_0000int;
            let p: int = LCG_MULTIPLIER * old(self)@;
            lemma_small_mod(LCG_INCREMENT as nat, two64 as nat);
            lemma_add_mod_noop(p, LCG_INCREMENT as int, two64);
            if product + LCG_INCREMENT > u64::MAX {
                lemma_mod_sub_multiples_vanish(product + LCG_INCREMENT, two64);
                lemma_small_mod((product + LCG_INCREMENT - two64) as nat, two64 as nat);
            } else {
                lemma_small_mod((product + LCG_INCREMENT) as nat, two64 as nat);
            }
            assert(sum == (p + LCG_INCREMENT) % two64);
        }
        self.state = sum % self.m;
        self.state
    }

    /// Draw `count` values in sequence. The result is exactly the stream
    /// determined by the starting state, and the generator ends in the state
    /// reached after `count` steps.
    pub fn draw_many(&mut self, count: usize) -> (values: Vec<u64>)
        requires
            old(self).well_formed(),
        ensures
            final(self).well_formed(),
            values@ == lcg_stream(old(self)@, count as nat),
            final(self)@ == lcg_iterate(old(self)@, count as nat),
    {
        let ghost start: u64 = self@;
        let mut values: Vec<u64> = Vec::new();
        let mut i: usize = 0;
        while i < count
            invariant
                self.well_formed(),
                i <= count,
                values@.len() == i as nat,
                self@ == lcg_iterate(start, i as nat),
                forall|j: int| 0 <= j < i ==> values@[j] == lcg_iterate(start, (j + 1) as nat),
            decreases count - i,
        {
            let v = self.next_u64();
            values.push(v);
            i += 1;
        }
        proof {
            assert(values@ =~= lcg_stream(start, count as nat));
        }
        values
    }
}

/// Determinism: two generator instances seeded with the same value produce
/// identical draw sequences, of any length.
pub proof fn lemma_equal_seeds_equal_streams(a: LcgRng, b: LcgRng, n: nat)
    requires
        a.well_formed(),
        b.well_formed(),
        a@ == b@,
    ensures
        lcg_stream(a@, n) == lcg_stream(b@, n),
{
}

} // verus!

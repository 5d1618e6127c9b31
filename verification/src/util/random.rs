//! A small deterministic generator that the patterns draw from.
//!
//! The application seeds it once from whatever entropy it has; from then
//! on every draw is a function of the state, so a pattern's frames can be
//! replayed from its seed.

use vstd::prelude::*;

verus! {

/// The state that a zero seed is replaced by (zero is a fixed point).
pub const DEFAULT_SEED: u32 = 0x9E37_79B9;

/// One xorshift step on a 32-bit state.
pub open spec fn rng_step(x: u32) -> u32 {
    let a = x ^ (x << 13);
    let b = a ^ (a >> 17);
    b ^ (b << 5)
}

/// The state reached from `x` after `k` draws.
pub open spec fn rng_after(x: u32, k: nat) -> u32
    decreases k,
{
    if k == 0 {
        x
    } else {
        rng_step(rng_after(x, (k - 1) as nat))
    }
}

/// Drawing `a` times and then `b` times is drawing `a + b` times.
pub proof fn lemma_rng_after_add(x: u32, a: nat, b: nat)
    ensures
        rng_after(rng_after(x, a), b) == rng_after(x, a + b),
    decreases b,
{
    if b > 0 {
        lemma_rng_after_add(x, a, (b - 1) as nat);
    }
}

/// Deterministic 32-bit generator; its view is its state.
#[derive(Copy, Clone, Debug)]
pub struct Rng {
    state: u32,
}

impl View for Rng {
    type V = u32;

    closed spec fn view(&self) -> u32 {
        self.state
    }
}

impl Rng {
    /// The state that a generator seeded with `seed` starts in.
    pub open spec fn seed_state(seed: u32) -> u32 {
        if seed == 0 {
            DEFAULT_SEED
        } else {
            seed
        }
    }

    /// A generator started from `seed`.
    pub fn new(seed: u32) -> (rng: Rng)
        ensures
            rng@ == Self::seed_state(seed),
    {
        Rng { state: if seed == 0 { DEFAULT_SEED } else { seed } }
    }

    /// Advances the state by one step and returns the new state.
    pub fn random(&mut self) -> (out: u32)
        ensures
            final(self)@ == rng_step(old(self)@),
            out == final(self)@,
    {
        let x: u32 = self.state;
        let a: u32 = x ^ (x << 13);
        let b: u32 = a ^ (a >> 17);
        let c: u32 = b ^ (b << 5);
        self.state = c;
        c
    }

    /// The current state, usable as a seed for a generator of its own.
    pub fn state(&self) -> (out: u32)
        ensures
            out == self@,
    {
        self.state
    }
}

/// The value that `from_range` picks in `[lo, hi)` from one draw, or `lo`
/// where the range is empty.
pub open spec fn range_pick(lo: usize, hi: usize, draw: u32) -> usize {
    if lo >= hi {
        lo
    } else {
        (draw as usize % ((hi - lo) as usize) + lo) as usize
    }
}

/// A value in `[range.0, range.1)`, or `range.0` where the two are equal.
/// An empty range costs no draw.
pub fn from_range(range: (usize, usize), rng: &mut Rng) -> (out: usize)
    requires
        range.1 >= range.0,
    ensures
        range.0 == range.1 ==> final(rng)@ == old(rng)@ && out == range.0,
        range.0 < range.1 ==> final(rng)@ == rng_step(old(rng)@) && out == range_pick(
            range.0,
            range.1,
            final(rng)@,
        ),
        range.0 <= out,
        range.0 < range.1 ==> out < range.1,
{
    if range.0 == range.1 {
        range.0
    } else {
        let draw: u32 = rng.random();
        draw as usize % (range.1 - range.0) + range.0
    }
}

} // verus!

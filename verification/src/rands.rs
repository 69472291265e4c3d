//! Sources of random choices for schedulers and mutators.
use vstd::prelude::*;

verus! {

/// A source of random numbers.
pub trait Rand: Sized {
    /// The number the next call of `below` with `upper_bound_excl` gives.
    spec fn spec_below(&self, upper_bound_excl: usize) -> usize;

    /// The generator after a call of `below` with `upper_bound_excl`.
    spec fn spec_after_below(&self, upper_bound_excl: usize) -> Self;

    /// A number below `upper_bound_excl`.
    fn below(&mut self, upper_bound_excl: usize) -> (r: usize)
        requires
            upper_bound_excl > 0,
        ensures
            r < upper_bound_excl,
            r == old(self).spec_below(upper_bound_excl),
            *final(self) == old(self).spec_after_below(upper_bound_excl),
    ;
}

/// One step of the xorshift generator.
pub open spec fn spec_xorshift(x: u64) -> u64 {
    let a = x ^ (x << 13u64);
    let b = a ^ (a >> 7u64);
    b ^ (b << 17u64)
}

/// A small xorshift generator. Not suitable for cryptography.
#[derive(Debug, Clone, Copy)]
pub struct XorShiftRand {
    state: u64,
}

impl XorShiftRand {
    /// A generator seeded with `seed`; a zero seed is replaced by a fixed non-zero one.
    pub fn with_seed(seed: u64) -> (r: Self)
        ensures
            r.spec_state() != 0,
            seed != 0 ==> r.spec_state() == seed,
    {
        let state = if seed == 0 {
            0x9E37_79B9_7F4A_7C15u64
        } else {
            seed
        };
        XorShiftRand { state }
    }

    /// The internal state.
    pub closed spec fn spec_state(&self) -> u64 {
        self.state
    }

    /// The next raw 64-bit output.
    pub fn next_u64(&mut self) -> (r: u64)
        ensures
            r == spec_xorshift(old(self).spec_state()),
            final(self).spec_state() == r,
    {
        let mut x = self.state;
        x = x ^ (x << 13u64);
        x = x ^ (x >> 7u64);
        x = x ^ (x << 17u64);
        self.state = x;
        x
    }
}

impl Rand for XorShiftRand {
    /// The next output, reduced modulo `upper_bound_excl`.
    closed spec fn spec_below(&self, upper_bound_excl: usize) -> usize {
        (spec_xorshift(self.state) % (upper_bound_excl as u64)) as usize
    }

    /// The generator advanced by one step.
    closed spec fn spec_after_below(&self, upper_bound_excl: usize) -> Self {
        XorShiftRand { state: spec_xorshift(self.state) }
    }

    /// The next output, reduced modulo `upper_bound_excl`.
    fn below(&mut self, upper_bound_excl: usize) -> (r: usize)
        ensures
            r == spec_xorshift(old(self).spec_state()) % (upper_bound_excl as u64),
            final(self).spec_state() == spec_xorshift(old(self).spec_state()),
    {
        let v = self.next_u64();
        let b = upper_bound_excl as u64;
        (v % b) as usize
    }
}

} // verus!

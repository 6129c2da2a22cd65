//! The generic form of the generators, driven through two traits: one to
//! construct a generator, one to draw values from it.
use vstd::prelude::*;
use crate::model::{xorshift128_next, xorshift32_next, xorshift64_next, xorshift_word_next};
use crate::seed::{
    create_state, seed128_from_entropy, seed32_from_entropy, seed64_from_entropy,
    seed_word_from_entropy,
};
use crate::step::{xorshift128_step, xorshift32_step, xorshift64_step, xorshift_word_step};

verus! {

/// Construction of a generator with state of type `T`.
pub trait RandomGeneratorWithSeed<T>: Sized {
    /// A generator whose state is `input`, taken as it is.
    fn new_with_seed(input: T) -> Self;

    /// A generator seeded from the wall clock.
    fn new() -> Self;
}

/// Drawing values of type `T` from a generator.
pub trait RandomGeneratable<T> {
    /// Advances the state once and returns the new state.
    fn gen(&mut self) -> T;

    /// The largest value that `gen` can return.
    fn max_size(&self) -> T;
}

/// A xorshift generator whose state is of type `T`; it is implemented for
/// `u32`, `u64`, `u128` and `usize`.
pub struct Xorshift<T> {
    /// The whole state; the next value is computed from it alone.
    pub state: T,
}

impl RandomGeneratorWithSeed<u32> for Xorshift<u32> {
    fn new_with_seed(input: u32) -> (r: Xorshift<u32>)
        ensures
            r.state == input,
    {
        Xorshift { state: input }
    }

    fn new() -> (r: Xorshift<u32>)
        ensures
            r.state != 0,
    {
        Xorshift { state: seed32_from_entropy(create_state()) }
    }
}

impl RandomGeneratable<u32> for Xorshift<u32> {
    fn gen(&mut self) -> (r: u32)
        ensures
            r == xorshift32_next(old(self).state),
            final(self).state == r,
    {
        self.state = xorshift32_step(self.state);
        self.state
    }

    fn max_size(&self) -> (r: u32)
        ensures
            r == u32::MAX,
    {
        u32::MAX
    }
}

impl Xorshift<u32> {
    /// The next value of the generator's endless sequence: always `Some`,
    /// with the state advanced once.
    pub fn next(&mut self) -> (r: Option<u32>)
        ensures
            r == Some(xorshift32_next(old(self).state)),
            final(self).state == xorshift32_next(old(self).state),
    {
        Some(self.gen())
    }
}

impl RandomGeneratorWithSeed<u64> for Xorshift<u64> {
    fn new_with_seed(input: u64) -> (r: Xorshift<u64>)
        ensures
            r.state == input,
    {
        Xorshift { state: input }
    }

    fn new() -> (r: Xorshift<u64>)
        ensures
            r.state != 0,
    {
        Xorshift { state: seed64_from_entropy(create_state()) }
    }
}

impl RandomGeneratable<u64> for Xorshift<u64> {
    fn gen(&mut self) -> (r: u64)
        ensures
            r == xorshift64_next(old(self).state),
            final(self).state == r,
    {
        self.state = xorshift64_step(self.state);
        self.state
    }

    fn max_size(&self) -> (r: u64)
        ensures
            r == u64::MAX,
    {
        u64::MAX
    }
}

impl Xorshift<u64> {
    /// The next value of the generator's endless sequence: always `Some`,
    /// with the state advanced once.
    pub fn next(&mut self) -> (r: Option<u64>)
        ensures
            r == Some(xorshift64_next(old(self).state)),
            final(self).state == xorshift64_next(old(self).state),
    {
        Some(self.gen())
    }
}

impl RandomGeneratorWithSeed<u128> for Xorshift<u128> {
    fn new_with_seed(input: u128) -> (r: Xorshift<u128>)
        ensures
            r.state == input,
    {
        Xorshift { state: input }
    }

    fn new() -> (r: Xorshift<u128>)
        ensures
            r.state != 0,
    {
        Xorshift { state: seed128_from_entropy(create_state()) }
    }
}

impl RandomGeneratable<u128> for Xorshift<u128> {
    fn gen(&mut self) -> (r: u128)
        ensures
            r == xorshift128_next(old(self).state),
            final(self).state == r,
    {
        self.state = xorshift128_step(self.state);
        self.state
    }

    fn max_size(&self) -> (r: u128)
        ensures
            r == u128::MAX,
    {
        u128::MAX
    }
}

impl Xorshift<u128> {
    /// The next value of the generator's endless sequence: always `Some`,
    /// with the state advanced once.
    pub fn next(&mut self) -> (r: Option<u128>)
        ensures
            r == Some(xorshift128_next(old(self).state)),
            final(self).state == xorshift128_next(old(self).state),
    {
        Some(self.gen())
    }
}

impl RandomGeneratorWithSeed<usize> for Xorshift<usize> {
    fn new_with_seed(input: usize) -> (r: Xorshift<usize>)
        ensures
            r.state == input,
    {
        Xorshift { state: input }
    }

    fn new() -> (r: Xorshift<usize>)
        ensures
            r.state != 0,
    {
        Xorshift { state: seed_word_from_entropy(create_state()) }
    }
}

impl RandomGeneratable<usize> for Xorshift<usize> {
    fn gen(&mut self) -> (r: usize)
        ensures
            r == xorshift_word_next(old(self).state),
            final(self).state == r,
    {
        self.state = xorshift_word_step(self.state);
        self.state
    }

    fn max_size(&self) -> (r: usize)
        ensures
            r == usize::MAX,
    {
        usize::MAX
    }
}

impl Xorshift<usize> {
    /// The next value of the generator's endless sequence: always `Some`,
    /// with the state advanced once.
    pub fn next(&mut self) -> (r: Option<usize>)
        ensures
            r == Some(xorshift_word_next(old(self).state)),
            final(self).state == xorshift_word_next(old(self).state),
    {
        Some(self.gen())
    }
}

} // verus!

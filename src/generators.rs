//! One generator type per state width.
use vstd::prelude::*;
use crate::model::{
    iterate, step128, step32, step64, step_word, xorshift128_next, xorshift32_next,
    xorshift64_next, xorshift_word_next,
};
use crate::seed::{
    create_state, seed128_from_entropy, seed32_from_entropy, seed64_from_entropy,
    seed_word_from_entropy, ZERO_SEED_REPLACEMENT,
};
use crate::step::{xorshift128_step, xorshift32_step, xorshift64_step, xorshift_word_step};

verus! {

/// A xorshift generator with 32-bit state.
#[derive(Debug, Clone)]
pub struct Xorshift32 {
    /// The whole state; the next value is computed from it alone.
    pub state: u32,
}

impl Xorshift32 {
    /// A generator seeded from the wall clock; never in the zero state.
    pub fn new() -> (r: Xorshift32)
        ensures
            r.state != 0,
    {
        Xorshift32::from_entropy(create_state())
    }

    /// A generator seeded from raw entropy, truncated to the state's width,
    /// with a zero truncation replaced by a fixed non-zero value.
    pub fn from_entropy(raw: u128) -> (r: Xorshift32)
        ensures
            raw as u32 != 0 ==> r.state == raw as u32,
            raw as u32 == 0 ==> r.state == ZERO_SEED_REPLACEMENT as u32,
            r.state != 0,
    {
        Xorshift32 { state: seed32_from_entropy(raw) }
    }

    /// A generator whose state is `state`, taken as it is; a zero seed gives
    /// a generator that yields only zeros.
    pub fn new_with_seed(state: u32) -> (r: Xorshift32)
        ensures
            r.state == state,
    {
        Xorshift32 { state: state }
    }

    /// Advances the state once and returns the new state.
    pub fn gen(&mut self) -> (r: u32)
        ensures
            r == xorshift32_next(old(self).state),
            final(self).state == r,
    {
        self.state = xorshift32_step(self.state);
        self.state
    }

    /// The next value of the generator's endless sequence: always `Some`,
    /// with the state advanced once.
    pub fn next(&mut self) -> (r: Option<u32>)
        ensures
            r == Some(xorshift32_next(old(self).state)),
            final(self).state == xorshift32_next(old(self).state),
    {
        Some(self.gen())
    }

    /// Fills `out` with the next `out.len()` values of the sequence, in
    /// order, advancing the state exactly once per slot.
    pub fn fill(&mut self, out: &mut [u32])
        ensures
            final(out)@.len() == old(out)@.len(),
            forall|i: int|
                0 <= i < old(out)@.len() ==> #[trigger] final(out)@[i] == iterate(
                    step32(),
                    old(self).state,
                    (i + 1) as nat,
                ),
            final(self).state == iterate(step32(), old(self).state, old(out)@.len()),
    {
        let ghost start = self.state;
        let n = out.len();
        let mut i: usize = 0;
        while i < n
            invariant
                n == out@.len(),
                0 <= i <= n,
                self.state == iterate(step32(), start, i as nat),
                forall|j: int| 0 <= j < i ==> #[trigger] out@[j] == iterate(step32(), start, (j + 1) as nat),
            decreases n - i,
        {
            let v = self.gen();
            out[i] = v;
            i = i + 1;
        }
    }

    /// Construction is deterministic: two generators seeded alike produce the
    /// same values, draw for draw, with no hidden entropy.
    pub proof fn same_seed_same_values(a: Self, b: Self, n: nat)
        requires
            a.state == b.state,
        ensures
            iterate(step32(), a.state, n) == iterate(step32(), b.state, n),
    {
    }
}

/// A xorshift generator with 64-bit state.
#[derive(Debug, Clone)]
pub struct Xorshift64 {
    /// The whole state; the next value is computed from it alone.
    pub state: u64,
}

impl Xorshift64 {
    /// A generator seeded from the wall clock; never in the zero state.
    pub fn new() -> (r: Xorshift64)
        ensures
            r.state != 0,
    {
        Xorshift64::from_entropy(create_state())
    }

    /// A generator seeded from raw entropy, truncated to the state's width,
    /// with a zero truncation replaced by a fixed non-zero value.
    pub fn from_entropy(raw: u128) -> (r: Xorshift64)
        ensures
            raw as u64 != 0 ==> r.state == raw as u64,
            raw as u64 == 0 ==> r.state == ZERO_SEED_REPLACEMENT as u64,
            r.state != 0,
    {
        Xorshift64 { state: seed64_from_entropy(raw) }
    }

    /// A generator whose state is `state`, taken as it is; a zero seed gives
    /// a generator that yields only zeros.
    pub fn new_with_seed(state: u64) -> (r: Xorshift64)
        ensures
            r.state == state,
    {
        Xorshift64 { state: state }
    }

    /// Advances the state once and returns the new state.
    pub fn gen(&mut self) -> (r: u64)
        ensures
            r == xorshift64_next(old(self).state),
            final(self).state == r,
    {
        self.state = xorshift64_step(self.state);
        self.state
    }

    /// The next value of the generator's endless sequence: always `Some`,
    /// with the state advanced once.
    pub fn next(&mut self) -> (r: Option<u64>)
        ensures
            r == Some(xorshift64_next(old(self).state)),
            final(self).state == xorshift64_next(old(self).state),
    {
        Some(self.gen())
    }

    /// Fills `out` with the next `out.len()` values of the sequence, in
    /// order, advancing the state exactly once per slot.
    pub fn fill(&mut self, out: &mut [u64])
        ensures
            final(out)@.len() == old(out)@.len(),
            forall|i: int|
                0 <= i < old(out)@.len() ==> #[trigger] final(out)@[i] == iterate(
                    step64(),
                    old(self).state,
                    (i + 1) as nat,
                ),
            final(self).state == iterate(step64(), old(self).state, old(out)@.len()),
    {
        let ghost start = self.state;
        let n = out.len();
        let mut i: usize = 0;
        while i < n
            invariant
                n == out@.len(),
                0 <= i <= n,
                self.state == iterate(step64(), start, i as nat),
                forall|j: int| 0 <= j < i ==> #[trigger] out@[j] == iterate(step64(), start, (j + 1) as nat),
            decreases n - i,
        {
            let v = self.gen();
            out[i] = v;
            i = i + 1;
        }
    }

    /// Construction is deterministic: two generators seeded alike produce the
    /// same values, draw for draw, with no hidden entropy.
    pub proof fn same_seed_same_values(a: Self, b: Self, n: nat)
        requires
            a.state == b.state,
        ensures
            iterate(step64(), a.state, n) == iterate(step64(), b.state, n),
    {
    }
}

/// A xorshift generator with 128-bit state, advanced as four 32-bit lanes.
#[derive(Debug, Clone)]
pub struct Xorshift128 {
    /// The whole state; the next value is computed from it alone.
    pub state: u128,
}

impl Xorshift128 {
    /// A generator seeded from the wall clock; never in the zero state.
    pub fn new() -> (r: Xorshift128)
        ensures
            r.state != 0,
    {
        Xorshift128::from_entropy(create_state())
    }

    /// A generator seeded from raw entropy, truncated to the state's width,
    /// with a zero truncation replaced by a fixed non-zero value.
    pub fn from_entropy(raw: u128) -> (r: Xorshift128)
        ensures
            raw != 0 ==> r.state == raw,
            raw == 0 ==> r.state == ZERO_SEED_REPLACEMENT,
            r.state != 0,
    {
        Xorshift128 { state: seed128_from_entropy(raw) }
    }

    /// A generator whose state is `state`, taken as it is; a zero seed gives
    /// a generator that yields only zeros.
    pub fn new_with_seed(state: u128) -> (r: Xorshift128)
        ensures
            r.state == state,
    {
        Xorshift128 { state: state }
    }

    /// Advances the state once and returns the new state.
    pub fn gen(&mut self) -> (r: u128)
        ensures
            r == xorshift128_next(old(self).state),
            final(self).state == r,
    {
        self.state = xorshift128_step(self.state);
        self.state
    }

    /// The next value of the generator's endless sequence: always `Some`,
    /// with the state advanced once.
    pub fn next(&mut self) -> (r: Option<u128>)
        ensures
            r == Some(xorshift128_next(old(self).state)),
            final(self).state == xorshift128_next(old(self).state),
    {
        Some(self.gen())
    }

    /// Fills `out` with the next `out.len()` values of the sequence, in
    /// order, advancing the state exactly once per slot.
    pub fn fill(&mut self, out: &mut [u128])
        ensures
            final(out)@.len() == old(out)@.len(),
            forall|i: int|
                0 <= i < old(out)@.len() ==> #[trigger] final(out)@[i] == iterate(
                    step128(),
                    old(self).state,
                    (i + 1) as nat,
                ),
            final(self).state == iterate(step128(), old(self).state, old(out)@.len()),
    {
        let ghost start = self.state;
        let n = out.len();
        let mut i: usize = 0;
        while i < n
            invariant
                n == out@.len(),
                0 <= i <= n,
                self.state == iterate(step128(), start, i as nat),
                forall|j: int| 0 <= j < i ==> #[trigger] out@[j] == iterate(step128(), start, (j + 1) as nat),
            decreases n - i,
        {
            let v = self.gen();
            out[i] = v;
            i = i + 1;
        }
    }

    /// Construction is deterministic: two generators seeded alike produce the
    /// same values, draw for draw, with no hidden entropy.
    pub proof fn same_seed_same_values(a: Self, b: Self, n: nat)
        requires
            a.state == b.state,
        ensures
            iterate(step128(), a.state, n) == iterate(step128(), b.state, n),
    {
    }
}

/// A xorshift generator with native-word state: it behaves as `Xorshift64`
/// on 64-bit targets and as `Xorshift32` on 32-bit targets.
#[derive(Debug, Clone)]
pub struct XorshiftSize {
    /// The whole state; the next value is computed from it alone.
    pub state: usize,
}

impl XorshiftSize {
    /// A generator seeded from the wall clock; never in the zero state.
    pub fn new() -> (r: XorshiftSize)
        ensures
            r.state != 0,
    {
        XorshiftSize::from_entropy(create_state())
    }

    /// A generator seeded from raw entropy, truncated to the state's width,
    /// with a zero truncation replaced by a fixed non-zero value.
    pub fn from_entropy(raw: u128) -> (r: XorshiftSize)
        ensures
            raw as usize != 0 ==> r.state == raw as usize,
            raw as usize == 0 ==> r.state == ZERO_SEED_REPLACEMENT as usize,
            r.state != 0,
    {
        XorshiftSize { state: seed_word_from_entropy(raw) }
    }

    /// A generator whose state is `state`, taken as it is; a zero seed gives
    /// a generator that yields only zeros.
    pub fn new_with_seed(state: usize) -> (r: XorshiftSize)
        ensures
            r.state == state,
    {
        XorshiftSize { state: state }
    }

    /// Advances the state once and returns the new state.
    pub fn gen(&mut self) -> (r: usize)
        ensures
            r == xorshift_word_next(old(self).state),
            final(self).state == r,
    {
        self.state = xorshift_word_step(self.state);
        self.state
    }

    /// The next value of the generator's endless sequence: always `Some`,
    /// with the state advanced once.
    pub fn next(&mut self) -> (r: Option<usize>)
        ensures
            r == Some(xorshift_word_next(old(self).state)),
            final(self).state == xorshift_word_next(old(self).state),
    {
        Some(self.gen())
    }

    /// Fills `out` with the next `out.len()` values of the sequence, in
    /// order, advancing the state exactly once per slot.
    pub fn fill(&mut self, out: &mut [usize])
        ensures
            final(out)@.len() == old(out)@.len(),
            forall|i: int|
                0 <= i < old(out)@.len() ==> #[trigger] final(out)@[i] == iterate(
                    step_word(),
                    old(self).state,
                    (i + 1) as nat,
                ),
            final(self).state == iterate(step_word(), old(self).state, old(out)@.len()),
    {
        let ghost start = self.state;
        let n = out.len();
        let mut i: usize = 0;
        while i < n
            invariant
                n == out@.len(),
                0 <= i <= n,
                self.state == iterate(step_word(), start, i as nat),
                forall|j: int| 0 <= j < i ==> #[trigger] out@[j] == iterate(step_word(), start, (j + 1) as nat),
            decreases n - i,
        {
            let v = self.gen();
            out[i] = v;
            i = i + 1;
        }
    }

    /// Construction is deterministic: two generators seeded alike produce the
    /// same values, draw for draw, with no hidden entropy.
    pub proof fn same_seed_same_values(a: Self, b: Self, n: nat)
        requires
            a.state == b.state,
        ensures
            iterate(step_word(), a.state, n) == iterate(step_word(), b.state, n),
    {
    }
}

} // verus!

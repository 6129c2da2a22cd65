//! The mathematical model of the generators: one transition function per
//! width, the sequence of states a seed leads to, and the laws that hold of
//! them.
use vstd::prelude::*;

verus! {

/// The 32-bit xorshift transition with Marsaglia's shift triple (13, 17, 5).
pub open spec fn xorshift32_next(s: u32) -> u32 {
    let x = s ^ (s << 13u32);
    let y = x ^ (x >> 17u32);
    y ^ (y << 5u32)
}

/// The 64-bit xorshift transition with Marsaglia's shift triple (13, 7, 17).
pub open spec fn xorshift64_next(s: u64) -> u64 {
    let x = s ^ (s << 13u64);
    let y = x ^ (x >> 7u64);
    y ^ (y << 17u64)
}

/// The most significant 32-bit lane of a 128-bit state.
pub open spec fn lane_a(s: u128) -> u32 {
    (s >> 96u128) as u32
}

/// The second 32-bit lane of a 128-bit state.
pub open spec fn lane_b(s: u128) -> u32 {
    (s >> 64u128) as u32
}

/// The third 32-bit lane of a 128-bit state.
pub open spec fn lane_c(s: u128) -> u32 {
    (s >> 32u128) as u32
}

/// The least significant 32-bit lane of a 128-bit state.
pub open spec fn lane_d(s: u128) -> u32 {
    s as u32
}

/// The 128-bit state made of four lanes, `a` the most significant.
pub open spec fn from_lanes(a: u32, b: u32, c: u32, d: u32) -> u128 {
    ((a as u128) << 96u128) | ((b as u128) << 64u128) | ((c as u128) << 32u128) | (d as u128)
}

/// The new most significant lane of the 128-bit transition, computed from
/// the old most significant lane `s` and the old least significant lane `t`.
pub open spec fn lane_mix(s: u32, t: u32) -> u32 {
    let t1 = t ^ (t << 11u32);
    let t2 = t1 ^ (t1 >> 8u32);
    t2 ^ s ^ (s >> 19u32)
}

/// The 128-bit xorshift transition: the lanes move down by one and a new
/// most significant lane is mixed from the old first and last lanes.
pub open spec fn xorshift128_next(s: u128) -> u128 {
    from_lanes(lane_mix(lane_a(s), lane_d(s)), lane_a(s), lane_b(s), lane_c(s))
}

/// Whether the native word is 64 bits wide (otherwise it is 32 bits wide).
pub open spec fn word_is_64_bits() -> bool {
    usize::MAX == u64::MAX
}

/// The native-word transition: the 64-bit one on 64-bit targets, the 32-bit
/// one on 32-bit targets.
pub open spec fn xorshift_word_next(s: usize) -> usize {
    if word_is_64_bits() {
        xorshift64_next(s as u64) as usize
    } else {
        xorshift32_next(s as u32) as usize
    }
}

/// The state reached from `s` after `n` applications of `f`.
pub open spec fn iterate<T>(f: spec_fn(T) -> T, s: T, n: nat) -> T
    decreases n,
{
    if n == 0 {
        s
    } else {
        f(iterate(f, s, (n - 1) as nat))
    }
}

/// The 32-bit transition as a function value.
pub open spec fn step32() -> spec_fn(u32) -> u32 {
    |s: u32| xorshift32_next(s)
}

/// The 64-bit transition as a function value.
pub open spec fn step64() -> spec_fn(u64) -> u64 {
    |s: u64| xorshift64_next(s)
}

/// The 128-bit transition as a function value.
pub open spec fn step128() -> spec_fn(u128) -> u128 {
    |s: u128| xorshift128_next(s)
}

/// The native-word transition as a function value.
pub open spec fn step_word() -> spec_fn(usize) -> usize {
    |s: usize| xorshift_word_next(s)
}

/// Repeating a transition from one of its fixed points stays there.
pub proof fn lemma_iterate_fixed_point<T>(f: spec_fn(T) -> T, z: T, n: nat)
    requires
        f(z) == z,
    ensures
        iterate(f, z, n) == z,
    decreases n,
{
    if n > 0 {
        lemma_iterate_fixed_point(f, z, (n - 1) as nat);
    }
}

/// A property that every application of `f` keeps holds of every state
/// reached from a state that has it.
pub proof fn lemma_iterate_keeps<T>(f: spec_fn(T) -> T, p: spec_fn(T) -> bool, s: T, n: nat)
    requires
        p(s),
        forall|x: T| p(x) ==> #[trigger] p(f(x)),
    ensures
        p(iterate(f, s, n)),
    decreases n,
{
    if n > 0 {
        lemma_iterate_keeps(f, p, s, (n - 1) as nat);
    }
}

proof fn lemma_zero_fixed32()
    ensures
        xorshift32_next(0) == 0,
{
    let z: u32 = 0;
    assert((z ^ (z << 13u32)) == 0 && (z ^ (z >> 17u32)) == 0 && (z ^ (z << 5u32)) == 0)
        by (bit_vector)
        requires
            z == 0,
    ;
}

proof fn lemma_zero_fixed64()
    ensures
        xorshift64_next(0) == 0,
{
    let z: u64 = 0;
    assert((z ^ (z << 13u64)) == 0 && (z ^ (z >> 7u64)) == 0 && (z ^ (z << 17u64)) == 0)
        by (bit_vector)
        requires
            z == 0,
    ;
}

proof fn lemma_zero_fixed128()
    ensures
        xorshift128_next(0) == 0,
{
    let z: u128 = 0;
    assert(xorshift128_next(z) == 0) by (bit_vector)
        requires
            z == 0,
    ;
}

proof fn lemma_nonzero32(s: u32)
    requires
        s != 0,
    ensures
        xorshift32_next(s) != 0,
{
    assert(xorshift32_next(s) != 0) by (bit_vector)
        requires
            s != 0,
    ;
}

proof fn lemma_nonzero64(s: u64)
    requires
        s != 0,
    ensures
        xorshift64_next(s) != 0,
{
    assert(xorshift64_next(s) != 0) by (bit_vector)
        requires
            s != 0,
    ;
}

proof fn lemma_nonzero128(s: u128)
    requires
        s != 0,
    ensures
        xorshift128_next(s) != 0,
{
    assert(xorshift128_next(s) != 0) by (bit_vector)
        requires
            s != 0,
    ;
}

proof fn lemma_nonzero_word(s: usize)
    requires
        s != 0,
    ensures
        xorshift_word_next(s) != 0,
{
    if word_is_64_bits() {
        lemma_nonzero64(s as u64);
    } else {
        lemma_nonzero32(s as u32);
    }
}

/// The all-zero state is absorbing: at every width, a generator whose state
/// is zero stays at zero however many values it produces.
pub proof fn zero_state_absorbs(n: nat)
    ensures
        iterate(step32(), 0u32, n) == 0,
        iterate(step64(), 0u64, n) == 0,
        iterate(step128(), 0u128, n) == 0,
        iterate(step_word(), 0usize, n) == 0,
{
    lemma_zero_fixed32();
    lemma_zero_fixed64();
    lemma_zero_fixed128();
    lemma_iterate_fixed_point(step32(), 0u32, n);
    lemma_iterate_fixed_point(step64(), 0u64, n);
    lemma_iterate_fixed_point(step128(), 0u128, n);
    lemma_iterate_fixed_point(step_word(), 0usize, n);
}

/// A non-zero state never reaches zero: at every width, a generator that
/// starts from a non-zero state produces only non-zero values.
pub proof fn nonzero_state_stays_nonzero(n: nat)
    ensures
        forall|s: u32| s != 0 ==> #[trigger] iterate(step32(), s, n) != 0,
        forall|s: u64| s != 0 ==> #[trigger] iterate(step64(), s, n) != 0,
        forall|s: u128| s != 0 ==> #[trigger] iterate(step128(), s, n) != 0,
        forall|s: usize| s != 0 ==> #[trigger] iterate(step_word(), s, n) != 0,
{
    assert forall|s: u32| s != 0 implies #[trigger] iterate(step32(), s, n) != 0 by {
        assert forall|x: u32| x != 0 implies #[trigger] step32()(x) != 0 by {
            lemma_nonzero32(x);
        }
        lemma_iterate_keeps(step32(), |x: u32| x != 0, s, n);
    }
    assert forall|s: u64| s != 0 implies #[trigger] iterate(step64(), s, n) != 0 by {
        assert forall|x: u64| x != 0 implies #[trigger] step64()(x) != 0 by {
            lemma_nonzero64(x);
        }
        lemma_iterate_keeps(step64(), |x: u64| x != 0, s, n);
    }
    assert forall|s: u128| s != 0 implies #[trigger] iterate(step128(), s, n) != 0 by {
        assert forall|x: u128| x != 0 implies #[trigger] step128()(x) != 0 by {
            lemma_nonzero128(x);
        }
        lemma_iterate_keeps(step128(), |x: u128| x != 0, s, n);
    }
    assert forall|s: usize| s != 0 implies #[trigger] iterate(step_word(), s, n) != 0 by {
        assert forall|x: usize| x != 0 implies #[trigger] step_word()(x) != 0 by {
            lemma_nonzero_word(x);
        }
        lemma_iterate_keeps(step_word(), |x: usize| x != 0, s, n);
    }
}

} // verus!

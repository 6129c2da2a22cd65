//! Executable transition functions, one per width.
use vstd::prelude::*;
use crate::model::{xorshift128_next, xorshift32_next, xorshift64_next, xorshift_word_next};

verus! {

/// Advances a 32-bit state once.
pub fn xorshift32_step(s: u32) -> (r: u32)
    ensures
        r == xorshift32_next(s),
{
    let mut x = s;
    x ^= x << 13u32;
    x ^= x >> 17u32;
    x ^= x << 5u32;
    x
}

/// Advances a 64-bit state once.
pub fn xorshift64_step(s: u64) -> (r: u64)
    ensures
        r == xorshift64_next(s),
{
    let mut x = s;
    x ^= x << 13u64;
    x ^= x >> 7u64;
    x ^= x << 17u64;
    x
}

/// Advances a 128-bit state once, working on its four 32-bit lanes.
pub fn xorshift128_step(s: u128) -> (r: u128)
    ensures
        r == xorshift128_next(s),
{
    let a = (s >> 96u128) as u32;
    let b = (s >> 64u128) as u32;
    let c = (s >> 32u128) as u32;
    let d = s as u32;

    let mut t = d;
    t ^= t << 11u32;
    t ^= t >> 8u32;
    let na = t ^ a ^ (a >> 19u32);

    ((na as u128) << 96u128) | ((a as u128) << 64u128) | ((b as u128) << 32u128) | (c as u128)
}

/// Advances a native-word state once, with the transition of the target's
/// word width.
pub fn xorshift_word_step(s: usize) -> (r: usize)
    ensures
        r == xorshift_word_next(s),
{
    if usize::MAX as u64 == u64::MAX {
        xorshift64_step(s as u64) as usize
    } else {
        xorshift32_step(s as u32) as usize
    }
}

} // verus!

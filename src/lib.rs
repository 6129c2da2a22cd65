//! Xorshift pseudo-random number generators for 32-bit, 64-bit, 128-bit and
//! native-word state, usable without a heap.
//!
//! None of these generators is cryptographically secure.

pub mod model;
pub mod step;
pub mod seed;
pub mod generators;
pub mod generic;

pub use generators::{Xorshift128, Xorshift32, Xorshift64, XorshiftSize};
pub use generic::{RandomGeneratable, RandomGeneratorWithSeed, Xorshift};
pub use seed::{create_state, now};

//! Implicit seeding from the wall clock.
//!
//! The clock is a weak entropy source: two generators built in the same
//! nanosecond start from the same state. A reading whose truncation to the
//! target width is zero is replaced by a fixed non-zero value, so that an
//! implicitly seeded generator never starts in the absorbing zero state.
use vstd::prelude::*;
use std::time::{Duration, SystemTime, SystemTimeError};

verus! {

#[verifier::external_type_specification]
#[verifier::external_body]
pub struct ExSystemTime(std::time::SystemTime);

#[verifier::external_type_specification]
#[verifier::external_body]
pub struct ExSystemTimeError(std::time::SystemTimeError);

/// Stands in for a clock reading that truncates to zero at the target width.
/// Each of its 32-bit lanes is non-zero.
pub const ZERO_SEED_REPLACEMENT: u128 = 0x9E37_79B9_7F4A_7C15_F39C_C060_5CED_C835;

/// Relies on `std::time::SystemTime::now`: the current wall-clock time.
#[verifier::external_body]
fn clock_now() -> SystemTime {
    SystemTime::now()
}

/// Relies on `std::time::SystemTime::duration_since`: the time elapsed since
/// the Unix epoch, or an error when the clock reads earlier than the epoch.
#[verifier::external_body]
fn since_unix_epoch(t: &SystemTime) -> Result<Duration, SystemTimeError> {
    t.duration_since(std::time::UNIX_EPOCH)
}

/// Relies on `std::time::Duration::as_secs`: the whole seconds of the
/// duration.
#[verifier::external_body]
fn duration_secs(d: &Duration) -> u64 {
    d.as_secs()
}

/// Relies on `std::time::Duration::subsec_nanos`: the fractional part of the
/// duration in nanoseconds, which std documents as always under one second.
#[verifier::external_body]
fn duration_subsec_nanos(d: &Duration) -> (r: u32)
    ensures
        r < NANOS_PER_SEC,
{
    d.subsec_nanos()
}

/// Nanoseconds in one second.
pub const NANOS_PER_SEC: u32 = 1_000_000_000;

/// The largest count of nanoseconds that a clock reading can give: `u64::MAX`
/// whole seconds and a fraction just under one second.
pub const MAX_CLOCK_NANOS: u128 = 18_446_744_073_709_551_615_999_999_999;

/// Nanoseconds in a time elapsed since the epoch given as whole seconds and
/// a fraction in nanoseconds; 0 for no such time.
pub open spec fn elapsed_nanos(elapsed: Option<(u64, u32)>) -> int {
    match elapsed {
        Some((secs, nanos)) => secs * 1_000_000_000 + nanos,
        None => 0,
    }
}

/// Counts the nanoseconds in a time elapsed since the epoch, given as whole
/// seconds and a fraction in nanoseconds; `None`, a clock that reads earlier
/// than the epoch, counts as 0.
pub fn nanos_since_epoch(elapsed: Option<(u64, u32)>) -> (r: u128)
    ensures
        r == elapsed_nanos(elapsed),
        (match elapsed {
            Some((_, nanos)) => nanos < NANOS_PER_SEC,
            None => true,
        }) ==> r <= MAX_CLOCK_NANOS,
{
    match elapsed {
        Some((secs, nanos)) => {
            assert(secs * 1_000_000_000 + nanos <= u128::MAX) by (nonlinear_arith)
                requires
                    secs <= u64::MAX,
                    nanos <= u32::MAX,
            ;
            assert(nanos < 1_000_000_000 ==> secs * 1_000_000_000 + nanos <= MAX_CLOCK_NANOS)
                by (nonlinear_arith)
                requires
                    secs <= u64::MAX,
            ;
            secs as u128 * 1_000_000_000 + nanos as u128
        },
        None => 0,
    }
}

/// The count of nanoseconds never decreases as the clock advances: a later
/// reading, by whole seconds and then by the fraction, counts at least as
/// many nanoseconds as an earlier one, and any time after the epoch at least
/// as many as one before it.
pub proof fn elapsed_nanos_monotonic(earlier: Option<(u64, u32)>, later: Option<(u64, u32)>)
    requires
        match (earlier, later) {
            (Some((s1, n1)), Some((s2, n2))) => n1 < NANOS_PER_SEC && (s1 < s2 || (s1 == s2
                && n1 <= n2)),
            (Some(_), None) => false,
            (None, _) => true,
        },
    ensures
        elapsed_nanos(earlier) <= elapsed_nanos(later),
{
    match (earlier, later) {
        (Some((s1, n1)), Some((s2, n2))) => {
            assert(s1 * 1_000_000_000 + n1 <= s2 * 1_000_000_000 + n2) by (nonlinear_arith)
                requires
                    n1 < 1_000_000_000,
                    s1 < s2 || (s1 == s2 && n1 <= n2),
                    s1 >= 0,
                    n2 >= 0,
            ;
        },
        _ => {},
    }
}

/// Nanoseconds since the Unix epoch by the wall clock; 0 when the clock
/// reads earlier than the epoch.
pub fn now() -> (r: u128)
    ensures
        r <= MAX_CLOCK_NANOS,
{
    let t = clock_now();
    let elapsed = match since_unix_epoch(&t) {
        Ok(d) => Some((duration_secs(&d), duration_subsec_nanos(&d))),
        Err(_) => None,
    };
    nanos_since_epoch(elapsed)
}

/// The raw entropy that implicitly seeded generators start from: the wall
/// clock in nanoseconds since the Unix epoch.
pub fn create_state() -> (r: u128)
    ensures
        r <= MAX_CLOCK_NANOS,
{
    now()
}

/// A 32-bit seed from raw entropy: its low 32 bits, unless they are zero.
pub fn seed32_from_entropy(raw: u128) -> (r: u32)
    ensures
        raw as u32 != 0 ==> r == raw as u32,
        raw as u32 == 0 ==> r == ZERO_SEED_REPLACEMENT as u32,
        r != 0,
{
    let low = raw as u32;
    if low != 0 {
        low
    } else {
        assert(ZERO_SEED_REPLACEMENT as u32 != 0) by (bit_vector);
        ZERO_SEED_REPLACEMENT as u32
    }
}

/// A 64-bit seed from raw entropy: its low 64 bits, unless they are zero.
pub fn seed64_from_entropy(raw: u128) -> (r: u64)
    ensures
        raw as u64 != 0 ==> r == raw as u64,
        raw as u64 == 0 ==> r == ZERO_SEED_REPLACEMENT as u64,
        r != 0,
{
    let low = raw as u64;
    if low != 0 {
        low
    } else {
        assert(ZERO_SEED_REPLACEMENT as u64 != 0) by (bit_vector);
        ZERO_SEED_REPLACEMENT as u64
    }
}

/// A 128-bit seed from raw entropy: all of it, unless it is zero.
pub fn seed128_from_entropy(raw: u128) -> (r: u128)
    ensures
        raw != 0 ==> r == raw,
        raw == 0 ==> r == ZERO_SEED_REPLACEMENT,
        r != 0,
{
    if raw != 0 {
        raw
    } else {
        ZERO_SEED_REPLACEMENT
    }
}

/// A native-word seed from raw entropy: its low word, unless it is zero.
pub fn seed_word_from_entropy(raw: u128) -> (r: usize)
    ensures
        raw as usize != 0 ==> r == raw as usize,
        raw as usize == 0 ==> r == ZERO_SEED_REPLACEMENT as usize,
        r != 0,
{
    let low = raw as usize;
    if low != 0 {
        low
    } else {
        assert(ZERO_SEED_REPLACEMENT as usize != 0) by (bit_vector);
        ZERO_SEED_REPLACEMENT as usize
    }
}

} // verus!

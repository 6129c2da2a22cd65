use random_generator::generators::{Xorshift128, Xorshift32, Xorshift64, XorshiftSize};
use random_generator::generic::{RandomGeneratable, RandomGeneratorWithSeed, Xorshift};
use random_generator::seed::{
    create_state, nanos_since_epoch, now, seed128_from_entropy, seed32_from_entropy,
    seed64_from_entropy, seed_word_from_entropy, MAX_CLOCK_NANOS, ZERO_SEED_REPLACEMENT,
};
use random_generator::step::{xorshift128_step, xorshift32_step, xorshift64_step, xorshift_word_step};

#[test]
fn zero_state_stays_zero_at_every_width() {
    let mut a = Xorshift32::new_with_seed(0);
    let mut b = Xorshift64::new_with_seed(0);
    let mut c = Xorshift128::new_with_seed(0);
    let mut d = XorshiftSize::new_with_seed(0);
    for _ in 0..100 {
        assert_eq!(0, a.gen());
        assert_eq!(0, b.gen());
        assert_eq!(0, c.gen());
        assert_eq!(0, d.gen());
    }
}

#[test]
fn step_functions_match_known_values() {
    assert_eq!(3044438244, xorshift32_step(123456));
    assert_eq!(372467569, xorshift32_step(3044438244));
    assert_eq!(2433743613504487332, xorshift64_step(123456123456));
    assert_eq!(
        74896665221921414396857867002210327216,
        xorshift128_step(123456123456123456)
    );
    assert_eq!(0, xorshift128_step(0));
}

#[test]
fn word_step_follows_target_width() {
    if usize::BITS == 64 {
        assert_eq!(132366047211908, xorshift_word_step(123456));
        assert_eq!(xorshift64_step(987654321) as usize, xorshift_word_step(987654321));
    } else {
        assert_eq!(xorshift32_step(987654321) as usize, xorshift_word_step(987654321));
    }
}

#[test]
fn lanes_rotate_in_128_bit_step() {
    // Lanes a, b, c, d = 1, 2, 3, 4: b, c, d become 1, 2, 3.
    let s: u128 = (1u128 << 96) | (2u128 << 64) | (3u128 << 32) | 4;
    let r = xorshift128_step(s);
    assert_eq!((r >> 64) as u32, 1);
    assert_eq!((r >> 32) as u32, 2);
    assert_eq!(r as u32, 3);
    let t: u32 = 4 ^ (4 << 11);
    let t = t ^ (t >> 8);
    assert_eq!((r >> 96) as u32, t ^ 1 ^ (1 >> 19));
}

#[test]
fn entropy_seeds_truncate_and_avoid_zero() {
    assert_eq!(5, seed32_from_entropy(5));
    assert_eq!(0x1234_5678, seed32_from_entropy(0xabcd_0000_1234_5678));
    assert_eq!(ZERO_SEED_REPLACEMENT as u32, seed32_from_entropy(1u128 << 32));
    assert_eq!(ZERO_SEED_REPLACEMENT as u64, seed64_from_entropy(0));
    assert_eq!(7, seed64_from_entropy((1u128 << 64) | 7));
    assert_eq!(ZERO_SEED_REPLACEMENT, seed128_from_entropy(0));
    assert_eq!(1u128 << 100, seed128_from_entropy(1u128 << 100));
    assert_eq!(ZERO_SEED_REPLACEMENT as usize, seed_word_from_entropy(0));
    assert_eq!(9, seed_word_from_entropy(9));
    assert_ne!(0, ZERO_SEED_REPLACEMENT as u32);
}

#[test]
fn from_entropy_builds_non_zero_generators() {
    assert_eq!(ZERO_SEED_REPLACEMENT as u32, Xorshift32::from_entropy(0).state);
    assert_eq!(42, Xorshift64::from_entropy(42).state);
    assert_eq!(ZERO_SEED_REPLACEMENT, Xorshift128::from_entropy(0).state);
    assert_eq!(3, XorshiftSize::from_entropy(3).state);
    let mut g = Xorshift32::from_entropy(1u128 << 32);
    for _ in 0..100 {
        assert_ne!(0, g.gen());
    }
}

#[test]
fn implicit_seeds_are_never_zero() {
    assert_ne!(0, Xorshift32::new().state);
    assert_ne!(0, Xorshift64::new().state);
    assert_ne!(0, Xorshift128::new().state);
    assert_ne!(0, XorshiftSize::new().state);
    assert_ne!(0, <Xorshift<u32> as RandomGeneratorWithSeed<u32>>::new().state);
    assert_ne!(0, <Xorshift<u128> as RandomGeneratorWithSeed<u128>>::new().state);
}

#[test]
fn clock_reads_after_epoch() {
    assert!(now() > 0);
    assert!(create_state() > 0);
}

#[test]
fn equal_seeds_give_equal_values() {
    let mut a = Xorshift64::new_with_seed(987654321);
    let mut b = Xorshift64::new_with_seed(987654321);
    assert_eq!(a.gen(), b.gen());
    let mut c = Xorshift128::new_with_seed(55);
    let mut d = Xorshift128::new_with_seed(55);
    for _ in 0..5 {
        assert_eq!(c.gen(), d.gen());
    }
}

#[test]
fn next_yields_the_same_values_as_gen() {
    let mut a = Xorshift32::new_with_seed(123456);
    let mut b = Xorshift32::new_with_seed(123456);
    for _ in 0..5 {
        assert_eq!(Some(a.gen()), b.next());
    }
    let mut c = Xorshift::<u64>::new_with_seed(123456123456);
    assert_eq!(Some(2433743613504487332), c.next());
}

#[test]
fn fill_takes_exactly_as_many_values_as_slots() {
    let mut a = Xorshift32::new_with_seed(123456);
    let mut out = [0u32; 10];
    a.fill(&mut out);
    let mut b = Xorshift32::new_with_seed(123456);
    for v in out.iter() {
        assert_eq!(*v, b.gen());
    }
    assert_eq!(out[0], 3044438244);
    assert_eq!(out[1], 372467569);
    // The eleventh value has not been drawn yet.
    assert_eq!(a.gen(), b.gen());
}

#[test]
fn fill_of_empty_slice_keeps_state() {
    let mut a = Xorshift128::new_with_seed(77);
    let mut out: [u128; 0] = [];
    a.fill(&mut out);
    assert_eq!(77, a.state);
}

#[test]
fn fill_at_every_width() {
    let mut a = Xorshift64::new_with_seed(123456123456);
    let mut out = [0u64; 2];
    a.fill(&mut out);
    assert_eq!([2433743613504487332, 5448107948928174171], out);
    let mut b = XorshiftSize::new_with_seed(0);
    let mut zeros = [1usize; 4];
    b.fill(&mut zeros);
    assert_eq!([0usize; 4], zeros);
    let mut c = Xorshift128::new_with_seed(123456123456123456);
    let mut wide = [0u128; 2];
    c.fill(&mut wide);
    assert_eq!(188163241731024871939078947111379664896, wide[1]);
}

#[test]
fn max_size_is_the_width_maximum() {
    assert_eq!(u32::MAX, Xorshift::<u32>::new_with_seed(1).max_size());
    assert_eq!(u64::MAX, Xorshift::<u64>::new_with_seed(1).max_size());
    assert_eq!(u128::MAX, Xorshift::<u128>::new_with_seed(1).max_size());
    assert_eq!(usize::MAX, Xorshift::<usize>::new_with_seed(1).max_size());
}

#[test]
fn scaled_values_lie_in_unit_interval() {
    let mut a = Xorshift64::new_with_seed(123456123456);
    let mut b = Xorshift32::new_with_seed(123456);
    for _ in 0..1000 {
        let x = a.gen() as f64 / u64::MAX as f64;
        assert!((0.0..1.0).contains(&x));
        let y = b.gen() as f32 / u32::MAX as f32;
        assert!((0.0..=1.0).contains(&y));
    }
}

#[test]
fn nanos_count_whole_seconds_and_fraction() {
    assert_eq!(2_000_000_005, nanos_since_epoch(Some((2, 5))));
    assert_eq!(999_999_999, nanos_since_epoch(Some((0, 999_999_999))));
    assert_eq!(0, nanos_since_epoch(None));
    assert_eq!(0, nanos_since_epoch(Some((0, 0))));
    assert_eq!(MAX_CLOCK_NANOS, nanos_since_epoch(Some((u64::MAX, 999_999_999))));
}

#[test]
fn nanos_never_decrease_as_the_clock_advances() {
    let readings = [None, Some((0, 0)), Some((0, 999_999_999)), Some((1, 0)), Some((1, 1)), Some((7, 3))];
    for w in readings.windows(2) {
        assert!(nanos_since_epoch(w[0]) <= nanos_since_epoch(w[1]));
    }
}

#[test]
fn clock_stays_within_its_bound() {
    assert!(now() <= MAX_CLOCK_NANOS);
    assert!(create_state() <= MAX_CLOCK_NANOS);
}

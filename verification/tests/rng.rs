use osrs_fps::rng::{next_seed, seed_bits, RNG_INCREMENT, RNG_INITIAL_SEED, RNG_MULTIPLIER};

#[test]
fn constants_of_the_generator() {
    assert_eq!(RNG_MULTIPLIER, 6364136223846793005);
    assert_eq!(RNG_INCREMENT, 1442695040888963407);
    assert_eq!(RNG_INITIAL_SEED, 987654321);
}

#[test]
fn first_draws_from_the_initial_seed() {
    let s1 = next_seed(RNG_INITIAL_SEED);
    assert_eq!(s1, 8251718639694428012);
    assert_eq!(seed_bits(s1), 960626481);
    let s2 = next_seed(s1);
    assert_eq!(s2, 3097120530411967307);
    assert_eq!(seed_bits(s2), 360552283);
    let s3 = next_seed(s2);
    assert_eq!(s3, 7772682166416005758);
    assert_eq!(seed_bits(s3), 904859295);
}

#[test]
fn step_wraps_modulo_two_to_the_64() {
    assert_eq!(next_seed(0), RNG_INCREMENT);
    assert_eq!(next_seed(u64::MAX), 13525302890751722018);
}

#[test]
fn drawn_bits_are_the_top_31_bits() {
    assert_eq!(seed_bits(0), 0);
    assert_eq!(seed_bits(u64::MAX), 0x7fff_ffff);
    assert_eq!(seed_bits(1u64 << 33), 1);
    assert_eq!(seed_bits((1u64 << 33) - 1), 0);
}

#[test]
fn draws_scale_to_fractions_at_most_one_half() {
    let mut s = RNG_INITIAL_SEED;
    for _ in 0..1000 {
        s = next_seed(s);
        let f = seed_bits(s) as f32 / u32::MAX as f32;
        assert!((0.0..=0.5).contains(&f));
    }
}

#[test]
fn same_seed_gives_same_sequence() {
    let mut a = 12345u64;
    let mut b = 12345u64;
    for _ in 0..100 {
        a = next_seed(a);
        b = next_seed(b);
        assert_eq!(seed_bits(a), seed_bits(b));
    }
}

#[test]
fn largest_bits_round_to_one_half() {
    let f = seed_bits(u64::MAX) as f32 / u32::MAX as f32;
    assert_eq!(f, 0.5);
}

#[test]
fn distinct_seeds_step_to_distinct_seeds() {
    let seeds = [0u64, 1, 2, 3, RNG_INITIAL_SEED, u64::MAX, u64::MAX - 1, 1 << 63];
    for (i, a) in seeds.iter().enumerate() {
        for b in seeds.iter().skip(i + 1) {
            assert_ne!(next_seed(*a), next_seed(*b));
        }
    }
}

#[test]
fn no_short_cycle_from_the_initial_seed() {
    let mut s = RNG_INITIAL_SEED;
    for _ in 0..100_000 {
        s = next_seed(s);
        assert_ne!(s, RNG_INITIAL_SEED);
    }
}

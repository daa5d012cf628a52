use rand_core::{RngCore, SeedableRng};
use sinewave::taus88::Taus88;

/// Test that the generator produces a known, deterministic sequence from a fixed seed.
#[test]
fn test_deterministic_sequence() {
    let seed = [123, 0, 0, 0, 45, 1, 0, 0, 89, 2, 0, 0];
    let mut rng = Taus88::from_seed(seed);

    let expected_sequence = [78099075, 2047148672, 1778027400, 2294194181, 680023868];

    for &expected in &expected_sequence {
        assert_eq!(rng.next_u32(), expected);
    }
}

/// Test that `from_seed` correctly handles seeds that would result in an invalid state
/// by promoting them to the minimum valid values.
#[test]
fn test_from_seed_handles_zeros() {
    let zero_seed = [0u8; 12];
    let mut rng = Taus88::from_seed(zero_seed);

    let (z1, z2, z3) = rng.state();
    assert_eq!(z1, 2);
    assert_eq!(z2, 8);
    assert_eq!(z3, 16);

    assert_eq!(rng.next_u32(), 2105472);
}

/// Test the `fill_bytes` method.
#[test]
fn test_fill_bytes() {
    let seed = [1, 2, 3, 4, 5, 6, 7, 8, 9, 10, 11, 12];
    let mut rng = Taus88::from_seed(seed);

    let mut bytes = [0u8; 10];
    rng.fill_bytes(&mut bytes);

    assert!(bytes.iter().any(|&b| b != 0));
}

/// Test that `next_u64` is composed of two `next_u32` calls.
#[test]
fn test_next_u64_composition() {
    let seed = [7; 12];
    let mut rng1 = Taus88::from_seed(seed);
    let mut rng2 = Taus88::from_seed(seed);

    let u64_val = rng1.next_u64();

    let u32_val1 = rng2.next_u32() as u64;
    let u32_val2 = rng2.next_u32() as u64;
    let combined_u64 = (u32_val1 << 32) | u32_val2;

    assert_eq!(u64_val, combined_u64);
    assert_eq!(rng1.state(), rng2.state());
}

#[test]
fn fill_bytes_writes_words_little_endian_and_cuts_the_last() {
    let seed = [1, 2, 3, 4, 5, 6, 7, 8, 9, 10, 11, 12];
    let mut rng = Taus88::from_seed(seed);
    let mut bytes = [0u8; 10];
    rng.fill_bytes(&mut bytes);
    assert_eq!(bytes, [247, 230, 93, 164, 77, 11, 24, 19, 81, 58]);

    let mut words = Taus88::from_seed(seed);
    let mut expected = Vec::new();
    for _ in 0..3 {
        expected.extend_from_slice(&words.next_u32().to_le_bytes());
    }
    assert_eq!(&bytes[..], &expected[..10]);
    // three words were taken, the last one cut to two bytes
    assert_eq!(rng.state(), words.state());
}

#[test]
fn fill_bytes_on_empty_buffer_takes_no_word() {
    let mut rng = Taus88::from_seed([5; 12]);
    let before = rng.state();
    let mut bytes: [u8; 0] = [];
    rng.fill_bytes(&mut bytes);
    assert_eq!(rng.state(), before);
}

#[test]
fn same_seed_gives_same_words() {
    let seed = [9, 8, 7, 6, 5, 4, 3, 2, 1, 0, 255, 254];
    let mut a = Taus88::from_seed(seed);
    let mut b = Taus88::from_seed(seed);
    for _ in 0..1000 {
        assert_eq!(a.next_u32(), b.next_u32());
    }
}

#[test]
fn new_keeps_valid_seeds_and_seed_promotes_small_words() {
    let rng = Taus88::new(2, 8, 16);
    assert_eq!(rng.state(), (2, 8, 16));
    let promoted = Taus88::from_seed([1, 0, 0, 0, 7, 0, 0, 0, 15, 0, 0, 0]);
    assert_eq!(promoted.state(), (2, 8, 16));
    let kept = Taus88::from_seed([3, 0, 0, 0, 9, 0, 0, 0, 17, 0, 0, 1]);
    assert_eq!(kept.state(), (3, 9, 17 + (1 << 24)));
}

#[test]
fn words_stay_above_minimums() {
    let mut rng = Taus88::from_seed([0; 12]);
    for _ in 0..10000 {
        rng.next_u32();
        let (z1, z2, z3) = rng.state();
        assert!(z1 >= 2 && z2 >= 8 && z3 >= 16);
    }
}

#[test]
fn rand_traits_draw_from_the_same_stream() {
    let mut through_trait = <Taus88 as SeedableRng>::from_seed([4; 12]);
    let mut direct = Taus88::from_seed([4; 12]);
    assert_eq!(RngCore::next_u32(&mut through_trait), direct.next_u32());
    assert_eq!(RngCore::next_u64(&mut through_trait), direct.next_u64());
}

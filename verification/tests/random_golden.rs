//! Golden-sequence and determinism checks for the two random sources.

use worldgen::random::RandomGenerator;

#[test]
fn legacy_golden_bounded_ten() {
    let mut g = RandomGenerator::legacy_from_seed(0);
    let expected = [0, 8, 9, 7, 5];
    for e in expected {
        assert_eq!(g.next_bounded_i32(10), e);
    }
}

#[test]
fn legacy_golden_bounded_power_of_two() {
    let mut g = RandomGenerator::legacy_from_seed(12345);
    let expected = [5, 8, 14, 14, 13];
    for e in expected {
        assert_eq!(g.next_bounded_i32(16), e);
    }
}

#[test]
fn legacy_golden_fraction() {
    let mut g = RandomGenerator::legacy_from_seed(0);
    let expected = [12263604u32, 13949265, 4035531];
    for e in expected {
        assert_eq!(g.next_fraction24(), e);
    }
}

#[test]
fn legacy_golden_bool() {
    let mut g = RandomGenerator::legacy_from_seed(0);
    let expected = [true, true, false, true, true];
    for e in expected {
        assert_eq!(g.next_bool(), e);
    }
}

#[test]
fn legacy_golden_inbetween() {
    let mut g = RandomGenerator::legacy_from_seed(7);
    let expected = [9, 7, 8];
    for e in expected {
        assert_eq!(g.next_inbetween_i32(5, 10), e);
    }
}

#[test]
fn xoroshiro_golden_bounded_ten() {
    let mut g = RandomGenerator::xoroshiro_from_seed(0);
    let expected = [9, 1, 1, 3, 8];
    for e in expected {
        assert_eq!(g.next_bounded_i32(10), e);
    }
}

#[test]
fn xoroshiro_golden_fraction() {
    let mut g = RandomGenerator::xoroshiro_from_seed(0);
    let expected = [2763940u32, 13417506, 4214372];
    for e in expected {
        assert_eq!(g.next_fraction24(), e);
    }
}

#[test]
fn inverted_range_degrades_to_lower_bound() {
    let mut g = RandomGenerator::legacy_from_seed(99);
    let before = g;
    assert_eq!(g.next_inbetween_i32(8, 3), 8);
    assert!(g == before);
}

#[test]
fn two_runs_from_one_seed_agree() {
    let mut a = RandomGenerator::xoroshiro_from_seed(0xDEAD_BEEF);
    let mut b = RandomGenerator::xoroshiro_from_seed(0xDEAD_BEEF);
    for _ in 0..100 {
        assert_eq!(a.next_bounded_i32(1000), b.next_bounded_i32(1000));
    }
    assert!(a == b);
    let fa = a.fork(42);
    let fb = b.fork(42);
    assert!(fa == fb);
    assert!(a == b);
}

#[test]
fn forks_with_different_salts_diverge_deterministically() {
    let mut a = RandomGenerator::legacy_from_seed(1);
    let mut b = RandomGenerator::legacy_from_seed(1);
    let mut f1 = a.fork(1);
    let mut f2 = b.fork(1);
    assert_eq!(f1.next_bounded_i32(1000), f2.next_bounded_i32(1000));
    let mut c = RandomGenerator::legacy_from_seed(1);
    let mut f3 = c.fork(2);
    // Independent of how many sibling draws ran before, the forked
    // stream depends only on (state, salt).
    let _ = f3.next_bounded_i32(1000);
}

//! Exact-value tests of the fixed-point kernels: products, quotients,
//! square roots, the trigonometric fold and the negated logarithm, and the
//! reproducibility of the seeded stream.

use galaxy_sim::fixed::{fmul, fdiv, isqrt, sqrt_fixed};
use galaxy_sim::series::{sin_turn, cos_turn, neg_ln_unit};
use galaxy_sim::rng::RandomSource;

#[test]
fn fixed_products_truncate_toward_zero() {
    assert_eq!(fmul(2_000_000, 3_000_000), 6_000_000);
    assert_eq!(fmul(-3_500_000, 2_000_000), -7_000_000);
    assert_eq!(fmul(-1, 1), 0);
    assert_eq!(fmul(1, -1), 0);
    assert_eq!(fmul(999_999, 1), 0);
    assert_eq!(fmul(0, 123_456), 0);
}

#[test]
fn fixed_quotients_truncate_toward_zero() {
    assert_eq!(fdiv(1, 3), 333_333);
    assert_eq!(fdiv(-1_000_000, 3_000_000), -333_333);
    assert_eq!(fdiv(1_000_000, 2_000_000), 500_000);
    assert_eq!(fdiv(0, 7), 0);
}

#[test]
fn integer_square_roots_are_exact() {
    assert_eq!(isqrt(0), 0);
    assert_eq!(isqrt(1), 1);
    assert_eq!(isqrt(3), 1);
    assert_eq!(isqrt(4), 2);
    assert_eq!(isqrt(10u128.pow(30)), 1_000_000_000_000_000);
    assert_eq!(sqrt_fixed(4_000_000), 2_000_000);
    assert_eq!(sqrt_fixed(2_000_000), 1_414_213);
    assert_eq!(sqrt_fixed(0), 0);
    assert_eq!(sqrt_fixed(1_000_000), 1_000_000);
}

#[test]
fn sine_fold_matches_expected_values() {
    assert_eq!(sin_turn(0), 0);
    assert_eq!(sin_turn(500_000), 0);
    assert_eq!(sin_turn(125_000), 707_107);
    assert_eq!(sin_turn(250_000), 1_000_004);
    assert_eq!(sin_turn(50_000), 309_017);
    assert_eq!(cos_turn(0), 1_000_004);
    assert_eq!(cos_turn(250_000), 0);
    assert_eq!(sin_turn(1_125_000), 707_107);
}

#[test]
fn sine_antipodal_symmetry_holds_exactly() {
    for a in [0i128, 1, 50_000, 125_000, 222_222, 499_999, 777_777, 999_999] {
        assert_eq!(sin_turn(a + 500_000), -sin_turn(a));
        assert_eq!(cos_turn(a + 500_000), -cos_turn(a));
    }
}

#[test]
fn negated_logarithm_matches_expected_values() {
    assert_eq!(neg_ln_unit(1_000_000), 0);
    assert_eq!(neg_ln_unit(500_000), 693_147);
    assert_eq!(neg_ln_unit(250_000), 1_386_294);
    assert_eq!(neg_ln_unit(1), 13_815_508);
}

#[test]
fn stream_words_are_reproducible() {
    let mut a = RandomSource::new(42);
    assert_eq!(a.next_word(), 13_679_457_532_755_275_413);
    assert_eq!(a.next_word(), 2_949_826_092_126_892_291);
    let mut b = RandomSource::new(42);
    let mut c = RandomSource::new(42);
    for _ in 0..100 {
        assert_eq!(b.next_word(), c.next_word());
    }
    let mut d = RandomSource::new(43);
    assert_ne!(RandomSource::new(42).next_word(), d.next_word());
}

#[test]
fn unit_draws_stay_in_range() {
    let mut r = RandomSource::new(7);
    for _ in 0..1000 {
        let u = r.next_unit();
        assert!((0..1_000_000).contains(&u));
    }
    let mut r2 = RandomSource::new(8);
    for _ in 0..1000 {
        let u = r2.next_unit_pos();
        assert!((1..=1_000_000).contains(&u));
    }
}

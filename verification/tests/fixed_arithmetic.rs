use kinetic_energy::fixed::{integer_root, Fixed, SCALE};
use kinetic_energy::vector::PaddedVec2;

fn fx(micros: i64) -> Fixed {
    Fixed::from_micros(micros)
}

#[test]
fn constants_have_their_values() {
    assert_eq!(SCALE, 1_000_000);
    assert_eq!(Fixed::zero().micros, 0);
    assert_eq!(Fixed::one().micros, 1_000_000);
    assert_eq!(Fixed::from_micros(-7).micros, -7);
}

#[test]
fn from_int_scales_whole_numbers() {
    assert_eq!(Fixed::from_int(0), fx(0));
    assert_eq!(Fixed::from_int(4), fx(4_000_000));
    assert_eq!(Fixed::from_int(-3), fx(-3_000_000));
    assert_eq!(Fixed::from_int(i32::MAX), fx(2_147_483_647_000_000));
    assert_eq!(Fixed::from_int(i32::MIN), fx(-2_147_483_648_000_000));
}

#[test]
fn add_and_sub_are_exact_within_range() {
    assert_eq!(fx(1_500_000).add(fx(2_250_000)), fx(3_750_000));
    assert_eq!(fx(1_500_000).sub(fx(2_250_000)), fx(-750_000));
    assert_eq!(fx(-1).add(fx(1)), fx(0));
}

#[test]
fn add_and_sub_saturate() {
    assert_eq!(fx(i64::MAX).add(fx(1)), fx(i64::MAX));
    assert_eq!(fx(i64::MIN).add(fx(-1)), fx(i64::MIN));
    assert_eq!(fx(i64::MIN).sub(fx(1)), fx(i64::MIN));
    assert_eq!(fx(i64::MAX).sub(fx(-1)), fx(i64::MAX));
    assert_eq!(fx(i64::MAX).add(fx(i64::MIN)), fx(-1));
    assert_eq!(fx(0).sub(fx(i64::MIN)), fx(i64::MAX));
}

#[test]
fn neg_and_abs_saturate_at_the_lowest_value() {
    assert_eq!(fx(5).neg(), fx(-5));
    assert_eq!(fx(-5).neg(), fx(5));
    assert_eq!(fx(i64::MIN).neg(), fx(i64::MAX));
    assert_eq!(fx(-5).abs(), fx(5));
    assert_eq!(fx(5).abs(), fx(5));
    assert_eq!(fx(0).abs(), fx(0));
    assert_eq!(fx(i64::MIN).abs(), fx(i64::MAX));
}

#[test]
fn signum_counts_zero_as_positive() {
    assert_eq!(fx(0).signum(), fx(1_000_000));
    assert_eq!(fx(1).signum(), fx(1_000_000));
    assert_eq!(fx(-1).signum(), fx(-1_000_000));
    assert_eq!(fx(i64::MIN).signum(), fx(-1_000_000));
}

#[test]
fn mul_rounds_toward_zero() {
    assert_eq!(fx(1_500_000).mul(fx(2_000_000)), fx(3_000_000));
    assert_eq!(fx(500_000).mul(fx(125_000)), fx(62_500));
    assert_eq!(fx(3).mul(fx(500_000)), fx(1));
    assert_eq!(fx(-3).mul(fx(500_000)), fx(-1));
    assert_eq!(fx(3).mul(fx(-500_000)), fx(-1));
    assert_eq!(fx(-3).mul(fx(-500_000)), fx(1));
    assert_eq!(fx(-1).mul(fx(500_000)), fx(0));
    assert_eq!(fx(7_000_000).mul(fx(0)), fx(0));
}

#[test]
fn mul_by_one_and_minus_one() {
    assert_eq!(fx(123_456_789).mul(Fixed::one()), fx(123_456_789));
    assert_eq!(Fixed::one().mul(fx(-123_456_789)), fx(-123_456_789));
    assert_eq!(fx(123_456_789).mul(fx(-1_000_000)), fx(-123_456_789));
    assert_eq!(fx(i64::MIN).mul(fx(-1_000_000)), fx(i64::MAX));
}

#[test]
fn mul_saturates() {
    assert_eq!(fx(i64::MAX).mul(fx(2_000_000)), fx(i64::MAX));
    assert_eq!(fx(i64::MIN).mul(fx(2_000_000)), fx(i64::MIN));
    assert_eq!(fx(i64::MAX).mul(fx(-2_000_000)), fx(i64::MIN));
    assert_eq!(fx(i64::MIN).mul(fx(i64::MIN)), fx(i64::MAX));
}

#[test]
fn mul_commutes_on_samples() {
    let samples = [fx(0), fx(1), fx(-1), fx(333_333), fx(-2_370_000), fx(i64::MAX), fx(i64::MIN)];
    for a in samples {
        for b in samples {
            assert_eq!(a.mul(b), b.mul(a));
        }
    }
}

#[test]
fn div_rounds_toward_zero() {
    assert_eq!(fx(1_000_000).div(fx(3_000_000)), fx(333_333));
    assert_eq!(fx(-1_000_000).div(fx(3_000_000)), fx(-333_333));
    assert_eq!(fx(1_000_000).div(fx(-3_000_000)), fx(-333_333));
    assert_eq!(fx(-1_000_000).div(fx(-3_000_000)), fx(333_333));
    assert_eq!(fx(7_000_000).div(fx(2_000_000)), fx(3_500_000));
    assert_eq!(fx(4_950_000).div(fx(5_000_000)), fx(990_000));
    assert_eq!(fx(0).div(fx(5)), fx(0));
    assert_eq!(fx(5).div(fx(5)), fx(1_000_000));
}

#[test]
fn div_by_zero_sticks_to_a_bound() {
    assert_eq!(fx(1).div(fx(0)), fx(i64::MAX));
    assert_eq!(fx(-1).div(fx(0)), fx(i64::MIN));
    assert_eq!(fx(0).div(fx(0)), fx(0));
}

#[test]
fn div_saturates() {
    assert_eq!(fx(i64::MAX).div(fx(1)), fx(i64::MAX));
    assert_eq!(fx(i64::MIN).div(fx(1)), fx(i64::MIN));
    assert_eq!(fx(i64::MIN).div(fx(-1_000_000)), fx(i64::MAX));
    assert_eq!(fx(i64::MAX).div(fx(-1)), fx(i64::MIN));
}

#[test]
fn sqrt_rounds_down() {
    assert_eq!(fx(4_000_000).sqrt(), fx(2_000_000));
    assert_eq!(fx(2_000_000).sqrt(), fx(1_414_213));
    assert_eq!(fx(5_000_000).sqrt(), fx(2_236_067));
    assert_eq!(fx(1).sqrt(), fx(1_000));
    assert_eq!(fx(0).sqrt(), fx(0));
    assert_eq!(fx(-4_000_000).sqrt(), fx(0));
    assert_eq!(fx(i64::MAX).sqrt(), fx(3_037_000_499_976));
}

#[test]
fn max_and_min_pick_a_side() {
    assert_eq!(fx(3).max(fx(-4)), fx(3));
    assert_eq!(fx(-4).max(fx(3)), fx(3));
    assert_eq!(fx(3).min(fx(-4)), fx(-4));
    assert_eq!(fx(-4).min(fx(3)), fx(-4));
    assert_eq!(fx(2).max(fx(2)), fx(2));
}

#[test]
fn integer_root_is_the_floor_of_the_root() {
    assert_eq!(integer_root(0), 0);
    assert_eq!(integer_root(1), 1);
    assert_eq!(integer_root(3), 1);
    assert_eq!(integer_root(15), 3);
    assert_eq!(integer_root(16), 4);
    assert_eq!(integer_root(17), 4);
    assert_eq!(integer_root(1_000_000_000_000), 1_000_000);
    assert_eq!(integer_root(u128::MAX), 18_446_744_073_709_551_615);
    for n in 0u128..2000 {
        let r = integer_root(n);
        assert!(r * r <= n && n < (r + 1) * (r + 1));
    }
}

#[test]
fn vector_constructors() {
    let v = PaddedVec2::new(fx(1), fx(-2));
    assert_eq!(v.x, fx(1));
    assert_eq!(v.y, fx(-2));
    assert_eq!(PaddedVec2::zeros(), PaddedVec2::new(fx(0), fx(0)));
}

#[test]
fn vector_add_sub_scale() {
    let a = PaddedVec2::new(fx(1_000_000), fx(-2_000_000));
    let b = PaddedVec2::new(fx(250_000), fx(500_000));
    assert_eq!(a.add(b), PaddedVec2::new(fx(1_250_000), fx(-1_500_000)));
    assert_eq!(a.sub(b), PaddedVec2::new(fx(750_000), fx(-2_500_000)));
    assert_eq!(a.scale(fx(500_000)), PaddedVec2::new(fx(500_000), fx(-1_000_000)));
    assert_eq!(a.scale(fx(0)), PaddedVec2::zeros());
}

#[test]
fn vector_magnitude_is_the_euclidean_length() {
    assert_eq!(PaddedVec2::new(fx(3_000_000), fx(4_000_000)).magnitude(), fx(5_000_000));
    assert_eq!(PaddedVec2::new(fx(-3_000_000), fx(4_000_000)).magnitude(), fx(5_000_000));
    assert_eq!(PaddedVec2::new(fx(3), fx(4)).magnitude(), fx(5));
    assert_eq!(PaddedVec2::new(fx(1), fx(1)).magnitude(), fx(1));
    assert_eq!(PaddedVec2::zeros().magnitude(), fx(0));
    assert_eq!(PaddedVec2::new(fx(0), fx(-7)).magnitude(), fx(7));
}

#[test]
fn vector_magnitude_saturates() {
    assert_eq!(PaddedVec2::new(fx(i64::MAX), fx(i64::MAX)).magnitude(), fx(i64::MAX));
    assert_eq!(PaddedVec2::new(fx(i64::MIN), fx(i64::MIN)).magnitude(), fx(i64::MAX));
    assert_eq!(PaddedVec2::new(fx(i64::MIN), fx(0)).magnitude(), fx(i64::MAX));
    assert_eq!(PaddedVec2::new(fx(i64::MAX), fx(0)).magnitude(), fx(i64::MAX));
}

use tinyrender::fixed::{fadd, fdiv, fmul, fpow, fsqrt, fsub, idiv, imul, SCALE, T_INF};

#[test]
fn one_is_a_million_raw_units() {
    assert_eq!(SCALE, 1_000_000);
    assert_eq!(T_INF, i64::MAX);
}

#[test]
fn add_and_sub_are_exact_in_range() {
    assert_eq!(fadd(1_500_000, 2_500_000), 4_000_000);
    assert_eq!(fsub(1_500_000, 2_500_000), -1_000_000);
    assert_eq!(fadd(-7, 7), 0);
}

#[test]
fn add_saturates_at_the_i64_bounds() {
    assert_eq!(fadd(i64::MAX, 1), i64::MAX);
    assert_eq!(fsub(i64::MIN, 1), i64::MIN);
    assert_eq!(fadd(i64::MIN, -5), i64::MIN);
}

#[test]
fn mul_rescales_exactly_on_whole_products() {
    // 3 * 2 == 6
    assert_eq!(fmul(3_000_000, 2_000_000), 6_000_000);
    assert_eq!(fmul(-3_000_000, 2_000_000), -6_000_000);
    assert_eq!(fmul(-3_000_000, -2_000_000), 6_000_000);
}

#[test]
fn mul_truncates_toward_zero() {
    // (1e-6)^2 rounds to zero
    assert_eq!(fmul(1, 1), 0);
    assert_eq!(fmul(-1, 1), 0);
    // 1.5 * 1.000001 = 1.5000015 -> truncated to 1.500001
    assert_eq!(fmul(1_500_000, 1_000_001), 1_500_001);
    assert_eq!(fmul(-1_500_000, 1_000_001), -1_500_001);
}

#[test]
fn mul_by_one_is_identity() {
    assert_eq!(fmul(123_456_789, SCALE), 123_456_789);
    assert_eq!(fmul(-123_456_789, SCALE), -123_456_789);
}

#[test]
fn div_truncates_toward_zero() {
    // 1 / 3 = 0.333333...
    assert_eq!(fdiv(1_000_000, 3_000_000), 333_333);
    assert_eq!(fdiv(-1_000_000, 3_000_000), -333_333);
    assert_eq!(fdiv(1_000_000, -3_000_000), -333_333);
    assert_eq!(fdiv(-1_000_000, -3_000_000), 333_333);
}

#[test]
fn sqrt_is_exact_on_perfect_squares() {
    assert_eq!(fsqrt(0), 0);
    assert_eq!(fsqrt(4_000_000), 2_000_000);
    assert_eq!(fsqrt(1_000_000), 1_000_000);
    assert_eq!(fsqrt(9_000_000), 3_000_000);
}

#[test]
fn sqrt_rounds_down() {
    // sqrt(2) = 1.41421356...
    assert_eq!(fsqrt(2_000_000), 1_414_213);
}

#[test]
fn pow_multiplies_repeatedly() {
    assert_eq!(fpow(500_000, 0), SCALE);
    assert_eq!(fpow(500_000, 1), 500_000);
    assert_eq!(fpow(500_000, 2), 250_000);
    assert_eq!(fpow(2_000_000, 10), 1_024_000_000);
}

#[test]
fn count_ops_skip_rescaling() {
    assert_eq!(imul(1_666, 250), 416_500);
    assert_eq!(idiv(1_000_000, 600), 1_666);
    assert_eq!(idiv(-1_000_000, 600), -1_666);
}

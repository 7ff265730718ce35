use rusty_physics::fixed::{isqrt_u128, saturate, wide_div, wide_mul, Fixed, SCALE};

fn raw(r: i64) -> Fixed {
    Fixed::from_raw(r)
}

#[test]
fn scale_is_a_million() {
    assert_eq!(SCALE, 1_000_000);
    assert_eq!(Fixed::one().raw, 1_000_000);
    assert_eq!(Fixed::zero().raw, 0);
}

#[test]
fn from_int_counts_millionths() {
    assert_eq!(Fixed::from_int(3).raw, 3_000_000);
    assert_eq!(Fixed::from_int(-7).raw, -7_000_000);
    assert_eq!(Fixed::from_int(i32::MAX).raw, 2_147_483_647_000_000);
    assert_eq!(Fixed::from_int(i32::MIN).raw, -2_147_483_648_000_000);
}

#[test]
fn from_ratio_rounds_toward_zero() {
    assert_eq!(Fixed::from_ratio(1, 2).raw, 500_000);
    assert_eq!(Fixed::from_ratio(1, 3).raw, 333_333);
    assert_eq!(Fixed::from_ratio(-1, 3).raw, -333_333);
    assert_eq!(Fixed::from_ratio(1, -3).raw, -333_333);
    assert_eq!(Fixed::from_ratio(-2, -3).raw, 666_666);
    assert_eq!(Fixed::from_ratio(1, 60).raw, 16_666);
}

#[test]
fn add_and_sub_are_exact_in_range() {
    assert_eq!(raw(1_500_000).add(raw(2_250_000)), raw(3_750_000));
    assert_eq!(raw(1_500_000).sub(raw(2_250_000)), raw(-750_000));
    assert_eq!(raw(-5).add(raw(5)), raw(0));
}

#[test]
fn add_and_sub_clamp_at_the_ends() {
    assert_eq!(raw(i64::MAX).add(raw(1)), raw(i64::MAX));
    assert_eq!(raw(i64::MIN).sub(raw(1)), raw(i64::MIN));
    assert_eq!(raw(i64::MAX).add(raw(i64::MAX)), raw(i64::MAX));
    assert_eq!(raw(i64::MIN).add(raw(i64::MIN)), raw(i64::MIN));
    assert_eq!(raw(i64::MAX).sub(raw(i64::MIN)), raw(i64::MAX));
}

#[test]
fn neg_and_abs_clamp_the_least_number() {
    assert_eq!(raw(5).neg(), raw(-5));
    assert_eq!(raw(-5).neg(), raw(5));
    assert_eq!(raw(i64::MIN).neg(), raw(i64::MAX));
    assert_eq!(raw(-5).abs(), raw(5));
    assert_eq!(raw(5).abs(), raw(5));
    assert_eq!(raw(i64::MIN).abs(), raw(i64::MAX));
}

#[test]
fn mul_rounds_toward_zero() {
    // 1.5 * 2.5 = 3.75
    assert_eq!(raw(1_500_000).mul(raw(2_500_000)), raw(3_750_000));
    // 0.000001 * 0.5 = 0.0000005, which rounds to zero from either side
    assert_eq!(raw(1).mul(raw(500_000)), raw(0));
    assert_eq!(raw(-1).mul(raw(500_000)), raw(0));
    // 0.000003 * 0.5 = 0.0000015
    assert_eq!(raw(3).mul(raw(500_000)), raw(1));
    assert_eq!(raw(-3).mul(raw(500_000)), raw(-1));
    assert_eq!(raw(3).mul(raw(-500_000)), raw(-1));
    assert_eq!(raw(-3).mul(raw(-500_000)), raw(1));
}

#[test]
fn mul_by_one_and_zero() {
    assert_eq!(raw(123_456_789).mul(Fixed::one()), raw(123_456_789));
    assert_eq!(Fixed::one().mul(raw(-123_456_789)), raw(-123_456_789));
    assert_eq!(raw(i64::MIN).mul(Fixed::one()), raw(i64::MIN));
    assert_eq!(raw(i64::MAX).mul(Fixed::zero()), raw(0));
}

#[test]
fn mul_clamps_large_products() {
    assert_eq!(raw(i64::MAX).mul(raw(2_000_000)), raw(i64::MAX));
    assert_eq!(raw(i64::MAX).mul(raw(-2_000_000)), raw(i64::MIN));
    assert_eq!(raw(i64::MIN).mul(raw(i64::MIN)), raw(i64::MAX));
}

#[test]
fn div_rounds_toward_zero() {
    assert_eq!(raw(1_000_000).div(raw(3_000_000)), raw(333_333));
    assert_eq!(raw(-1_000_000).div(raw(3_000_000)), raw(-333_333));
    assert_eq!(raw(1_000_000).div(raw(-3_000_000)), raw(-333_333));
    assert_eq!(raw(-1_000_000).div(raw(-3_000_000)), raw(333_333));
    assert_eq!(raw(25_000_000).div(raw(50_000_000)), raw(500_000));
    assert_eq!(raw(7_000_000).div(raw(7_000_000)), Fixed::one());
}

#[test]
fn div_clamps_large_quotients() {
    assert_eq!(raw(i64::MAX).div(raw(1)), raw(i64::MAX));
    assert_eq!(raw(i64::MIN).div(raw(1)), raw(i64::MIN));
    assert_eq!(raw(i64::MIN).div(raw(-1)), raw(i64::MAX));
}

#[test]
fn checked_div_reports_a_zero_divisor() {
    assert_eq!(raw(5).checked_div(raw(0)), None);
    assert_eq!(raw(0).checked_div(raw(0)), None);
    assert_eq!(raw(3_000_000).checked_div(raw(2_000_000)), Some(raw(1_500_000)));
}

#[test]
fn double_and_half() {
    assert_eq!(raw(1_000_000).double(), raw(2_000_000));
    assert_eq!(raw(i64::MAX).double(), raw(i64::MAX));
    assert_eq!(raw(i64::MIN).double(), raw(i64::MIN));
    assert_eq!(raw(3).half(), raw(1));
    assert_eq!(raw(-3).half(), raw(-1));
    assert_eq!(raw(100_000_000).half(), raw(50_000_000));
}

#[test]
fn sqrt_rounds_down() {
    assert_eq!(raw(4_000_000).sqrt(), raw(2_000_000));
    assert_eq!(raw(2_000_000).sqrt(), raw(1_414_213));
    assert_eq!(raw(250_000).sqrt(), raw(500_000));
    assert_eq!(raw(1).sqrt(), raw(1_000));
    assert_eq!(raw(0).sqrt(), raw(0));
    assert_eq!(raw(-4_000_000).sqrt(), raw(0));
    assert_eq!(raw(i64::MAX).sqrt(), raw(3_037_000_499_976));
}

#[test]
fn integer_square_root_is_the_floor() {
    assert_eq!(isqrt_u128(0), 0);
    assert_eq!(isqrt_u128(1), 1);
    assert_eq!(isqrt_u128(3), 1);
    assert_eq!(isqrt_u128(4), 2);
    assert_eq!(isqrt_u128(99), 9);
    assert_eq!(isqrt_u128(100), 10);
    assert_eq!(isqrt_u128(u64::MAX as u128 * u64::MAX as u128), u64::MAX);
    assert_eq!(isqrt_u128(u128::MAX), u64::MAX);
    assert_eq!(isqrt_u128((1u128 << 64) - 1), (1u64 << 32) - 1);
}

#[test]
fn integer_square_root_brackets_its_argument() {
    let mut n: u128 = 1;
    while n < (1u128 << 120) {
        let r = isqrt_u128(n) as u128;
        assert!(r * r <= n);
        assert!((r + 1) * (r + 1) > n);
        n = n * 7 + 3;
    }
}

#[test]
fn clamp_keeps_within_bounds() {
    assert_eq!(raw(5).clamp(raw(1), raw(10)), raw(5));
    assert_eq!(raw(0).clamp(raw(1), raw(10)), raw(1));
    assert_eq!(raw(11).clamp(raw(1), raw(10)), raw(10));
    assert_eq!(raw(1).clamp(raw(1), raw(10)), raw(1));
    assert_eq!(raw(10).clamp(raw(1), raw(10)), raw(10));
}

#[test]
fn comparisons_go_by_the_raw_value() {
    assert!(raw(1).lt(raw(2)));
    assert!(!raw(2).lt(raw(2)));
    assert!(raw(2).le(raw(2)));
    assert!(!raw(3).le(raw(2)));
    assert!(raw(0).is_zero());
    assert!(!raw(1).is_zero());
}

#[test]
fn saturate_clamps_wide_numbers() {
    assert_eq!(saturate(0), 0);
    assert_eq!(saturate(i64::MAX as i128), i64::MAX);
    assert_eq!(saturate(i64::MAX as i128 + 1), i64::MAX);
    assert_eq!(saturate(i64::MIN as i128 - 1), i64::MIN);
    assert_eq!(saturate(-42), -42);
}

#[test]
fn wide_product_and_quotient_are_unclamped() {
    assert_eq!(wide_mul(i64::MAX, 2_000_000), 2 * (i64::MAX as i128));
    assert_eq!(wide_mul(i64::MIN, i64::MIN), ((i64::MIN as i128) * (i64::MIN as i128)) / 1_000_000);
    assert_eq!(wide_div(i64::MAX, 1), (i64::MAX as i128) * 1_000_000);
    assert_eq!(wide_div(-7, 2), -3_500_000);
    assert_eq!(wide_div(7, -2), -3_500_000);
}

use era_inflation::fraction::{Billionths, Hundredths, BILLION};

#[test]
fn from_rational_scales_and_clamps() {
    assert_eq!(Billionths::from_rational(233_278, 1_000_000_000).parts, 233_278);
    assert_eq!(Billionths::from_rational(1, 4).parts, 250_000_000);
    assert_eq!(Billionths::from_rational(1, 3).parts, 333_333_333);
    assert_eq!(Billionths::from_rational(0, 7).parts, 0);
    // A ratio above one saturates to one whole.
    assert_eq!(Billionths::from_rational(3, 2).parts, BILLION);
    assert_eq!(Billionths::from_rational(u64::MAX, 1).parts, BILLION);
    // A zero denominator counts as one.
    assert_eq!(Billionths::from_rational(1, 0).parts, BILLION);
    assert_eq!(Billionths::from_rational(0, 0).parts, 0);

    assert_eq!(Hundredths::from_rational(7, 10).parts, 70);
    assert_eq!(Hundredths::from_rational(1, 3).parts, 33);
    assert_eq!(Hundredths::from_rational(5, 2).parts, 100);
    assert_eq!(Hundredths::from_rational(9, 0).parts, 100);
}

#[test]
fn mul_ceil_rounds_remainders_up() {
    let third = Billionths::from_rational(1, 3);
    // 333_333_333 * 3 = 999_999_999 billionths: just under one, rounded up.
    assert_eq!(third.mul_ceil(3), 1);
    assert_eq!(third.mul_ceil(0), 0);
    let one = Billionths::from_rational(1, 1);
    assert_eq!(one.mul_ceil(u128::MAX), u128::MAX);
    let zero = Billionths::from_rational(0, 1);
    assert_eq!(zero.mul_ceil(u128::MAX), 0);
    let bonus = Billionths::from_rational(233_278, 1_000_000_000);
    // 233_278 * 77_777_777 = 18_143_999_948_606: ceiling lands on 18_144.
    assert_eq!(bonus.mul_ceil(77_777_777), 18_144);
}

#[test]
fn mul_floor_rounds_remainders_down() {
    let third = Hundredths::from_rational(1, 3);
    // 33 * 3 = 99 hundredths: just under one, rounded down.
    assert_eq!(third.mul_floor(3), 0);
    let split = Hundredths::from_rational(7, 10);
    assert_eq!(split.mul_floor(100), 70);
    assert_eq!(split.mul_floor(77_795_921), 54_457_144);
    assert_eq!(split.mul_floor(7_777_777_777), 5_444_444_443);
    let whole = Hundredths::from_rational(1, 1);
    assert_eq!(whole.mul_floor(u128::MAX), u128::MAX);
}

#[test]
fn saturating_pow_folds_the_decay_rate() {
    let decay = Billionths::from_rational(999_950_000, 1_000_000_000);
    assert_eq!(decay.saturating_pow(0).parts, BILLION);
    assert_eq!(decay.saturating_pow(1).parts, 999_950_000);
    // 999_950_000^2 = 999_900_002_500_000_000 / 10^9, floored.
    assert_eq!(decay.saturating_pow(2).parts, 999_900_002);
    // Far past the half-life the folded product bottoms out at zero.
    assert_eq!(decay.saturating_pow(240_000).parts, 0);

    let one = Billionths::from_rational(1, 1);
    assert_eq!(one.saturating_pow(5).parts, BILLION);
    let zero = Billionths::from_rational(0, 1);
    assert_eq!(zero.saturating_pow(0).parts, BILLION);
    assert_eq!(zero.saturating_pow(3).parts, 0);
}

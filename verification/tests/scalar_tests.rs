use raycore::scalar::Scalar;
use raycore::scalar::UNIT;

fn raw(x: i64) -> Scalar {
    Scalar::from_raw(x)
}

#[test]
fn whole_numbers_are_exact() {
    assert_eq!(Scalar::from_int(4).raw, 4 * UNIT);
    assert_eq!(Scalar::from_int(-3).raw, -3 * UNIT);
    assert_eq!(Scalar::from_int(i32::MAX).raw, (i32::MAX as i64) * UNIT);
    assert_eq!(Scalar::from_int(i32::MIN).raw, (i32::MIN as i64) * UNIT);
    assert_eq!(Scalar::one().raw, UNIT);
    assert_eq!(Scalar::zero().raw, 0);
}

#[test]
fn sums_and_differences() {
    assert_eq!(Scalar::from_int(2).add(Scalar::from_int(3)), Scalar::from_int(5));
    assert_eq!(Scalar::from_int(2).sub(Scalar::from_int(3)), Scalar::from_int(-1));
    assert_eq!(Scalar::from_int(7).neg(), Scalar::from_int(-7));
    assert_eq!(raw(12345).twice(), raw(24690));
}

#[test]
fn sums_saturate_at_both_ends() {
    assert_eq!(raw(i64::MAX).add(raw(1)).raw, i64::MAX);
    assert_eq!(raw(i64::MIN).sub(raw(1)).raw, i64::MIN);
    assert_eq!(raw(i64::MIN).neg().raw, i64::MAX);
    assert_eq!(raw(i64::MAX).twice().raw, i64::MAX);
    assert_eq!(raw(i64::MIN).add(raw(i64::MAX)).raw, -1);
}

#[test]
fn products_round_down() {
    assert_eq!(Scalar::from_int(3).mul(Scalar::from_int(-4)), Scalar::from_int(-12));
    assert_eq!(raw(UNIT / 2).mul(raw(UNIT / 2)), raw(UNIT / 4));
    assert_eq!(raw(1).mul(raw(UNIT / 2)).raw, 0);
    assert_eq!(raw(-1).mul(raw(UNIT / 2)).raw, -1);
    assert_eq!(raw(98765).mul(Scalar::one()), raw(98765));
    assert_eq!(raw(98765).mul(Scalar::zero()), raw(0));
}

#[test]
fn products_saturate() {
    assert_eq!(raw(i64::MAX).mul(Scalar::from_int(2)).raw, i64::MAX);
    assert_eq!(raw(i64::MAX).mul(Scalar::from_int(-2)).raw, i64::MIN);
    assert_eq!(raw(i64::MIN).mul(raw(i64::MIN)).raw, i64::MAX);
}

#[test]
fn quotients_round_down() {
    assert_eq!(Scalar::from_int(12).div(Scalar::from_int(-4)), Scalar::from_int(-3));
    assert_eq!(Scalar::one().div(Scalar::from_int(3)).raw, 21845);
    assert_eq!(Scalar::one().neg().div(Scalar::from_int(3)).raw, -21846);
    assert_eq!(Scalar::one().div(Scalar::from_int(-3)).raw, -21846);
    assert_eq!(Scalar::one().neg().div(Scalar::from_int(-3)).raw, 21845);
    assert_eq!(Scalar::one().div(raw(3 * UNIT / 2)).raw, 43690);
}

#[test]
fn division_by_zero_saturates_by_sign() {
    assert_eq!(Scalar::one().div(Scalar::zero()).raw, i64::MAX);
    assert_eq!(Scalar::one().neg().div(Scalar::zero()).raw, i64::MIN);
    assert_eq!(Scalar::zero().div(Scalar::zero()).raw, 0);
}

#[test]
fn quotients_saturate() {
    assert_eq!(raw(i64::MAX).div(raw(1)).raw, i64::MAX);
    assert_eq!(raw(i64::MIN).div(raw(1)).raw, i64::MIN);
    assert_eq!(raw(i64::MIN).div(raw(-1)).raw, i64::MAX);
}

#[test]
fn square_roots_round_down() {
    assert_eq!(Scalar::from_int(4).sqrt(), Scalar::from_int(2));
    assert_eq!(Scalar::from_int(25).sqrt(), Scalar::from_int(5));
    assert_eq!(Scalar::one().sqrt(), Scalar::one());
    assert_eq!(Scalar::from_int(2).sqrt().raw, 92681);
    assert_eq!(raw(1).sqrt().raw, 256);
    assert_eq!(raw(i64::MAX).sqrt().raw, 777472127993);
}

#[test]
fn square_root_of_nothing_positive_is_zero() {
    assert_eq!(Scalar::zero().sqrt().raw, 0);
    assert_eq!(Scalar::from_int(-4).sqrt().raw, 0);
    assert_eq!(raw(i64::MIN).sqrt().raw, 0);
}

#[test]
fn least_and_greatest() {
    assert_eq!(raw(3).min(raw(5)), raw(3));
    assert_eq!(raw(5).min(raw(3)), raw(3));
    assert_eq!(raw(3).max(raw(5)), raw(5));
    assert_eq!(raw(-3).max(raw(-5)), raw(-3));
}

#[test]
fn powers() {
    assert_eq!(Scalar::from_int(2).powi(5), Scalar::from_int(32));
    assert_eq!(Scalar::from_int(-2).powi(3), Scalar::from_int(-8));
    assert_eq!(Scalar::from_int(9).powi(0), Scalar::one());
    assert_eq!(Scalar::zero().powi(5), Scalar::zero());
    assert_eq!(Scalar::one().powi(5), Scalar::one());
    assert_eq!(raw(UNIT / 2).powi(2), raw(UNIT / 4));
}

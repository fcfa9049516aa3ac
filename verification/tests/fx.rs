use ppga::fx::FX_MAX;
use ppga::fx::FX_SCALE;
use ppga::trig;
use ppga::trig::HALF_PI_BITS;
use ppga::trig::PI_BITS;
use ppga::Fx;

#[test]
fn fx_from_int_and_ratio() {
    assert_eq!(Fx::from_int(3).bits, 3 * FX_SCALE);
    assert_eq!(Fx::from_int(-7).bits, -7 * FX_SCALE);
    // one third truncates toward zero
    assert_eq!(Fx::ratio(1, 3).bits, 349525);
    assert_eq!(Fx::ratio(-1, 3).bits, -349525);
}

#[test]
fn fx_mul_truncates_toward_zero() {
    let third = Fx::ratio(1, 3);
    let three = Fx::from_int(3);
    // 3 * (1/3) is one representable unit below one
    assert_eq!(third.mul(three).bits, FX_SCALE - 1);
    assert_eq!(third.neg().mul(three).bits, -(FX_SCALE - 1));
}

#[test]
fn fx_div_by_zero_saturates() {
    let one = Fx::from_int(1);
    let zero = Fx::from_bits(0);
    assert_eq!(one.div(zero).bits, FX_MAX);
    assert_eq!(one.neg().div(zero).bits, -FX_MAX);
    assert_eq!(zero.div(zero).bits, 0);
}

#[test]
fn fx_sqrt_exact_squares() {
    assert_eq!(Fx::from_int(4).sqrt(), Fx::from_int(2));
    assert_eq!(Fx::from_int(9).sqrt(), Fx::from_int(3));
    // floor of the square root of two
    assert_eq!(Fx::from_int(2).sqrt().bits, 1482910);
    // negative radicand collapses to zero
    assert_eq!(Fx::from_int(-5).sqrt().bits, 0);
}

#[test]
fn fx_saturating_add() {
    let big = Fx::from_bits(FX_MAX);
    assert_eq!(big.add(big).bits, FX_MAX);
    assert_eq!(big.neg().sub(big).bits, -FX_MAX);
}

#[test]
fn trig_sine_values() {
    let zero = Fx::from_bits(0);
    assert_eq!(trig::sin(zero).bits, 0);
    // the sine of a quarter turn is one, within a few units
    let s = trig::sin(Fx::from_bits(HALF_PI_BITS));
    assert!((s.bits - FX_SCALE).abs() < 16);
    // the sine of a half turn is zero, within a few units
    let s = trig::sin(Fx::from_bits(PI_BITS));
    assert!(s.bits.abs() < 16);
    // a full extra turn changes nothing much
    let x = Fx::ratio(1, 2);
    let wrapped = trig::sin(x.add(Fx::from_bits(trig::TWO_PI_BITS)));
    assert!((trig::sin(x).bits - wrapped.bits).abs() < 16);
}

#[test]
fn trig_atan2_quadrants() {
    let one = Fx::from_int(1);
    let zero = Fx::from_bits(0);
    let quarter_pi = PI_BITS / 4;
    assert!((trig::atan2(one, one).bits - quarter_pi).abs() < 64);
    assert!((trig::atan2(one, zero).bits - HALF_PI_BITS).abs() < 64);
    assert!((trig::atan2(zero, one.neg()).bits - PI_BITS).abs() < 64);
    assert!((trig::atan2(one.neg(), one).bits + quarter_pi).abs() < 64);
    assert_eq!(trig::atan2(zero, zero).bits, 0);
}

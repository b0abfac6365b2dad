use assimp::channel::AnimError;
use assimp::time::{Time, TIME_LIMIT, UNITS_PER_TICK};

fn units(t: f64) -> Result<i128, AnimError> {
    Time::from_bits(t.to_bits()).map(|x| x.units())
}

#[test]
fn whole_and_fractional_ticks() {
    assert_eq!(units(0.0), Ok(0));
    assert_eq!(units(-0.0), Ok(0));
    assert_eq!(units(10.0), Ok(10 * UNITS_PER_TICK));
    assert_eq!(units(-5.0), Ok(-5 * UNITS_PER_TICK));
    assert_eq!(units(0.25), Ok(UNITS_PER_TICK / 4));
    assert_eq!(units(2.5), Ok(5 * UNITS_PER_TICK / 2));
    assert_eq!(units(-0.5), Ok(-UNITS_PER_TICK / 2));
    // 2.4 ticks is not a multiple of 2^-32: the nearest unit
    assert_eq!(units(2.4), Ok(10307921510));
    assert_eq!(units(f64::MIN_POSITIVE), Ok(0));
    assert_eq!(units(5e-324), Ok(0));
    // half a unit rounds away from zero
    assert_eq!(units(2f64.powi(-33)), Ok(1));
    assert_eq!(units(-(2f64.powi(-33))), Ok(-1));
    assert_eq!(units(2f64.powi(-34)), Ok(0));
    assert_eq!(Time::from_ticks(7), Time::from_bits(7f64.to_bits()).unwrap());
}

#[test]
fn agrees_with_scaled_rounding() {
    let samples = [1.0, 1.5, 99.49, 1e15 + 0.5, 123456.789, -1234.5, 3.0e10, 1e18, -1e18, 29.97];
    for t in samples {
        assert_eq!(units(t), Ok((t * 4294967296.0).round() as i128), "{}", t);
    }
}

#[test]
fn only_nan_and_infinity_are_invalid() {
    assert_eq!(units(f64::NAN), Err(AnimError::InvalidTime));
    assert_eq!(units(f64::INFINITY), Err(AnimError::InvalidTime));
    assert_eq!(units(f64::NEG_INFINITY), Err(AnimError::InvalidTime));
    assert_eq!(units(9.223372036854775808e18), Ok(1i128 << 95));
    assert_eq!(units(1e300), Ok(TIME_LIMIT));
    assert_eq!(units(-1e300), Ok(-TIME_LIMIT));
    assert_eq!(units(f64::MAX), Ok(TIME_LIMIT));
}

#[test]
fn units_round_trip() {
    assert_eq!(Time::from_units(12345).unwrap().units(), 12345);
    assert!(Time::from_units(TIME_LIMIT).is_some());
    assert!(Time::from_units(TIME_LIMIT + 1).is_none());
    assert!(Time::from_units(-TIME_LIMIT - 1).is_none());
}

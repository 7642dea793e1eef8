use nunchuk::calibration::{Calibrator, UNIT};

fn cal(pos: i32, neg: i32) -> Calibrator {
    Calibrator::new(pos, neg)
}

#[test]
fn positive_reading_divides_by_pos() {
    assert_eq!(cal(800_000, 500_000).calibrate_value(400_000), 500_000);
}

#[test]
fn negative_reading_divides_by_neg() {
    assert_eq!(cal(800_000, 500_000).calibrate_value(-200_000), -400_000);
}

#[test]
fn positive_reading_saturates_at_one() {
    // 1.0 / 0.4 = 2.5, held to 1.0
    assert_eq!(cal(400_000, 1_000_000).calibrate_value(1_000_000), UNIT);
}

#[test]
fn negative_reading_saturates_at_minus_one() {
    assert_eq!(cal(1_000_000, 250_000).calibrate_value(-500_000), -UNIT);
}

#[test]
fn zero_stays_zero_for_any_factors() {
    assert_eq!(cal(1, 1).calibrate_value(0), 0);
    assert_eq!(cal(UNIT, UNIT).calibrate_value(0), 0);
    assert_eq!(cal(300_000, 700_000).calibrate_value(0), 0);
}

#[test]
fn unit_factors_keep_the_reading() {
    let c = cal(UNIT, UNIT);
    assert_eq!(c.calibrate_value(123_456), 123_456);
    assert_eq!(c.calibrate_value(-654_321), -654_321);
}

#[test]
fn division_rounds_toward_zero() {
    let c = cal(300_000, 300_000);
    assert_eq!(c.calibrate_value(100_000), 333_333);
    assert_eq!(c.calibrate_value(-100_000), -333_333);
}

#[test]
fn extreme_readings_saturate() {
    let c = cal(1, 1);
    assert_eq!(c.calibrate_value(i32::MAX), UNIT);
    assert_eq!(c.calibrate_value(i32::MIN), -UNIT);
}

#[test]
fn new_keeps_the_factors() {
    assert_eq!(Calibrator::new(UNIT, 1), Calibrator { pos: UNIT, neg: 1 });
}

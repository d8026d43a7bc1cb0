use focus_core::shaping::{
    deadzone, rate_integrate_setpoint, rate_integrate_speed, sigmoid_shape, ResponseCurve,
};

fn logistic_table(steepness: f64) -> Vec<u16> {
    (0..=1000)
        .map(|k| {
            let a = k as f64 / 1000.0;
            let v = 1.0 / (1.0 + (-steepness * (a - 0.5)).exp());
            (v * 1000.0).round() as u16
        })
        .collect()
}

fn logistic_curve() -> ResponseCurve {
    match ResponseCurve::from_table(logistic_table(20.0)) {
        Ok(c) => c,
        Err(_) => panic!("logistic table should be a valid curve"),
    }
}

#[test]
fn deadzone_snaps_small_values() {
    assert_eq!(deadzone(50, 100), 0);
    assert_eq!(deadzone(-99, 100), 0);
    assert_eq!(deadzone(0, 100), 0);
}

#[test]
fn deadzone_keeps_values_at_or_beyond_threshold() {
    assert_eq!(deadzone(100, 100), 100);
    assert_eq!(deadzone(-100, 100), -100);
    assert_eq!(deadzone(750, 100), 750);
    assert_eq!(deadzone(i32::MIN, 100), i32::MIN);
}

#[test]
fn sigmoid_is_odd() {
    let curve = logistic_curve();
    for x in [-1000, -700, -500, -1, 0, 1, 300, 500, 999, 1000] {
        assert_eq!(sigmoid_shape(&curve, -x), -sigmoid_shape(&curve, x));
    }
}

#[test]
fn sigmoid_keeps_sign_and_grows() {
    let curve = logistic_curve();
    assert_eq!(sigmoid_shape(&curve, 0), 0);
    assert_eq!(sigmoid_shape(&curve, 500), 500);
    assert_eq!(sigmoid_shape(&curve, 1000), 1000);
    assert_eq!(sigmoid_shape(&curve, -1000), -1000);
    let mut previous = 0;
    for x in 1..=1000 {
        let y = sigmoid_shape(&curve, x);
        assert!(y >= previous);
        assert!(sigmoid_shape(&curve, -x) <= 0);
        previous = y;
    }
}

#[test]
fn linear_curve_is_identity() {
    let curve = ResponseCurve::linear();
    assert_eq!(sigmoid_shape(&curve, 321), 321);
    assert_eq!(sigmoid_shape(&curve, -42), -42);
}

#[test]
fn curve_rejects_bad_tables() {
    assert!(ResponseCurve::from_table(vec![0u16; 10]).is_err());
    let mut decreasing = logistic_table(20.0);
    decreasing[600] = 0;
    assert!(ResponseCurve::from_table(decreasing).is_err());
    let mut too_high = vec![0u16; 1001];
    too_high[1000] = 1001;
    assert!(ResponseCurve::from_table(too_high).is_err());
    assert!(ResponseCurve::from_table(vec![7u16; 1001]).is_ok());
}

#[test]
fn speed_integration_exact() {
    assert_eq!(rate_integrate_speed(100_000, 1000, 100), 110_000);
    assert_eq!(rate_integrate_speed(100_000, -500, 100), 95_000);
    assert_eq!(rate_integrate_speed(100_000, 7, 3), 100_002);
}

#[test]
fn speed_integration_floors_at_zero() {
    assert_eq!(rate_integrate_speed(1_000, -1000, 1_000), 0);
    assert_eq!(rate_integrate_speed(0, -1000, u64::MAX), 0);
}

#[test]
fn speed_integration_saturates() {
    assert_eq!(rate_integrate_speed(i64::MAX - 1, 1000, 100), i64::MAX);
}

#[test]
fn setpoint_integration_exact() {
    assert_eq!(rate_integrate_setpoint(0, true, 1000, 100_000, 100), 100_000);
    assert_eq!(rate_integrate_setpoint(5_000, false, 500, 100_000, 100), -45_000);
    assert_eq!(rate_integrate_setpoint(0, true, 1, 1, 1), 0);
}

#[test]
fn setpoint_integration_saturates() {
    assert_eq!(rate_integrate_setpoint(0, true, 1000, i64::MAX, u64::MAX), i64::MAX);
    assert_eq!(rate_integrate_setpoint(0, false, 1000, i64::MAX, u64::MAX), i64::MIN);
    assert_eq!(rate_integrate_setpoint(i64::MAX - 5, true, 1000, 100_000, 100), i64::MAX);
}

#[test]
fn zero_elapsed_time_changes_nothing() {
    assert_eq!(rate_integrate_speed(4_321, 1000, 0), 4_321);
    assert_eq!(rate_integrate_speed(4_321, -1000, 0), 4_321);
    assert_eq!(rate_integrate_setpoint(-77, true, 1000, 100_000, 0), -77);
    assert_eq!(rate_integrate_setpoint(-77, false, 1000, 100_000, 0), -77);
}

use ackermann_control::physics::VehiclePhysics;

fn typical() -> VehiclePhysics {
    VehiclePhysics::new(1500, &vec![1221]).unwrap()
}

#[test]
fn construction_derives_scalars() {
    let p = typical();
    assert_eq!(p.engine_brake_force(), 500);
    assert_eq!(p.mass(), 1500);
    assert_eq!(p.lay_off_engine_acceleration(), -333);
    assert_eq!(p.weight_force(), 14_715_000);
    assert_eq!(p.rolling_resistance_force(), 147_150);
    assert_eq!(p.max_steering_angle(), 1221);
    assert_eq!(p.max_speed(), 50_000);
    assert_eq!(p.max_accel(), 3000);
    assert_eq!(p.max_deceleration(), 8000);
}

#[test]
fn steering_limit_is_largest_wheel() {
    let p = VehiclePhysics::new(1500, &vec![800, 1221, 900]).unwrap();
    assert_eq!(p.max_steering_angle(), 1221);
}

#[test]
fn steering_limit_falls_back_without_wheels() {
    let p = VehiclePhysics::new(1500, &vec![]).unwrap();
    assert_eq!(p.max_steering_angle(), 1222);
}

#[test]
fn degenerate_configuration_is_refused() {
    assert!(VehiclePhysics::new(0, &vec![1221]).is_none());
    assert!(VehiclePhysics::new(-5, &vec![1221]).is_none());
    assert!(VehiclePhysics::new(100_001, &vec![1221]).is_none());
    assert!(VehiclePhysics::new(1500, &vec![0]).is_none());
    assert!(VehiclePhysics::new(1500, &vec![-50]).is_none());
    assert!(VehiclePhysics::new(1500, &vec![4000]).is_none());
}

#[test]
fn impedance_at_rest_is_rolling_resistance() {
    let p = typical();
    assert_eq!(p.driving_impedance_acceleration(0, 0, false), -98);
    assert_eq!(p.driving_impedance_acceleration(0, 0, true), -98);
}

#[test]
fn impedance_grows_with_speed() {
    let p = typical();
    assert_eq!(p.driving_impedance_acceleration(10_000, 0, false), -126);
}

#[test]
fn slope_flips_sign_in_reverse() {
    let p = typical();
    assert_eq!(p.driving_impedance_acceleration(0, 100, false), 882);
    assert_eq!(p.driving_impedance_acceleration(0, 100, true), -1079);
}

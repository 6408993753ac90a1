use ackermann_control::physics::VehiclePhysics;
use ackermann_control::speed_control::{
    DelayedActivator, SpeedControllerInit, SpeedKind,
};

fn typical_physics() -> VehiclePhysics {
    VehiclePhysics::new(1500, &vec![1221]).unwrap()
}

#[test]
fn speed_kind_thresholds() {
    assert_eq!(SpeedKind::from_speed_ms(0), SpeedKind::FullStop);
    assert_eq!(SpeedKind::from_speed_ms(99), SpeedKind::FullStop);
    assert_eq!(SpeedKind::from_speed_ms(-99), SpeedKind::FullStop);
    assert_eq!(SpeedKind::from_speed_ms(100), SpeedKind::StandStill);
    assert_eq!(SpeedKind::from_speed_ms(499), SpeedKind::StandStill);
    assert_eq!(SpeedKind::from_speed_ms(-300), SpeedKind::StandStill);
    assert_eq!(SpeedKind::from_speed_ms(500), SpeedKind::Driving);
    assert_eq!(SpeedKind::from_speed_ms(-10_000), SpeedKind::Driving);
}

#[test]
fn activator_needs_consecutive_increments() {
    let mut a = DelayedActivator::new(2);
    assert!(!a.inc());
    assert!(a.inc());
    assert!(a.inc());
    a.dec();
    assert!(a.inc());
}

#[test]
fn activator_saturates_at_zero() {
    let mut a = DelayedActivator::new(3);
    a.dec();
    assert_eq!(a.cur, 0);
    assert!(!a.inc());
    assert_eq!(a.cur, 1);
}

#[test]
fn targets_are_clamped_to_the_envelope() {
    let mut c = SpeedControllerInit::from_physics(&typical_physics(), None).build();
    c.set_target(60_000, 500);
    assert_eq!(c.target_speed(), 50_000);
    assert_eq!(c.target_accel, 500);
    c.set_target(-60_000, -9000);
    assert_eq!(c.target_speed(), -50_000);
    assert_eq!(c.target_accel, -8000);
    c.set_target(10_000, 9000);
    assert_eq!(c.target_accel, 3000);
}

#[test]
fn near_zero_speed_request_implies_full_braking() {
    let mut c = SpeedControllerInit::from_physics(&typical_physics(), None).build();
    c.set_target(50, 2000);
    assert_eq!(c.target_speed(), 50);
    assert_eq!(c.target_accel, -8000);
}

#[test]
fn opposite_signs_force_a_zero_setpoint() {
    // Reverse target at forward speed: the loop sees a zero setpoint, so
    // its delta pushes down from the stored target instead of toward the
    // reverse speed.
    let mut c = SpeedControllerInit::from_physics(&typical_physics(), None).build();
    c.set_target(-3000, 1000);
    let r = c.step(2000);
    assert_eq!(r.setpoint_accel, 900);
    assert_eq!(r.delta_accel, -100);
    assert!(!r.full_stop);
}

#[test]
fn same_sign_target_is_kept() {
    let mut c = SpeedControllerInit::from_physics(&typical_physics(), None).build();
    c.set_target(3000, 1000);
    let r = c.step(2000);
    // The delta (50) is added to the stored target and clamped to its
    // magnitude.
    assert_eq!(r.setpoint_accel, 1000);
    assert_eq!(r.delta_accel, 50);
}

#[test]
fn debounce_counter_gates_the_loop() {
    let mut init = SpeedControllerInit::from_physics(&typical_physics(), None);
    init.use_activator = true;
    let mut c = init.build();
    c.set_target(5000, 2000);
    for _ in 0..4 {
        let r = c.step(0);
        assert_eq!(r.setpoint_accel, 2000);
        assert_eq!(r.delta_accel, 0);
    }
    let r = c.step(0);
    assert_eq!(r.delta_accel, 250);
    assert_eq!(r.setpoint_accel, 2000);
}

#[test]
fn full_stop_flag_needs_standing_and_stopping() {
    let mut c = SpeedControllerInit::from_physics(&typical_physics(), None).build();
    c.set_target(0, 0);
    let r = c.step(400);
    assert!(r.full_stop);
    let r = c.step(600);
    assert!(!r.full_stop);
    c.set_target(5000, 1000);
    let r = c.step(0);
    assert!(!r.full_stop);
}

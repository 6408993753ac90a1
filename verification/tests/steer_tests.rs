use ackermann_control::steer_control::SteerController;

#[test]
fn ratio_inverts_the_requested_sign() {
    let mut s = SteerController::new(1000);
    s.set_target(500);
    assert_eq!(s.target_steering_angle, -500);
    assert_eq!(s.steer_ratio(), -500);
    s.set_target(-250);
    assert_eq!(s.steer_ratio(), 250);
}

#[test]
fn target_is_clamped_to_the_limit() {
    let mut s = SteerController::new(1000);
    s.set_target(2000);
    assert_eq!(s.target_steering_angle, -1000);
    assert_eq!(s.steer_ratio(), -1000);
    s.set_target(-2000);
    assert_eq!(s.target_steering_angle, 1000);
    assert_eq!(s.steer_ratio(), 1000);
}

#[test]
fn zero_target_steers_straight() {
    let mut s = SteerController::new(1221);
    s.set_target(0);
    assert_eq!(s.steer_ratio(), 0);
}

use ackermann_control::physics::VehiclePhysics;
use ackermann_control::vehicle_control::Measurement;
use ackermann_control::{
    ControlError, Status, TargetRequest, VehicleController, VehicleControllerInit,
};

fn typical() -> VehicleController {
    let physics = VehiclePhysics::new(1500, &vec![1221]).unwrap();
    VehicleController::from_physics(physics, None)
}

#[test]
fn measurement_differentiates_speed() {
    let mut m = Measurement::default();
    m.update(100, 5000);
    assert_eq!(m.time_ms, 100);
    assert_eq!(m.speed, 5000);
    assert_eq!(m.accel, 50_000);
    m.update(100, 5000);
    assert_eq!(m.accel, 0);
}

#[test]
fn measurement_zeroes_below_full_stop() {
    let mut m = Measurement::default();
    m.update(100, 5000);
    m.update(100, 50);
    assert_eq!(m.speed, 0);
    assert_eq!(m.accel, 0);
    assert_eq!(m.time_ms, 200);
}

#[test]
fn vehicle_at_rest_accelerates_toward_a_forward_target() {
    let mut c = typical();
    c.set_target(TargetRequest { steering_angle: 0, speed: 5000, accel: 1000 });
    let (out, rep) = c.step(20, 0, 0).unwrap();
    assert_eq!(rep.status, Status::Accelerating);
    assert_eq!(out.throttle, 49);
    assert_eq!(out.brake, 0);
    assert_eq!(out.steer, 0);
    assert!(!out.reverse);
    assert!(!out.hand_brake);
    assert_eq!(rep.setpoint_accel, 1000);
    assert_eq!(rep.target_pedal, 50);
    assert_eq!(rep.delta_accel, 250);
    assert_eq!(rep.pedal_delta, 50);
}

#[test]
fn decaying_speed_reaches_braking_then_full_stop() {
    let mut c = typical();
    c.set_target(TargetRequest { steering_angle: 0, speed: 0, accel: 0 });
    let mut statuses = Vec::new();
    for speed in [10_000, 5000, 2000, 1000, 400, 50] {
        let (_, rep) = c.step(100, speed, 0).unwrap();
        statuses.push(rep.status);
    }
    let first_braking = statuses.iter().position(|s| *s == Status::Braking).unwrap();
    let first_full_stop = statuses.iter().position(|s| *s == Status::FullStop).unwrap();
    assert!(first_braking < first_full_stop);
    assert_eq!(statuses[4], Status::FullStop);
    assert_eq!(statuses[5], Status::FullStop);
}

#[test]
fn full_stop_holds_tick_after_tick() {
    let mut c = typical();
    c.set_target(TargetRequest { steering_angle: 0, speed: 0, accel: 0 });
    for _ in 0..5 {
        let (out, rep) = c.step(100, 50, 0).unwrap();
        assert_eq!(rep.status, Status::FullStop);
        assert!(out.hand_brake);
        assert_eq!(out.brake, 1000);
        assert_eq!(out.throttle, 0);
    }
}

#[test]
fn zero_interval_fails_and_leaves_the_controller_untouched() {
    let mut c = typical();
    c.set_target(TargetRequest { steering_angle: 0, speed: 5000, accel: 1000 });
    assert_eq!(c.step(0, 0, 0), Err(ControlError::InvalidInterval));
    assert_eq!(c.step(-100, 0, 0), Err(ControlError::InvalidInterval));
    // The refused calls changed nothing: the next valid tick behaves like
    // the first tick of an untouched controller.
    let (out, rep) = c.step(20, 0, 0).unwrap();
    assert_eq!(rep.status, Status::Accelerating);
    assert_eq!(out.throttle, 49);
}

#[test]
fn equal_states_step_identically() {
    let mut c1 = typical();
    let mut c2 = typical();
    c1.set_target(TargetRequest { steering_angle: 300, speed: 8000, accel: 2000 });
    c2.set_target(TargetRequest { steering_angle: 300, speed: 8000, accel: 2000 });
    for speed in [0, 2000, 4000, 6000] {
        let r1 = c1.step(50, speed, 20).unwrap();
        let r2 = c2.step(50, speed, 20).unwrap();
        assert_eq!(r1.0, r2.0);
        assert_eq!(r1.1, r2.1);
    }
}

#[test]
fn setting_the_same_target_twice_changes_nothing() {
    let mut once = typical();
    let mut twice = typical();
    let req = TargetRequest { steering_angle: -400, speed: -9000, accel: 1500 };
    once.set_target(req);
    twice.set_target(req);
    twice.set_target(req);
    let r1 = once.step(50, 2000, 0).unwrap();
    let r2 = twice.step(50, 2000, 0).unwrap();
    assert_eq!(r1.0, r2.0);
    assert_eq!(r1.1, r2.1);
}

#[test]
fn reverse_follows_the_target_sign_only() {
    let mut c = typical();
    c.set_target(TargetRequest { steering_angle: 0, speed: -3000, accel: 1000 });
    let (out, _) = c.step(100, 2000, 0).unwrap();
    assert!(out.reverse);
    c.set_target(TargetRequest { steering_angle: 0, speed: 3000, accel: 1000 });
    let (out, _) = c.step(100, -2000, 0).unwrap();
    assert!(!out.reverse);
}

#[test]
fn outputs_stay_in_range_under_extreme_inputs() {
    let mut c = typical();
    c.set_target(TargetRequest {
        steering_angle: i64::MAX,
        speed: i64::MAX,
        accel: i64::MIN + 1,
    });
    for (speed, pitch) in [(1_000_000, 1000), (-1_000_000, -1000), (0, 1000)] {
        let (out, _) = c.step(1, speed, pitch).unwrap();
        assert!((0..=1000).contains(&out.throttle));
        assert!((0..=1000).contains(&out.brake));
        assert!((-1000..=1000).contains(&out.steer));
        assert!(out.throttle == 0 || out.brake == 0);
    }
}

#[test]
fn pedal_sweep_walks_braking_coasting_accelerating() {
    // Zero speed-loop gains hold the acceleration setpoint fixed, and a
    // unit-gain acceleration loop then raises the carried pedal by 200
    // each tick: the regime sweeps monotonically across the borders.
    let physics = VehiclePhysics::new(1500, &vec![1221]).unwrap();
    let mut init = VehicleControllerInit::from_physics(physics, None);
    init.speed_controller.pid.kp = 0;
    init.speed_controller.pid.kd = 0;
    init.accel_controller.pid.kp = 1000;
    init.accel_controller.pid.kd = 0;
    let mut c = init.build();
    c.set_target(TargetRequest { steering_angle: 0, speed: 10_000, accel: 200 });
    let mut statuses = Vec::new();
    for _ in 0..5 {
        let (_, rep) = c.step(10_000, 10_000, 0).unwrap();
        statuses.push(rep.status);
    }
    assert_eq!(
        statuses,
        vec![
            Status::Braking,
            Status::Braking,
            Status::Coasting,
            Status::Coasting,
            Status::Accelerating,
        ],
    );
}

#[test]
fn steering_is_clamped_and_inverted_in_the_output() {
    let mut c = typical();
    c.set_target(TargetRequest { steering_angle: 5000, speed: 5000, accel: 1000 });
    let (out, _) = c.step(20, 0, 0).unwrap();
    assert_eq!(out.steer, -1000);
    c.set_target(TargetRequest { steering_angle: -611, speed: 5000, accel: 1000 });
    let (out, _) = c.step(20, 0, 0).unwrap();
    // 611 of the 1221 mrad limit, scaled to thousandths.
    assert_eq!(out.steer, 500);
}

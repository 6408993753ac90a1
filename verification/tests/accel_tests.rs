use ackermann_control::accel_control::AccelControllerInit;
use ackermann_control::physics::VehiclePhysics;

fn typical() -> ackermann_control::accel_control::AccelController {
    let physics = VehiclePhysics::new(1500, &vec![1221]).unwrap();
    AccelControllerInit::from_physics(&physics).build()
}

#[test]
fn pedal_bound_is_the_smaller_envelope_limit() {
    let c = typical();
    assert_eq!(c.max_pedal(), 3000);
}

#[test]
fn pedal_integrates_the_loop_delta() {
    let mut c = typical();
    c.set_target_accel(1000);
    let r = c.step(0);
    assert_eq!(r.pedal_delta, 50);
    assert_eq!(r.pedal_target, 50);
    // Next tick: error 500 gives p = 25, measurement rose by 500 so
    // d = -25; the pedal carries unchanged.
    let r = c.step(500);
    assert_eq!(r.pedal_delta, 0);
    assert_eq!(r.pedal_target, 50);
}

#[test]
fn pedal_is_clamped_to_its_bound() {
    let mut c = typical();
    c.set_target_accel(1_000_000);
    let mut pedal = 0;
    for _ in 0..5 {
        pedal = c.step(0).pedal_target;
    }
    assert_eq!(pedal, 3000);
}

#[test]
fn reset_zeroes_the_carried_pedal() {
    let mut c = typical();
    c.set_target_accel(1000);
    assert_eq!(c.step(0).pedal_target, 50);
    c.reset_target_pedal();
    assert_eq!(c.target_pedal, 0);
}

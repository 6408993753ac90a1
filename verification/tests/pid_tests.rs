use ackermann_control::pid::PidInit;

#[test]
fn first_step_is_proportional_only() {
    let mut pid = PidInit { kp: 50, ki: 0, kd: 500, output_limit: 1000 }.build();
    pid.set_setpoint(5000);
    assert_eq!(pid.next_control_output(0), 250);
}

#[test]
fn derivative_acts_on_measurement_change() {
    let mut pid = PidInit { kp: 50, ki: 0, kd: 500, output_limit: 1000 }.build();
    pid.set_setpoint(5000);
    assert_eq!(pid.next_control_output(0), 250);
    // error 4000 gives p = 200; the measurement rose by 1000, so d = -500.
    assert_eq!(pid.next_control_output(1000), -300);
}

#[test]
fn integral_accumulates_across_steps() {
    let mut pid = PidInit { kp: 0, ki: 100, kd: 0, output_limit: 10_000 }.build();
    pid.set_setpoint(1000);
    assert_eq!(pid.next_control_output(0), 100);
    assert_eq!(pid.next_control_output(0), 200);
    assert_eq!(pid.next_control_output(0), 300);
}

#[test]
fn output_is_clamped_to_limit() {
    let mut pid = PidInit { kp: 1_000_000, ki: 0, kd: 0, output_limit: 10 }.build();
    pid.set_setpoint(5000);
    assert_eq!(pid.next_control_output(0), 10);
    pid.set_setpoint(-5000);
    assert_eq!(pid.next_control_output(0), -10);
}

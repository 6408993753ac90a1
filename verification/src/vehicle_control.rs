//! The orchestrator: owns one instance of each stage plus the physics
//! model and the latest motion measurement, runs the cascade once per tick,
//! classifies the driving regime, and maps the pedal target to throttle,
//! brake, steer, reverse and hand-brake outputs plus a diagnostic report.

use vstd::prelude::*;

use crate::accel_control::{accel_step, AccelControl, AccelController, AccelControllerInit};
use crate::constants::{ENVELOPE_CAP, FULL_STOP_SPEED_MMS, MEASURED_ACCEL_CAP_MMS2,
    MEASURED_SPEED_CAP_MMS, STAND_STILL_SPEED_MMS, STEERING_ANGLE_CAP_MRAD};
use crate::physics::{driving_impedance, VehiclePhysics};
use crate::speed_control::{
    clamped_target_accel, clamped_target_speed, speed_step, SpeedControl, SpeedController,
    SpeedControllerInit,
};
use crate::steer_control::{steer_ratio_of, steer_target_of, SteerController};
use crate::units::{abs_i, clamp_i, clamp64, div_t, div_trunc, SCALE};

verus! {

/// The latest motion measurement, updated in place at the start of each
/// tick.
#[derive(Clone, Copy, Debug, PartialEq, Eq, Structural)]
pub struct Measurement {
    /// Accumulated elapsed time, in ms.
    pub time_ms: i64,
    /// Measured speed, in mm/s; zero while fully stopped.
    pub speed: i64,
    /// Estimated acceleration, in mm/s^2; zero while fully stopped.
    pub accel: i64,
}

/// Desired target values passed to [`VehicleController::set_target`].
#[derive(Clone, Copy, Debug, PartialEq, Eq, Structural)]
pub struct TargetRequest {
    /// Requested steering angle, in milliradians.
    pub steering_angle: i64,
    /// Requested speed, in mm/s.
    pub speed: i64,
    /// Requested acceleration, in mm/s^2.
    pub accel: i64,
}

/// The driving regime of one tick, re-derived every tick from continuous
/// quantities.
#[derive(Clone, Copy, Debug, PartialEq, Eq, Hash, Structural)]
pub enum Status {
    /// Standing with a near-zero speed target: hand-brake on, full brake.
    FullStop,
    /// The pedal target calls for throttle.
    Accelerating,
    /// The pedal target sits in the dead band between throttle and brake.
    Coasting,
    /// The pedal target calls for brake.
    Braking,
}

/// The report created by [`VehicleController::step`]: the classification
/// and the diagnostic setpoint and delta values of both inner loops.  It is
/// meant for logging and tuning; the control law never consumes it.
#[derive(Clone, Copy, Debug, PartialEq, Eq, Structural)]
pub struct Report {
    /// This tick's driving regime.
    pub status: Status,
    /// The speed stage's bounded acceleration setpoint, in mm/s^2.
    pub setpoint_accel: i64,
    /// The acceleration stage's carried pedal target.
    pub target_pedal: i64,
    /// The speed loop's raw output delta.
    pub delta_accel: i64,
    /// The acceleration loop's raw output delta.
    pub pedal_delta: i64,
}

/// The actuator command of one tick.
#[derive(Clone, Copy, Debug, PartialEq, Eq, Structural)]
pub struct Output {
    /// Throttle, in thousandths of full throttle.
    pub throttle: i64,
    /// Brake, in thousandths of full brake.
    pub brake: i64,
    /// Steering ratio, in thousandths of full lock.
    pub steer: i64,
    /// Whether the vehicle drives in reverse.
    pub reverse: bool,
    /// Whether the hand brake is set.
    pub hand_brake: bool,
}

/// The one per-tick failure: a non-positive elapsed time, under which the
/// acceleration estimate is undefined.
#[derive(Clone, Copy, Debug, PartialEq, Eq, Structural)]
pub enum ControlError {
    /// `step` was called with a non-positive time delta.
    InvalidInterval,
}

/// Initializer of [`VehicleController`].
#[derive(Clone, Debug)]
pub struct VehicleControllerInit {
    /// The derived physics model.
    pub physics: VehiclePhysics,
    /// Configuration of the speed stage.
    pub speed_controller: SpeedControllerInit,
    /// Configuration of the acceleration stage.
    pub accel_controller: AccelControllerInit,
    /// The steering limit, in milliradians.
    pub max_steering_angle: i64,
}

/// A controller that turns a driving intent into actuator commands for one
/// vehicle, one tick at a time.
#[derive(Clone, Debug)]
pub struct VehicleController {
    /// The latest motion measurement.
    pub measurement: Measurement,
    /// The derived physics model.
    pub physics: VehiclePhysics,
    /// The speed stage.
    pub speed_controller: SpeedController,
    /// The acceleration stage.
    pub accel_controller: AccelController,
    /// The steering stage.
    pub steer_controller: SteerController,
}

/// The measurement after a tick of `dt` ms at `current_speed` mm/s: the
/// clock advances (saturating), and speed and acceleration estimate are
/// forced to zero whenever the current speed is below the full-stop
/// threshold, to suppress noise from a nearly stationary vehicle.
pub open spec fn measurement_after(m: Measurement, dt: i64, current_speed: i64) -> Measurement
    recommends
        dt > 0,
{
    let time_ms = if m.time_ms + dt <= i64::MAX {
        (m.time_ms + dt) as i64
    } else {
        i64::MAX
    };
    if current_speed < FULL_STOP_SPEED_MMS {
        Measurement { time_ms, speed: 0, accel: 0 }
    } else {
        Measurement {
            time_ms,
            speed: current_speed,
            accel: div_t((current_speed - m.speed) * SCALE, dt as int) as i64,
        }
    }
}

impl Measurement {
    /// Bounds that every update preserves.
    pub open spec fn wf(self) -> bool {
        &&& 0 <= self.time_ms
        &&& -MEASURED_SPEED_CAP_MMS <= self.speed <= MEASURED_SPEED_CAP_MMS
        &&& -MEASURED_ACCEL_CAP_MMS2 <= self.accel <= MEASURED_ACCEL_CAP_MMS2
    }

    /// Folds one tick into the measurement: advances the clock, stores the
    /// current speed and differentiates it into an acceleration estimate,
    /// both forced to zero while fully stopped.
    pub fn update(&mut self, time_delta_ms: i64, current_speed: i64)
        requires
            old(self).wf(),
            time_delta_ms > 0,
            -MEASURED_SPEED_CAP_MMS <= current_speed <= MEASURED_SPEED_CAP_MMS,
        ensures
            *final(self) == measurement_after(*old(self), time_delta_ms, current_speed),
            final(self).wf(),
    {
        let time_ms: i64 = if self.time_ms <= i64::MAX - time_delta_ms {
            self.time_ms + time_delta_ms
        } else {
            i64::MAX
        };
        if current_speed < FULL_STOP_SPEED_MMS {
            *self = Measurement { time_ms, speed: 0, accel: 0 };
        } else {
            let speed_delta = current_speed - self.speed;
            let current_accel = div_trunc(speed_delta * SCALE, time_delta_ms);
            *self = Measurement { time_ms, speed: current_speed, accel: current_accel };
        }
    }
}

impl Default for Measurement {
    /// The all-zero measurement a controller starts from.
    fn default() -> (r: Measurement)
        ensures
            r == (Measurement { time_ms: 0, speed: 0, accel: 0 }),
            r.wf(),
    {
        Measurement { time_ms: 0, speed: 0, accel: 0 }
    }
}

/// The regime of a pedal target against the two physics-derived borders
/// (throttle above `throttle_lower`, dead band above `brake_upper`, brake
/// below), when not at a full stop.
pub open spec fn classify_pedal(pedal: int, throttle_lower: int, brake_upper: int) -> Status {
    if pedal > throttle_lower {
        Status::Accelerating
    } else if pedal > brake_upper {
        Status::Coasting
    } else {
        Status::Braking
    }
}

/// Order of the regimes along a pedal sweep: braking lowest, accelerating
/// highest.
pub open spec fn status_rank(s: Status) -> int {
    match s {
        Status::Braking => 0,
        Status::Coasting => 1,
        Status::Accelerating => 2,
        Status::FullStop => 3,
    }
}

/// The controller after a target request: the steering angle goes to the
/// steering stage, speed and acceleration to the speed stage, each clamped
/// there.
pub open spec fn vehicle_set_target(s: VehicleController, t: TargetRequest) -> VehicleController {
    VehicleController {
        steer_controller: SteerController {
            target_steering_angle: steer_target_of(
                s.steer_controller.max_steering_angle as int,
                t.steering_angle as int,
            ) as i64,
            ..s.steer_controller
        },
        speed_controller: SpeedController {
            target_speed: clamped_target_speed(s.speed_controller, t.speed as int) as i64,
            target_accel: clamped_target_accel(
                s.speed_controller,
                clamped_target_speed(s.speed_controller, t.speed as int),
                t.accel as int,
            ) as i64,
            ..s.speed_controller
        },
        ..s
    }
}

/// One tick of the whole cascade: measurement update, steering ratio,
/// speed stage, acceleration stage, physics borders, regime classification
/// and output mapping.
pub open spec fn vehicle_step(
    s: VehicleController,
    dt: i64,
    current_speed: i64,
    pitch_sin: i64,
) -> (VehicleController, Output, Report)
    recommends
        dt > 0,
{
    let m2 = measurement_after(s.measurement, dt, current_speed);
    let steer = steer_ratio_of(s.steer_controller) as i64;
    let (sc2, sctl) = speed_step(s.speed_controller, current_speed);
    let ac_set = AccelController { target_accel: sctl.setpoint_accel, ..s.accel_controller };
    let ac_in = if sctl.full_stop {
        AccelController { target_pedal: 0, ..ac_set }
    } else {
        ac_set
    };
    let (ac2, actl) = accel_step(ac_in, m2.accel);
    let reverse = sc2.target_speed < 0;
    let throttle_lower = driving_impedance(s.physics, m2.speed as int, pitch_sin as int, reverse);
    let brake_upper = throttle_lower + s.physics.lay_off_engine_acceleration;
    let max_pedal = s.accel_controller.max_pedal as int;
    let s2 = VehicleController {
        measurement: m2,
        speed_controller: sc2,
        accel_controller: ac2,
        ..s
    };
    let status = if sctl.full_stop {
        Status::FullStop
    } else {
        classify_pedal(actl.pedal_target as int, throttle_lower, brake_upper)
    };
    let output = if sctl.full_stop {
        Output { throttle: 0, brake: SCALE, steer, reverse, hand_brake: true }
    } else if actl.pedal_target > throttle_lower {
        Output {
            throttle: clamp_i(
                div_t((actl.pedal_target - throttle_lower) * SCALE, max_pedal),
                0,
                SCALE as int,
            ) as i64,
            brake: 0,
            steer,
            reverse,
            hand_brake: false,
        }
    } else if actl.pedal_target > brake_upper {
        Output { throttle: 0, brake: 0, steer, reverse, hand_brake: false }
    } else {
        Output {
            throttle: 0,
            brake: clamp_i(
                div_t((brake_upper - actl.pedal_target) * SCALE, max_pedal),
                0,
                SCALE as int,
            ) as i64,
            steer,
            reverse,
            hand_brake: false,
        }
    };
    let report = Report {
        status,
        setpoint_accel: sctl.setpoint_accel,
        target_pedal: actl.pedal_target,
        delta_accel: sctl.delta_accel,
        pedal_delta: actl.pedal_delta,
    };
    (s2, output, report)
}

impl VehicleControllerInit {
    /// The configuration `from_physics` derives.
    pub open spec fn from_physics_spec(
        physics: VehiclePhysics,
        min_accel: Option<i64>,
    ) -> VehicleControllerInit {
        VehicleControllerInit {
            physics,
            speed_controller: SpeedControllerInit::from_physics_spec(physics, min_accel),
            accel_controller: AccelControllerInit::from_physics_spec(physics),
            max_steering_angle: physics.max_steering_angle,
        }
    }

    /// The controller `build` constructs.
    pub open spec fn build_spec(self) -> VehicleController {
        VehicleController {
            measurement: Measurement { time_ms: 0, speed: 0, accel: 0 },
            physics: self.physics,
            speed_controller: self.speed_controller.build_spec(),
            accel_controller: self.accel_controller.build_spec(),
            steer_controller: SteerController {
                target_steering_angle: 0,
                max_steering_angle: self.max_steering_angle,
            },
        }
    }

    /// Bounds under which the built controller's arithmetic cannot
    /// overflow; a zero pedal bound is a degenerate configuration and is
    /// refused here, before any tick runs.
    pub open spec fn wf(self) -> bool {
        &&& self.physics.wf()
        &&& self.speed_controller.wf()
        &&& self.accel_controller.wf()
        &&& 0 < self.accel_controller.max_pedal
        &&& 0 < self.max_steering_angle <= STEERING_ANGLE_CAP_MRAD
    }

    /// The default configuration derived from a physics model.
    pub fn from_physics(physics: VehiclePhysics, min_accel: Option<i64>) -> (r:
        VehicleControllerInit)
        requires
            physics.wf(),
            0 < physics.max_acceleration,
            0 < physics.max_deceleration,
            min_accel matches Some(m) ==> 0 <= m <= ENVELOPE_CAP,
        ensures
            r == VehicleControllerInit::from_physics_spec(physics, min_accel),
            r.wf(),
    {
        VehicleControllerInit {
            speed_controller: SpeedControllerInit::from_physics(&physics, min_accel),
            accel_controller: AccelControllerInit::from_physics(&physics),
            max_steering_angle: physics.max_steering_angle(),
            physics,
        }
    }

    /// Builds the controller: zeroed measurement and targets, fresh stage
    /// state.
    pub fn build(self) -> (r: VehicleController)
        requires
            self.wf(),
        ensures
            r == self.build_spec(),
            r.wf(),
    {
        let VehicleControllerInit { physics, speed_controller, accel_controller,
            max_steering_angle } = self;
        VehicleController {
            measurement: Measurement::default(),
            physics,
            speed_controller: speed_controller.build(),
            accel_controller: accel_controller.build(),
            steer_controller: SteerController::new(max_steering_angle),
        }
    }
}

impl VehicleController {
    /// Bounds that construction establishes and every tick preserves.
    pub open spec fn wf(self) -> bool {
        &&& self.measurement.wf()
        &&& self.physics.wf()
        &&& self.speed_controller.wf()
        &&& self.accel_controller.wf()
        &&& self.steer_controller.wf()
        &&& 0 < self.accel_controller.max_pedal
    }

    /// Creates a controller with the default configuration for a physics
    /// model.
    pub fn from_physics(physics: VehiclePhysics, min_accel: Option<i64>) -> (r: VehicleController)
        requires
            physics.wf(),
            0 < physics.max_acceleration,
            0 < physics.max_deceleration,
            min_accel matches Some(m) ==> 0 <= m <= ENVELOPE_CAP,
        ensures
            r == VehicleControllerInit::from_physics_spec(physics, min_accel).build_spec(),
            r.wf(),
    {
        VehicleControllerInit::from_physics(physics, min_accel).build()
    }

    /// Sets the target values: the steering angle goes to the steering
    /// stage, speed and acceleration to the speed stage, each clamped to
    /// the vehicle's envelope at set time.
    pub fn set_target(&mut self, target: TargetRequest)
        requires
            old(self).wf(),
            target.steering_angle > i64::MIN,
        ensures
            *final(self) == vehicle_set_target(*old(self), target),
            final(self).wf(),
            abs_i(final(self).steer_controller.target_steering_angle as int)
                <= old(self).steer_controller.max_steering_angle,
            abs_i(final(self).speed_controller.target_speed as int)
                <= old(self).speed_controller.max_speed,
    {
        self.steer_controller.set_target(target.steering_angle);
        self.speed_controller.set_target(target.speed, target.accel);
    }

    /// Runs one control tick.
    ///
    /// `time_delta_ms` is the elapsed time since the last tick (ms),
    /// `current_speed` the measured speed (mm/s), `pitch_sin` the sine of
    /// the road pitch (thousandths).  A non-positive interval is the
    /// invalid-interval error and leaves the controller untouched; any
    /// valid tick returns the actuator output and the diagnostic report.
    pub fn step(&mut self, time_delta_ms: i64, current_speed: i64, pitch_sin: i64) -> (r: Result<
        (Output, Report),
        ControlError,
    >)
        requires
            old(self).wf(),
            -MEASURED_SPEED_CAP_MMS <= current_speed <= MEASURED_SPEED_CAP_MMS,
            -SCALE <= pitch_sin <= SCALE,
        ensures
            final(self).wf(),
            time_delta_ms <= 0 ==> {
                &&& r == Err::<(Output, Report), ControlError>(ControlError::InvalidInterval)
                &&& *final(self) == *old(self)
            },
            time_delta_ms > 0 ==> {
                let (s2, out, rep) = vehicle_step(
                    *old(self),
                    time_delta_ms,
                    current_speed,
                    pitch_sin,
                );
                &&& r == Ok::<(Output, Report), ControlError>((out, rep))
                &&& *final(self) == s2
            },
            r matches Ok((out, rep)) ==> {
                &&& 0 <= out.throttle <= SCALE
                &&& 0 <= out.brake <= SCALE
                &&& -SCALE <= out.steer <= SCALE
                &&& out.throttle == 0 || out.brake == 0
                &&& (out.reverse <==> old(self).speed_controller.target_speed < 0)
                &&& (rep.status == Status::FullStop <==> (
                    abs_i(current_speed as int) < STAND_STILL_SPEED_MMS
                    && abs_i(old(self).speed_controller.target_speed as int)
                        < FULL_STOP_SPEED_MMS
                ))
                &&& (rep.status == Status::FullStop ==> out.hand_brake && out.brake == SCALE
                    && out.throttle == 0)
            },
    {
        if time_delta_ms <= 0 {
            return Err(ControlError::InvalidInterval);
        }

        self.measurement.update(time_delta_ms, current_speed);

        let steer = self.steer_controller.steer_ratio();

        let SpeedControl { setpoint_accel, delta_accel, full_stop } = self.speed_controller.step(
            current_speed,
        );

        self.accel_controller.set_target_accel(setpoint_accel);
        if full_stop {
            self.accel_controller.reset_target_pedal();
        }
        let AccelControl { pedal_target, pedal_delta } = self.accel_controller.step(
            self.measurement.accel,
        );

        let reverse = self.speed_controller.target_speed() < 0;
        let throttle_lower_border = self.physics.driving_impedance_acceleration(
            self.measurement.speed,
            pitch_sin,
            reverse,
        );
        let brake_upper_border = throttle_lower_border
            + self.physics.lay_off_engine_acceleration();
        let max_pedal = self.accel_controller.max_pedal();

        let (status, output) = if full_stop {
            (
                Status::FullStop,
                Output { throttle: 0, brake: SCALE, steer, reverse, hand_brake: true },
            )
        } else if pedal_target > throttle_lower_border {
            let throttle = clamp64(
                div_trunc((pedal_target - throttle_lower_border) * SCALE, max_pedal),
                0,
                SCALE,
            );
            (
                Status::Accelerating,
                Output { throttle, brake: 0, steer, reverse, hand_brake: false },
            )
        } else if pedal_target > brake_upper_border {
            (
                Status::Coasting,
                Output { throttle: 0, brake: 0, steer, reverse, hand_brake: false },
            )
        } else {
            let brake = clamp64(
                div_trunc((brake_upper_border - pedal_target) * SCALE, max_pedal),
                0,
                SCALE,
            );
            (
                Status::Braking,
                Output { throttle: 0, brake, steer, reverse, hand_brake: false },
            )
        };

        let report = Report { status, setpoint_accel, target_pedal: pedal_target, delta_accel,
            pedal_delta };

        Ok((output, report))
    }
}

} // verus!

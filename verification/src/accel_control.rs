//! The acceleration stage: closes a PID loop on the measured acceleration
//! and integrates its delta into a magnitude-bounded pedal target.
//!
//! The pedal target is carried forward across ticks and updated by a
//! bounded delta rather than recomputed, so the pedal command behaves like
//! a rate-limited actuator.

use vstd::prelude::*;

use crate::constants::{
    ACCEL_PID_KD, ACCEL_PID_KI, ACCEL_PID_KP, ACCEL_PID_OUTPUT_LIMIT, ENVELOPE_CAP,
    PID_VALUE_CAP,
};
use crate::physics::VehiclePhysics;
use crate::pid::{pid_after, pid_output_of, PidInit, PidLoop};
use crate::units::clamp_i;
use crate::units::clamp64;

verus! {

/// Gains and pedal bound from which an [`AccelController`] is built.
#[derive(Clone, Debug)]
pub struct AccelControllerInit {
    /// Gains of the acceleration loop.
    pub pid: PidInit,
    /// Largest pedal-target magnitude, in thousandths of the actuation
    /// scale.
    pub max_pedal: i64,
}

/// The acceleration stage: the acceleration PID loop, its setpoint, and the
/// carried pedal target.
#[derive(Clone, Debug)]
pub struct AccelController {
    /// The PID loop closed on measured acceleration.
    pub accel_pid: PidLoop,
    /// The acceleration setpoint, in mm/s^2.
    pub target_accel: i64,
    /// The carried pedal target, bounded by `max_pedal`.
    pub target_pedal: i64,
    /// Largest pedal-target magnitude.
    pub max_pedal: i64,
}

/// What one tick of the acceleration stage returns.
#[derive(Clone, Copy, Debug, PartialEq, Eq, Structural)]
pub struct AccelControl {
    /// The new carried pedal target.
    pub pedal_target: i64,
    /// The loop's raw output delta (diagnostic).
    pub pedal_delta: i64,
}

impl AccelControllerInit {
    /// The configuration `from_physics` derives.
    pub open spec fn from_physics_spec(physics: VehiclePhysics) -> AccelControllerInit {
        AccelControllerInit {
            pid: PidInit {
                kp: ACCEL_PID_KP,
                ki: ACCEL_PID_KI,
                kd: ACCEL_PID_KD,
                output_limit: ACCEL_PID_OUTPUT_LIMIT,
            },
            max_pedal: if physics.max_acceleration <= physics.max_deceleration {
                physics.max_acceleration
            } else {
                physics.max_deceleration
            },
        }
    }

    /// The stage `build` constructs.
    pub open spec fn build_spec(self) -> AccelController {
        AccelController {
            accel_pid: PidLoop {
                kp: self.pid.kp,
                ki: self.pid.ki,
                kd: self.pid.kd,
                setpoint: 0,
                output_limit: self.pid.output_limit,
                integral: 0,
                prev_measurement: None,
            },
            target_accel: 0,
            target_pedal: 0,
            max_pedal: self.max_pedal,
        }
    }

    /// Bounds under which the built stage's arithmetic cannot overflow.
    pub open spec fn wf(self) -> bool {
        &&& self.pid.wf()
        &&& 0 <= self.max_pedal <= ENVELOPE_CAP
    }

    /// The default configuration for a vehicle: stock gains, and the pedal
    /// bounded by the smaller of the envelope acceleration and
    /// deceleration.
    pub fn from_physics(physics: &VehiclePhysics) -> (r: AccelControllerInit)
        requires
            physics.wf(),
        ensures
            r == AccelControllerInit::from_physics_spec(*physics),
            r.wf(),
    {
        let max_accel = physics.max_accel();
        let max_decel = physics.max_deceleration();
        AccelControllerInit {
            pid: PidInit {
                kp: ACCEL_PID_KP,
                ki: ACCEL_PID_KI,
                kd: ACCEL_PID_KD,
                output_limit: ACCEL_PID_OUTPUT_LIMIT,
            },
            max_pedal: if max_accel <= max_decel {
                max_accel
            } else {
                max_decel
            },
        }
    }

    /// Builds the stage with zeroed setpoint, pedal and loop memory.
    pub fn build(&self) -> (r: AccelController)
        requires
            self.wf(),
        ensures
            r == self.build_spec(),
            r.wf(),
    {
        AccelController {
            accel_pid: self.pid.build(),
            target_accel: 0,
            target_pedal: 0,
            max_pedal: self.max_pedal,
        }
    }
}

/// One tick of the acceleration stage: the stage's state after the tick
/// and the pedal command it returns.
pub open spec fn accel_step(s: AccelController, current_accel: i64) -> (AccelController,
    AccelControl) {
    let pid1 = PidLoop { setpoint: s.target_accel, ..s.accel_pid };
    let delta = pid_output_of(pid1, current_accel as int);
    let pedal = clamp_i(s.target_pedal + delta, -s.max_pedal as int, s.max_pedal as int);
    (
        AccelController {
            accel_pid: pid_after(pid1, current_accel),
            target_pedal: pedal as i64,
            ..s
        },
        AccelControl { pedal_target: pedal as i64, pedal_delta: delta as i64 },
    )
}

impl AccelController {
    /// Bounds that construction establishes and every tick preserves.
    pub open spec fn wf(self) -> bool {
        &&& self.accel_pid.wf()
        &&& 0 <= self.max_pedal <= ENVELOPE_CAP
        &&& -self.max_pedal <= self.target_pedal <= self.max_pedal
        &&& -ENVELOPE_CAP <= self.target_accel <= ENVELOPE_CAP
    }

    /// Stores the setpoint (mm/s^2) the loop steers toward.
    pub fn set_target_accel(&mut self, target_accel: i64)
        requires
            -ENVELOPE_CAP <= target_accel <= ENVELOPE_CAP,
        ensures
            *final(self) == (AccelController { target_accel, ..*old(self) }),
    {
        self.target_accel = target_accel;
    }

    /// Zeroes the carried pedal target, so that no stale pedal command
    /// leaks across a full stop.
    pub fn reset_target_pedal(&mut self)
        ensures
            *final(self) == (AccelController { target_pedal: 0, ..*old(self) }),
    {
        self.target_pedal = 0;
    }

    /// One tick: feeds the measured acceleration (mm/s^2) to the loop and
    /// integrates its delta into the bounded pedal target.
    pub fn step(&mut self, current_accel: i64) -> (r: AccelControl)
        requires
            old(self).wf(),
            -PID_VALUE_CAP <= current_accel <= PID_VALUE_CAP,
        ensures
            *final(self) == accel_step(*old(self), current_accel).0,
            r == accel_step(*old(self), current_accel).1,
            final(self).wf(),
            -old(self).max_pedal <= r.pedal_target <= old(self).max_pedal,
            r.pedal_target == final(self).target_pedal,
    {
        let prev_target_pedal = self.target_pedal;
        self.accel_pid.set_setpoint(self.target_accel);
        let pedal_delta = self.accel_pid.next_control_output(current_accel);
        let curr_pedal_target = clamp64(
            prev_target_pedal + pedal_delta,
            -self.max_pedal,
            self.max_pedal,
        );
        self.target_pedal = curr_pedal_target;
        AccelControl { pedal_target: curr_pedal_target, pedal_delta }
    }

    /// The pedal bound.
    pub fn max_pedal(&self) -> (r: i64)
        ensures
            r == self.max_pedal,
    {
        self.max_pedal
    }
}

} // verus!

//! The speed stage: closes a PID loop on vehicle speed to produce a
//! setpoint acceleration, with regime-dependent setpoint selection and
//! clamping, and an optional debounce counter that gates when the loop is
//! allowed to act.

use vstd::prelude::*;

use crate::constants::{
    ACTIVATION_DELAY_TICKS, DEFAULT_MIN_ACCEL_MMS2, ENVELOPE_CAP, FULL_STOP_SPEED_MMS,
    INERTIAL_ACCEL_MMS2, MEASURED_SPEED_CAP_MMS, SPEED_PID_KD, SPEED_PID_KI, SPEED_PID_KP,
    SPEED_PID_OUTPUT_LIMIT, STAND_STILL_SPEED_MMS,
};
use crate::physics::VehiclePhysics;
use crate::pid::{pid_after, pid_output_of, PidInit, PidLoop};
use crate::units::{abs_i, abs64, clamp_i, clamp64, max_i};

verus! {

/// Classification of a speed magnitude against the two stillness
/// thresholds.
#[derive(Clone, Copy, Debug, PartialEq, Eq, Structural)]
pub enum SpeedKind {
    /// Below the full-stop threshold.
    FullStop,
    /// Between the full-stop and stand-still thresholds.
    StandStill,
    /// At or above the stand-still threshold.
    Driving,
}

/// The regime a speed (mm/s) falls into.
pub open spec fn speed_kind_of(speed: int) -> SpeedKind {
    if abs_i(speed) < FULL_STOP_SPEED_MMS {
        SpeedKind::FullStop
    } else if abs_i(speed) < STAND_STILL_SPEED_MMS {
        SpeedKind::StandStill
    } else {
        SpeedKind::Driving
    }
}

impl SpeedKind {
    /// Classifies a speed, given in mm/s.
    pub fn from_speed_ms(speed_ms: i64) -> (r: SpeedKind)
        requires
            speed_ms > i64::MIN,
        ensures
            r == speed_kind_of(speed_ms as int),
    {
        let speed = abs64(speed_ms);
        if speed < FULL_STOP_SPEED_MMS {
            SpeedKind::FullStop
        } else if speed < STAND_STILL_SPEED_MMS {
            SpeedKind::StandStill
        } else {
            SpeedKind::Driving
        }
    }
}

/// A debounce counter: a request must persist for `max` consecutive ticks
/// before it activates, and any tick without the request counts back down.
#[derive(Clone, Copy, Debug, PartialEq, Eq, Structural)]
pub struct DelayedActivator {
    /// The count at which the activator fires.
    pub max: usize,
    /// The current count.
    pub cur: usize,
}

/// The counter after an increment: saturates at `max`.
pub open spec fn activator_after_inc(s: DelayedActivator) -> DelayedActivator {
    if s.max == s.cur {
        s
    } else {
        DelayedActivator { cur: (s.cur + 1) as usize, ..s }
    }
}

/// Whether the increment reached the activation count.
pub open spec fn activator_fires(s: DelayedActivator) -> bool {
    activator_after_inc(s).cur == s.max
}

/// The counter after a decrement: saturates at zero.
pub open spec fn activator_after_dec(s: DelayedActivator) -> DelayedActivator {
    if s.cur > 0 {
        DelayedActivator { cur: (s.cur - 1) as usize, ..s }
    } else {
        s
    }
}

impl DelayedActivator {
    /// The count never exceeds the activation count.
    pub open spec fn wf(self) -> bool {
        self.cur <= self.max
    }

    /// A fresh counter that needs `max` consecutive increments to fire.
    pub fn new(max: usize) -> (r: DelayedActivator)
        ensures
            r == (DelayedActivator { max, cur: 0 }),
            r.wf(),
    {
        DelayedActivator { max, cur: 0 }
    }

    /// Counts one tick with the request present; returns whether the
    /// activation count is reached.
    pub fn inc(&mut self) -> (r: bool)
        requires
            old(self).wf(),
        ensures
            *final(self) == activator_after_inc(*old(self)),
            r == activator_fires(*old(self)),
            final(self).wf(),
    {
        let next: usize = if self.max == self.cur {
            self.max
        } else {
            self.cur + 1
        };
        self.cur = next;
        next == self.max
    }

    /// Counts one tick with the request absent.
    pub fn dec(&mut self)
        requires
            old(self).wf(),
        ensures
            *final(self) == activator_after_dec(*old(self)),
            final(self).wf(),
    {
        if let Some(next) = self.cur.checked_sub(1) {
            self.cur = next;
        }
    }
}

/// Limits and gains from which a [`SpeedController`] is built.
#[derive(Clone, Debug)]
pub struct SpeedControllerInit {
    /// Gains of the speed loop.
    pub pid: PidInit,
    /// Largest target speed magnitude, in mm/s.
    pub max_speed: i64,
    /// Largest setpoint acceleration, in mm/s^2.
    pub max_accel: i64,
    /// Acceleration-request magnitude that triggers the debounce counter,
    /// in mm/s^2.
    pub min_accel: i64,
    /// Largest setpoint deceleration, in mm/s^2.
    pub max_decel: i64,
    /// Whether the debounce counter gates the speed loop.
    pub use_activator: bool,
}

/// The speed stage: the speed PID loop, the stored target, the envelope
/// limits and the optional debounce counter.
#[derive(Clone, Debug)]
pub struct SpeedController {
    /// The PID loop closed on speed.
    pub speed_pid: PidLoop,
    /// Debounce counter for acceleration-based control.
    pub accel_activator: DelayedActivator,
    /// Whether the debounce counter gates the speed loop.
    pub use_activator: bool,
    /// The stored target speed, in mm/s.
    pub target_speed: i64,
    /// The stored target acceleration, in mm/s^2.
    pub target_accel: i64,
    /// Largest target speed magnitude, in mm/s.
    pub max_speed: i64,
    /// Largest setpoint acceleration, in mm/s^2.
    pub max_accel: i64,
    /// Acceleration-request magnitude that triggers the debounce counter,
    /// in mm/s^2.
    pub min_accel: i64,
    /// Largest setpoint deceleration, in mm/s^2.
    pub max_decel: i64,
}

/// What one tick of the speed stage hands on to the acceleration stage.
#[derive(Clone, Copy, Debug, PartialEq, Eq, Structural)]
pub struct SpeedControl {
    /// The bounded acceleration setpoint, in mm/s^2.
    pub setpoint_accel: i64,
    /// The speed loop's raw output delta (diagnostic), in mm/s^2.
    pub delta_accel: i64,
    /// Whether the vehicle is standing with a near-zero speed target.
    pub full_stop: bool,
}

impl SpeedControllerInit {
    /// The configuration `from_physics` derives.
    pub open spec fn from_physics_spec(
        physics: VehiclePhysics,
        min_accel: Option<i64>,
    ) -> SpeedControllerInit {
        SpeedControllerInit {
            pid: PidInit {
                kp: SPEED_PID_KP,
                ki: SPEED_PID_KI,
                kd: SPEED_PID_KD,
                output_limit: SPEED_PID_OUTPUT_LIMIT,
            },
            max_speed: physics.max_speed,
            max_accel: physics.max_acceleration,
            min_accel: match min_accel {
                Some(m) => m,
                None => DEFAULT_MIN_ACCEL_MMS2,
            },
            max_decel: physics.max_deceleration,
            use_activator: false,
        }
    }

    /// The stage `build` constructs.
    pub open spec fn build_spec(self) -> SpeedController {
        SpeedController {
            speed_pid: PidLoop {
                kp: self.pid.kp,
                ki: self.pid.ki,
                kd: self.pid.kd,
                setpoint: 0,
                output_limit: self.pid.output_limit,
                integral: 0,
                prev_measurement: None,
            },
            accel_activator: DelayedActivator { max: ACTIVATION_DELAY_TICKS, cur: 0 },
            use_activator: self.use_activator,
            target_speed: 0,
            target_accel: 0,
            max_speed: self.max_speed,
            max_accel: self.max_accel,
            min_accel: self.min_accel,
            max_decel: self.max_decel,
        }
    }

    /// Bounds under which the built stage's arithmetic cannot overflow.
    pub open spec fn wf(self) -> bool {
        &&& self.pid.wf()
        &&& 0 <= self.max_speed <= ENVELOPE_CAP
        &&& 0 <= self.max_accel <= ENVELOPE_CAP
        &&& 0 <= self.min_accel <= ENVELOPE_CAP
        &&& 0 <= self.max_decel <= ENVELOPE_CAP
    }

    /// The default configuration for a vehicle: stock gains, the physics
    /// model's envelope, and the debounce counter switched off.
    pub fn from_physics(physics: &VehiclePhysics, min_accel: Option<i64>) -> (r:
        SpeedControllerInit)
        requires
            physics.wf(),
            min_accel matches Some(m) ==> 0 <= m <= ENVELOPE_CAP,
        ensures
            r == SpeedControllerInit::from_physics_spec(*physics, min_accel),
            r.wf(),
    {
        SpeedControllerInit {
            pid: PidInit {
                kp: SPEED_PID_KP,
                ki: SPEED_PID_KI,
                kd: SPEED_PID_KD,
                output_limit: SPEED_PID_OUTPUT_LIMIT,
            },
            max_speed: physics.max_speed(),
            max_accel: physics.max_accel(),
            min_accel: match min_accel {
                Some(m) => m,
                None => DEFAULT_MIN_ACCEL_MMS2,
            },
            max_decel: physics.max_deceleration(),
            use_activator: false,
        }
    }

    /// Builds the stage with zeroed targets and loop memory.
    pub fn build(&self) -> (r: SpeedController)
        requires
            self.wf(),
        ensures
            r == self.build_spec(),
            r.wf(),
    {
        SpeedController {
            speed_pid: self.pid.build(),
            accel_activator: DelayedActivator::new(ACTIVATION_DELAY_TICKS),
            use_activator: self.use_activator,
            target_speed: 0,
            target_accel: 0,
            max_speed: self.max_speed,
            max_accel: self.max_accel,
            min_accel: self.min_accel,
            max_decel: self.max_decel,
        }
    }
}

/// The stored target speed after a request: the request clamped to the
/// envelope.
pub open spec fn clamped_target_speed(s: SpeedController, target_speed: int) -> int {
    clamp_i(target_speed, -s.max_speed as int, s.max_speed as int)
}

/// The stored target acceleration after a request: clamped to the envelope,
/// unless the clamped target speed is below the full-stop threshold, in
/// which case a stopped request implies braking at the full deceleration.
pub open spec fn clamped_target_accel(
    s: SpeedController,
    clamped_speed: int,
    target_accel: int,
) -> int {
    if abs_i(clamped_speed) >= FULL_STOP_SPEED_MMS {
        clamp_i(target_accel, -s.max_decel as int, s.max_accel as int)
    } else {
        -s.max_decel as int
    }
}

/// The speed setpoint the loop is fed: zero at a full stop; the raw target
/// when standing; the raw target while driving unless current and target
/// speed have opposite signs, in which case zero (a direction change must
/// pass through zero).
pub open spec fn effective_setpoint_speed(
    current: int,
    target: int,
    standing: bool,
    stopping: bool,
) -> int {
    if standing {
        if stopping {
            0
        } else {
            target
        }
    } else {
        if (current >= 0) != (target >= 0) {
            0
        } else {
            target
        }
    }
}

/// One tick of the speed stage: the stage's state after the tick and what
/// it hands on.
pub open spec fn speed_step(s: SpeedController, current_speed: i64) -> (SpeedController,
    SpeedControl) {
    let standing = abs_i(current_speed as int) < STAND_STILL_SPEED_MMS;
    let stopping = abs_i(s.target_speed as int) < FULL_STOP_SPEED_MMS;
    let full_stop = standing && stopping;
    let setpoint_speed = effective_setpoint_speed(
        current_speed as int,
        s.target_speed as int,
        standing,
        stopping,
    );
    let accel_abs = abs_i(s.target_accel as int);
    let inertial = accel_abs < INERTIAL_ACCEL_MMS2;
    let triggered = !inertial && accel_abs >= s.min_accel;
    let enabled = if s.use_activator {
        triggered && activator_fires(s.accel_activator)
    } else {
        true
    };
    let activator2 = if s.use_activator {
        if triggered {
            activator_after_inc(s.accel_activator)
        } else {
            activator_after_dec(s.accel_activator)
        }
    } else {
        s.accel_activator
    };
    if enabled {
        let pid1 = PidLoop { setpoint: abs_i(setpoint_speed) as i64, ..s.speed_pid };
        let delta = pid_output_of(pid1, current_speed as int);
        let lower = if inertial {
            -s.max_decel as int
        } else {
            -accel_abs
        };
        let upper = if inertial {
            s.max_accel as int
        } else {
            accel_abs
        };
        let prev = if full_stop {
            0
        } else {
            s.target_accel as int
        };
        (
            SpeedController {
                speed_pid: pid_after(pid1, current_speed),
                accel_activator: activator2,
                ..s
            },
            SpeedControl {
                setpoint_accel: clamp_i(prev + delta, lower, upper) as i64,
                delta_accel: delta as i64,
                full_stop,
            },
        )
    } else {
        (
            SpeedController { accel_activator: activator2, ..s },
            SpeedControl { setpoint_accel: s.target_accel, delta_accel: 0, full_stop },
        )
    }
}

impl SpeedController {
    /// Bounds that construction establishes and every tick preserves.
    pub open spec fn wf(self) -> bool {
        &&& self.speed_pid.wf()
        &&& self.accel_activator.wf()
        &&& 0 <= self.max_speed <= ENVELOPE_CAP
        &&& 0 <= self.max_accel <= ENVELOPE_CAP
        &&& 0 <= self.min_accel <= ENVELOPE_CAP
        &&& 0 <= self.max_decel <= ENVELOPE_CAP
        &&& -self.max_speed <= self.target_speed <= self.max_speed
        &&& -self.max_decel <= self.target_accel <= self.max_accel
    }

    /// The stored target speed, in mm/s.
    pub fn target_speed(&self) -> (r: i64)
        ensures
            r == self.target_speed,
    {
        self.target_speed
    }

    /// Stores a new target speed (mm/s) and acceleration (mm/s^2), each
    /// clamped to the envelope; a near-zero speed request forces the full
    /// deceleration.
    pub fn set_target(&mut self, target_speed: i64, target_accel: i64)
        requires
            old(self).wf(),
        ensures
            *final(self) == (SpeedController {
                target_speed: clamped_target_speed(*old(self), target_speed as int) as i64,
                target_accel: clamped_target_accel(
                    *old(self),
                    clamped_target_speed(*old(self), target_speed as int),
                    target_accel as int,
                ) as i64,
                ..*old(self)
            }),
            final(self).wf(),
            -old(self).max_speed <= final(self).target_speed <= old(self).max_speed,
    {
        let speed = clamp64(target_speed, -self.max_speed, self.max_speed);
        let accel = if abs64(speed) >= FULL_STOP_SPEED_MMS {
            clamp64(target_accel, -self.max_decel, self.max_accel)
        } else {
            -self.max_decel
        };
        self.target_speed = speed;
        self.target_accel = accel;
    }

    /// One tick: classifies the current speed, selects the effective
    /// setpoint, runs the PID loop when enabled, and integrates its delta
    /// into the bounded acceleration setpoint.
    pub fn step(&mut self, current_speed: i64) -> (r: SpeedControl)
        requires
            old(self).wf(),
            -MEASURED_SPEED_CAP_MMS <= current_speed <= MEASURED_SPEED_CAP_MMS,
        ensures
            *final(self) == speed_step(*old(self), current_speed).0,
            r == speed_step(*old(self), current_speed).1,
            final(self).wf(),
            r.full_stop == (abs_i(current_speed as int) < STAND_STILL_SPEED_MMS
                && abs_i(old(self).target_speed as int) < FULL_STOP_SPEED_MMS),
            -max_i(old(self).max_decel as int, abs_i(old(self).target_accel as int))
                <= r.setpoint_accel
                <= max_i(old(self).max_accel as int, abs_i(old(self).target_accel as int)),
    {
        let is_standing = abs64(current_speed) < STAND_STILL_SPEED_MMS;
        let is_stopping = abs64(self.target_speed) < FULL_STOP_SPEED_MMS;
        let is_full_stop = is_standing && is_stopping;

        let setpoint_speed: i64 = if is_standing {
            if is_stopping {
                0
            } else {
                self.target_speed
            }
        } else {
            if (current_speed >= 0) != (self.target_speed >= 0) {
                0
            } else {
                self.target_speed
            }
        };

        let target_accel_abs = abs64(self.target_accel);
        let is_inertial = target_accel_abs < INERTIAL_ACCEL_MMS2;

        let is_speed_control_enabled: bool = if self.use_activator {
            let is_accel_triggered = !is_inertial && target_accel_abs >= self.min_accel;
            if is_accel_triggered {
                self.accel_activator.inc()
            } else {
                self.accel_activator.dec();
                false
            }
        } else {
            true
        };

        if is_speed_control_enabled {
            self.speed_pid.set_setpoint(abs64(setpoint_speed));
            let delta = self.speed_pid.next_control_output(current_speed);

            let (lower, upper) = if is_inertial {
                (-self.max_decel, self.max_accel)
            } else {
                (-target_accel_abs, target_accel_abs)
            };

            let prev_target: i64 = if is_full_stop {
                0
            } else {
                self.target_accel
            };
            let setpoint_accel = clamp64(prev_target + delta, lower, upper);
            SpeedControl { setpoint_accel, delta_accel: delta, full_stop: is_full_stop }
        } else {
            SpeedControl {
                setpoint_accel: self.target_accel,
                delta_accel: 0,
                full_stop: is_full_stop,
            }
        }
    }
}

} // verus!

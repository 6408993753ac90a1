//! A proportional-integral-derivative loop with a clamped output.
//!
//! Gains are in thousandths: an output contribution is
//! `error * gain / 1000`, truncated toward zero.  The derivative term acts
//! on the change of the measurement (not of the error), so a setpoint jump
//! causes no derivative kick, and it is zero on the first call, before any
//! previous measurement exists.  The integral term is hard-clamped to
//! [`PID_INTEGRAL_CAP`]; any further anti-windup is the calling stage's
//! business.

use vstd::prelude::*;

use crate::constants::{PID_GAIN_CAP, PID_INTEGRAL_CAP, PID_VALUE_CAP};
use crate::units::{clamp_i, clamp64, div_t, div_trunc, lemma_mul_abs_bound, SCALE};

verus! {

/// Gains and output limit from which a [`PidLoop`] is built.
#[derive(Clone, Debug)]
pub struct PidInit {
    /// Proportional gain, in thousandths.
    pub kp: i64,
    /// Integral gain, in thousandths.
    pub ki: i64,
    /// Derivative gain, in thousandths.
    pub kd: i64,
    /// The loop's output is clamped to this magnitude.
    pub output_limit: i64,
}

/// A PID loop: gains, a settable setpoint, and the controller memory
/// (integral term and previous measurement).
#[derive(Clone, Debug)]
pub struct PidLoop {
    /// Proportional gain, in thousandths.
    pub kp: i64,
    /// Integral gain, in thousandths.
    pub ki: i64,
    /// Derivative gain, in thousandths.
    pub kd: i64,
    /// The target value the loop steers its measurement toward.
    pub setpoint: i64,
    /// The loop's output is clamped to this magnitude.
    pub output_limit: i64,
    /// Accumulated integral contribution, clamped to [`PID_INTEGRAL_CAP`].
    pub integral: i64,
    /// The measurement of the previous step, if any.
    pub prev_measurement: Option<i64>,
}

impl PidInit {
    /// Bounds under which the built loop's arithmetic cannot overflow.
    pub open spec fn wf(self) -> bool {
        &&& 0 <= self.kp <= PID_GAIN_CAP
        &&& 0 <= self.ki <= PID_GAIN_CAP
        &&& 0 <= self.kd <= PID_GAIN_CAP
        &&& 0 <= self.output_limit <= PID_VALUE_CAP
    }

    /// Builds the loop with zeroed setpoint and memory.
    pub fn build(&self) -> (r: PidLoop)
        ensures
            r == (PidLoop {
                kp: self.kp,
                ki: self.ki,
                kd: self.kd,
                setpoint: 0,
                output_limit: self.output_limit,
                integral: 0,
                prev_measurement: None,
            }),
            self.wf() ==> r.wf(),
    {
        PidLoop {
            kp: self.kp,
            ki: self.ki,
            kd: self.kd,
            setpoint: 0,
            output_limit: self.output_limit,
            integral: 0,
            prev_measurement: None,
        }
    }
}

/// The integral term after a step: the old term plus the scaled error,
/// hard-clamped.
pub open spec fn pid_integral_after(s: PidLoop, m: int) -> int {
    clamp_i(
        s.integral + div_t((s.setpoint - m) * s.ki, SCALE as int),
        -PID_INTEGRAL_CAP as int,
        PID_INTEGRAL_CAP as int,
    )
}

/// The output of one step: proportional plus integral plus derivative
/// contribution, clamped to the output limit.
pub open spec fn pid_output_of(s: PidLoop, m: int) -> int {
    let e = s.setpoint - m;
    let p = div_t(e * s.kp, SCALE as int);
    let i = pid_integral_after(s, m);
    let d = match s.prev_measurement {
        Some(pm) => div_t(-((m - pm) * s.kd), SCALE as int),
        None => 0,
    };
    clamp_i(p + i + d, -s.output_limit as int, s.output_limit as int)
}

/// The loop's state after a step: updated integral and remembered
/// measurement; gains, setpoint and limit unchanged.
pub open spec fn pid_after(s: PidLoop, m: i64) -> PidLoop {
    PidLoop {
        integral: pid_integral_after(s, m as int) as i64,
        prev_measurement: Some(m),
        ..s
    }
}

impl PidLoop {
    /// Bounds under which one step's arithmetic cannot overflow.
    pub open spec fn wf(self) -> bool {
        &&& 0 <= self.kp <= PID_GAIN_CAP
        &&& 0 <= self.ki <= PID_GAIN_CAP
        &&& 0 <= self.kd <= PID_GAIN_CAP
        &&& 0 <= self.output_limit <= PID_VALUE_CAP
        &&& -PID_VALUE_CAP <= self.setpoint <= PID_VALUE_CAP
        &&& -PID_INTEGRAL_CAP <= self.integral <= PID_INTEGRAL_CAP
        &&& match self.prev_measurement {
            Some(pm) => -PID_VALUE_CAP <= pm <= PID_VALUE_CAP,
            None => true,
        }
    }

    /// Sets the target value for the following steps.
    pub fn set_setpoint(&mut self, setpoint: i64)
        ensures
            *final(self) == (PidLoop { setpoint, ..*old(self) }),
    {
        self.setpoint = setpoint;
    }

    /// Runs one step against `measurement` and returns the bounded control
    /// delta for the current error.
    pub fn next_control_output(&mut self, measurement: i64) -> (r: i64)
        requires
            old(self).wf(),
            -PID_VALUE_CAP <= measurement <= PID_VALUE_CAP,
        ensures
            *final(self) == pid_after(*old(self), measurement),
            final(self).wf(),
            r == pid_output_of(*old(self), measurement as int),
            -old(self).output_limit <= r <= old(self).output_limit,
    {
        let error: i64 = self.setpoint - measurement;
        proof {
            lemma_mul_abs_bound(error as int, self.kp as int, 2 * PID_VALUE_CAP, PID_GAIN_CAP as int);
            lemma_mul_abs_bound(error as int, self.ki as int, 2 * PID_VALUE_CAP, PID_GAIN_CAP as int);
        }
        let p: i64 = div_trunc(error * self.kp, SCALE);
        let i: i64 = clamp64(
            self.integral + div_trunc(error * self.ki, SCALE),
            -PID_INTEGRAL_CAP,
            PID_INTEGRAL_CAP,
        );
        self.integral = i;
        let d: i64 = match self.prev_measurement {
            Some(pm) => {
                proof {
                    lemma_mul_abs_bound(
                        measurement - pm,
                        self.kd as int,
                        2 * PID_VALUE_CAP,
                        PID_GAIN_CAP as int,
                    );
                }
                div_trunc(-((measurement - pm) * self.kd), SCALE)
            },
            None => 0,
        };
        self.prev_measurement = Some(measurement);
        clamp64(p + i + d, -self.output_limit, self.output_limit)
    }
}

} // verus!

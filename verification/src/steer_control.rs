//! The steering stage: clamps a requested steering angle to the vehicle's
//! physical limit and exposes it as a normalized ratio.
//!
//! The ratio's sign is inverted relative to the requested angle (the
//! steering convention of the actuator): the inversion happens when the
//! target is stored.

use vstd::prelude::*;

use crate::constants::STEERING_ANGLE_CAP_MRAD;
use crate::physics::VehiclePhysics;
use crate::units::{clamp_i, clamp64, div_t, div_trunc, lemma_ratio_bounded, SCALE};

verus! {

/// Holds the clamped steering target and the physical limit.
#[derive(Clone, Debug, PartialEq, Eq, Structural)]
pub struct SteerController {
    /// The stored steering target, in milliradians, sign already inverted.
    pub target_steering_angle: i64,
    /// The physical steering limit, in milliradians.
    pub max_steering_angle: i64,
}

/// The stored target after a request of `angle`: the sign-inverted request,
/// clamped to the physical limit.
pub open spec fn steer_target_of(max: int, angle: int) -> int {
    clamp_i(-angle, -max, max)
}

/// The normalized steering ratio, in thousandths.
pub open spec fn steer_ratio_of(s: SteerController) -> int {
    div_t(SCALE * s.target_steering_angle, s.max_steering_angle as int)
}

impl SteerController {
    /// A positive limit within the physical cap, and a target within it.
    pub open spec fn wf(self) -> bool {
        &&& 0 < self.max_steering_angle <= STEERING_ANGLE_CAP_MRAD
        &&& -self.max_steering_angle <= self.target_steering_angle <= self.max_steering_angle
    }

    /// Builds the stage from the physics model's steering limit.
    pub fn from_physics(physics: &VehiclePhysics) -> (r: SteerController)
        requires
            physics.wf(),
        ensures
            r == (SteerController {
                target_steering_angle: 0,
                max_steering_angle: physics.max_steering_angle,
            }),
            r.wf(),
    {
        Self::new(physics.max_steering_angle)
    }

    /// Builds the stage with a zero target and the given limit
    /// (milliradians).
    pub fn new(max_steering_angle: i64) -> (r: SteerController)
        requires
            0 < max_steering_angle <= STEERING_ANGLE_CAP_MRAD,
        ensures
            r == (SteerController { target_steering_angle: 0, max_steering_angle }),
            r.wf(),
    {
        SteerController { target_steering_angle: 0, max_steering_angle }
    }

    /// Stores the requested angle (milliradians), sign-inverted and clamped
    /// to the physical limit.
    pub fn set_target(&mut self, target_steering_angle: i64)
        requires
            old(self).wf(),
            target_steering_angle > i64::MIN,
        ensures
            final(self).target_steering_angle == steer_target_of(
                old(self).max_steering_angle as int,
                target_steering_angle as int,
            ),
            final(self).max_steering_angle == old(self).max_steering_angle,
            final(self).wf(),
    {
        let max = self.max_steering_angle;
        self.target_steering_angle = clamp64(-target_steering_angle, -max, max);
    }

    /// The normalized steering ratio, in thousandths of full lock.
    pub fn steer_ratio(&self) -> (r: i64)
        requires
            self.wf(),
        ensures
            r == steer_ratio_of(*self),
            -SCALE <= r <= SCALE,
    {
        proof {
            lemma_ratio_bounded(
                self.target_steering_angle as int,
                self.max_steering_angle as int,
                SCALE as int,
            );
        }
        div_trunc(SCALE * self.target_steering_angle, self.max_steering_angle)
    }
}

} // verus!

//! The vehicle-dynamics model: derived scalars computed once from the raw
//! vehicle parameters, and the per-tick driving-impedance evaluation.

use vstd::prelude::*;

use crate::constants::{
    ACCELERATION_OF_GRAVITY_MMS2, DEFAULT_MAX_STEERING_MRAD, DRAG_FORCE_DIVISOR,
    DRAG_FORCE_NUMERATOR, ENGINE_BRAKE_FORCE_N, ENVELOPE_CAP, MASS_CAP_KG, MAX_ACCELERATION_MMS2,
    MAX_DECELERATION_MMS2, MAX_SPEED_MMS, MEASURED_SPEED_CAP_MMS, ROLLING_RESISTANCE_DIVISOR,
    STEERING_ANGLE_CAP_MRAD,
};
use crate::units::{
    abs_i, div_t, div_trunc, lemma_div_t_bounds, lemma_div_t_le, lemma_mul_abs_bound, SCALE,
};

verus! {

/// Largest magnitude the driving-impedance acceleration can take, in mm/s^2.
pub const IMPEDANCE_CAP_MMS2: i64 = 2_500_000_000;

/// Derived vehicle-dynamics scalars, computed once at construction and
/// never mutated.
#[derive(Clone, Debug, PartialEq, Eq, Structural)]
pub struct VehiclePhysics {
    /// Constant engine-brake force, in newtons.
    pub engine_brake_force: i64,
    /// Vehicle mass, in kg.
    pub mass: i64,
    /// Deceleration from engine drag alone when coasting, in mm/s^2.
    pub lay_off_engine_acceleration: i64,
    /// Weight force, in millinewtons.
    pub weight_force: i64,
    /// Rolling-resistance force, in millinewtons.
    pub rolling_resistance_force: i64,
    /// Largest per-wheel steering angle, in milliradians.
    pub max_steering_angle: i64,
    /// Envelope top speed, in mm/s.
    pub max_speed: i64,
    /// Envelope maximum acceleration, in mm/s^2.
    pub max_acceleration: i64,
    /// Envelope maximum deceleration, in mm/s^2.
    pub max_deceleration: i64,
}

/// The largest element of a non-empty sequence of angles.
pub open spec fn seq_max(ws: Seq<i64>) -> int
    recommends
        ws.len() > 0,
    decreases ws.len(),
{
    if ws.len() <= 1 {
        ws[0] as int
    } else {
        let rest = seq_max(ws.drop_last());
        if ws.last() as int >= rest {
            ws.last() as int
        } else {
            rest
        }
    }
}

/// The steering limit a wheel set resolves to: the largest per-wheel angle,
/// or the default fallback when the vehicle reports none.
pub open spec fn resolved_max_steering(ws: Seq<i64>) -> int {
    if ws.len() == 0 {
        DEFAULT_MAX_STEERING_MRAD as int
    } else {
        seq_max(ws)
    }
}

/// The scalars derived from a mass and a resolved steering limit.
pub open spec fn physics_from(mass: int, angle: int) -> VehiclePhysics {
    VehiclePhysics {
        engine_brake_force: ENGINE_BRAKE_FORCE_N,
        mass: mass as i64,
        lay_off_engine_acceleration: (-div_t(ENGINE_BRAKE_FORCE_N * SCALE, mass)) as i64,
        weight_force: (mass * ACCELERATION_OF_GRAVITY_MMS2) as i64,
        rolling_resistance_force: div_t(
            mass * ACCELERATION_OF_GRAVITY_MMS2,
            ROLLING_RESISTANCE_DIVISOR as int,
        ) as i64,
        max_steering_angle: angle as i64,
        max_speed: MAX_SPEED_MMS,
        max_acceleration: MAX_ACCELERATION_MMS2,
        max_deceleration: MAX_DECELERATION_MMS2,
    }
}

/// The deceleration a coasting vehicle experiences from rolling resistance,
/// aerodynamic drag and road slope, in mm/s^2.  `pitch_sin` is the sine of
/// the road pitch, in thousandths; its sign flips when driving in reverse.
pub open spec fn driving_impedance(
    phys: VehiclePhysics,
    speed: int,
    pitch_sin: int,
    reverse: bool,
) -> int {
    let drag = div_t(speed * speed * DRAG_FORCE_NUMERATOR, DRAG_FORCE_DIVISOR as int);
    let slope_value = -div_t(
        ACCELERATION_OF_GRAVITY_MMS2 * phys.mass * pitch_sin,
        SCALE as int,
    );
    let slope = if reverse {
        -slope_value
    } else {
        slope_value
    };
    -div_t(phys.rolling_resistance_force + drag + slope, phys.mass as int)
}

impl VehiclePhysics {
    /// Bounds that construction establishes and all arithmetic relies on.
    pub open spec fn wf(self) -> bool {
        &&& 0 < self.mass <= MASS_CAP_KG
        &&& 0 <= self.engine_brake_force <= ENVELOPE_CAP
        &&& -ENVELOPE_CAP <= self.lay_off_engine_acceleration <= 0
        &&& 0 <= self.weight_force <= ENVELOPE_CAP
        &&& 0 <= self.rolling_resistance_force <= ENVELOPE_CAP
        &&& 0 < self.max_steering_angle <= STEERING_ANGLE_CAP_MRAD
        &&& 0 < self.max_speed <= ENVELOPE_CAP
        &&& 0 <= self.max_acceleration <= ENVELOPE_CAP
        &&& 0 <= self.max_deceleration <= ENVELOPE_CAP
    }

    /// Derives the model from the vehicle mass (kg) and the per-wheel
    /// maximum steering angles (milliradians).  Returns `None` on a
    /// degenerate configuration: a non-positive or oversized mass, or a
    /// resolved steering limit outside `(0, STEERING_ANGLE_CAP_MRAD]`.
    pub fn new(mass: i64, wheel_max_steer_angles: &Vec<i64>) -> (r: Option<VehiclePhysics>)
        ensures
            r is Some <==> {
                &&& 0 < mass <= MASS_CAP_KG
                &&& 0 < resolved_max_steering(wheel_max_steer_angles@) <= STEERING_ANGLE_CAP_MRAD
            },
            r is Some ==> r->Some_0 == physics_from(
                mass as int,
                resolved_max_steering(wheel_max_steer_angles@),
            ),
            r is Some ==> r->Some_0.wf(),
    {
        if mass <= 0 || mass > MASS_CAP_KG {
            return None;
        }
        let max_steering_angle: i64 = if wheel_max_steer_angles.len() == 0 {
            DEFAULT_MAX_STEERING_MRAD
        } else {
            let mut best: i64 = wheel_max_steer_angles[0];
            let mut idx: usize = 1;
            while idx < wheel_max_steer_angles.len()
                invariant
                    1 <= idx <= wheel_max_steer_angles.len(),
                    wheel_max_steer_angles.len() > 0,
                    best == seq_max(wheel_max_steer_angles@.take(idx as int)),
                decreases wheel_max_steer_angles.len() - idx,
            {
                let w = wheel_max_steer_angles[idx];
                proof {
                    let ws = wheel_max_steer_angles@;
                    assert(ws.take(idx + 1).drop_last() =~= ws.take(idx as int));
                    assert(ws.take(idx + 1).last() == ws[idx as int]);
                }
                if w > best {
                    best = w;
                }
                idx += 1;
            }
            proof {
                assert(wheel_max_steer_angles@.take(wheel_max_steer_angles@.len() as int)
                    =~= wheel_max_steer_angles@);
            }
            best
        };
        if max_steering_angle <= 0 || max_steering_angle > STEERING_ANGLE_CAP_MRAD {
            return None;
        }
        proof {
            lemma_div_t_bounds(ENGINE_BRAKE_FORCE_N * SCALE, mass as int);
            lemma_div_t_bounds(
                mass * ACCELERATION_OF_GRAVITY_MMS2,
                ROLLING_RESISTANCE_DIVISOR as int,
            );
        }
        Some(
            VehiclePhysics {
                engine_brake_force: ENGINE_BRAKE_FORCE_N,
                mass,
                lay_off_engine_acceleration: -div_trunc(ENGINE_BRAKE_FORCE_N * SCALE, mass),
                weight_force: mass * ACCELERATION_OF_GRAVITY_MMS2,
                rolling_resistance_force: div_trunc(
                    mass * ACCELERATION_OF_GRAVITY_MMS2,
                    ROLLING_RESISTANCE_DIVISOR,
                ),
                max_steering_angle,
                max_speed: MAX_SPEED_MMS,
                max_acceleration: MAX_ACCELERATION_MMS2,
                max_deceleration: MAX_DECELERATION_MMS2,
            },
        )
    }

    /// The deceleration the vehicle experiences on its own at `speed`
    /// (mm/s) on a road whose pitch has sine `pitch_sin` (thousandths):
    /// the throttle level below which the vehicle decelerates by itself.
    pub fn driving_impedance_acceleration(&self, speed: i64, pitch_sin: i64, reverse: bool) -> (r:
        i64)
        requires
            self.wf(),
            -MEASURED_SPEED_CAP_MMS <= speed <= MEASURED_SPEED_CAP_MMS,
            -SCALE <= pitch_sin <= SCALE,
        ensures
            r == driving_impedance(*self, speed as int, pitch_sin as int, reverse),
            -IMPEDANCE_CAP_MMS2 <= r <= IMPEDANCE_CAP_MMS2,
    {
        proof {
            lemma_mul_abs_bound(
                speed as int,
                speed as int,
                MEASURED_SPEED_CAP_MMS as int,
                MEASURED_SPEED_CAP_MMS as int,
            );
            lemma_mul_abs_bound(
                speed * speed,
                DRAG_FORCE_NUMERATOR as int,
                MEASURED_SPEED_CAP_MMS * MEASURED_SPEED_CAP_MMS,
                DRAG_FORCE_NUMERATOR as int,
            );
            lemma_div_t_le(
                speed * speed * DRAG_FORCE_NUMERATOR,
                DRAG_FORCE_DIVISOR as int,
                MEASURED_SPEED_CAP_MMS * MEASURED_SPEED_CAP_MMS * DRAG_FORCE_NUMERATOR,
            );
        }
        let drag: i64 = div_trunc(speed * speed * DRAG_FORCE_NUMERATOR, DRAG_FORCE_DIVISOR);
        proof {
            lemma_mul_abs_bound(
                ACCELERATION_OF_GRAVITY_MMS2 * self.mass,
                pitch_sin as int,
                ACCELERATION_OF_GRAVITY_MMS2 * MASS_CAP_KG,
                SCALE as int,
            );
            lemma_div_t_le(
                ACCELERATION_OF_GRAVITY_MMS2 * self.mass * pitch_sin,
                SCALE as int,
                ACCELERATION_OF_GRAVITY_MMS2 * MASS_CAP_KG * SCALE,
            );
        }
        let slope_value: i64 = -div_trunc(
            ACCELERATION_OF_GRAVITY_MMS2 * self.mass * pitch_sin,
            SCALE,
        );
        let slope: i64 = if reverse {
            -slope_value
        } else {
            slope_value
        };
        proof {
            lemma_div_t_bounds(
                self.rolling_resistance_force + drag + slope,
                self.mass as int,
            );
        }
        -div_trunc(self.rolling_resistance_force + drag + slope, self.mass)
    }

    /// The constant engine-brake force, in newtons.
    pub fn engine_brake_force(&self) -> (r: i64)
        ensures
            r == self.engine_brake_force,
    {
        self.engine_brake_force
    }

    /// The vehicle mass, in kg.
    pub fn mass(&self) -> (r: i64)
        ensures
            r == self.mass,
    {
        self.mass
    }

    /// Deceleration from engine drag alone when coasting, in mm/s^2.
    pub fn lay_off_engine_acceleration(&self) -> (r: i64)
        ensures
            r == self.lay_off_engine_acceleration,
    {
        self.lay_off_engine_acceleration
    }

    /// The weight force, in millinewtons.
    pub fn weight_force(&self) -> (r: i64)
        ensures
            r == self.weight_force,
    {
        self.weight_force
    }

    /// The rolling-resistance force, in millinewtons.
    pub fn rolling_resistance_force(&self) -> (r: i64)
        ensures
            r == self.rolling_resistance_force,
    {
        self.rolling_resistance_force
    }

    /// The steering limit, in milliradians.
    pub fn max_steering_angle(&self) -> (r: i64)
        ensures
            r == self.max_steering_angle,
    {
        self.max_steering_angle
    }

    /// The envelope top speed, in mm/s.
    pub fn max_speed(&self) -> (r: i64)
        ensures
            r == self.max_speed,
    {
        self.max_speed
    }

    /// The envelope maximum acceleration, in mm/s^2.
    pub fn max_accel(&self) -> (r: i64)
        ensures
            r == self.max_acceleration,
    {
        self.max_acceleration
    }

    /// The envelope maximum deceleration, in mm/s^2.
    pub fn max_deceleration(&self) -> (r: i64)
        ensures
            r == self.max_deceleration,
    {
        self.max_deceleration
    }
}

} // verus!

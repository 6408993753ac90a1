//! The controller's configuration constants.
//!
//! These are the fixed envelope values, control thresholds and default PID
//! gains of a typical passenger vehicle.  They are not re-tunable per tick;
//! a caller that wants other gains or limits builds the stage initializers
//! by hand instead of through `from_physics`.

use vstd::prelude::*;

verus! {

/// Gravitational acceleration, in mm/s^2.
pub const ACCELERATION_OF_GRAVITY_MMS2: i64 = 9810;

/// Constant engine-brake force, in newtons.
pub const ENGINE_BRAKE_FORCE_N: i64 = 500;

/// The rolling-resistance force is the weight force divided by this
/// (a rolling-resistance coefficient of one hundredth).
pub const ROLLING_RESISTANCE_DIVISOR: i64 = 100;

/// Aerodynamic drag force in millinewtons is
/// `speed_mms^2 * DRAG_FORCE_NUMERATOR / DRAG_FORCE_DIVISOR`:
/// half of drag coefficient (0.3) times reference area (2.37 m^2)
/// times air density (1.184 kg/m^3), with the unit conversions folded in.
pub const DRAG_FORCE_NUMERATOR: i64 = 420912;

/// See [`DRAG_FORCE_NUMERATOR`].
pub const DRAG_FORCE_DIVISOR: i64 = 1_000_000_000;

/// Envelope top speed, in mm/s (180 km/h).
pub const MAX_SPEED_MMS: i64 = 50_000;

/// Envelope maximum acceleration, in mm/s^2.
pub const MAX_ACCELERATION_MMS2: i64 = 3_000;

/// Envelope maximum deceleration, in mm/s^2.
pub const MAX_DECELERATION_MMS2: i64 = 8_000;

/// Below this speed magnitude the vehicle counts as fully stopped, in mm/s.
pub const FULL_STOP_SPEED_MMS: i64 = 100;

/// Below this speed magnitude the vehicle counts as standing still, in mm/s.
pub const STAND_STILL_SPEED_MMS: i64 = 500;

/// Below this magnitude a requested acceleration counts as near-inertial,
/// in mm/s^2.
pub const INERTIAL_ACCEL_MMS2: i64 = 100;

/// Steering-angle fallback when the vehicle reports no per-wheel limit,
/// in milliradians (70 degrees).
pub const DEFAULT_MAX_STEERING_MRAD: i64 = 1222;

/// No physical steering limit exceeds a flat half turn, in milliradians.
pub const STEERING_ANGLE_CAP_MRAD: i64 = 3142;

/// Largest accepted vehicle mass, in kg.
pub const MASS_CAP_KG: i64 = 100_000;

/// Largest accepted measured speed, in mm/s; bounds the per-tick
/// acceleration estimate so that all arithmetic stays within `i64`.
pub const MEASURED_SPEED_CAP_MMS: i64 = 1_000_000;

/// Largest magnitude of the per-tick acceleration estimate, in mm/s^2:
/// a speed swing of twice [`MEASURED_SPEED_CAP_MMS`] over one millisecond.
pub const MEASURED_ACCEL_CAP_MMS2: i64 = 2_000_000_000;

/// Cap on every configured envelope bound (speeds, accelerations, pedal).
pub const ENVELOPE_CAP: i64 = 1_000_000_000;

/// Cap on PID gains, in thousandths.
pub const PID_GAIN_CAP: i64 = 1_000_000;

/// Cap on PID setpoints, measurements and output limits.
pub const PID_VALUE_CAP: i64 = 10_000_000_000;

/// Hard clamp on the PID integral term.
pub const PID_INTEGRAL_CAP: i64 = 10_000_000_000;

/// Default proportional gain of the speed loop, in thousandths.
pub const SPEED_PID_KP: i64 = 50;

/// Default integral gain of the speed loop, in thousandths.
pub const SPEED_PID_KI: i64 = 0;

/// Default derivative gain of the speed loop, in thousandths.
pub const SPEED_PID_KD: i64 = 500;

/// Default output limit of the speed loop, in thousandths of m/s^2.
pub const SPEED_PID_OUTPUT_LIMIT: i64 = 1000;

/// Default proportional gain of the acceleration loop, in thousandths.
pub const ACCEL_PID_KP: i64 = 50;

/// Default integral gain of the acceleration loop, in thousandths.
pub const ACCEL_PID_KI: i64 = 0;

/// Default derivative gain of the acceleration loop, in thousandths.
pub const ACCEL_PID_KD: i64 = 50;

/// Default output limit of the acceleration loop, in thousandths.
pub const ACCEL_PID_OUTPUT_LIMIT: i64 = 1000;

/// Default acceleration-trigger threshold of the debounce counter, in mm/s^2.
pub const DEFAULT_MIN_ACCEL_MMS2: i64 = 1000;

/// Ticks the debounce counter needs before acceleration-based control engages.
pub const ACTIVATION_DELAY_TICKS: usize = 5;

} // verus!

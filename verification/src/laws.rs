//! The controller's general laws, stated over the same specification
//! functions that the stage and orchestrator contracts use.

use vstd::prelude::*;

use crate::constants::FULL_STOP_SPEED_MMS;
use crate::units::{abs_i, SCALE};
use crate::vehicle_control::{
    classify_pedal, status_rank, vehicle_set_target, vehicle_step, Status, TargetRequest,
    VehicleController,
};
use crate::accel_control::AccelController;

verus! {

/// A tick is deterministic: equal controller states fed the same time
/// delta, measured speed and pitch produce the same post-state, output and
/// report.
pub proof fn lemma_step_deterministic(
    s1: VehicleController,
    s2: VehicleController,
    dt: i64,
    current_speed: i64,
    pitch_sin: i64,
)
    requires
        s1 == s2,
    ensures
        vehicle_step(s1, dt, current_speed, pitch_sin) == vehicle_step(
            s2,
            dt,
            current_speed,
            pitch_sin,
        ),
{
}

/// Setting a target twice with the identical request stores the same
/// targets as setting it once: the stored values are already clamped, and
/// clamping them again against the unchanged limits moves nothing.
pub proof fn lemma_set_target_idempotent(s: VehicleController, t: TargetRequest)
    requires
        s.wf(),
    ensures
        vehicle_set_target(vehicle_set_target(s, t), t) == vehicle_set_target(s, t),
{
}

/// A tick taken standing below the full-stop threshold with a near-zero
/// speed target reports a full stop: hand-brake on, full brake, no
/// throttle.  Since a tick never changes the stored target speed, this
/// holds again at every consecutive such tick.
pub proof fn lemma_full_stop_tick(
    s: VehicleController,
    dt: i64,
    current_speed: i64,
    pitch_sin: i64,
)
    requires
        s.wf(),
        dt > 0,
        abs_i(current_speed as int) < FULL_STOP_SPEED_MMS,
        abs_i(s.speed_controller.target_speed as int) < FULL_STOP_SPEED_MMS,
    ensures
        ({
            let (s2, out, rep) = vehicle_step(s, dt, current_speed, pitch_sin);
            &&& rep.status == Status::FullStop
            &&& out.hand_brake
            &&& out.brake == SCALE
            &&& out.throttle == 0
            &&& s2.speed_controller.target_speed == s.speed_controller.target_speed
        }),
{
}

/// At a full-stop tick the carried pedal target is reset before the
/// acceleration stage runs: two controllers that differ only in the pedal
/// carried into the tick leave the tick in the same state, with the same
/// output and report.  No stale pedal command leaks across a stop.
pub proof fn lemma_full_stop_forgets_pedal(
    s1: VehicleController,
    s2: VehicleController,
    dt: i64,
    current_speed: i64,
    pitch_sin: i64,
)
    requires
        s1.wf(),
        dt > 0,
        abs_i(current_speed as int) < FULL_STOP_SPEED_MMS,
        abs_i(s1.speed_controller.target_speed as int) < FULL_STOP_SPEED_MMS,
        s2 == (VehicleController {
            accel_controller: AccelController {
                target_pedal: s2.accel_controller.target_pedal,
                ..s1.accel_controller
            },
            ..s1
        }),
    ensures
        vehicle_step(s1, dt, current_speed, pitch_sin) == vehicle_step(
            s2,
            dt,
            current_speed,
            pitch_sin,
        ),
{
}

/// Sweeping the pedal target upward between fixed borders (brake border
/// below throttle border, no full stop in play) walks the regime
/// monotonically from braking through coasting to accelerating; no other
/// regime can appear.
pub proof fn lemma_classification_monotone(
    pedal_lo: int,
    pedal_hi: int,
    throttle_lower: int,
    brake_upper: int,
)
    requires
        brake_upper <= throttle_lower,
        pedal_lo <= pedal_hi,
    ensures
        status_rank(classify_pedal(pedal_lo, throttle_lower, brake_upper)) <= status_rank(
            classify_pedal(pedal_hi, throttle_lower, brake_upper),
        ),
        classify_pedal(pedal_lo, throttle_lower, brake_upper) != Status::FullStop,
        status_rank(classify_pedal(pedal_lo, throttle_lower, brake_upper)) == status_rank(
            classify_pedal(pedal_hi, throttle_lower, brake_upper),
        ) ==> classify_pedal(pedal_lo, throttle_lower, brake_upper) == classify_pedal(
            pedal_hi,
            throttle_lower,
            brake_upper,
        ),
{
}

/// The reverse flag of a tick holds exactly when the stored (clamped)
/// target speed is negative, whatever the sign of the measured speed.
pub proof fn lemma_reverse_detection(
    s: VehicleController,
    dt: i64,
    current_speed: i64,
    pitch_sin: i64,
)
    requires
        dt > 0,
    ensures
        vehicle_step(s, dt, current_speed, pitch_sin).1.reverse <==> s.speed_controller
            .target_speed < 0,
{
}

} // verus!

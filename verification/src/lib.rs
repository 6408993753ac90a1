//! A cascaded drive-by-wire vehicle controller.
//!
//! The controller turns a driving intent (steering angle, speed,
//! acceleration) into actuator commands (throttle, brake, steer ratio,
//! reverse and hand-brake flags), once per control tick.  All physical
//! quantities are carried as scaled integers: speeds in millimetres per
//! second, accelerations in millimetres per second squared, angles in
//! milliradians, ratios and gains in thousandths.

pub mod accel_control;
pub mod constants;
pub mod laws;
pub mod physics;
pub mod pid;
pub mod speed_control;
pub mod steer_control;
pub mod units;
pub mod vehicle_control;

pub use vehicle_control::{
    ControlError, Output, Report, Status, TargetRequest, VehicleController,
    VehicleControllerInit,
};

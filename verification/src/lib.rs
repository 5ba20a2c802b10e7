//! Verified core of a bicopter flight controller: DShot motor framing,
//! system arming state, sensor frame decoding and the decisions that the
//! control loops take.

pub mod dshot;
pub mod state;
pub mod motor;
pub mod actuator_slots;
pub mod mpu6500;
pub mod telemetry;
pub mod supervisor;
pub mod loop_logger;
pub mod servo;
pub mod types;

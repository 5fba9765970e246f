//! Timing and control primitives for a single-threaded, latency-sensitive
//! control loop: running latency statistics with deadline-miss accounting, a
//! single-slot state exchange between a producer and its consumers, a PID
//! control law with saturation and anti-windup, and a drift-compensated cycle
//! pacer.

pub mod errors;
pub mod pid;
pub mod sensor;
pub mod stats;
pub mod timer;

pub use errors::Layer0Error;
pub use pid::PidController;
pub use sensor::SensorBuffer;
pub use stats::RtStats;
pub use timer::RtTimer;

//! Verified core of a self-calibrating electronic compass.
//!
//! The library models the magnetometer subsystem: the register-oriented bus
//! protocol (frames and status decoding), the gain/resolution/filter
//! configuration cache, the lookup-table conversion from raw counts to
//! physical units, the sampling pipeline (low-pass filter, bounded sample
//! window, windowed average), the running calibration engine, the heading
//! estimator with wraparound-aware hysteresis, and the idle/calibrating/
//! measuring lifecycle state machine.
//!
//! Physical magnitudes are carried as fixed-point integers in thousandths of
//! a microtesla (milli-µT), so every computation here is exact integer
//! arithmetic with verified overflow bounds. The unverified runtime around
//! this library performs the bus transactions, the thread plumbing and the
//! one floating-point step (the arctangent that turns the compensated field
//! components into an angle); everything it hands back is fed through the
//! verified functions below.

pub mod calib;
pub mod commands;
pub mod config;
pub mod defs;
pub mod error;
pub mod heading;
pub mod math;
pub mod motor;
pub mod protocol;
pub mod sampler;
pub mod smartvar;
pub mod tables;

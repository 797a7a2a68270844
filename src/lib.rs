//! Telemetry formatting and rendering for a three-line character display
//! that shows temperature, humidity and pressure.

pub mod digits;
pub mod display;
pub mod pass;
pub mod startup;

//! Interactive voice transformation: the acoustic representation of a
//! recorded clip, the operators that reshape it, the editing parameters, the
//! keyboard-driven session, and the capture buffer that feeds it.
//!
//! Frequencies are held in millihertz, ratios and frame periods in tenths,
//! so that every operator is exact integer arithmetic.
pub mod capture;
pub mod format;
pub mod params;
pub mod session;
pub mod transform;

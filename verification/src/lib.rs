//! Verified control core of a channel-strip audio processor.
//!
//! The processor shapes a signal through three cascaded stages — equalization,
//! dynamic-range compression, and harmonic coloration.  This crate holds the
//! parts of those engines that are exact integer logic, with proofs:
//!
//! - the discrete parameter model (filter slopes, compression presets and
//!   ratios, coloration characters) together with the time-constant and
//!   threshold tables, stated in integer units (microseconds, millidecibels);
//! - the lookahead delay line, a fixed-capacity circular buffer;
//! - the directional one-pole smoother (separate attack and release
//!   coefficients) shared by the compressor and the colorizer;
//! - the decibel-domain gain computer of the compressor: soft-knee excess,
//!   ratio-based gain reduction, and its smoothing state;
//! - the colorizer's control state: drive and saturation amounts derived from
//!   the intensity control, per-character thresholds and coloration amounts.
//!
//! Sample values themselves are floating point and are handled by the host
//! layer around this crate; the delay line is therefore generic in its element
//! type, and every gain decision here is stated over integer decibel values.

pub mod color;
pub mod delay;
pub mod dynamics;
pub mod params;
pub mod smoother;

//! Verified core of an espresso-shot playback chart.
//!
//! A recorded shot arrives as decimal-string samples grouped by sensor
//! subsystem. The library parses those tokens into fixed-point numbers,
//! computes per-channel value ranges, maps time and value intervals onto
//! drawing coordinates, builds a drawable polyline truncated at the current
//! playback position, and drives that truncation from a pausable playback
//! clock.
//!
//! Every numeric sample is held in fixed point: an `i64` counting millionths
//! of the recorded unit (seconds, bars, degrees). Unparsed records keep their
//! recorded string tokens; JSON decoding itself is left to the host around
//! this library.

pub mod chart_data;
pub mod error;
pub mod path;
pub mod playback;
pub mod pressure_data;
pub mod range;
pub mod sample;
pub mod scale;
pub mod shot_data;

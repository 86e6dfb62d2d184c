//! Dual-stage resampling engine for a lo-fi downsampling effect.
//!
//! A stereo signal is resampled down to a user-selectable rate and back up
//! to the host's rate by two chained resampler stages. This crate holds the
//! decisions around those stages: which rate is actually used, which ratios
//! the two stages get, how large the buffer between them must be, and when
//! a change of the rate parameter has to be applied. The stages themselves
//! work on floating-point samples and are driven by the host shell, which
//! performs what the engine plans and reports back what the stages said.

pub mod engine;
pub mod error;
pub mod limits;
pub mod plan;
pub mod quantizer;
pub mod ratio;
pub mod scratch;
pub mod session;

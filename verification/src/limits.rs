//! Fixed limits of the effect.

use vstd::prelude::*;

verus! {

/// Highest host sample rate the effect supports, in Hz.
pub const MAX_SAMPLE_RATE: u32 = 192_000;

/// Slack above `MAX_SAMPLE_RATE` that the stages' ratio bound still covers, in Hz.
pub const SAMPLE_RATE_HEADROOM: u32 = 10_000;

/// Lowest target rate the rate parameter offers, in Hz.
pub const MIN_RESAMPLE_RATE: u32 = 250;

/// Highest target rate the rate parameter offers, in Hz.
pub const MAX_RESAMPLE_RATE: u32 = 30_000;

/// Target rate the rate parameter starts at, in Hz.
pub const DEFAULT_RESAMPLE_RATE: u32 = 10_000;

/// Bound of both stages' ratios: a stage built with ratio 1 accepts every
/// ratio from `1 / MAX_RESAMPLE_RATIO_RELATIVE` to `MAX_RESAMPLE_RATIO_RELATIVE`.
/// It is the widest host rate over the lowest target rate.
pub const MAX_RESAMPLE_RATIO_RELATIVE: u32 = (MAX_SAMPLE_RATE + SAMPLE_RATE_HEADROOM)
    / MIN_RESAMPLE_RATE;

/// Frames a stage works on per step.
pub const RESAMPLE_CHUNK_SIZE: usize = 128;

/// Channels of the signal: the effect is stereo only.
pub const CHANNELS: usize = 2;

/// The ratio bound is a whole number: the division that defines it leaves
/// no remainder.
pub proof fn lemma_ratio_bound_is_exact()
    ensures
        MAX_RESAMPLE_RATIO_RELATIVE == 808,
        MAX_RESAMPLE_RATIO_RELATIVE * MIN_RESAMPLE_RATE == MAX_SAMPLE_RATE + SAMPLE_RATE_HEADROOM,
{
}

} // verus!

//! Ratio configurator: the pair of ratios that the two stages are set to.
//!
//! A ratio is the output rate of a stage over its input rate. It is kept as
//! an exact fraction of two rates; the shell turns it into the number its
//! stage takes.

use crate::error::EngineError;
use crate::limits::MAX_RESAMPLE_RATIO_RELATIVE;
use vstd::prelude::*;

verus! {

/// Output rate over input rate of one stage.
#[derive(Clone, Copy, Debug, PartialEq, Eq, Structural)]
pub struct Ratio {
    /// Output rate.
    pub num: u64,
    /// Input rate.
    pub den: u64,
}

impl Ratio {
    /// The ratio is a positive number between `1 / bound` and `bound`.
    pub open spec fn within_bound(self, bound: int) -> bool {
        &&& self.num > 0
        &&& self.den > 0
        &&& self.den <= bound * self.num
        &&& self.num <= bound * self.den
    }

    /// The ratio of the opposite direction.
    pub open spec fn recip(self) -> Ratio {
        Ratio { num: self.den, den: self.num }
    }

    /// The product of the two ratios is exactly one.
    pub open spec fn cancels(self, other: Ratio) -> bool {
        self.num * other.num == self.den * other.den
    }

    /// Swaps input and output rate.
    pub fn reciprocal(self) -> (r: Ratio)
        ensures
            r == self.recip(),
    {
        Ratio { num: self.den, den: self.num }
    }

    /// Tests the ratio against a stage's bound.
    pub fn is_within(self, bound: u32) -> (ok: bool)
        ensures
            ok == self.within_bound(bound as int),
    {
        let num: u128 = self.num as u128;
        let den: u128 = self.den as u128;
        let bound: u128 = bound as u128;
        assert(bound * num <= 0x1_0000_0000 * 0x1_0000_0000_0000_0000) by (nonlinear_arith)
            requires
                bound < 0x1_0000_0000,
                num < 0x1_0000_0000_0000_0000,
        ;
        assert(bound * den <= 0x1_0000_0000 * 0x1_0000_0000_0000_0000) by (nonlinear_arith)
            requires
                bound < 0x1_0000_0000,
                den < 0x1_0000_0000_0000_0000,
        ;
        num > 0 && den > 0 && den <= bound * num && num <= bound * den
    }
}

/// A ratio within a bound cancels its reciprocal, which is within the same
/// bound.
pub proof fn lemma_reciprocal(r: Ratio, bound: int)
    ensures
        r.cancels(r.recip()),
        r.recip().recip() == r,
        r.within_bound(bound) == r.recip().within_bound(bound),
{
    assert(r.num * r.den == r.den * r.num) by (nonlinear_arith);
}

/// The ratios of the two stages: down from the host rate to the effective
/// rate, and back up.
#[derive(Clone, Copy, Debug, PartialEq, Eq, Structural)]
pub struct StageRatios {
    /// Ratio of the downsampling stage: effective rate over host rate.
    pub down: Ratio,
    /// Ratio of the upsampling stage: host rate over effective rate.
    pub up: Ratio,
}

/// The ratios for resampling to `resample_rate` and back at a host rate of
/// `sample_rate`, unless one of them is outside the stages' bound.
pub open spec fn stage_ratios(resample_rate: u64, sample_rate: u32) -> Result<
    StageRatios,
    EngineError,
> {
    let down = Ratio { num: resample_rate, den: sample_rate as u64 };
    let up = down.recip();
    if down.within_bound(MAX_RESAMPLE_RATIO_RELATIVE as int) && up.within_bound(
        MAX_RESAMPLE_RATIO_RELATIVE as int,
    ) {
        Ok(StageRatios { down, up })
    } else {
        Err(EngineError::ConfigurationError)
    }
}

/// Derives the forward and the inverse ratio for resampling to
/// `resample_rate` and back. The shell applies each to its stage, without
/// ramping.
pub fn update_resample_rate(resample_rate: u64, sample_rate: u32) -> (ratios: Result<
    StageRatios,
    EngineError,
>)
    ensures
        ratios == stage_ratios(resample_rate, sample_rate),
        ratios matches Ok(r) ==> r.down.cancels(r.up),
{
    let down = Ratio { num: resample_rate, den: sample_rate as u64 };
    let up = down.reciprocal();
    proof {
        lemma_reciprocal(down, MAX_RESAMPLE_RATIO_RELATIVE as int);
    }
    if down.is_within(MAX_RESAMPLE_RATIO_RELATIVE) && up.is_within(MAX_RESAMPLE_RATIO_RELATIVE) {
        Ok(StageRatios { down, up })
    } else {
        Err(EngineError::ConfigurationError)
    }
}

} // verus!

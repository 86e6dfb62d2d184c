//! Planning of a reconfiguration: the rate quantizer and the ratio
//! configurator in sequence.

use crate::error::EngineError;
use crate::limits::{
    lemma_ratio_bound_is_exact, MAX_RESAMPLE_RATE, MAX_RESAMPLE_RATIO_RELATIVE, MAX_SAMPLE_RATE,
    MIN_RESAMPLE_RATE, SAMPLE_RATE_HEADROOM,
};
use crate::quantizer::{
    effective_rate, find_resample_rate, is_effective_rate, lemma_effective_rate_exists,
};
use crate::ratio::{lemma_reciprocal, stage_ratios, update_resample_rate, Ratio, StageRatios};
use vstd::prelude::*;

verus! {

/// What the shell has to apply to its stages.
#[derive(Clone, Copy, Debug, PartialEq, Eq, Structural)]
pub struct Reconfiguration {
    /// The target rate that asked for this configuration.
    pub target: u32,
    /// The block-aligned rate that the signal is actually resampled to.
    pub effective_rate: u64,
    /// The ratios to set, each on its stage and without ramping.
    pub ratios: StageRatios,
    /// Whether both stages clear their history before the ratios are set.
    pub clear_history: bool,
}

/// The configuration for `target` at a host rate of `sample_rate`.
pub open spec fn plan_for(target: u32, sample_rate: u32, clear_history: bool) -> Result<
    Reconfiguration,
    EngineError,
> {
    if sample_rate == 0 {
        Err(EngineError::SearchNonTermination)
    } else {
        let rate = effective_rate(target as int, sample_rate as int) as u64;
        match stage_ratios(rate, sample_rate) {
            Ok(ratios) => Ok(Reconfiguration { target, effective_rate: rate, ratios, clear_history }),
            Err(e) => Err(e),
        }
    }
}

/// Quantizes `target` and derives the stage ratios for it.
pub fn plan_reconfiguration(target: u32, sample_rate: u32, clear_history: bool) -> (plan: Result<
    Reconfiguration,
    EngineError,
>)
    ensures
        plan == plan_for(target, sample_rate, clear_history),
        plan == Err::<Reconfiguration, EngineError>(EngineError::SearchNonTermination)
            <==> sample_rate == 0,
{
    if sample_rate == 0 {
        return Err(EngineError::SearchNonTermination);
    }
    let rate = find_resample_rate(target, sample_rate);
    match update_resample_rate(rate, sample_rate) {
        Ok(ratios) => Ok(Reconfiguration { target, effective_rate: rate, ratios, clear_history }),
        Err(e) => Err(e),
    }
}

/// A configuration that is planned resamples to the effective rate of its
/// target, and its two ratios are that rate over the host rate and the
/// reverse, so that their product is exactly one.
pub proof fn lemma_plan_is_consistent(target: u32, sample_rate: u32, clear_history: bool)
    ensures
        plan_for(target, sample_rate, clear_history) matches Ok(plan) ==> {
            &&& plan.target == target
            &&& plan.clear_history == clear_history
            &&& is_effective_rate(plan.effective_rate as int, target as int, sample_rate as int)
            &&& plan.ratios.down == (Ratio { num: plan.effective_rate, den: sample_rate as u64 })
            &&& plan.ratios.up == plan.ratios.down.recip()
            &&& plan.ratios.down.cancels(plan.ratios.up)
            &&& plan.ratios.down.within_bound(MAX_RESAMPLE_RATIO_RELATIVE as int)
            &&& plan.ratios.up.within_bound(MAX_RESAMPLE_RATIO_RELATIVE as int)
        },
{
    if sample_rate > 0 {
        lemma_effective_rate_exists(target as int, sample_rate as int);
        let rate = effective_rate(target as int, sample_rate as int) as u64;
        lemma_reciprocal(
            Ratio { num: rate, den: sample_rate as u64 },
            MAX_RESAMPLE_RATIO_RELATIVE as int,
        );
    }
}

/// Host rates at which the ratio bound admits every target rate of the
/// parameter range: not above the highest supported rate and its headroom,
/// and not so low that the rate above the highest target exceeds the bound.
/// These are the rates from 38 Hz to 202 kHz.
pub open spec fn configurable_sample_rate(sample_rate: u32) -> bool {
    &&& MAX_RESAMPLE_RATE + sample_rate <= MAX_RESAMPLE_RATIO_RELATIVE * sample_rate
    &&& sample_rate <= MAX_SAMPLE_RATE + SAMPLE_RATE_HEADROOM
}

/// At a configurable host rate every target rate of the parameter range,
/// its two ends included, is planned without an error.
pub proof fn lemma_parameter_range_configures(target: u32, sample_rate: u32, clear_history: bool)
    requires
        MIN_RESAMPLE_RATE <= target <= MAX_RESAMPLE_RATE,
        configurable_sample_rate(sample_rate),
    ensures
        plan_for(target, sample_rate, clear_history) is Ok,
{
    lemma_ratio_bound_is_exact();
    lemma_effective_rate_exists(target as int, sample_rate as int);
}

/// The configurable host rates are those from 38 Hz to 202 kHz, among them
/// every rate up to the highest supported one.
pub proof fn lemma_configurable_sample_rates(sample_rate: u32)
    ensures
        configurable_sample_rate(sample_rate) <==> 38 <= sample_rate <= 202_000,
        38 <= sample_rate <= MAX_SAMPLE_RATE ==> configurable_sample_rate(sample_rate),
{
    lemma_ratio_bound_is_exact();
}

} // verus!

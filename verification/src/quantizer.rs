//! Rate quantizer: the nearest rate at or above a target that fixed-size
//! blocks can be resampled to.

use crate::limits::RESAMPLE_CHUNK_SIZE;
use vstd::arithmetic::div_mod::{lemma_fundamental_div_mod, lemma_mod_multiples_basic};
use vstd::prelude::*;

verus! {

/// A rate is block aligned when one chunk of frames at that rate, counted
/// in host-rate units, comes out whole: `CHUNK * rate` is a multiple of the
/// host rate. No rate is aligned to a host rate of zero.
pub open spec fn block_aligned(rate: int, host_rate: int) -> bool {
    host_rate > 0 && (RESAMPLE_CHUNK_SIZE as int * rate) % host_rate == 0
}

/// `rate` is the effective rate of `target`: the smallest block-aligned
/// rate that is not below the target.
pub open spec fn is_effective_rate(rate: int, target: int, host_rate: int) -> bool {
    &&& target <= rate
    &&& block_aligned(rate, host_rate)
    &&& forall|r: int| target <= r < rate ==> !#[trigger] block_aligned(r, host_rate)
}

/// The effective rate of `target` at `host_rate`. Meaningful for a positive
/// host rate, see `lemma_effective_rate_exists`.
pub open spec fn effective_rate(target: int, host_rate: int) -> int {
    choose|rate: int| is_effective_rate(rate, target, host_rate)
}

/// The first multiple of the host rate at or above `target`.
pub open spec fn next_host_multiple(target: int, host_rate: int) -> int {
    if target % host_rate == 0 {
        target
    } else {
        target - target % host_rate + host_rate
    }
}

/// Every multiple of the host rate is block aligned, and one of them lies
/// less than a host rate above any target. This is what bounds the search.
pub proof fn lemma_next_host_multiple(target: int, host_rate: int)
    requires
        host_rate > 0,
    ensures
        target <= next_host_multiple(target, host_rate) < target + host_rate,
        block_aligned(next_host_multiple(target, host_rate), host_rate),
{
    let bound = next_host_multiple(target, host_rate);
    let q = target / host_rate;
    lemma_fundamental_div_mod(target, host_rate);
    let k = if target % host_rate == 0 { q } else { q + 1 };
    assert(bound == host_rate * k) by (nonlinear_arith)
        requires
            target == host_rate * q + target % host_rate,
            bound == if target % host_rate == 0 { target } else { target - target % host_rate + host_rate },
            k == if target % host_rate == 0 { q } else { q + 1 },
    ;
    assert(RESAMPLE_CHUNK_SIZE as int * bound == (RESAMPLE_CHUNK_SIZE as int * k) * host_rate)
        by (nonlinear_arith)
        requires
            bound == host_rate * k,
    ;
    lemma_mod_multiples_basic(RESAMPLE_CHUNK_SIZE as int * k, host_rate);
}

/// At most one rate is the effective rate of a target.
pub proof fn lemma_effective_rate_unique(a: int, b: int, target: int, host_rate: int)
    requires
        is_effective_rate(a, target, host_rate),
        is_effective_rate(b, target, host_rate),
    ensures
        a == b,
{
    if a < b {
        assert(!block_aligned(a, host_rate));
    } else if b < a {
        assert(!block_aligned(b, host_rate));
    }
}

/// The least block-aligned rate from `from` on, given that none lies in
/// `target..from` and that `bound` is aligned.
proof fn lemma_least_aligned(target: int, host_rate: int, from: int, bound: int) -> (rate: int)
    requires
        target <= from <= bound,
        block_aligned(bound, host_rate),
        forall|r: int| target <= r < from ==> !#[trigger] block_aligned(r, host_rate),
    ensures
        is_effective_rate(rate, target, host_rate),
        rate <= bound,
    decreases bound - from,
{
    if block_aligned(from, host_rate) {
        from
    } else {
        lemma_least_aligned(target, host_rate, from + 1, bound)
    }
}

/// For a positive host rate every target has an effective rate, and it
/// lies less than one host rate above the target.
pub proof fn lemma_effective_rate_exists(target: int, host_rate: int)
    requires
        host_rate > 0,
    ensures
        is_effective_rate(effective_rate(target, host_rate), target, host_rate),
        target <= effective_rate(target, host_rate) < target + host_rate,
{
    lemma_next_host_multiple(target, host_rate);
    let rate = lemma_least_aligned(
        target,
        host_rate,
        target,
        next_host_multiple(target, host_rate),
    );
}

/// A search upwards from a target ends if and only if the host rate is
/// positive.
pub proof fn lemma_search_ends_iff_host_rate_positive(target: int, host_rate: int)
    ensures
        (exists|rate: int| is_effective_rate(rate, target, host_rate)) <==> host_rate > 0,
{
    if host_rate > 0 {
        lemma_effective_rate_exists(target, host_rate);
    }
}

/// A target that is block aligned already is its own effective rate.
pub proof fn lemma_aligned_target_is_kept(target: int, host_rate: int)
    requires
        block_aligned(target, host_rate),
    ensures
        effective_rate(target, host_rate) == target,
{
    assert(is_effective_rate(target, target, host_rate));
    lemma_effective_rate_unique(effective_rate(target, host_rate), target, target, host_rate);
}

/// Searches upwards from `resample_rate`, one Hz at a time, for the first
/// rate that is block aligned to `sample_rate`.
pub fn find_resample_rate(resample_rate: u32, sample_rate: u32) -> (rate: u64)
    requires
        sample_rate > 0,
    ensures
        is_effective_rate(rate as int, resample_rate as int, sample_rate as int),
        rate == effective_rate(resample_rate as int, sample_rate as int),
        resample_rate <= rate < resample_rate + sample_rate,
{
    let host: u64 = sample_rate as u64;
    let chunk: u64 = RESAMPLE_CHUNK_SIZE as u64;
    let ghost bound = next_host_multiple(resample_rate as int, sample_rate as int);
    proof {
        lemma_next_host_multiple(resample_rate as int, sample_rate as int);
    }
    let mut rate: u64 = resample_rate as u64;
    while (chunk * rate) % host != 0
        invariant
            host == sample_rate,
            host > 0,
            chunk == RESAMPLE_CHUNK_SIZE,
            resample_rate <= rate <= bound,
            bound < resample_rate + sample_rate,
            block_aligned(bound, host as int),
            forall|r: int| resample_rate <= r < rate ==> !#[trigger] block_aligned(r, host as int),
        decreases bound - rate,
    {
        rate = rate + 1;
    }
    proof {
        lemma_effective_rate_exists(resample_rate as int, sample_rate as int);
        lemma_effective_rate_unique(
            rate as int,
            effective_rate(resample_rate as int, sample_rate as int),
            resample_rate as int,
            sample_rate as int,
        );
    }
    rate
}

} // verus!

use vstd::prelude::*;
use crate::taus88::{Taus88, TausState};
use rand::Rng;

verus! {

/// What `random_ratio(numerator, denominator)` returns when drawn from a
/// generator in state `s`, with the state it leaves behind.
pub uninterp spec fn ratio_outcome(s: TausState, numerator: u32, denominator: u32) -> (
    bool,
    TausState,
);

/// What `random_range(lo..=hi)` over `i32` returns when drawn from a
/// generator in state `s`, with the state it leaves behind.
pub uninterp spec fn range_outcome(s: TausState, lo: i32, hi: i32) -> (i32, TausState);

/// Relies on rand's `Rng::random_ratio`: `true` with chance
/// `numerator / denominator`, always `false` for a numerator of 0, always
/// `true` when numerator and denominator are equal; it panics on a zero
/// denominator or a numerator above it.
#[verifier::external_body]
pub(crate) fn random_ratio(rng: &mut Taus88, numerator: u32, denominator: u32) -> (r: bool)
    requires
        denominator > 0,
        numerator <= denominator,
    ensures
        (r, final(rng)@) == ratio_outcome(old(rng)@, numerator, denominator),
        numerator == 0 ==> !r,
        numerator == denominator ==> r,
{
    rng.random_ratio(numerator, denominator)
}

/// Relies on rand's `Rng::random_range` over an inclusive `i32` range: a
/// value inside the range; it panics on an empty range.
#[verifier::external_body]
pub(crate) fn random_range(rng: &mut Taus88, lo: i32, hi: i32) -> (r: i32)
    requires
        lo <= hi,
    ensures
        (r, final(rng)@) == range_outcome(old(rng)@, lo, hi),
        lo <= r <= hi,
{
    rng.random_range(lo..=hi)
}

} // verus!

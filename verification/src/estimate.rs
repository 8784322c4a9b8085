//! The integer boundary of the estimation pipeline: its error taxonomy, the
//! sample-count rule, and the seed-resolution policy.
//!
//! The floating-point stages of the pipeline (parameter fitting, variate
//! generation, regression) report their failures through the error type
//! defined here and obtain their generation seed through [`resolve_seed`].

use crate::rng::lcg_step;
use crate::rng::LcgRng;
use vstd::prelude::*;

verus! {

/// The failures the estimation pipeline can report. Callers receive either a
/// finite offset or one of these; never a partially computed result.
#[derive(Clone, Copy, Debug, PartialEq, Eq, Structural)]
pub enum EstimateError {
    /// Fewer than two samples were supplied; sample variance and the
    /// regression denominator are undefined.
    InsufficientSamples,
    /// The sample mean is zero, so the Gamma shape and scale are undefined.
    DegenerateDistribution,
    /// The regression slope is zero; the offset would be infinite.
    DegenerateRegression,
    /// A non-finite value is present in the input, which has no defined
    /// order under sorting.
    InvalidSample,
}

/// The seed used when the caller supplies none: one draw of a generator
/// seeded with zero. This is the fixed, reproducible policy.
pub open spec fn default_seed() -> u64 {
    lcg_step(0)
}

/// Resolve the generation seed: the caller-supplied seed when present,
/// otherwise the fixed generator-derived fallback.
pub fn resolve_seed(seed: Option<u64>) -> (r: u64)
    ensures
        seed is Some ==> r == seed->0,
        seed is None ==> r == default_seed(),
{
    let mut rng = LcgRng::new(0);
    let fallback = rng.next_u64();
    match seed {
        Some(s) => s,
        None => fallback,
    }
}

/// The sample-count rule of the pipeline: sample variance (with Bessel's
/// correction) and the rank regression both need at least two samples.
pub fn check_sample_count(n: usize) -> (r: Result<(), EstimateError>)
    ensures
        n >= 2 ==> r == Ok::<(), EstimateError>(()),
        n < 2 ==> r == Err::<(), EstimateError>(EstimateError::InsufficientSamples),
{
    if n >= 2 {
        Ok(())
    } else {
        Err(EstimateError::InsufficientSamples)
    }
}

} // verus!

//! The hypergeometric distribution, evaluated by statrs.
//!
//! A distribution is identified by its parameters (population, successes,
//! draws); statrs validates `successes <= population` and
//! `draws <= population` and otherwise refuses construction, so the trusted
//! wrappers here require exactly that and never fail.  The probability a
//! call returns is carried as the bit pattern of an IEEE double (see the
//! `bits` module) and named by an uninterpreted spec function of the
//! parameters and the evaluation point.

use vstd::prelude::*;

use statrs::distribution::{Discrete, DiscreteCDF, Hypergeometric};

verus! {

/// The bit pattern of the probability mass `P(X = x)` that statrs's
/// `Hypergeometric::pmf` computes for parameters
/// (population, successes, draws).
pub uninterp spec fn pmf_bits(population: u64, successes: u64, draws: u64, x: u64) -> u64;

/// The bit pattern of the cumulative probability `P(X <= x)` that statrs's
/// `Hypergeometric::cdf` computes for parameters
/// (population, successes, draws).
pub uninterp spec fn cdf_bits(population: u64, successes: u64, draws: u64, x: u64) -> u64;

/// Relies on statrs's `Hypergeometric::new` and `Discrete::pmf`: `new`
/// succeeds whenever `successes <= population && draws <= population`, and
/// `pmf` is a pure function of the three parameters and `x` that returns
/// exactly 0.0 (bit pattern 0) for `x` above `draws`.
#[verifier::external_body]
pub(crate) fn hyp_pmf(population: u64, successes: u64, draws: u64, x: u64) -> (r: u64)
    requires
        successes <= population,
        draws <= population,
    ensures
        r == pmf_bits(population, successes, draws, x),
        x > draws ==> r == 0,
{
    Hypergeometric::new(population, successes, draws).unwrap().pmf(x).to_bits()
}

/// Relies on statrs's `Hypergeometric::new` and `DiscreteCDF::cdf`: `new`
/// succeeds whenever `successes <= population && draws <= population`, and
/// `cdf` is a pure function of the three parameters and `x` that returns
/// exactly 1.0 for `x` at or above `min(successes, draws)`, the top of the
/// distribution's support.  `cdf` locates the support's bottom by adding
/// `draws + successes` unchecked, so that sum must stay within `u64` or
/// the call would overflow instead of returning.
#[verifier::external_body]
pub(crate) fn hyp_cdf(population: u64, successes: u64, draws: u64, x: u64) -> (r: u64)
    requires
        successes <= population,
        draws <= population,
        successes + draws <= u64::MAX,
    ensures
        r == cdf_bits(population, successes, draws, x),
        x >= successes || x >= draws ==> r == crate::bits::BITS_ONE,
{
    Hypergeometric::new(population, successes, draws).unwrap().cdf(x).to_bits()
}

} // verus!

//! Fisher's exact test on 2x2 contingency tables.
//!
//! The crate computes one-sided and two-sided p-values for batches of 2x2
//! tables of non-negative counts, following the minimum-likelihood
//! convention for the two-sided test: all outcomes whose probability does
//! not exceed that of the observed table, located by a binary search from
//! the distribution's mode.  Probabilities are IEEE doubles carried as
//! their 64-bit patterns (Verus has no model of floating point); the
//! hypergeometric distribution itself is evaluated by statrs, and the
//! double arithmetic by rustc_apfloat, both behind trusted wrappers.

pub mod batch;
pub mod bits;
pub mod dist;
pub mod engine;
pub mod search;
pub mod table;

pub use batch::exact;
pub use batch::exact_cached;
pub use batch::exact_with_odds_ratios;
pub use batch::PValueCache;
pub use engine::fishers_exact;
pub use engine::fishers_exact_with_odds_ratio;
pub use table::Alternative;
pub use table::FisherError;

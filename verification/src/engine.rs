//! The exact-test engine: one table, one alternative, one p-value.
//!
//! The p-value of a table [[a, b], [c, d]] is defined over the
//! hypergeometric null distribution of its marginals.  A table with a
//! vanished row or column short-circuits to 1.0.  The one-sided tests are
//! plain tail sums; the two-sided test follows the minimum-likelihood
//! convention: sum the observed tail, then add the mass of the opposite
//! tail beyond the boundary that the tail locator finds, unless the
//! observed table sits at the mode (p-value 1.0) or the opposite tail's
//! extreme outcome is already too probable to matter.
//!
//! Every returned p-value is the bit pattern of a double in [0, 1]: the
//! final clamp guarantees the invariant whatever the arithmetic produced.

use vstd::prelude::*;

use crate::bits::{add_bits, div_bits, le_bits, lt_bits, sub_bits};
use crate::bits::{abs_bits, clamp01_bits, max_bits};
use crate::bits::{clamp01, f_abs, f_add, f_div, f_le, f_lt, f_max, f_sub};
use crate::bits::{BITS_EPSILON, BITS_INF, BITS_MODE_TOL, BITS_NAN, BITS_ONE};
use crate::bits::double_of_u64;
use crate::bits::f_from_u64;
use crate::dist::{cdf_bits, hyp_cdf, hyp_pmf, pmf_bits};
use crate::search::{binary_search, binary_search_bits};
use crate::table::{degenerate, mode_value, valid_table, Alternative, FisherError};

verus! {

/// The two-sided p-value before the final clamp, for the null distribution
/// (population, successes, draws), observed count `a` and mode index
/// `mode`.
pub open spec fn two_sided_bits(
    population: u64,
    successes: u64,
    draws: u64,
    a: u64,
    mode: u64,
) -> u64 {
    let p_exact = pmf_bits(population, successes, draws, a);
    let p_mode = pmf_bits(population, successes, draws, mode);
    let ratio = div_bits(abs_bits(sub_bits(p_exact, p_mode)), max_bits(p_exact, p_mode));
    if le_bits(ratio, BITS_MODE_TOL) {
        BITS_ONE
    } else if a < mode {
        let p_lower = cdf_bits(population, successes, draws, a);
        if lt_bits(div_bits(p_exact, BITS_EPSILON), pmf_bits(population, successes, draws, draws)) {
            p_lower
        } else {
            let g = binary_search_bits(population, successes, draws, mode, p_exact, BITS_EPSILON, true);
            let gm1 = if g == 0 {
                u64::MAX
            } else {
                ((g - 1) as u64)
            };
            sub_bits(add_bits(p_lower, BITS_ONE), cdf_bits(population, successes, draws, gm1))
        }
    } else {
        let am1 = if a == 0 {
            u64::MAX
        } else {
            ((a - 1) as u64)
        };
        let p_upper = sub_bits(BITS_ONE, cdf_bits(population, successes, draws, am1));
        if lt_bits(div_bits(p_exact, BITS_EPSILON), pmf_bits(population, successes, draws, 0)) {
            p_upper
        } else {
            let g = binary_search_bits(population, successes, draws, mode, p_exact, BITS_EPSILON, false);
            add_bits(p_upper, cdf_bits(population, successes, draws, g))
        }
    }
}

/// The p-value of the table [[a, b], [c, d]] under `alt`, as the bit
/// pattern of a double in [0, 1].  Meaningful whenever the four counts sum
/// within `u64`.
pub open spec fn p_value_bits(a: u64, b: u64, c: u64, d: u64, alt: Alternative) -> u64 {
    if degenerate(a, b, c, d) {
        BITS_ONE
    } else {
        let n1 = ((a + b) as u64);
        let n2 = ((c + d) as u64);
        let population = ((n1 + n2) as u64);
        match alt {
            Alternative::Less => clamp01_bits(cdf_bits(population, n1, ((a + c) as u64), a)),
            Alternative::Greater => clamp01_bits(cdf_bits(population, n1, ((b + d) as u64), b)),
            Alternative::TwoSided => {
                let draws = ((a + c) as u64);
                let mode = (mode_value(draws, n1, n2) as u64);
                clamp01_bits(two_sided_bits(population, n1, draws, a, mode))
            },
        }
    }
}

/// The odds ratio of the table [[a, b], [c, d]]: NaN for a degenerate
/// table, +infinity when the denominator's counts vanish while the table
/// does not, and otherwise the double quotient (a*d) / (b*c).
pub open spec fn odds_ratio_bits(a: u64, b: u64, c: u64, d: u64) -> u64 {
    if degenerate(a, b, c, d) {
        BITS_NAN
    } else if b > 0 && c > 0 {
        div_bits(double_of_u64(((a * d) as u64)), double_of_u64(((b * c) as u64)))
    } else {
        BITS_INF
    }
}

/// Every p-value the engine defines lies in [0, 1]: a degenerate table
/// gives exactly 1.0, and every other case ends in the clamp.
pub proof fn lemma_p_value_in_unit(a: u64, b: u64, c: u64, d: u64, alt: Alternative)
    ensures
        p_value_bits(a, b, c, d, alt) <= BITS_ONE,
{
}

/// A table with a vanished row or column has the p-value exactly 1.0,
/// whichever alternative is asked for.
pub proof fn lemma_degenerate_p_value(a: u64, b: u64, c: u64, d: u64, alt: Alternative)
    requires
        degenerate(a, b, c, d),
    ensures
        p_value_bits(a, b, c, d, alt) == BITS_ONE,
{
}

/// Swapping the table's rows while swapping Less and Greater preserves the
/// p-value of a degenerate table exactly: a vanished row or column stays
/// vanished under the swap, and both sides are then exactly 1.0.  For
/// non-degenerate tables the same symmetry holds only up to the rounding
/// of the two tail summations, which the spec of `cdf_bits` does not pin;
/// that part is exercised by the tests.
pub proof fn lemma_transpose_degenerate(a: u64, b: u64, c: u64, d: u64)
    requires
        degenerate(a, b, c, d),
    ensures
        p_value_bits(a, b, c, d, Alternative::Less) == p_value_bits(
            c,
            d,
            a,
            b,
            Alternative::Greater,
        ),
        p_value_bits(a, b, c, d, Alternative::Greater) == p_value_bits(
            c,
            d,
            a,
            b,
            Alternative::Less,
        ),
{
}

/// The odds ratio of a table with a vanished row or column is NaN, and of
/// any other table is never NaN: a quotient of finite non-negative doubles
/// or +infinity.  Only the degenerate half is provable here; the spec of
/// `div_bits` does not pin the quotient's class, so the other half lives
/// in the tests.
pub proof fn lemma_degenerate_odds_ratio(a: u64, b: u64, c: u64, d: u64)
    requires
        degenerate(a, b, c, d),
    ensures
        odds_ratio_bits(a, b, c, d) == BITS_NAN,
{
}

/// The two-sided part of the exact test, after the degenerate
/// short-circuit and the marginal computation.
fn two_sided(population: u64, successes: u64, draws: u64, a: u64, mode: u64) -> (r: u64)
    requires
        successes <= population,
        draws <= population,
        successes + draws <= u64::MAX,
        draws < u64::MAX,
        mode <= draws,
    ensures
        r == two_sided_bits(population, successes, draws, a, mode),
{
    let p_exact = hyp_pmf(population, successes, draws, a);
    let p_mode = hyp_pmf(population, successes, draws, mode);
    let diff = f_abs(f_sub(p_exact, p_mode));
    let ratio = f_div(diff, f_max(p_exact, p_mode));
    if f_le(ratio, BITS_MODE_TOL) {
        return BITS_ONE;
    }
    if a < mode {
        let p_lower = hyp_cdf(population, successes, draws, a);
        let pe_div = f_div(p_exact, BITS_EPSILON);
        let pmf_top = hyp_pmf(population, successes, draws, draws);
        if f_lt(pe_div, pmf_top) {
            return p_lower;
        }
        let guess = binary_search(population, successes, draws, mode, p_exact, BITS_EPSILON, true);
        let tail = hyp_cdf(population, successes, draws, guess.wrapping_sub(1));
        f_sub(f_add(p_lower, BITS_ONE), tail)
    } else {
        let p_upper = f_sub(
            BITS_ONE,
            hyp_cdf(population, successes, draws, a.wrapping_sub(1)),
        );
        let pe_div = f_div(p_exact, BITS_EPSILON);
        let pmf_bottom = hyp_pmf(population, successes, draws, 0);
        if f_lt(pe_div, pmf_bottom) {
            return p_upper;
        }
        let guess = binary_search(population, successes, draws, mode, p_exact, BITS_EPSILON, false);
        let tail = hyp_cdf(population, successes, draws, guess);
        f_add(p_upper, tail)
    }
}

/// Performs a Fisher exact test on a 2x2 contingency table given as
/// [a, b, c, d], returning the p-value under `alternative` as the bit
/// pattern of a double in [0, 1].
pub fn fishers_exact(table: &[u64; 4], alternative: Alternative) -> (r: Result<u64, FisherError>)
    requires
        valid_table(table@[0], table@[1], table@[2], table@[3]),
    ensures
        r matches Ok(p) && p == p_value_bits(
            table@[0],
            table@[1],
            table@[2],
            table@[3],
            alternative,
        ) && p <= BITS_ONE,
{
    let a = table[0];
    let b = table[1];
    let c = table[2];
    let d = table[3];

    proof {
        lemma_p_value_in_unit(a, b, c, d, alternative);
    }

    // A vanished row or column carries no information against
    // independence: the p-value is exactly 1.
    if (a == 0 && c == 0) || (b == 0 && d == 0) {
        return Ok(BITS_ONE);
    }

    let n1 = a + b;
    let n2 = c + d;
    let population = n1 + n2;

    let p_value = match alternative {
        Alternative::Less => {
            let draws = a + c;
            if n1 > population || draws > population {
                return Err(FisherError::InvalidParameters);
            }
            hyp_cdf(population, n1, draws, a)
        },
        Alternative::Greater => {
            let draws = b + d;
            if n1 > population || draws > population {
                return Err(FisherError::InvalidParameters);
            }
            hyp_cdf(population, n1, draws, b)
        },
        Alternative::TwoSided => {
            let draws = a + c;
            if n1 > population || draws > population {
                return Err(FisherError::InvalidParameters);
            }
            let mode = crate::table::mode_index(draws, n1, n2);
            two_sided(population, n1, draws, a, mode)
        },
    };

    Ok(clamp01(p_value))
}

/// Performs a Fisher exact test on a 2x2 contingency table given as
/// [a, b, c, d], returning the odds ratio and the p-value under
/// `alternative`, both as bit patterns of doubles.
pub fn fishers_exact_with_odds_ratio(
    table: &[u64; 4],
    alternative: Alternative,
) -> (r: Result<(u64, u64), FisherError>)
    requires
        valid_table(table@[0], table@[1], table@[2], table@[3]),
        table@[1] > 0 && table@[2] > 0 ==> table@[0] * table@[3] <= u64::MAX && table@[1]
            * table@[2] <= u64::MAX,
    ensures
        r matches Ok(pair) && pair.0 == odds_ratio_bits(
            table@[0],
            table@[1],
            table@[2],
            table@[3],
        ) && pair.1 == p_value_bits(table@[0], table@[1], table@[2], table@[3], alternative)
            && pair.1 <= BITS_ONE,
{
    let a = table[0];
    let b = table[1];
    let c = table[2];
    let d = table[3];

    // A vanished row or column: the p-value is 1 and the odds ratio is
    // undefined.
    if (a == 0 && c == 0) || (b == 0 && d == 0) {
        return Ok((BITS_NAN, BITS_ONE));
    }

    let odds_ratio = if b > 0 && c > 0 {
        f_div(f_from_u64(a * d), f_from_u64(b * c))
    } else {
        BITS_INF
    };

    let p_value = match fishers_exact(table, alternative) {
        Ok(p) => p,
        Err(e) => {
            return Err(e);
        },
    };
    Ok((odds_ratio, p_value))
}

} // verus!

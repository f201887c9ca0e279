//! The tail locator of the two-sided test.
//!
//! Given the null distribution, its mode, and the probability `p_exact` of
//! the observed table, the locator finds the index where the opposite
//! tail's probability mass crosses from above `p_exact` to at or below it.
//! A binary search brackets the crossing between the mode and the tail
//! extreme; two correction passes then step the boundary by one while its
//! probability lies outside the tolerance band
//! [p_exact * epsilon, p_exact / epsilon], compensating for the coarse
//! search stopping one step early or late.
//!
//! The spec functions below mirror the executable search exactly, so the
//! result is pinned down as a function of the distribution parameters, the
//! bracket, `p_exact` and `epsilon` alone.

use vstd::prelude::*;

use crate::bits::{div_bits, le_bits, lt_bits, mul_bits};
use crate::bits::{f_div, f_le, f_lt, f_mul};
use crate::dist::{hyp_pmf, pmf_bits};

verus! {

/// The bracket-narrowing phase: from the state (min_val, max_val, guess),
/// stop when the bracket has width at most one (falling back to the lower
/// bound while `guess` is still zero), or when the probabilities at the
/// midpoint and its inward neighbour straddle `p_exact`; otherwise shrink
/// the bracket toward the side still above `p_exact`.
pub open spec fn coarse_search(
    population: u64,
    successes: u64,
    draws: u64,
    p_exact: u64,
    upper: bool,
    min_val: u64,
    max_val: u64,
    guess: u64,
) -> u64
    decreases max_val - min_val,
{
    if max_val - min_val <= 1 {
        if guess == 0 {
            min_val
        } else {
            guess
        }
    } else {
        let g = ((min_val + (max_val - min_val) / 2) as u64);
        let ng = if upper {
            ((g - 1) as u64)
        } else {
            ((g + 1) as u64)
        };
        let p_guess = pmf_bits(population, successes, draws, g);
        let p_comp = pmf_bits(population, successes, draws, ng);
        if le_bits(p_guess, p_exact) && lt_bits(p_exact, p_comp) {
            g
        } else if lt_bits(p_guess, p_exact) {
            coarse_search(population, successes, draws, p_exact, upper, min_val, g, g)
        } else {
            coarse_search(population, successes, draws, p_exact, upper, g, max_val, g)
        }
    }
}

/// Step the boundary down while its probability falls below the tolerance
/// band's floor `pe_eps` (the bit pattern of p_exact * epsilon).
pub open spec fn step_down_while_light(
    population: u64,
    successes: u64,
    draws: u64,
    pe_eps: u64,
    g: u64,
) -> u64
    decreases g,
{
    if g > 0 && lt_bits(pmf_bits(population, successes, draws, g), pe_eps) {
        step_down_while_light(population, successes, draws, pe_eps, (g - 1) as u64)
    } else {
        g
    }
}

/// Step the boundary up while its probability exceeds the tolerance band's
/// ceiling `pe_div` (the bit pattern of p_exact / epsilon).  Beyond `draws`
/// the probability mass is exactly zero and the walk has always stopped.
pub open spec fn step_up_while_heavy(
    population: u64,
    successes: u64,
    draws: u64,
    pe_div: u64,
    g: u64,
) -> u64
    decreases draws + 1 - g,
{
    if g <= draws && g < u64::MAX && lt_bits(pe_div, pmf_bits(population, successes, draws, g)) {
        step_up_while_heavy(population, successes, draws, pe_div, (g + 1) as u64)
    } else {
        g
    }
}

/// Step the boundary up while its probability falls below the tolerance
/// band's floor `pe_eps`.  Beyond `draws` the probability mass is exactly
/// zero; the walk stops there, as the monotone mass makes any further
/// step meaningless.
pub open spec fn step_up_while_light(
    population: u64,
    successes: u64,
    draws: u64,
    pe_eps: u64,
    g: u64,
) -> u64
    decreases draws + 1 - g,
{
    if g <= draws && g < u64::MAX && lt_bits(pmf_bits(population, successes, draws, g), pe_eps) {
        step_up_while_light(population, successes, draws, pe_eps, (g + 1) as u64)
    } else {
        g
    }
}

/// Step the boundary down while its probability exceeds the tolerance
/// band's ceiling `pe_div`.
pub open spec fn step_down_while_heavy(
    population: u64,
    successes: u64,
    draws: u64,
    pe_div: u64,
    g: u64,
) -> u64
    decreases g,
{
    if g > 0 && lt_bits(pe_div, pmf_bits(population, successes, draws, g)) {
        step_down_while_heavy(population, successes, draws, pe_div, (g - 1) as u64)
    } else {
        g
    }
}

/// The boundary index the whole tail search returns: the coarse bracket
/// phase followed by the two correction passes of the chosen direction.
pub open spec fn binary_search_bits(
    population: u64,
    successes: u64,
    draws: u64,
    mode: u64,
    p_exact: u64,
    epsilon: u64,
    upper: bool,
) -> u64 {
    let min0 = if upper {
        mode
    } else {
        0
    };
    let max0 = if upper {
        draws
    } else {
        mode
    };
    let g0 = coarse_search(population, successes, draws, p_exact, upper, min0, max0, 0);
    let pe_eps = mul_bits(p_exact, epsilon);
    let pe_div = div_bits(p_exact, epsilon);
    if upper {
        step_up_while_heavy(
            population,
            successes,
            draws,
            pe_div,
            step_down_while_light(population, successes, draws, pe_eps, g0),
        )
    } else {
        step_down_while_heavy(
            population,
            successes,
            draws,
            pe_div,
            step_up_while_light(population, successes, draws, pe_eps, g0),
        )
    }
}

/// Binary search for the opposite tail's boundary in the two-sided test,
/// bracketed between the mode and the tail extreme given by `upper`.
pub fn binary_search(
    population: u64,
    successes: u64,
    draws: u64,
    mode: u64,
    p_exact: u64,
    epsilon: u64,
    upper: bool,
) -> (guess: u64)
    requires
        successes <= population,
        draws <= population,
        draws < u64::MAX,
        mode <= draws,
        upper ==> mode >= 1,
    ensures
        guess == binary_search_bits(population, successes, draws, mode, p_exact, epsilon, upper),
        guess <= draws + 1,
{
    let mut min_val: u64 = if upper {
        mode
    } else {
        0
    };
    let mut max_val: u64 = if upper {
        draws
    } else {
        mode
    };
    let ghost c0 = coarse_search(population, successes, draws, p_exact, upper, min_val, max_val, 0);

    let mut guess: u64 = 0;
    loop
        invariant_except_break
            successes <= population,
            draws <= population,
            min_val <= max_val,
            max_val <= draws,
            guess <= max_val,
            upper ==> min_val >= 1,
            coarse_search(population, successes, draws, p_exact, upper, min_val, max_val, guess)
                == c0,
        ensures
            min_val <= max_val,
            max_val <= draws,
            (if guess == 0 {
                min_val
            } else {
                guess
            }) == c0,
            guess <= max_val,
        decreases max_val - min_val,
    {
        if max_val - min_val <= 1 {
            break;
        }
        guess = min_val + (max_val - min_val) / 2;
        let ng = if upper {
            guess - 1
        } else {
            guess + 1
        };
        let pmf_comp = hyp_pmf(population, successes, draws, ng);
        let p_guess = hyp_pmf(population, successes, draws, guess);
        if f_le(p_guess, p_exact) && f_lt(p_exact, pmf_comp) {
            break;
        }
        if f_lt(p_guess, p_exact) {
            max_val = guess;
        } else {
            min_val = guess;
        }
    }

    if guess == 0 {
        guess = min_val;
    }

    let pe_eps = f_mul(p_exact, epsilon);
    let pe_div = f_div(p_exact, epsilon);

    if upper {
        let ghost t1 = step_down_while_light(population, successes, draws, pe_eps, guess);
        loop
            invariant_except_break
                successes <= population,
                draws <= population,
                guess <= draws,
                step_down_while_light(population, successes, draws, pe_eps, guess) == t1,
            ensures
                guess == t1,
                guess <= draws,
            decreases guess,
        {
            if guess > 0 {
                let p = hyp_pmf(population, successes, draws, guess);
                if f_lt(p, pe_eps) {
                    guess = guess - 1;
                } else {
                    break;
                }
            } else {
                break;
            }
        }
        let ghost t2 = step_up_while_heavy(population, successes, draws, pe_div, guess);
        loop
            invariant_except_break
                successes <= population,
                draws <= population,
                draws < u64::MAX,
                guess <= draws + 1,
                step_up_while_heavy(population, successes, draws, pe_div, guess) == t2,
            ensures
                guess == t2,
                guess <= draws + 1,
            decreases draws + 1 - guess,
        {
            if guess <= draws {
                let p = hyp_pmf(population, successes, draws, guess);
                if f_lt(pe_div, p) {
                    guess = guess + 1;
                } else {
                    break;
                }
            } else {
                break;
            }
        }
        guess
    } else {
        let ghost t1 = step_up_while_light(population, successes, draws, pe_eps, guess);
        loop
            invariant_except_break
                successes <= population,
                draws <= population,
                draws < u64::MAX,
                guess <= draws + 1,
                step_up_while_light(population, successes, draws, pe_eps, guess) == t1,
            ensures
                guess == t1,
                guess <= draws + 1,
            decreases draws + 1 - guess,
        {
            if guess <= draws {
                let p = hyp_pmf(population, successes, draws, guess);
                if f_lt(p, pe_eps) {
                    guess = guess + 1;
                } else {
                    break;
                }
            } else {
                break;
            }
        }
        let ghost t2 = step_down_while_heavy(population, successes, draws, pe_div, guess);
        loop
            invariant_except_break
                successes <= population,
                draws <= population,
                guess <= draws + 1,
                step_down_while_heavy(population, successes, draws, pe_div, guess) == t2,
            ensures
                guess == t2,
                guess <= draws + 1,
            decreases guess,
        {
            if guess > 0 {
                let p = hyp_pmf(population, successes, draws, guess);
                if f_lt(pe_div, p) {
                    guess = guess - 1;
                } else {
                    break;
                }
            } else {
                break;
            }
        }
        guess
    }
}

} // verus!

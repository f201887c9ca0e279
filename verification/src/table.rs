//! 2x2 contingency tables and the test's input and error types.
//!
//! A table [[a, b], [c, d]] of non-negative counts is passed as the array
//! `[a, b, c, d]`.  Row sums are n1 = a + b and n2 = c + d, column sums are
//! a + c and b + d, and the grand total is their sum; a table is accepted
//! whenever that total fits in a `u64` and the marginal pairs handed to
//! the cumulative distribution do too (see `valid_table`).

use vstd::prelude::*;

verus! {

/// Which tail (or both) of the null distribution defines the p-value.
#[derive(Debug, Clone, Copy, Hash, Eq, PartialEq, Structural)]
pub enum Alternative {
    TwoSided,
    Less,
    Greater,
}

/// The errors a test can report.
#[derive(Debug, Clone, Copy, Hash, Eq, PartialEq, Structural)]
pub enum FisherError {
    /// Call-level arguments are malformed: the four count sequences of a
    /// batch do not all have the same length.
    InvalidArgument,
    /// A row's hypergeometric parameters violate their preconditions.
    /// Well-formed non-negative counts never produce this, but each row is
    /// checked so that a failure stays isolated to the row that caused it.
    InvalidParameters,
}

/// Whether the table's counts stay within the machine's reach: the four
/// counts sum within `u64`, and so does each pair of marginals that the
/// test hands to the cumulative distribution — (a+b) + (a+c) for the Less
/// and two-sided tails, (a+b) + (b+d) for the Greater tail.  statrs adds a
/// distribution's successes and draws unchecked when locating the support,
/// so these pairs are a precondition of evaluating the CDF at all.
pub open spec fn valid_table(a: u64, b: u64, c: u64, d: u64) -> bool {
    &&& a + b + c + d <= u64::MAX
    &&& (a + b) + (a + c) <= u64::MAX
    &&& (a + b) + (b + d) <= u64::MAX
}

/// Whether a row or a column of the table has vanished: such a table
/// carries no information against independence.
pub open spec fn degenerate(a: u64, b: u64, c: u64, d: u64) -> bool {
    (a == 0 && c == 0) || (b == 0 && d == 0)
}

/// The mode of the hypergeometric distribution with `draws` draws, `n1`
/// successes and population `n1 + n2`: floor((draws+1)*(n1+1) / (n1+n2+2)).
pub open spec fn mode_value(draws: u64, n1: u64, n2: u64) -> int {
    ((draws + 1) * (n1 + 1)) / (n1 + n2 + 2)
}

/// Computes the mode index of the two-sided null distribution.
pub fn mode_index(draws: u64, n1: u64, n2: u64) -> (m: u64)
    requires
        draws <= n1 + n2,
        draws < u64::MAX,
    ensures
        m == mode_value(draws, n1, n2),
        m <= draws,
{
    proof {
        lemma_mode_fits(draws as int, n1 as int, n2 as int);
        assert((draws as int + 1) * (n1 as int + 1) <= u128::MAX) by (nonlinear_arith)
            requires
                draws as int + 1 <= 0xFFFF_FFFF_FFFF_FFFF,
                n1 as int + 1 <= 0x1_0000_0000_0000_0000,
        ;
    }
    let num: u128 = (draws as u128 + 1) * (n1 as u128 + 1);
    let den: u128 = n1 as u128 + n2 as u128 + 2;
    let q: u128 = num / den;
    q as u64
}

/// The mode never exceeds the number of draws: the numerator is below
/// (draws + 1) times the denominator.
proof fn lemma_mode_fits(draws: int, n1: int, n2: int)
    requires
        0 <= draws,
        0 <= n1,
        0 <= n2,
    ensures
        0 <= ((draws + 1) * (n1 + 1)) / (n1 + n2 + 2) <= draws,
{
    let num = (draws + 1) * (n1 + 1);
    let den = n1 + n2 + 2;
    assert(num >= 0 && num < den * (draws + 1)) by (nonlinear_arith)
        requires
            0 <= draws,
            0 <= n1,
            0 <= n2,
            num == (draws + 1) * (n1 + 1),
            den == n1 + n2 + 2,
    ;
    vstd::arithmetic::div_mod::lemma_div_pos_is_pos(num, den);
    vstd::arithmetic::div_mod::lemma_multiply_divide_lt(num, den, draws + 1);
}

} // verus!

//! The batch evaluator: vectorizes the exact test over parallel sequences
//! of tables, with optional per-table memoization.
//!
//! The caller supplies four equal-length sequences of counts; row `i` forms
//! the table [a[i], b[i], c[i], d[i]].  Output order matches input order,
//! and each row is a pure function of its own table, so any execution
//! order gives the same sequences.  A cache maps a (table, alternative)
//! pair to its p-value; its invariant is that every stored value equals
//! the p-value the engine defines, so memoization can change performance
//! but never output.

use vstd::prelude::*;

use crate::bits::BITS_ONE;
use crate::engine::{fishers_exact, fishers_exact_with_odds_ratio, odds_ratio_bits, p_value_bits};
use crate::table::{valid_table, Alternative, FisherError};

verus! {

/// Whether the four sequences describe a well-formed batch: equal lengths,
/// and each row's counts sum within `u64`.
pub open spec fn valid_rows(a: Seq<u64>, b: Seq<u64>, c: Seq<u64>, d: Seq<u64>) -> bool {
    forall|i: int|
        0 <= i < a.len() && i < b.len() && i < c.len() && i < d.len() ==> valid_table(
            #[trigger] a[i],
            b[i],
            c[i],
            d[i],
        )
}

/// Computes the p-value of each row's table under `alternative`.  The
/// four sequences must have one common length, or the whole call is
/// refused before any row is computed.
pub fn exact(
    a: &Vec<u64>,
    b: &Vec<u64>,
    c: &Vec<u64>,
    d: &Vec<u64>,
    alternative: Alternative,
) -> (r: Result<Vec<u64>, FisherError>)
    requires
        valid_rows(a@, b@, c@, d@),
    ensures
        !(a@.len() == b@.len() && a@.len() == c@.len() && a@.len() == d@.len()) ==> r == Err::<
            Vec<u64>,
            FisherError,
        >(FisherError::InvalidArgument),
        a@.len() == b@.len() && a@.len() == c@.len() && a@.len() == d@.len() ==> (r matches Ok(v)
            && v@.len() == a@.len() && forall|i: int|
            0 <= i < v@.len() ==> #[trigger] v@[i] == p_value_bits(
                a@[i],
                b@[i],
                c@[i],
                d@[i],
                alternative,
            ) && v@[i] <= BITS_ONE),
{
    let n = a.len();
    if b.len() != n || c.len() != n || d.len() != n {
        return Err(FisherError::InvalidArgument);
    }
    let mut out: Vec<u64> = Vec::new();
    let mut i: usize = 0;
    while i < n
        invariant
            n == a@.len(),
            n == b@.len(),
            n == c@.len(),
            n == d@.len(),
            i <= n,
            valid_rows(a@, b@, c@, d@),
            out@.len() == i,
            forall|j: int|
                0 <= j < i ==> #[trigger] out@[j] == p_value_bits(
                    a@[j],
                    b@[j],
                    c@[j],
                    d@[j],
                    alternative,
                ),
        decreases n - i,
    {
        let table = [a[i], b[i], c[i], d[i]];
        let p = match fishers_exact(&table, alternative) {
            Ok(p) => p,
            Err(e) => {
                return Err(e);
            },
        };
        out.push(p);
        i = i + 1;
    }
    proof {
        assert forall|i: int| 0 <= i < out@.len() implies #[trigger] out@[i] <= BITS_ONE by {
            crate::engine::lemma_p_value_in_unit(a@[i], b@[i], c@[i], d@[i], alternative);
        }
    }
    Ok(out)
}

/// Whether each row's cross products fit in `u64`, so that its odds ratio
/// can be formed.
pub open spec fn valid_odds_rows(a: Seq<u64>, b: Seq<u64>, c: Seq<u64>, d: Seq<u64>) -> bool {
    forall|i: int|
        0 <= i < a.len() && i < b.len() && i < c.len() && i < d.len() && b[i] > 0 && c[i] > 0
            ==> #[trigger] (a[i] * d[i]) <= u64::MAX && b[i] * c[i] <= u64::MAX
}

/// Computes each row's odds ratio and p-value under `alternative`, pairing
/// them index-wise.  The sequences must have one common length, or the
/// whole call is refused before any row is computed.
pub fn exact_with_odds_ratios(
    a: &Vec<u64>,
    b: &Vec<u64>,
    c: &Vec<u64>,
    d: &Vec<u64>,
    alternative: Alternative,
) -> (r: Result<Vec<(u64, u64)>, FisherError>)
    requires
        valid_rows(a@, b@, c@, d@),
        valid_odds_rows(a@, b@, c@, d@),
    ensures
        !(a@.len() == b@.len() && a@.len() == c@.len() && a@.len() == d@.len()) ==> r == Err::<
            Vec<(u64, u64)>,
            FisherError,
        >(FisherError::InvalidArgument),
        a@.len() == b@.len() && a@.len() == c@.len() && a@.len() == d@.len() ==> (r matches Ok(v)
            && v@.len() == a@.len() && forall|i: int|
            0 <= i < v@.len() ==> #[trigger] v@[i] == (
                odds_ratio_bits(a@[i], b@[i], c@[i], d@[i]),
                p_value_bits(a@[i], b@[i], c@[i], d@[i], alternative),
            )),
{
    let n = a.len();
    if b.len() != n || c.len() != n || d.len() != n {
        return Err(FisherError::InvalidArgument);
    }
    let mut out: Vec<(u64, u64)> = Vec::new();
    let mut i: usize = 0;
    while i < n
        invariant
            n == a@.len(),
            n == b@.len(),
            n == c@.len(),
            n == d@.len(),
            i <= n,
            valid_rows(a@, b@, c@, d@),
            valid_odds_rows(a@, b@, c@, d@),
            out@.len() == i,
            forall|j: int|
                0 <= j < i ==> #[trigger] out@[j] == (
                    odds_ratio_bits(a@[j], b@[j], c@[j], d@[j]),
                    p_value_bits(a@[j], b@[j], c@[j], d@[j], alternative),
                ),
        decreases n - i,
    {
        let table = [a[i], b[i], c[i], d[i]];
        let pair = match fishers_exact_with_odds_ratio(&table, alternative) {
            Ok(pair) => pair,
            Err(e) => {
                return Err(e);
            },
        };
        out.push(pair);
        i = i + 1;
    }
    Ok(out)
}

/// A memoization cache from (table, alternative) to p-value, with no
/// eviction.  Its invariant ties every stored value to the p-value the
/// engine defines for its key, so a hit returns exactly what a fresh
/// computation would.
pub struct PValueCache {
    entries: Vec<(u64, u64, u64, u64, Alternative, u64)>,
}

impl PValueCache {
    /// Every entry's stored value is the p-value of its key.
    pub closed spec fn wf(&self) -> bool {
        forall|j: int|
            0 <= j < self.entries@.len() ==> (#[trigger] self.entries@[j]).5 == p_value_bits(
                self.entries@[j].0,
                self.entries@[j].1,
                self.entries@[j].2,
                self.entries@[j].3,
                self.entries@[j].4,
            )
    }

    /// How many (table, alternative) pairs the cache holds.
    pub closed spec fn spec_len(&self) -> nat {
        self.entries@.len()
    }

    /// Whether the cache holds the entry (a, b, c, d, alternative,
    /// p-value).
    pub closed spec fn has_entry(&self, e: (u64, u64, u64, u64, Alternative, u64)) -> bool {
        self.entries@.contains(e)
    }

    /// How many (table, alternative) pairs have been memoized.
    pub fn len(&self) -> (n: usize)
        ensures
            n == self.spec_len(),
    {
        self.entries.len()
    }

    /// Creates an empty cache.
    pub fn new() -> (r: Self)
        ensures
            r.wf(),
            r.spec_len() == 0,
    {
        PValueCache { entries: Vec::new() }
    }

    /// Looks a table and alternative up; a hit carries exactly the
    /// engine's p-value for them, from an entry the cache holds.
    fn lookup(&self, a: u64, b: u64, c: u64, d: u64, alt: Alternative) -> (r: Option<u64>)
        requires
            self.wf(),
        ensures
            r matches Some(p) ==> p == p_value_bits(a, b, c, d, alt) && self.has_entry(
                (a, b, c, d, alt, p),
            ),
    {
        let n = self.entries.len();
        let mut i: usize = 0;
        while i < n
            invariant
                self.wf(),
                n == self.entries@.len(),
                i <= n,
            decreases n - i,
        {
            let e = &self.entries[i];
            if e.0 == a && e.1 == b && e.2 == c && e.3 == d && e.4 == alt {
                proof {
                    assert(self.entries@[i as int] == (a, b, c, d, alt, e.5));
                }
                return Some(e.5);
            }
            i = i + 1;
        }
        None
    }

    /// Records a computed p-value for a table and alternative: the cache
    /// grows by that one entry and keeps everything it held.
    fn insert(&mut self, a: u64, b: u64, c: u64, d: u64, alt: Alternative, p: u64)
        requires
            old(self).wf(),
            p == p_value_bits(a, b, c, d, alt),
        ensures
            final(self).wf(),
            final(self).spec_len() == old(self).spec_len() + 1,
            final(self).has_entry((a, b, c, d, alt, p)),
            forall|e: (u64, u64, u64, u64, Alternative, u64)|
                old(self).has_entry(e) ==> final(self).has_entry(e),
    {
        self.entries.push((a, b, c, d, alt, p));
        proof {
            assert(self.entries@.last() == (a, b, c, d, alt, p));
            assert forall|e: (u64, u64, u64, u64, Alternative, u64)|
                old(self).has_entry(e) implies self.has_entry(e) by {
                let j = choose|j: int| 0 <= j < old(self).entries@.len() && old(self).entries@[j] == e;
                assert(self.entries@[j] == e);
            }
        }
    }
}

/// Computes the p-value of each row's table under `alternative`, looking
/// each (table, alternative) pair up in `cache` first and recording every
/// miss: afterwards the cache holds every row's pair with its p-value.
/// The result is the same sequence `exact` returns: memoization never
/// changes output.
pub fn exact_cached(
    cache: &mut PValueCache,
    a: &Vec<u64>,
    b: &Vec<u64>,
    c: &Vec<u64>,
    d: &Vec<u64>,
    alternative: Alternative,
) -> (r: Result<Vec<u64>, FisherError>)
    requires
        old(cache).wf(),
        valid_rows(a@, b@, c@, d@),
    ensures
        final(cache).wf(),
        !(a@.len() == b@.len() && a@.len() == c@.len() && a@.len() == d@.len()) ==> r == Err::<
            Vec<u64>,
            FisherError,
        >(FisherError::InvalidArgument),
        a@.len() == b@.len() && a@.len() == c@.len() && a@.len() == d@.len() ==> (r matches Ok(v)
            && v@.len() == a@.len() && forall|i: int|
            0 <= i < v@.len() ==> #[trigger] v@[i] == p_value_bits(
                a@[i],
                b@[i],
                c@[i],
                d@[i],
                alternative,
            )),
        a@.len() == b@.len() && a@.len() == c@.len() && a@.len() == d@.len() && (r matches Ok(v))
            ==> forall|i: int|
            0 <= i < a@.len() ==> #[trigger] final(cache).has_entry(
                (
                    a@[i],
                    b@[i],
                    c@[i],
                    d@[i],
                    alternative,
                    p_value_bits(a@[i], b@[i], c@[i], d@[i], alternative),
                ),
            ),
{
    let n = a.len();
    if b.len() != n || c.len() != n || d.len() != n {
        return Err(FisherError::InvalidArgument);
    }
    let mut out: Vec<u64> = Vec::new();
    let mut i: usize = 0;
    while i < n
        invariant
            n == a@.len(),
            n == b@.len(),
            n == c@.len(),
            n == d@.len(),
            i <= n,
            cache.wf(),
            valid_rows(a@, b@, c@, d@),
            out@.len() == i,
            forall|j: int|
                0 <= j < i ==> #[trigger] out@[j] == p_value_bits(
                    a@[j],
                    b@[j],
                    c@[j],
                    d@[j],
                    alternative,
                ),
            forall|j: int|
                0 <= j < i ==> #[trigger] cache.has_entry(
                    (
                        a@[j],
                        b@[j],
                        c@[j],
                        d@[j],
                        alternative,
                        p_value_bits(a@[j], b@[j], c@[j], d@[j], alternative),
                    ),
                ),
        decreases n - i,
    {
        let p = match cache.lookup(a[i], b[i], c[i], d[i], alternative) {
            Some(p) => p,
            None => {
                let table = [a[i], b[i], c[i], d[i]];
                let p = match fishers_exact(&table, alternative) {
                    Ok(p) => p,
                    Err(e) => {
                        return Err(e);
                    },
                };
                cache.insert(a[i], b[i], c[i], d[i], alternative, p);
                p
            },
        };
        out.push(p);
        i = i + 1;
    }
    Ok(out)
}

/// Repeated evaluation is bit-identical: any two result sequences that
/// satisfy the batch contract for the same inputs are equal, whether they
/// came from `exact`, `exact_cached`, or separate calls.
pub proof fn lemma_batch_deterministic(
    v1: Seq<u64>,
    v2: Seq<u64>,
    a: Seq<u64>,
    b: Seq<u64>,
    c: Seq<u64>,
    d: Seq<u64>,
    alt: Alternative,
)
    requires
        v1.len() == a.len(),
        v2.len() == a.len(),
        forall|i: int| 0 <= i < v1.len() ==> #[trigger] v1[i] == p_value_bits(a[i], b[i], c[i], d[i], alt),
        forall|i: int| 0 <= i < v2.len() ==> #[trigger] v2[i] == p_value_bits(a[i], b[i], c[i], d[i], alt),
    ensures
        v1 == v2,
{
    assert(v1 =~= v2);
}

} // verus!

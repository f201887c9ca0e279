//! Differential test: the library carries probabilities as bit patterns
//! and does its double arithmetic in software, so its results must be
//! bit-identical to a plain floating-point transcription of the same
//! algorithm running directly on statrs and hardware doubles.

use faster_fishers::{fishers_exact, Alternative};
use statrs::distribution::{Discrete, DiscreteCDF, Hypergeometric};

const EPSILON: f64 = 1.0 - 1e-4;

fn binary_search_ref(
    n: u64,
    n1: u64,
    n2: u64,
    mode: u64,
    p_exact: f64,
    epsilon: f64,
    upper: bool,
) -> u64 {
    let (mut min_val, mut max_val) = if upper { (mode, n) } else { (0, mode) };

    let dist = Hypergeometric::new(n1 + n2, n1, n).unwrap();

    let mut guess = 0;
    loop {
        if max_val - min_val <= 1 {
            break;
        }
        guess = min_val + (max_val - min_val) / 2;

        let ng = if upper { guess - 1 } else { guess + 1 };

        let pmf_comp = dist.pmf(ng);
        let p_guess = dist.pmf(guess);
        if p_guess <= p_exact && p_exact < pmf_comp {
            break;
        }
        if p_guess < p_exact {
            max_val = guess
        } else {
            min_val = guess
        }
    }

    if guess == 0 {
        guess = min_val
    }
    if upper {
        while guess > 0 && dist.pmf(guess) < p_exact * epsilon {
            guess -= 1;
        }
        while guess <= n && dist.pmf(guess) > p_exact / epsilon {
            guess += 1;
        }
    } else {
        while guess <= n && dist.pmf(guess) < p_exact * epsilon {
            guess += 1;
        }
        while guess > 0 && dist.pmf(guess) > p_exact / epsilon {
            guess -= 1;
        }
    }
    guess
}

/// The final clamp into [0, 1], on the bit pattern as the library does it.
fn clamp01_ref(p: f64) -> f64 {
    let b = p.to_bits();
    if b <= 1.0f64.to_bits() {
        p
    } else if b <= 0x7FFF_FFFF_FFFF_FFFF {
        1.0
    } else if b >= 0xFFF0_0000_0000_0001 {
        1.0
    } else {
        0.0
    }
}

fn fishers_exact_ref(table: &[u64; 4], alternative: Alternative) -> f64 {
    if (table[0] == 0 && table[2] == 0) || (table[1] == 0 && table[3] == 0) {
        return 1.0;
    }

    let n1 = table[0] + table[1];
    let n2 = table[2] + table[3];
    let n = table[0] + table[2];

    let population = n1 + n2;
    let successes = n1;

    let p_value = match alternative {
        Alternative::Less => {
            let dist = Hypergeometric::new(population, successes, n).unwrap();
            dist.cdf(table[0])
        }
        Alternative::Greater => {
            let draws = table[1] + table[3];
            let dist = Hypergeometric::new(population, successes, draws).unwrap();
            dist.cdf(table[1])
        }
        Alternative::TwoSided => {
            let dist = Hypergeometric::new(population, successes, n).unwrap();

            let p_exact = dist.pmf(table[0]);
            let mode =
                (((n as u128 + 1) * (n1 as u128 + 1)) / (n1 as u128 + n2 as u128 + 2)) as u64;
            let p_mode = dist.pmf(mode);

            if (p_exact - p_mode).abs() / p_exact.max(p_mode) <= 1.0 - EPSILON {
                1.0
            } else if table[0] < mode {
                let p_lower = dist.cdf(table[0]);
                if dist.pmf(n) > p_exact / EPSILON {
                    p_lower
                } else {
                    let guess = binary_search_ref(n, n1, n2, mode, p_exact, EPSILON, true);
                    p_lower + 1.0 - dist.cdf(guess.wrapping_sub(1))
                }
            } else {
                let p_upper = 1.0 - dist.cdf(table[0].wrapping_sub(1));
                if dist.pmf(0) > p_exact / EPSILON {
                    p_upper
                } else {
                    let guess = binary_search_ref(n, n1, n2, mode, p_exact, EPSILON, false);
                    p_upper + dist.cdf(guess)
                }
            }
        }
    };

    clamp01_ref(p_value)
}

fn sample_tables() -> Vec<[u64; 4]> {
    let mut tables = vec![
        [3, 5, 4, 50],
        [61, 118, 2, 1],
        [172, 46, 90, 127],
        [127, 38, 112, 43],
        [186, 177, 111, 154],
        [137, 49, 135, 183],
        [37, 115, 37, 152],
        [124, 117, 119, 175],
        [70, 114, 41, 118],
        [173, 21, 89, 7],
        [18, 147, 123, 58],
        [116, 20, 92, 186],
        [9, 22, 44, 38],
        [9, 101, 135, 7],
        [153, 27, 191, 144],
        [111, 195, 189, 69],
        [125, 21, 31, 131],
        [201, 192, 69, 179],
        [124, 138, 159, 160],
        [0, 0, 0, 0],
        [0, 1, 1, 0],
        [1, 0, 0, 1],
        [1, 1, 1, 1],
        [0, 5, 4, 50],
        [5, 0, 4, 50],
        [5, 4, 0, 50],
        [5, 4, 50, 0],
        [200, 1, 1, 200],
        [1000, 3, 17, 900],
    ];
    let mut state: u64 = 0x9E3779B97F4A7C15;
    for _ in 0..120 {
        let mut next = || {
            state = state.wrapping_mul(6364136223846793005).wrapping_add(1442695040888963407);
            (state >> 33) % 257
        };
        tables.push([next(), next(), next(), next()]);
    }
    tables
}

/// Every p-value the library returns equals the floating-point
/// transcription's, bit for bit.
#[test]
fn matches_float_transcription() {
    for table in sample_tables() {
        for alt in [Alternative::Less, Alternative::Greater, Alternative::TwoSided] {
            let lib_bits = fishers_exact(&table, alt).unwrap();
            let ref_bits = fishers_exact_ref(&table, alt).to_bits();
            assert_eq!(
                lib_bits,
                ref_bits,
                "table {:?} {:?}: library {} vs transcription {}",
                table,
                alt,
                f64::from_bits(lib_bits),
                f64::from_bits(ref_bits)
            );
        }
    }
}

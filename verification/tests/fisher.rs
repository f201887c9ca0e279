//! Tests of the single-table entry points against reference values.

use faster_fishers::{fishers_exact, fishers_exact_with_odds_ratio, Alternative};

/// Approximate equality on doubles: within `epsilon` absolutely, or within
/// four units in the last place.
fn approx_eq(a: f64, b: f64, epsilon: f64) -> bool {
    if a == b {
        return true;
    }
    if (a - b).abs() <= epsilon {
        return true;
    }
    if a.is_nan() || b.is_nan() || a.signum() != b.signum() {
        return false;
    }
    let (ba, bb) = (a.abs().to_bits(), b.abs().to_bits());
    ba.abs_diff(bb) <= 4
}

fn p_value(table: &[u64; 4], alternative: Alternative) -> f64 {
    f64::from_bits(fishers_exact(table, alternative).unwrap())
}

/// Test fishers_exact by comparing against values from scipy.
#[test]
fn test_fishers_exact() {
    let cases = [
        (
            [3, 5, 4, 50],
            0.9963034765672599,
            0.03970749246529277,
            0.03970749246529276,
        ),
        (
            [61, 118, 2, 1],
            0.27535061623455315,
            0.9598172545684959,
            0.27535061623455315,
        ),
        (
            [172, 46, 90, 127],
            1.0,
            6.662405187351769e-16,
            9.041009036528785e-16,
        ),
        (
            [127, 38, 112, 43],
            0.8637599357870167,
            0.20040942958644145,
            0.3687862842650179,
        ),
        (
            [186, 177, 111, 154],
            0.9918518696328176,
            0.012550663906725129,
            0.023439141644624434,
        ),
        (
            [137, 49, 135, 183],
            0.999999999998533,
            5.6517533666400615e-12,
            8.870999836202932e-12,
        ),
        (
            [37, 115, 37, 152],
            0.8834621182590621,
            0.17638403366123565,
            0.29400927608021704,
        ),
        (
            [124, 117, 119, 175],
            0.9956704915461392,
            0.007134712391455461,
            0.011588218284387445,
        ),
        (
            [70, 114, 41, 118],
            0.9945558498544903,
            0.010384865876586255,
            0.020438291037108678,
        ),
        (
            [173, 21, 89, 7],
            0.2303739114068352,
            0.8808002774812677,
            0.4027047267306024,
        ),
        (
            [18, 147, 123, 58],
            4.077820702304103e-29,
            0.9999999999999817,
            0.0,
        ),
        (
            [116, 20, 92, 186],
            0.9999999999998267,
            6.598118571034892e-25,
            8.164831402188242e-25,
        ),
        (
            [9, 22, 44, 38],
            0.01584272038710196,
            0.9951463496539362,
            0.021581786662999272,
        ),
        (
            [9, 101, 135, 7],
            3.3336213533847776e-50,
            1.0,
            3.3336213533847776e-50,
        ),
        (
            [153, 27, 191, 144],
            0.9999999999950817,
            2.473736787266208e-11,
            3.185816623300107e-11,
        ),
        (
            [111, 195, 189, 69],
            6.665245982898848e-19,
            0.9999999999994574,
            1.0735744915712542e-18,
        ),
        (
            [125, 21, 31, 131],
            0.99999999999974,
            9.720661317939016e-34,
            1.0352129312860277e-33,
        ),
        (
            [201, 192, 69, 179],
            0.9999999988714893,
            3.1477232259550017e-09,
            4.761075937088169e-09,
        ),
        (
            [124, 138, 159, 160],
            0.30153826772785475,
            0.7538974235759873,
            0.5601766196310243,
        ),
    ];

    for (table, less_expected, greater_expected, two_sided_expected) in cases.iter() {
        for (alternative, expected) in [
            Alternative::Less,
            Alternative::Greater,
            Alternative::TwoSided,
        ]
        .iter()
        .zip(vec![less_expected, greater_expected, two_sided_expected])
        {
            let p = p_value(table, *alternative);
            assert!(
                approx_eq(p, *expected, 1e-12),
                "table {:?} {:?}: got {}, expected {}",
                table,
                alternative,
                p,
                expected
            );
        }
    }
}

#[test]
fn test_fishers_exact_with_odds() {
    let table = [3, 5, 4, 50];
    let (odds_bits, p_bits) = fishers_exact_with_odds_ratio(&table, Alternative::Less).unwrap();
    let odds_ratio = f64::from_bits(odds_bits);
    let p = f64::from_bits(p_bits);
    assert!(approx_eq(p, 0.9963034765672599, 1e-12));
    assert!(approx_eq(odds_ratio, 7.5, 1e-1));
}

/// The two-sided p-value of a strongly associated table underflows to a
/// negligible value: zero within the reference tolerance, though the tail
/// summation leaves it a few hundred ulps of 1.0 above an exact zero.
#[test]
fn two_sided_underflows_to_zero() {
    let p = p_value(&[18, 147, 123, 58], Alternative::TwoSided);
    assert!(p >= 0.0);
    assert!(p <= 1e-12, "got {}", p);
}

/// The odds ratio is +infinity when exactly one of b, c vanishes, and NaN
/// for a degenerate table (whose p-value is exactly one).
#[test]
fn odds_ratio_edge_cases() {
    let (odds_bits, _) = fishers_exact_with_odds_ratio(&[3, 0, 4, 50], Alternative::Less).unwrap();
    assert_eq!(f64::from_bits(odds_bits), f64::INFINITY);

    let (odds_bits, _) = fishers_exact_with_odds_ratio(&[3, 5, 0, 50], Alternative::Less).unwrap();
    assert_eq!(f64::from_bits(odds_bits), f64::INFINITY);

    let (odds_bits, p_bits) =
        fishers_exact_with_odds_ratio(&[0, 5, 0, 50], Alternative::TwoSided).unwrap();
    assert!(f64::from_bits(odds_bits).is_nan());
    assert_eq!(f64::from_bits(p_bits), 1.0);
}

/// The finite odds ratio is the plain quotient of the cross products.
#[test]
fn odds_ratio_exact_quotient() {
    let (odds_bits, _) = fishers_exact_with_odds_ratio(&[6, 4, 2, 8], Alternative::Less).unwrap();
    assert_eq!(f64::from_bits(odds_bits), 6.0);
}

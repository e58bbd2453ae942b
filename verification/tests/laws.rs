use svm_math::{
    compound_bounds, compound_lower, compound_upper, exp2_bounds, exp2_lower, exp2_upper, log2_bounds,
    log2_lower, log2_upper, pow_bounds, pow_lower, pow_upper, powi_lower, powi_upper, MathError,
};

const S: u64 = 1_000_000;

#[test]
fn exp2_at_integer_exponents_is_exact_in_both_directions() {
    assert_eq!(exp2_lower(3 * S as i64, S), Ok(8 * S));
    assert_eq!(exp2_upper(3 * S as i64, S), Ok(8 * S));
    assert_eq!(exp2_lower(0, 7), Ok(7));
    assert_eq!(exp2_upper(0, 7), Ok(7));
    // 7 / 2^3 rounds to 0 below and 1 above.
    assert_eq!(exp2_lower(-21, 7), Ok(0));
    assert_eq!(exp2_upper(-21, 7), Ok(1));
    // 1000 / 2^2 is exact.
    assert_eq!(exp2_lower(-2_000, 1_000), Ok(250));
    assert_eq!(exp2_upper(-2_000, 1_000), Ok(250));
    // 2^63 still fits a word at scale one, 2^64 does not.
    assert_eq!(exp2_lower(63, 1), Ok(1_u64 << 63));
    assert_eq!(exp2_upper(64, 1), Err(MathError::Overflow));
}

#[test]
fn log2_of_exact_powers_is_exact_at_any_scale() {
    assert_eq!(log2_lower(8 * S, S), Ok(3 * S as i64));
    assert_eq!(log2_upper(8 * S, S), Ok(3 * S as i64));
    assert_eq!(log2_lower(S / 4, S), Ok(-2 * S as i64));
    assert_eq!(log2_upper(S / 4, S), Ok(-2 * S as i64));
    // A scale that is not a power of ten takes the normalizing path.
    assert_eq!(log2_lower(28, 7), Ok(14));
    assert_eq!(log2_upper(28, 7), Ok(14));
    assert_eq!(log2_lower(7, 28), Ok(-56));
    assert_eq!(log2_upper(7, 28), Ok(-56));
    assert_eq!(log2_bounds(1 << 40, 1), Ok((40, 40)));
}

#[test]
fn log2_bounds_bracket_an_irrational_logarithm() {
    // log2(3) * 1e6 = 1_584_962.50...
    let (lower, upper) = log2_bounds(3 * S, S).unwrap();
    assert!(lower <= 1_584_962 && 1_584_963 <= upper, "[{lower}, {upper}]");
    assert_eq!(log2_lower(3 * S, S), Ok(lower));
    assert_eq!(log2_upper(3 * S, S), Ok(upper));
    // The same ratio at a scale that is not a power of ten.
    let (lower, upper) = log2_bounds(21, 7).unwrap();
    assert!(lower <= 11 && 11 <= upper, "[{lower}, {upper}]");
}

#[test]
fn exp2_bounds_bracket_an_irrational_power() {
    // 2^0.5 * 1e6 = 1_414_213.56...
    let (lower, upper) = exp2_bounds(500_000, S).unwrap();
    assert!(lower <= 1_414_213 && 1_414_214 <= upper, "[{lower}, {upper}]");
    assert!(upper - lower <= 2);
    // 2^-0.5 * 1e6 = 707_106.78...
    let (lower, upper) = exp2_bounds(-500_000, S).unwrap();
    assert!(lower <= 707_106 && 707_107 <= upper, "[{lower}, {upper}]");
}

#[test]
fn pow_at_an_integer_exponent_is_directed_squaring() {
    for (base, whole) in [(3 * S, 2_u64), (S / 2, 3), (5, 4)] {
        assert_eq!(pow_lower(base, whole * S, S), powi_lower(base, whole, S));
        assert_eq!(pow_upper(base, whole * S, S), powi_upper(base, whole, S));
    }
    assert_eq!(pow_bounds(2 * S, 3 * S, S), Ok((8 * S, 8 * S)));
}

#[test]
fn powi_bounds_enclose_the_exact_rational_power() {
    // (7/3)^3 * 3 = 343 / 9 = 38.11...
    assert_eq!(powi_lower(7, 3, 3), Ok(37));
    assert_eq!(powi_upper(7, 3, 3), Ok(40));
    assert_eq!(powi_lower(0, 5, 10), Ok(0));
    assert_eq!(powi_upper(10, 5, 10), Ok(10));
    assert_eq!(powi_lower(1, 1, 0), Err(MathError::DivByZero));
}

#[test]
fn compound_identities_and_errors() {
    assert_eq!(compound_lower(5, 12, 0, S), Ok(S));
    assert_eq!(compound_upper(0, 12, 7, S), Ok(S));
    assert_eq!(compound_bounds(0, 12, 7, S), Ok((S, S)));
    assert_eq!(compound_lower(5, 0, 7, S), Err(MathError::OutOfDomain));
    assert_eq!(compound_upper(5, 12, 7, 0), Err(MathError::DivByZero));
    // 100% a year compounded once: exactly twice the principal.
    assert_eq!(compound_bounds(S, 1, 1, S), Ok((2 * S, 2 * S)));
}

#[test]
fn pair_functions_report_the_first_error() {
    assert_eq!(exp2_bounds(64, 1), Err(MathError::Overflow));
    assert_eq!(log2_bounds(0, 1), Err(MathError::OutOfDomain));
    assert_eq!(pow_bounds(u64::MAX, 2, 1), Err(MathError::Overflow));
    assert_eq!(compound_bounds(1, 1, 1, 0), Err(MathError::DivByZero));
}

#[test]
fn compound_beyond_the_series_domain_encloses_the_exact_power() {
    // 50% a period over 10 periods: S * 1.5^10 = 57_665_039.0625 raw units.
    let (lower, upper) = compound_bounds(S / 2, 1, 10, S).unwrap();
    assert!(lower <= 57_665_039);
    assert!(upper >= 57_665_040);
    assert!(upper - lower <= 2);
    assert_eq!(compound_lower(S / 2, 1, 10, S), Ok(lower));
    assert_eq!(compound_upper(S / 2, 1, 10, S), Ok(upper));
    // 10% a month for a year, monthly periods: S * 1.1^12 exactly 3_138_428.376721.
    let (lower, upper) = compound_bounds(1_200_000, 12, 12, S).unwrap();
    assert!(lower <= 3_138_428 && upper >= 3_138_429);
}

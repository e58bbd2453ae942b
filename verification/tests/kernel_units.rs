use svm_math::kernel::compound::{INV_LN2_LOWER, INV_LN2_UPPER};
use svm_math::kernel::exp2::{LN2_Q64_LOWER, LN2_Q64_UPPER};
use svm_math::kernel::log2::{LOG2E_Q63_LOWER, LOG2E_Q63_UPPER};
use svm_math::kernel::scale::{scaled_magnitude_to_q, Q};
use svm_math::kernel::wide::{div_rem_128_by_64, mul_div, multiply_high_approx, widening_mul, FixedDivisor};

fn next_u64(state: &mut u64) -> u64 {
    *state = state
        .wrapping_mul(6_364_136_223_846_793_005)
        .wrapping_add(1_442_695_040_888_963_407);
    *state
}

const ITERATIONS: u64 = 100;
const WIDE_MUL_B: u64 = 0x8000_0000_0000_3039;
const WIDE_MUL_DENOMINATOR: u64 = u64::MAX;

#[test]
fn wide_mul_div_workload_forces_the_128_by_64_path() {
    for index in 0..ITERATIONS {
        let a = u64::MAX - index;
        let product = u128::from(a) * u128::from(WIDE_MUL_B);
        let high = (product >> 64) as u64;
        assert_ne!(high, 0);
        assert!(high < WIDE_MUL_DENOMINATOR);
        assert_eq!(
            svm_math::mul_div_floor(a, WIDE_MUL_B, WIDE_MUL_DENOMINATOR),
            Ok((product / u128::from(WIDE_MUL_DENOMINATOR)) as u64)
        );
    }
}

/// `ln(2) * (1 / ln(2)) = 1`, so the Q64 x Q61 cross products must
/// straddle `2^125` strictly.
#[test]
fn inv_ln2_brackets_are_reciprocal_to_ln2() {
    let lower = u128::from(LN2_Q64_LOWER) * u128::from(INV_LN2_LOWER);
    let upper = u128::from(LN2_Q64_UPPER) * u128::from(INV_LN2_UPPER);
    assert!(lower < 1_u128 << 125);
    assert!(upper > 1_u128 << 125);
}

/// `ln(2) * log2(e) = 1`, so the Q64 x Q63 cross products must straddle
/// `2^127` strictly.
#[test]
fn ln2_and_log2e_brackets_are_mutual_reciprocals() {
    let lower = u128::from(LN2_Q64_LOWER) * u128::from(LOG2E_Q63_LOWER);
    let upper = u128::from(LN2_Q64_UPPER) * u128::from(LOG2E_Q63_UPPER);
    assert!(lower < 1_u128 << 127);
    assert!(upper > 1_u128 << 127);
}

#[test]
fn decimal_scale_entry_matches_u128_definition() {
    let mut scale = 1_u64;
    let mut state = 0x5ca1_edec_1a15_f00d;
    for index in 0..20 {
        let boundaries = [0, 1, scale - 1, scale, scale.saturating_add(1), u64::MAX];
        let mut values: Vec<u64> = boundaries.to_vec();
        for _ in 0..1_024 {
            values.push(next_u64(&mut state));
        }
        for value in values {
            let numerator = u128::from(value) * u128::from(Q);
            assert_eq!(
                scaled_magnitude_to_q(value, scale),
                Ok((
                    numerator / u128::from(scale),
                    numerator % u128::from(scale) != 0,
                ))
            );
        }
        if index != 19 {
            scale *= 10;
        }
    }
}

#[test]
fn fixed_divisor_matches_independent_calls() {
    assert!(FixedDivisor::new(0).is_err());
    for denominator in [1, u64::from(u32::MAX), 1_u64 << 63, u64::MAX] {
        let divisor = FixedDivisor::new(denominator).unwrap();
        for (a, b) in [
            (0, u64::MAX),
            (u64::from(u32::MAX) + 1, u64::from(u32::MAX)),
            (u64::MAX - 1, u64::MAX - 1),
            (u64::MAX, u64::MAX),
        ] {
            assert_eq!(divisor.mul_div(a, b), mul_div(a, b, denominator));
        }
    }
}

#[test]
fn approximate_top_word_is_within_two_below_exact() {
    let mut state = 0x6d68_6170_7072_6f78;
    for _ in 0..1_000_000 {
        let a = next_u64(&mut state);
        let b = next_u64(&mut state);
        let exact = widening_mul(a, b).0;
        let approx = multiply_high_approx(a, b);
        assert!(exact - approx <= 2, "a={a:#x} b={b:#x}");
    }
    for a in [0, 1, u64::MAX, 1 << 32, (1 << 32) - 1, u64::MAX << 32] {
        for b in [0, 1, u64::MAX, 1 << 32, (1 << 32) - 1, u64::MAX << 32] {
            let exact = widening_mul(a, b).0;
            let approx = multiply_high_approx(a, b);
            assert!(exact - approx <= 2, "a={a:#x} b={b:#x}");
        }
    }
}

#[test]
fn knuth_divider_matches_reciprocal_and_u128() {
    let mut state = 0x6b6e_7574_685f_6421;
    for index in 0..1_000_000_u64 {
        let a = next_u64(&mut state);
        let b = next_u64(&mut state);
        let raw = next_u64(&mut state);
        // Sweep divisor widths so every shift and digit shape appears.
        let denominator = (raw >> (index % 64)).max(1);
        let numerator = u128::from(a) * u128::from(b);
        let high = (numerator >> 64) as u64;
        let low = numerator as u64;
        if high >= denominator {
            continue;
        }
        let expected = (
            (numerator / u128::from(denominator)) as u64,
            (numerator % u128::from(denominator)) as u64,
        );
        assert_eq!(
            div_rem_128_by_64(high, low, denominator),
            expected,
            "a={a:#x} b={b:#x} d={denominator:#x}"
        );
    }
}

#[test]
fn exhaustive_isqrt_u16_every_input() {
    for value in u16::MIN..=u16::MAX {
        let value = u128::from(value);
        let root = svm_math::isqrt(value);
        assert!(root * root <= value);
        let successor = root + 1;
        assert!(successor * successor > value);
    }
}

#[test]
fn exhaustive_widening_mul_u8_every_pair() {
    for a in u8::MIN..=u8::MAX {
        for b in u8::MIN..=u8::MAX {
            let actual = widening_mul(u64::from(a), u64::from(b));
            let product = u128::from(a) * u128::from(b);
            assert_eq!(actual, ((product >> 64) as u64, product as u64));
        }
    }
}

#[test]
fn exhaustive_div_rem_u8_every_valid_input() {
    for denominator in 1_u64..=u64::from(u8::MAX) {
        for high in 0..denominator {
            for low in 0_u64..=u64::from(u8::MAX) {
                let numerator = (u128::from(high) << 64) | u128::from(low);
                assert_eq!(
                    div_rem_128_by_64(high, low, denominator),
                    (
                        (numerator / u128::from(denominator)) as u64,
                        (numerator % u128::from(denominator)) as u64,
                    )
                );
            }
        }
    }
}

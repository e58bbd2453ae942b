//! The `log2` evaluations at a decimal scale are ordered: both read the
//! same mantissa, and at one mantissa the rounded-down fraction never
//! exceeds the rounded-up one.
use crate::arith::{directed, lemma_directed, lemma_div_le, lemma_div_mod, lemma_div_unique, lemma_mul_le, word};
use crate::enclosure::exp2_order::lemma_scaled_product_mono;
use crate::enclosure::log2_table::{lemma_log2_entry_fits, lemma_log2_pow10_fits};
use crate::enclosure::squaring::lemma_bit_length_exists;
use crate::kernel::compound::bit_length;
use crate::kernel::log2::{
    fraction_index, fraction_residual, is_exact_log2, is_log2_floor, lemma_log2_floor_is, lemma_product_shrinks,
    lemma_reciprocal_bounds, log2_floor, log2_fraction_spec, log2_q_pow10_spec, log2_q_spec, log2_spec,
    mantissa_step, node_log, residual_legs_spec, series_spec, LOG2E_Q63_LOWER, LOG2E_Q63_UPPER,
};
use crate::kernel::scale::{lemma_q_is_pow2, Q};
use vstd::arithmetic::power2::{lemma_pow2_adds, lemma_pow2_pos, pow2};
use vstd::prelude::*;

verus! {

/// A Q64 fraction with its carry, as one number.
pub open spec fn fraction_value(p: (int, bool)) -> int {
    p.0 + if p.1 {
        word()
    } else {
        0
    }
}

/// Between legs `l <= u` a few units apart, the truncated series is
/// nonnegative, the padded one at least as large, and both stay below two
/// words.
proof fn lemma_series_sides(l: int, u: int)
    requires
        2048 <= l <= u <= l + 4096,
        u < word(),
    ensures
        0 <= series_spec(l, u, false) <= series_spec(l, u, true) < 2 * word(),
{
    let w = word();
    let sl = (l * l / w) / 2048;
    let su = (u * u / w) / 2048 + 1;
    lemma_product_shrinks(l, l);
    lemma_product_shrinks(u, u);
    lemma_scaled_product_mono(l, l, u, u);
    let fu = (su * su / w) / 2048 + 1;
    let fl = (sl * sl / w) / 2048;
    lemma_product_shrinks(su, su);
    lemma_product_shrinks(sl, sl);
    lemma_scaled_product_mono(sl, sl, su, su);
    let cu = (su * u / w) / 2048 + 1;
    let cl = (sl * l / w) / 2048;
    lemma_product_shrinks(su, u);
    lemma_product_shrinks(sl, l);
    lemma_scaled_product_mono(sl, l, su, u);
    let fifth = (fu * u / w) / 2048 + 1;
    lemma_product_shrinks(fu, u);
}

/// At one mantissa, the rounded-down fraction of `log2` never exceeds the
/// rounded-up one, and both lie in `[0, 2^65)`.
proof fn lemma_fraction_sides(m: int)
    requires
        0x8000_0000_0000_0000 <= m < word(),
    ensures
        0 <= fraction_value(log2_fraction_spec(m, false)) <= fraction_value(log2_fraction_spec(m, true)) < 2 * word(),
        0 <= log2_fraction_spec(m, false).0 < word(),
        0 <= log2_fraction_spec(m, true).0 < word(),
{
    let i = fraction_index(m);
    let r = fraction_residual(m);
    lemma_div_mod(m - 0x8000_0000_0000_0000, mantissa_step());
    crate::arith::lemma_div_lt_iff(m - 0x8000_0000_0000_0000, mantissa_step(), 2048);
    lemma_log2_entry_fits(i);
    if r != 0 {
        let legs = residual_legs_spec(i, r);
        if i == 0 {
            assert(legs.0 == legs.1 && legs.0 == r * 4096);
        } else {
            lemma_reciprocal_bounds(i, r);
        }
        let l = legs.0;
        let u = legs.1;
        lemma_series_sides(l, u);
        let s_lo = series_spec(l, u, false);
        let s_hi = series_spec(l, u, true);
        let w = word();
        lemma_mul_le(s_lo, LOG2E_Q63_LOWER as int, s_hi, LOG2E_Q63_UPPER as int);
        lemma_div_le(0, s_lo * (LOG2E_Q63_LOWER as int), w);
        lemma_div_le(s_lo * (LOG2E_Q63_LOWER as int), s_hi * (LOG2E_Q63_UPPER as int), w);
        lemma_div_le(0, s_lo * (LOG2E_Q63_LOWER as int) / w, 1024);
        lemma_div_le(s_lo * (LOG2E_Q63_LOWER as int) / w, s_hi * (LOG2E_Q63_UPPER as int) / w, 1024);
        lemma_product_shrinks(LOG2E_Q63_UPPER as int, s_hi);
        lemma_div_le(s_hi * (LOG2E_Q63_UPPER as int) / w, s_hi, 1024);
        assert((LOG2E_Q63_UPPER as int) * s_hi == s_hi * (LOG2E_Q63_UPPER as int)) by (nonlinear_arith);
        let base_lo: int = if i == 0 { 0 } else { node_log(i, false) };
        let base_hi: int = if i == 0 { 0 } else { node_log(i, true) };
        let sum_lo = base_lo + (s_lo * (LOG2E_Q63_LOWER as int) / w) / 1024;
        let sum_hi = base_hi + (s_hi * (LOG2E_Q63_UPPER as int) / w) / 1024 + 1;
        assert(0 <= sum_lo <= sum_hi < 2 * w);
        lemma_wrap(sum_lo);
        lemma_wrap(sum_hi);
    }
}

/// A sum below two words splits into a word and a carry that add back to it.
proof fn lemma_wrap(sum: int)
    requires
        0 <= sum < 2 * word(),
    ensures
        fraction_value((sum % word(), sum >= word())) == sum,
        0 <= sum % word() < word(),
{
    if sum >= word() {
        lemma_div_unique(sum, word(), 1, sum - word());
    } else {
        lemma_div_unique(sum, word(), 0, sum);
    }
}

/// Packing into Q61 keeps the order of the fractions: the smaller rounded
/// down never exceeds the larger rounded up.
proof fn lemma_pack_ordered(k: int, f1: int, c1: bool, f2: int, c2: bool)
    requires
        0 <= f1,
        0 <= f2,
        fraction_value((f1, c1)) <= fraction_value((f2, c2)),
    ensures
        crate::kernel::log2::pack_spec(k, f1, c1, false) <= crate::kernel::log2::pack_spec(k, f2, c2, true),
{
    lemma_q_is_pow2();
    vstd::arithmetic::power2::lemma2_to64();
    lemma_directed(f1, 8);
    lemma_directed(f2, 8);
    let a = directed(f1, 8, false);
    let b = directed(f2, 8, true);
    let c1i: int = if c1 { 1 } else { 0 };
    let c2i: int = if c2 { 1 } else { 0 };
    assert(8 * (c1i * (Q as int) + a) <= 8 * (c2i * (Q as int) + b));
    assert((k + c1i) * (Q as int) + a <= (k + c2i) * (Q as int) + b) by (nonlinear_arith)
        requires
            8 * (c1i * (Q as int) + a) <= 8 * (c2i * (Q as int) + b),
    ;
}

/// `floor(log2(value))` of a positive word, with its mantissa in
/// `[2^63, 2^64)`.
proof fn lemma_word_floor(value: int)
    requires
        1 <= value < word(),
    ensures
        0 <= log2_floor(value, 1) <= 63,
        is_log2_floor(value, 1, log2_floor(value, 1)),
        0x8000_0000_0000_0000 <= value * pow2((63 - log2_floor(value, 1)) as nat) < word(),
{
    vstd::arithmetic::power2::lemma2_to64();
    vstd::arithmetic::power2::lemma2_to64_rest();
    lemma_bit_length_exists(value, 64);
    let b = bit_length(value);
    if b > 64 {
        crate::enclosure::squaring::lemma_pow2_mono(64, (b - 1) as nat);
    }
    let k = b - 1;
    let e = (63 - k) as nat;
    lemma_pow2_adds(k as nat, e);
    lemma_pow2_adds((k + 1) as nat, e);
    lemma_pow2_pos(e);
    assert(pow2(63) <= value * pow2(e)) by (nonlinear_arith)
        requires
            pow2(k as nat) <= value,
            pow2(63) == pow2(k as nat) * pow2(e),
            pow2(e) > 0,
    ;
    assert(value * pow2(e) < pow2(64)) by (nonlinear_arith)
        requires
            value < pow2((k + 1) as nat),
            pow2(64) == pow2((k + 1) as nat) * pow2(e),
            pow2(e) > 0,
    ;
    assert(is_log2_floor(value, 1, k));
    lemma_log2_floor_is(value, 1, k);
}

/// At a decimal scale, the rounded-down Q61 logarithm never exceeds the
/// rounded-up one.
proof fn lemma_log2_q_pow10_ordered(value: int, power: int)
    requires
        1 <= value < word(),
        0 <= power < 20,
    ensures
        log2_q_pow10_spec(value, power, false) <= log2_q_pow10_spec(value, power, true),
{
    reveal(log2_q_pow10_spec);
    lemma_log2_pow10_fits(power);
    if !(exists|j: int| #[trigger] is_exact_log2(value, crate::arith::pow10(power as nat) as int, j)) {
        lemma_word_floor(value);
        let k = log2_floor(value, 1);
        let m = value * pow2((63 - k) as nat);
        lemma_fraction_sides(m);
        let lo = log2_fraction_spec(m, false);
        let hi = log2_fraction_spec(m, true);
        lemma_pack_ordered(k, lo.0, lo.1, hi.0, hi.1);
    }
}

/// At a scale that is a power of ten, `log2_lower` never exceeds
/// `log2_upper`.
pub proof fn lemma_log2_decimal_ordered(value: u64, scale: u64)
    requires
        exists|p: int| #[trigger] crate::kernel::wide::is_decimal_power(scale as int, p),
    ensures
        log2_spec(value as int, scale as int, false) matches Ok(lower) ==> (log2_spec(value as int, scale as int, true) matches Ok(
            upper,
        ) ==> lower <= upper),
{
    reveal(log2_q_spec);
    if scale != 0 && value != 0 {
        let p = choose|p: int| crate::kernel::wide::is_decimal_power(scale as int, p);
        lemma_log2_q_pow10_ordered(value as int, p);
        let q_lo = log2_q_pow10_spec(value as int, p, false);
        let q_hi = log2_q_pow10_spec(value as int, p, true);
        lemma_q_is_pow2();
        assert(q_lo * scale <= q_hi * scale) by (nonlinear_arith)
            requires
                q_lo <= q_hi,
                scale > 0,
        ;
        lemma_directed(q_lo * scale, Q as int);
        lemma_directed(q_hi * scale, Q as int);
        lemma_div_le(q_lo * scale, q_hi * scale, Q as int);
    }
}

} // verus!

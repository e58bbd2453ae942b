//! The `exp2` evaluations are ordered: the rounded-down evaluation at a Q61
//! exponent never exceeds the rounded-up one at the same or a larger
//! exponent.
use crate::arith::{directed, lemma_directed, lemma_div_le, lemma_div_mod, lemma_mul_le, word};
use crate::enclosure::exp2_table::{advanced_lower, full_step_series, lemma_exp2_entry_fits};
use crate::kernel::exp2::{exp2_mantissa_spec, exp2_q_spec, exp2_series_spec, exp2_spec, table_step, LN2_Q64_LOWER, LN2_Q64_UPPER};
use crate::kernel::scale::{lemma_q_is_pow2, project_binary_spec, Q};
use crate::kernel::tables::{exp2_lower_at, exp2_upper_at};
use vstd::arithmetic::power2::{lemma_pow2_adds, lemma_pow2_pos, pow2};
use vstd::prelude::*;

verus! {

/// `(a * b / 2^64) / 2048` grows with both factors.
pub(crate) proof fn lemma_scaled_product_mono(a1: int, b1: int, a2: int, b2: int)
    requires
        0 <= a1 <= a2,
        0 <= b1 <= b2,
    ensures
        0 <= (a1 * b1 / word()) / 2048 <= (a2 * b2 / word()) / 2048,
{
    lemma_mul_le(a1, b1, a2, b2);
    lemma_div_le(0, a1 * b1, word());
    lemma_div_le(a1 * b1, a2 * b2, word());
    lemma_div_le(0, a1 * b1 / word(), 2048);
    lemma_div_le(a1 * b1 / word(), a2 * b2 / word(), 2048);
}

/// The series grows with the residual, and the padded series lies above
/// the truncated one.
pub proof fn lemma_series_ordered(r1: int, r2: int, up1: bool, up2: bool)
    requires
        0 <= r1 <= r2,
        up1 ==> up2,
    ensures
        0 <= exp2_series_spec(r1, up1) <= exp2_series_spec(r2, up2),
{
    let w = word();
    let l1 = if up1 { LN2_Q64_UPPER as int } else { LN2_Q64_LOWER as int };
    let l2 = if up2 { LN2_Q64_UPPER as int } else { LN2_Q64_LOWER as int };
    let y1 = r1 * l1 / w;
    let y2 = r2 * l2 / w;
    lemma_mul_le(r1, l1, r2, l2);
    lemma_div_le(0, r1 * l1, w);
    lemma_div_le(r1 * l1, r2 * l2, w);
    let s1 = (y1 * y1 / w) / 2048;
    let s2 = (y2 * y2 / w) / 2048;
    lemma_scaled_product_mono(y1, y1, y2, y2);
    let c1 = (s1 * y1 / w) / 2048;
    let c2 = (s2 * y2 / w) / 2048;
    lemma_scaled_product_mono(s1, y1, s2, y2);
    let t1 = s1 / 0x400_0000;
    let t2 = s2 / 0x400_0000;
    lemma_div_le(0, s1, 0x400_0000);
    lemma_div_le(s1, s2, 0x400_0000);
    lemma_mul_le(t1, t1, t2, t2);
    let f1 = (t1 * t1) / 0x80_0000;
    let f2 = (t2 * t2) / 0x80_0000;
    lemma_div_le(0, t1 * t1, 0x80_0000);
    lemma_div_le(t1 * t1, t2 * t2, 0x80_0000);
    lemma_div_le(0, s1, 2);
    lemma_div_le(s1, s2, 2);
    lemma_div_le(0, c1, 6);
    lemma_div_le(c1, c2, 6);
    lemma_div_le(0, f1, 24);
    lemma_div_le(f1, f2, 24);
}

/// A mantissa with its carry folded back in: `mantissa * 2^carry`.
pub open spec fn carried(p: (int, bool)) -> int {
    if p.1 {
        2 * p.0
    } else {
        p.0
    }
}

/// A table entry advanced by a series value, before padding and carry.
pub open spec fn advanced(base: int, series: int) -> int {
    base + (base * series / word()) / 2048
}

/// The rounded-down mantissa stays at or below its advanced entry, the
/// rounded-up one at or above.
proof fn lemma_mantissa_sides(index: int, series_lower: int, series_upper: int)
    requires
        0 <= index < 2048,
        series_lower >= 0,
        series_upper >= 0,
    ensures
        0 <= carried(exp2_mantissa_spec(index, series_lower, false)) <= advanced(exp2_lower_at(index) as int, series_lower),
        carried(exp2_mantissa_spec(index, series_upper, true)) >= advanced(exp2_upper_at(index) as int, series_upper),
        exp2_mantissa_spec(index, series_lower, false).0 >= 0,
        exp2_mantissa_spec(index, series_upper, true).0 >= 0,
{
    let lo = exp2_lower_at(index) as int;
    let hi = exp2_upper_at(index) as int;
    lemma_scaled_product_mono(0, 0, lo, series_lower);
    lemma_scaled_product_mono(0, 0, hi, series_upper);
    lemma_directed(advanced(lo, series_lower), 2);
    lemma_directed(advanced(hi, series_upper) + 2, 2);
}

/// The mantissa and binary exponent that `exp2_q_spec` projects.
pub open spec fn exp2_parts(q: int, up: bool) -> (int, int) {
    let integer = q / (Q as int);
    let fraction = q % (Q as int);
    if fraction == 0 {
        (Q as int, integer)
    } else {
        let fraction_q64 = fraction * 8;
        let index = fraction_q64 / table_step();
        let residual = (fraction_q64 % table_step()) * 2048;
        let (mantissa, carry) = exp2_mantissa_spec(index, exp2_series_spec(residual, up), up);
        (mantissa, integer + (if carry { 1int } else { 0 }) - 2)
    }
}

/// `exp2_q_spec` projects `exp2_parts`.
proof fn lemma_exp2_q_parts(q: int, scale: int, up: bool)
    ensures
        exp2_q_spec(q, scale, up) == project_binary_spec(exp2_parts(q, up).0, exp2_parts(q, up).1, scale, up),
{
    reveal(exp2_q_spec);
}

/// The table entry of a Q61 fraction.
pub open spec fn fraction_index(f: int) -> int {
    (f * 8) / table_step()
}

/// The residual of a Q61 fraction within its table step.
pub open spec fn fraction_residual(f: int) -> int {
    ((f * 8) % table_step()) * 2048
}

/// Larger fractions fall at the same or a later entry, and within one
/// entry at the same or a larger residual.
proof fn lemma_fraction_places(f1: int, f2: int)
    requires
        0 <= f1 <= f2 < Q,
    ensures
        0 <= fraction_index(f1) <= fraction_index(f2) < 2048,
        0 <= fraction_residual(f1) <= (table_step() - 1) * 2048,
        fraction_index(f1) == fraction_index(f2) ==> fraction_residual(f1) <= fraction_residual(f2),
{
    lemma_q_is_pow2();
    vstd::arithmetic::power2::lemma2_to64();
    let t = table_step();
    lemma_div_mod(f1 * 8, t);
    lemma_div_mod(f2 * 8, t);
    lemma_div_le(0, f1 * 8, t);
    lemma_div_le(f1 * 8, f2 * 8, t);
    crate::arith::lemma_div_lt_iff(f2 * 8, t, 2048);
}

/// Under a saturating projection onto `scale`, values compared at a common
/// base exponent `b` keep their order: `mantissa * 2^(exponent - 61)`
/// rounded down never exceeds a larger value rounded up.
proof fn lemma_project_ordered(m1: int, e1: int, m2: int, e2: int, b: int, scale: int)
    requires
        scale > 0,
        m1 >= 0,
        m2 >= 0,
        e1 >= b,
        e2 >= b,
        m1 * pow2((e1 - b) as nat) <= m2 * pow2((e2 - b) as nat),
    ensures
        project_binary_spec(m1, e1, scale, false) matches Ok(x) ==> (project_binary_spec(m2, e2, scale, true) matches Ok(y)
            ==> x <= y),
{
    let d: int = if b >= 61 { 0 } else { 61 - b };
    let g = pow2((b - 61 + d) as nat);
    lemma_pow2_pos((b - 61 + d) as nat);
    lemma_pow2_pos(d as nat);
    lemma_project_bracket(m1, e1, b, scale, false);
    lemma_project_bracket(m2, e2, b, scale, true);
    lemma_pow2_adds((e1 - b) as nat, (b - 61 + d) as nat);
    lemma_pow2_adds((e2 - b) as nat, (b - 61 + d) as nat);
    let x1 = m1 * pow2((e1 - b) as nat);
    let x2 = m2 * pow2((e2 - b) as nat);
    assert(m1 * scale * pow2((e1 - 61 + d) as nat) == scale * x1 * g) by (nonlinear_arith)
        requires
            pow2((e1 - 61 + d) as nat) == pow2((e1 - b) as nat) * g,
            x1 == m1 * pow2((e1 - b) as nat),
    ;
    assert(m2 * scale * pow2((e2 - 61 + d) as nat) == scale * x2 * g) by (nonlinear_arith)
        requires
            pow2((e2 - 61 + d) as nat) == pow2((e2 - b) as nat) * g,
            x2 == m2 * pow2((e2 - b) as nat),
    ;
    assert(scale * x1 * g <= scale * x2 * g) by (nonlinear_arith)
        requires
            x1 <= x2,
            scale > 0,
            g > 0,
    ;
    if let Ok(x) = project_binary_spec(m1, e1, scale, false) {
        if let Ok(y) = project_binary_spec(m2, e2, scale, true) {
            assert(x <= y) by (nonlinear_arith)
                requires
                    x * pow2(d as nat) <= y * pow2(d as nat),
                    pow2(d as nat) > 0,
            ;
        }
    }
}

/// The projection of `mantissa * 2^(exponent - 61)` onto `scale`, scaled
/// by `2^d` with `d` the distance from `b` up to `61`, brackets the exact
/// `mantissa * scale * 2^(exponent - 61 + d)`.
proof fn lemma_project_bracket(m: int, e: int, b: int, scale: int, up: bool)
    requires
        scale > 0,
        m >= 0,
        e >= b,
    ensures
        ({
            let d: int = if b >= 61 { 0 } else { 61 - b };
            project_binary_spec(m, e, scale, up) matches Ok(x) ==> (if up {
                x * pow2(d as nat) >= m * scale * pow2((e - 61 + d) as nat)
            } else {
                x * pow2(d as nat) <= m * scale * pow2((e - 61 + d) as nat)
            })
        }),
{
    let d: int = if b >= 61 { 0 } else { 61 - b };
    if e >= 61 {
        lemma_pow2_adds((e - 61) as nat, d as nat);
        assert(m * scale * pow2((e - 61) as nat) * pow2(d as nat) == m * scale * pow2((e - 61 + d) as nat)) by (nonlinear_arith)
            requires
                pow2((e - 61 + d) as nat) == pow2((e - 61) as nat) * pow2(d as nat),
        ;
    } else {
        let p = pow2((61 - e) as nat) as int;
        let h = pow2((e - b) as nat);
        lemma_pow2_pos((61 - e) as nat);
        lemma_pow2_pos((e - b) as nat);
        lemma_pow2_adds((61 - e) as nat, (e - b) as nat);
        assert(d == (61 - e) + (e - b));
        assert(e - 61 + d == e - b);
        lemma_directed(m * scale, p);
        let x = directed(m * scale, p, up);
        if up {
            assert(x * (p * h) >= m * scale * h) by (nonlinear_arith)
                requires
                    x * p >= m * scale,
                    h > 0,
            ;
        } else {
            assert(x * (p * h) <= m * scale * h) by (nonlinear_arith)
                requires
                    x * p <= m * scale,
                    h > 0,
            ;
        }
    }
}

/// The rounded-up entries never decrease.
proof fn lemma_upper_entries_mono(a: int, b: int)
    requires
        0 <= a <= b < 2048,
    ensures
        exp2_upper_at(a) <= exp2_upper_at(b),
    decreases b - a,
{
    if a < b {
        lemma_upper_entries_mono(a, b - 1);
        lemma_exp2_entry_fits(b - 1);
    }
}

/// The truncated series at the largest residual of a table step.
proof fn lemma_full_step_series()
    ensures
        exp2_series_spec(18446744073709549568, false) == full_step_series(),
{
    let y = 18446744073709549568int * (LN2_Q64_LOWER as int) / word();
    assert(y == 12786308645202654239);
    let y2 = (y * y / word()) / 2048;
    assert(12786308645202654239int * 12786308645202654239int / word() == 8862793787191472880);
    assert(y2 == 4327536028902086);
    let y3 = (y2 * y / word()) / 2048;
    assert(4327536028902086int * 12786308645202654239int / word() == 2999619397205062);
    assert(y3 == 1464657908791);
    let y4 = ((y2 / 0x400_0000) * (y2 / 0x400_0000)) / 0x80_0000;
    assert(y2 / 0x400_0000 == 64485311);
    assert(64485311int * 64485311int == 4158355334766721);
    assert(y4 == 495714585);
}

/// The rounded-down parts of a Q61 exponent with integer part `k`, read at
/// base exponent `k - 2`: at most the advanced entry, and below `2^64`.
proof fn lemma_lower_parts(q: int)
    ensures
        ({
            let k = q / (Q as int);
            let (m, e) = exp2_parts(q, false);
            let f = q % (Q as int);
            &&& m >= 0
            &&& e >= k - 2
            &&& m * pow2((e - (k - 2)) as nat) < word()
            &&& f == 0 ==> m * pow2((e - (k - 2)) as nat) == 0x8000_0000_0000_0000
            &&& f != 0 ==> m * pow2((e - (k - 2)) as nat) <= advanced(
                exp2_lower_at(fraction_index(f)) as int,
                exp2_series_spec(fraction_residual(f), false),
            )
        }),
{
    lemma_q_is_pow2();
    vstd::arithmetic::power2::lemma2_to64();
    vstd::arithmetic::power2::lemma2_to64_rest();
    let k = q / (Q as int);
    let f = q % (Q as int);
    lemma_div_mod(q, Q as int);
    let (m, e) = exp2_parts(q, false);
    if f == 0 {
        assert(e - (k - 2) == 2);
    } else {
        let i = fraction_index(f);
        let r = fraction_residual(f);
        lemma_fraction_places(f, f);
        lemma_series_ordered(r, (table_step() - 1) * 2048, false, false);
        lemma_series_ordered(0, r, false, false);
        let s = exp2_series_spec(r, false);
        lemma_mantissa_sides(i, s, 0);
        lemma_exp2_entry_fits(i);
        let c = exp2_mantissa_spec(i, s, false).1;
        assert(m == exp2_mantissa_spec(i, s, false).0);
        assert(e == k + (if c { 1int } else { 0 }) - 2);
        if c {
            assert((e - (k - 2)) as nat == 1);
            assert(m * pow2(1) == carried(exp2_mantissa_spec(i, s, false)));
        } else {
            assert((e - (k - 2)) as nat == 0);
            assert(m * pow2(0) == carried(exp2_mantissa_spec(i, s, false)));
        }
        assert((table_step() - 1) * 2048 == 18446744073709549568);
        lemma_full_step_series();
        lemma_scaled_product_mono(exp2_lower_at(i) as int, s, exp2_lower_at(i) as int, full_step_series());
        assert(advanced(exp2_lower_at(i) as int, s) <= advanced_lower(i));
        if i < 2047 {
            assert(advanced_lower(i) <= exp2_upper_at(i + 1));
        }
    }
}

/// The rounded-up parts of a Q61 exponent with integer part `k2`, read at
/// base exponent `k - 2` for `k <= k2`: at least the advanced entry times
/// `2^(k2 - k)`, and at least `2^63 * 2^(k2 - k)`.
proof fn lemma_upper_parts(q: int, k: int)
    requires
        k <= q / (Q as int),
    ensures
        ({
            let k2 = q / (Q as int);
            let (m, e) = exp2_parts(q, true);
            let f = q % (Q as int);
            &&& m >= 0
            &&& e >= k - 2
            &&& m * pow2((e - (k - 2)) as nat) >= 0x8000_0000_0000_0000 * pow2((k2 - k) as nat)
            &&& f != 0 ==> m * pow2((e - (k - 2)) as nat) >= advanced(
                exp2_upper_at(fraction_index(f)) as int,
                exp2_series_spec(fraction_residual(f), true),
            ) * pow2((k2 - k) as nat)
        }),
{
    lemma_q_is_pow2();
    vstd::arithmetic::power2::lemma2_to64();
    let k2 = q / (Q as int);
    let f = q % (Q as int);
    lemma_div_mod(q, Q as int);
    let (m, e) = exp2_parts(q, true);
    let dk = (k2 - k) as nat;
    lemma_pow2_pos(dk);
    if f == 0 {
        assert(e - (k - 2) == dk + 2);
        lemma_pow2_adds(dk, 2);
        assert(m * pow2((e - (k - 2)) as nat) == 0x8000_0000_0000_0000 * pow2(dk)) by (nonlinear_arith)
            requires
                m == 0x2000_0000_0000_0000,
                pow2((e - (k - 2)) as nat) == pow2(dk) * 4,
        ;
    } else {
        let i = fraction_index(f);
        let r = fraction_residual(f);
        lemma_fraction_places(f, f);
        lemma_series_ordered(0, r, true, true);
        let s = exp2_series_spec(r, true);
        lemma_mantissa_sides(i, 0, s);
        lemma_exp2_entry_fits(i);
        lemma_scaled_product_mono(0, 0, exp2_upper_at(i) as int, s);
        let c = exp2_mantissa_spec(i, s, true).1;
        let cn: nat = if c { 1 } else { 0 };
        assert(e - (k - 2) == dk + cn);
        lemma_pow2_adds(dk, cn);
        let a = carried(exp2_mantissa_spec(i, s, true));
        assert(m * pow2((e - (k - 2)) as nat) == a * pow2(dk)) by (nonlinear_arith)
            requires
                pow2((e - (k - 2)) as nat) == pow2(dk) * pow2(cn),
                a == if c { 2 * m } else { m },
                pow2(cn) == if c { 2int } else { 1 },
        ;
        assert(a * pow2(dk) >= advanced(exp2_upper_at(i) as int, s) * pow2(dk)) by (nonlinear_arith)
            requires
                a >= advanced(exp2_upper_at(i) as int, s),
                pow2(dk) > 0,
        ;
        assert(advanced(exp2_upper_at(i) as int, s) * pow2(dk) >= 0x8000_0000_0000_0000 * pow2(dk)) by (nonlinear_arith)
            requires
                advanced(exp2_upper_at(i) as int, s) >= 0x8000_0000_0000_0000,
                pow2(dk) > 0,
        ;
    }
}

/// The rounded-down evaluation at a Q61 exponent never exceeds the
/// rounded-up one at the same or a larger exponent.
pub proof fn lemma_exp2_q_ordered(q1: int, q2: int, scale: int)
    requires
        scale > 0,
        q1 <= q2,
    ensures
        exp2_q_spec(q1, scale, false) matches Ok(x) ==> (exp2_q_spec(q2, scale, true) matches Ok(y) ==> x <= y),
{
    lemma_q_is_pow2();
    vstd::arithmetic::power2::lemma2_to64();
    vstd::arithmetic::power2::lemma2_to64_rest();
    let qq = Q as int;
    let k1 = q1 / qq;
    let k2 = q2 / qq;
    let f1 = q1 % qq;
    let f2 = q2 % qq;
    lemma_div_mod(q1, qq);
    lemma_div_mod(q2, qq);
    lemma_div_le(q1, q2, qq);
    lemma_exp2_q_parts(q1, scale, false);
    lemma_exp2_q_parts(q2, scale, true);
    lemma_lower_parts(q1);
    lemma_upper_parts(q2, k1);
    let (m1, e1) = exp2_parts(q1, false);
    let (m2, e2) = exp2_parts(q2, true);
    let b = k1 - 2;
    let x1 = m1 * pow2((e1 - b) as nat);
    let x2 = m2 * pow2((e2 - b) as nat);
    let dk = (k2 - k1) as nat;
    if k2 > k1 {
        lemma_pow2_adds(1, (dk - 1) as nat);
        lemma_pow2_pos((dk - 1) as nat);
        assert(0x8000_0000_0000_0000 * pow2(dk) >= word()) by (nonlinear_arith)
            requires
                pow2(dk) == 2 * pow2((dk - 1) as nat),
                pow2((dk - 1) as nat) >= 1,
        ;
    } else {
        assert(dk == 0);
        assert(f1 <= f2);
        if f1 != 0 {
            let i1 = fraction_index(f1);
            let i2 = fraction_index(f2);
            lemma_fraction_places(f1, f2);
            lemma_fraction_places(f2, f2);
            let r1 = fraction_residual(f1);
            let r2 = fraction_residual(f2);
            lemma_exp2_entry_fits(i1);
            if i1 == i2 {
                lemma_series_ordered(r1, r2, false, true);
                lemma_scaled_product_mono(exp2_lower_at(i1) as int, exp2_series_spec(r1, false), exp2_upper_at(i1) as int, exp2_series_spec(r2, true));
            } else {
                lemma_series_ordered(r1, (table_step() - 1) * 2048, false, false);
                lemma_full_step_series();
                lemma_series_ordered(0, r2, true, true);
                lemma_scaled_product_mono(exp2_lower_at(i1) as int, exp2_series_spec(r1, false), exp2_lower_at(i1) as int, full_step_series());
                lemma_scaled_product_mono(0, 0, exp2_upper_at(i2) as int, exp2_series_spec(r2, true));
                lemma_upper_entries_mono(i1 + 1, i2);
                assert(advanced_lower(i1) <= exp2_upper_at(i1 + 1));
            }
        }
    }
    assert(x1 <= x2);
    lemma_project_ordered(m1, e1, m2, e2, b, scale);
}

/// `exp2_lower` never exceeds `exp2_upper`.
pub proof fn lemma_exp2_ordered(exponent: int, scale: int)
    requires
        scale >= 0,
    ensures
        exp2_spec(exponent, scale, false) matches Ok(lower) ==> (exp2_spec(exponent, scale, true) matches Ok(upper) ==> lower
            <= upper),
{
    if scale > 0 {
        lemma_q_is_pow2();
        lemma_directed(exponent * (Q as int), scale);
        lemma_exp2_q_ordered(directed(exponent * (Q as int), scale, false), directed(exponent * (Q as int), scale, true), scale);
    }
}

} // verus!

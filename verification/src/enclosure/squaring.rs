//! Directed binary squaring stays on its side: each directed product of
//! normalized values is bounded by the exact product, so a power computed
//! by squaring bounds the exact power, up to an upper bound that gives up
//! by saturating its exponent.
use crate::arith::{directed, lemma_directed, lemma_mul_le, word};
use crate::enclosure::compound_encloses;
use crate::kernel::compound::{
    binary_steps, bit_length, compound_binary_spec, is_bit_length, mul_normalized_spec,
    normalize_spec, normalized_one, project_normalized_spec, Normalized,
};
use crate::kernel::scale::{lemma_q_is_pow2, Q};
use vstd::arithmetic::power::{lemma_pow0, lemma_pow1, lemma_pow_adds, lemma_pow_positive, pow};
use vstd::arithmetic::power2::{lemma_pow2_adds, lemma_pow2_pos, lemma_pow2_strictly_increases, pow2};
use vstd::prelude::*;

verus! {

/// `mantissa * 2^exponent`: a normalized value times `2^63`.
pub open spec fn scaled_value(n: Normalized) -> int {
    n.mantissa * pow2(n.exponent as nat)
}

/// A normalized value of at least one.
pub open spec fn is_normal(n: Normalized) -> bool {
    n.mantissa >= 0x8000_0000_0000_0000 && n.exponent >= 0
}

/// `n` bounds `(num / den)^k` from below (`up == false`) or from above
/// (`up == true`); an upper bound may instead have saturated its exponent.
pub open spec fn bounds_power(n: Normalized, num: int, den: int, k: nat, up: bool) -> bool {
    if up {
        n.exponent == i64::MAX || scaled_value(n) * pow(den, k) >= 0x8000_0000_0000_0000 * pow(num, k)
    } else {
        scaled_value(n) * pow(den, k) <= 0x8000_0000_0000_0000 * pow(num, k)
    }
}

/// Powers of two are monotone.
pub proof fn lemma_pow2_mono(a: nat, b: nat)
    requires
        a <= b,
    ensures
        pow2(a) <= pow2(b),
{
    if a < b {
        lemma_pow2_strictly_increases(a, b);
    }
}

/// Every value in `[1, 2^b)` has a bit length.
pub(crate) proof fn lemma_bit_length_exists(v: int, b: nat)
    requires
        1 <= b <= 128,
        1 <= v < pow2(b),
    ensures
        is_bit_length(v, bit_length(v)),
    decreases b,
{
    if v >= pow2((b - 1) as nat) {
        assert(is_bit_length(v, b as int));
    } else {
        if b == 1 {
            vstd::arithmetic::power2::lemma2_to64();
        } else {
            lemma_bit_length_exists(v, (b - 1) as nat);
        }
    }
}

/// Normalizing a Q61 value of at least one keeps it on the promised side:
/// the scaled value is `4 * v` rounded in the promised direction.
pub proof fn lemma_normalize_side(v: int, up: bool)
    requires
        pow2(61) <= v < pow2(126),
    ensures
        is_normal(normalize_spec(v, up)),
        normalize_spec(v, up).exponent < 128,
        !up ==> scaled_value(normalize_spec(v, up)) <= 4 * v,
        up ==> scaled_value(normalize_spec(v, up)) >= 4 * v,
{
    vstd::arithmetic::power2::lemma2_to64();
    vstd::arithmetic::power2::lemma2_to64_rest();
    lemma_pow2_mono(126, 128);
    lemma_bit_length_exists(v, 128);
    let b = bit_length(v);
    let n = normalize_spec(v, up);
    if b < 62 {
        lemma_pow2_mono(b as nat, 61);
    }
    if b > 127 {
        lemma_pow2_mono(126, (b - 1) as nat);
    }
    assert(62 <= b <= 127);
    if b <= 64 {
        let p = pow2((64 - b) as nat);
        lemma_pow2_adds((b - 1) as nat, (64 - b) as nat);
        lemma_pow2_adds(b as nat, (64 - b) as nat);
        lemma_pow2_adds((64 - b) as nat, (b - 62) as nat);
        lemma_pow2_pos((64 - b) as nat);
        assert(pow2((b - 1) as nat) * p <= v * p < pow2(b as nat) * p) by (nonlinear_arith)
            requires
                pow2((b - 1) as nat) <= v < pow2(b as nat),
                p > 0,
        ;
        assert((b - 1) + (64 - b) == 63);
        assert(b + (64 - b) == 64);
        assert((64 - b) + (b - 62) == 2);
        assert(n.mantissa == v * p);
        assert(n.exponent == b - 62);
        assert(scaled_value(n) == v * p * pow2((b - 62) as nat));
        assert(scaled_value(n) == 4 * v) by (nonlinear_arith)
            requires
                scaled_value(n) == v * p * pow2((b - 62) as nat),
                p * pow2((b - 62) as nat) == 4,
        ;
    } else {
        let p = pow2((b - 64) as nat) as int;
        lemma_pow2_pos((b - 64) as nat);
        lemma_pow2_adds(63, (b - 64) as nat);
        lemma_pow2_adds(64, (b - 64) as nat);
        lemma_pow2_adds((b - 64) as nat, 2);
        lemma_pow2_adds(64, (b - 62) as nat);
        lemma_pow2_adds(63, (b - 61) as nat);
        assert(63 + (b - 64) == b - 1);
        assert(64 + (b - 64) == b);
        assert((b - 64) + 2 == b - 62);
        lemma_directed(v, p);
        let lo = directed(v, p, false);
        let m = directed(v, p, up);
        crate::arith::lemma_div_mod(v, p);
        assert(v < (lo + 1) * p) by (nonlinear_arith)
            requires
                v == lo * p + v % p,
                v % p < p,
        ;
        assert(lo >= 0x8000_0000_0000_0000) by (nonlinear_arith)
            requires
                0x8000_0000_0000_0000 * p <= v,
                v < (lo + 1) * p,
                p > 0,
        {
            if lo < 0x8000_0000_0000_0000 {
                assert((lo + 1) * p <= 0x8000_0000_0000_0000 * p);
            }
        }
        assert(lo < word()) by (nonlinear_arith)
            requires
                v < word() * p,
                lo * p <= v,
                p > 0,
        {
            if lo >= word() {
                assert(lo * p >= word() * p);
            }
        }
        assert(m <= word());
        assert(m * (p * 4) == (m * p) * 4) by (nonlinear_arith);
        if m >= word() {
            assert(n.mantissa == 0x8000_0000_0000_0000);
            assert(n.exponent == b - 61);
            assert(scaled_value(n) == word() * pow2((b - 62) as nat)) by (nonlinear_arith)
                requires
                    scaled_value(n) == 0x8000_0000_0000_0000 * pow2((b - 61) as nat),
                    pow2((b - 61) as nat) == 2 * pow2((b - 62) as nat),
            ;
        } else {
            assert(n.mantissa == m);
            assert(n.exponent == b - 62);
        }
        assert(scaled_value(n) == m * p * 4);
        if up {
            assert(m * p * 4 >= 4 * v);
        } else {
            assert(m * p * 4 <= 4 * v);
        }
    }
}

/// A directed product of normalized values of at least one is bounded by
/// the exact product on the promised side; a saturated exponent stays
/// saturated.
pub proof fn lemma_mul_normalized_side(a: Normalized, b: Normalized, up: bool)
    requires
        is_normal(a),
        is_normal(b),
    ensures
        is_normal(mul_normalized_spec(a, b, up)),
        !up ==> scaled_value(mul_normalized_spec(a, b, up)) * 0x8000_0000_0000_0000 <= scaled_value(a) * scaled_value(b),
        up ==> (mul_normalized_spec(a, b, up).exponent == i64::MAX || scaled_value(mul_normalized_spec(a, b, up))
            * 0x8000_0000_0000_0000 >= scaled_value(a) * scaled_value(b)),
        a.exponent == i64::MAX || b.exponent == i64::MAX ==> mul_normalized_spec(a, b, up).exponent == i64::MAX,
{
    vstd::arithmetic::power2::lemma2_to64();
    vstd::arithmetic::power2::lemma2_to64_rest();
    let r = mul_normalized_spec(a, b, up);
    let p = a.mantissa * b.mantissa;
    let e = a.exponent + b.exponent;
    let wide = p >= 0x8000_0000_0000_0000_0000_0000_0000_0000;
    let c: int = if wide { 1 } else { 0 };
    let d: int = if wide { word() } else { 0x8000_0000_0000_0000 };
    let m = directed(p, d, up);
    lemma_directed(p, d);
    lemma_mul_le(0x8000_0000_0000_0000, 0x8000_0000_0000_0000, a.mantissa as int, b.mantissa as int);
    lemma_mul_le(a.mantissa as int, b.mantissa as int, u64::MAX as int, u64::MAX as int);
    let lo = directed(p, d, false);
    crate::arith::lemma_div_mod(p, d);
    assert(p < (lo + 1) * d) by (nonlinear_arith)
        requires
            p == lo * d + p % d,
            p % d < d,
    ;
    assert(lo >= 0x8000_0000_0000_0000) by (nonlinear_arith)
        requires
            0x8000_0000_0000_0000 * d <= p,
            p < (lo + 1) * d,
            d > 0,
    {
        if lo < 0x8000_0000_0000_0000 {
            assert((lo + 1) * d <= 0x8000_0000_0000_0000 * d);
        }
    }
    assert(lo < word()) by (nonlinear_arith)
        requires
            p < word() * d,
            lo * d <= p,
            d > 0,
    {
        if lo >= word() {
            assert(lo * d >= word() * d);
        }
    }
    assert(m >= 0x8000_0000_0000_0000 && m <= word());
    // the exact exponent of the result before saturation
    let k: int = e + c;
    assert(pow2(63) * pow2(c as nat) == d) by {
        lemma_pow2_adds(63, c as nat);
    }
    lemma_pow2_adds(a.exponent as nat, b.exponent as nat);
    lemma_pow2_adds(k as nat, 63);
    lemma_pow2_adds(e as nat, c as nat);
    lemma_pow2_adds(e as nat, (63 + c) as nat);
    lemma_pow2_adds(63, c as nat);
    assert(pow2((k + 63) as nat) == pow2(e as nat) * d);
    // the product of the scaled operands
    assert(scaled_value(a) * scaled_value(b) == p * pow2(e as nat)) by (nonlinear_arith)
        requires
            scaled_value(a) == a.mantissa * pow2(a.exponent as nat),
            scaled_value(b) == b.mantissa * pow2(b.exponent as nat),
            pow2(e as nat) == pow2(a.exponent as nat) * pow2(b.exponent as nat),
            p == a.mantissa * b.mantissa,
    ;
    // m * 2^k * 2^63 == m * d * 2^e
    assert(m * pow2(k as nat) * pow2(63) == (m * d) * pow2(e as nat)) by (nonlinear_arith)
        requires
            pow2(k as nat) * pow2(63) == pow2(e as nat) * d,
    ;
    lemma_pow2_pos(e as nat);
    if !up {
        assert((m * d) * pow2(e as nat) <= p * pow2(e as nat)) by (nonlinear_arith)
            requires
                m * d <= p,
                pow2(e as nat) > 0,
        ;
    } else {
        assert((m * d) * pow2(e as nat) >= p * pow2(e as nat)) by (nonlinear_arith)
            requires
                m * d >= p,
                pow2(e as nat) > 0,
        ;
    }
    if m >= word() {
        assert(up);
        lemma_pow2_adds(63, (k + 1) as nat);
        lemma_pow2_adds(64, k as nat);
        assert(r.mantissa == 0x8000_0000_0000_0000);
        if k + 1 <= i64::MAX {
            assert(r.exponent == k + 1);
            assert(scaled_value(r) == m * pow2(k as nat)) by (nonlinear_arith)
                requires
                    scaled_value(r) == 0x8000_0000_0000_0000 * pow2((k + 1) as nat),
                    pow2(63) * pow2((k + 1) as nat) == pow2(64) * pow2(k as nat),
                    pow2(63) == 0x8000_0000_0000_0000,
                    pow2(64) == m,
            ;
        } else {
            assert(r.exponent == i64::MAX);
        }
    } else {
        assert(r.mantissa == m);
        if k <= i64::MAX {
            assert(r.exponent == k);
        } else {
            assert(r.exponent == i64::MAX);
            lemma_pow2_mono(i64::MAX as nat, k as nat);
            assert(scaled_value(r) <= m * pow2(k as nat)) by (nonlinear_arith)
                requires
                    scaled_value(r) == m * pow2(i64::MAX as nat),
                    pow2(i64::MAX as nat) <= pow2(k as nat),
                    m >= 0,
            ;
        }
    }
}

/// From `w * h * x <= h * h * y` with `h > 0`: `w * x <= h * y`.
proof fn lemma_cancel_half(w: int, h: int, x: int, y: int)
    requires
        h > 0,
        (w * h) * x <= (h * h) * y,
    ensures
        w * x <= h * y,
{
    assert((w * x) * h <= (h * y) * h) by (nonlinear_arith)
        requires
            (w * h) * x <= (h * h) * y,
    ;
    assert(w * x <= h * y) by (nonlinear_arith)
        requires
            (w * x) * h <= (h * y) * h,
            h > 0,
    ;
}

/// The directed product of bounds of `(num / den)^ka` and `(num / den)^kb`
/// bounds `(num / den)^(ka + kb)` on the same side.
pub proof fn lemma_product_bounds(a: Normalized, b: Normalized, num: int, den: int, ka: nat, kb: nat, up: bool)
    requires
        is_normal(a),
        is_normal(b),
        num > 0,
        den > 0,
        bounds_power(a, num, den, ka, up),
        bounds_power(b, num, den, kb, up),
    ensures
        is_normal(mul_normalized_spec(a, b, up)),
        bounds_power(mul_normalized_spec(a, b, up), num, den, ka + kb, up),
{
    let r = mul_normalized_spec(a, b, up);
    lemma_mul_normalized_side(a, b, up);
    lemma_pow_adds(den, ka, kb);
    lemma_pow_adds(num, ka, kb);
    lemma_pow_positive(den, ka);
    lemma_pow_positive(den, kb);
    lemma_pow_positive(num, ka);
    lemma_pow_positive(num, kb);
    lemma_pow2_pos(a.exponent as nat);
    lemma_pow2_pos(b.exponent as nat);
    lemma_pow2_pos(r.exponent as nat);
    let h: int = 0x8000_0000_0000_0000;
    let w = scaled_value(r);
    let x = scaled_value(a);
    let y = scaled_value(b);
    let da = pow(den, ka);
    let db = pow(den, kb);
    let na = pow(num, ka);
    let nb = pow(num, kb);
    assert(x >= 0 && y >= 0 && w >= 0) by (nonlinear_arith)
        requires
            x == a.mantissa * pow2(a.exponent as nat),
            y == b.mantissa * pow2(b.exponent as nat),
            w == r.mantissa * pow2(r.exponent as nat),
            a.mantissa >= 0,
            b.mantissa >= 0,
            r.mantissa >= 0,
    ;
    if !up {
        lemma_mul_le(x * da, y * db, h * na, h * nb);
        assert((w * h) * (da * db) <= (h * h) * (na * nb)) by (nonlinear_arith)
            requires
                w * h <= x * y,
                (x * da) * (y * db) <= (h * na) * (h * nb),
                da > 0,
                db > 0,
        ;
        lemma_cancel_half(w, h, da * db, na * nb);
    } else if r.exponent != i64::MAX {
        assert(a.exponent != i64::MAX && b.exponent != i64::MAX);
        lemma_mul_le(h * na, h * nb, x * da, y * db);
        assert((h * h) * (na * nb) <= (w * h) * (da * db)) by (nonlinear_arith)
            requires
                w * h >= x * y,
                (x * da) * (y * db) >= (h * na) * (h * nb),
                da > 0,
                db > 0,
        ;
        assert(h * (na * nb) <= w * (da * db)) by (nonlinear_arith)
            requires
                (h * h) * (na * nb) <= (w * h) * (da * db),
                h > 0,
        ;
    }
}

/// Directed binary squaring from a bound of `(num / den)^ka` with a factor
/// bounding `(num / den)^kf` bounds `(num / den)^(ka + kf * n)`.
pub proof fn lemma_steps_bounds(result: Normalized, factor: Normalized, n: nat, num: int, den: int, ka: nat, kf: nat, up: bool)
    requires
        is_normal(result),
        is_normal(factor),
        num > 0,
        den > 0,
        bounds_power(result, num, den, ka, up),
        bounds_power(factor, num, den, kf, up),
    ensures
        is_normal(binary_steps(result, factor, n, up)),
        bounds_power(binary_steps(result, factor, n, up), num, den, ka + kf * n, up),
    decreases n,
{
    if n == 0 {
        assert(ka + kf * n == ka);
    } else {
        let next = if n % 2 == 1 { mul_normalized_spec(result, factor, up) } else { result };
        let kn: nat = if n % 2 == 1 { ka + kf } else { ka };
        if n % 2 == 1 {
            lemma_product_bounds(result, factor, num, den, ka, kf, up);
        }
        assert(n == 2 * (n / 2) + n % 2);
        if n / 2 == 0 {
            assert(kn == ka + kf * n) by (nonlinear_arith)
                requires
                    n == 1,
                    kn == ka + kf,
            ;
        } else {
            lemma_product_bounds(factor, factor, num, den, kf, kf, up);
            lemma_steps_bounds(next, mul_normalized_spec(factor, factor, up), n / 2, num, den, kn, kf + kf, up);
            assert(kn == ka + kf * (n % 2)) by (nonlinear_arith)
                requires
                    n % 2 == 1 ==> kn == ka + kf,
                    n % 2 != 1 ==> kn == ka,
                    0 <= n % 2 < 2,
            ;
            assert(kn + (kf + kf) * (n / 2) == ka + kf * n) by (nonlinear_arith)
                requires
                    n == 2 * (n / 2) + n % 2,
                    kn == ka + kf * (n % 2),
            ;
        }
    }
}

/// Projecting a normalized value onto `scale` raw units rounds on the
/// promised side of `scale * scaled_value(n) / 2^63`; a saturated exponent
/// never projects.
pub proof fn lemma_project_side(n: Normalized, scale: int, up: bool)
    requires
        is_normal(n),
        scale > 0,
    ensures
        project_normalized_spec(n, scale, up) matches Ok(bound) ==> n.exponent != i64::MAX && (if up {
            bound * 0x8000_0000_0000_0000 >= scale * scaled_value(n)
        } else {
            bound * 0x8000_0000_0000_0000 <= scale * scaled_value(n)
        }),
{
    vstd::arithmetic::power2::lemma2_to64();
    vstd::arithmetic::power2::lemma2_to64_rest();
    let m = n.mantissa as int;
    let e = n.exponent as int;
    lemma_pow2_pos(e as nat);
    if e >= 63 {
        lemma_pow2_adds((e - 63) as nat, 63);
        assert(m * scale * pow2((e - 63) as nat) * pow2(63) == scale * (m * pow2(e as nat))) by (nonlinear_arith)
            requires
                pow2((e - 63) as nat) * pow2(63) == pow2(e as nat),
        ;
        if e == i64::MAX {
            lemma_pow2_mono(64, (e - 63) as nat);
            assert(m * scale * pow2((e - 63) as nat) >= pow2(64)) by (nonlinear_arith)
                requires
                    m >= 1,
                    scale >= 1,
                    pow2((e - 63) as nat) >= pow2(64),
            ;
        }
    } else {
        let q = pow2((63 - e) as nat) as int;
        lemma_pow2_pos((63 - e) as nat);
        lemma_pow2_adds((63 - e) as nat, e as nat);
        assert(q * pow2(e as nat) == pow2(63));
        lemma_directed(m * scale, q);
        let v = directed(m * scale, q, up);
        if up {
            assert(v * pow2(63) >= scale * (m * pow2(e as nat))) by (nonlinear_arith)
                requires
                    v * q >= m * scale,
                    q * pow2(e as nat) == pow2(63),
                    pow2(e as nat) > 0,
            ;
        } else {
            assert(v * pow2(63) <= scale * (m * pow2(e as nat))) by (nonlinear_arith)
                requires
                    v * q <= m * scale,
                    q * pow2(e as nat) == pow2(63),
                    pow2(e as nat) > 0,
            ;
        }
    }
}

/// Beyond the series domain, compounding by directed binary squaring
/// encloses `scale * (1 + (rate / scale) / periods)^elapsed` on the
/// promised side.
pub proof fn lemma_compound_binary_encloses(rate: u64, periods: u64, elapsed: u64, scale: u64, up: bool)
    requires
        periods > 0,
        scale > 0,
    ensures
        compound_binary_spec(rate, periods, elapsed, scale, up) matches Ok(bound) ==> compound_encloses(
            bound as int,
            rate as int,
            periods as int,
            elapsed as int,
            scale as int,
            up,
        ),
{
    vstd::arithmetic::power2::lemma2_to64();
    vstd::arithmetic::power2::lemma2_to64_rest();
    lemma_q_is_pow2();
    let den = scale * periods;
    let num = den + rate;
    let h: int = 0x8000_0000_0000_0000;
    assert(den == periods * scale) by (nonlinear_arith)
        requires
            den == scale * periods,
    ;
    lemma_mul_le(1, 1, periods as int, scale as int);
    let rate_q = directed(rate * Q, periods * scale, up);
    lemma_directed(rate * Q, periods * scale);
    assert(0 <= rate * Q <= (u64::MAX as int) * Q) by (nonlinear_arith)
        requires
            0 <= rate <= u64::MAX,
            Q > 0,
    ;
    assert(directed(rate * Q, periods * scale, false) <= rate * Q) by (nonlinear_arith)
        requires
            directed(rate * Q, periods * scale, false) * (periods * scale) <= rate * Q,
            periods * scale >= 1,
            rate * Q >= 0,
            directed(rate * Q, periods * scale, false) >= 0,
    ;
    let v = Q + rate_q;
    lemma_pow2_adds(64, 61);
    lemma_pow2_adds(125, 1);
    assert(pow2(125) == pow2(64) * pow2(61));
    assert(rate * Q <= pow2(125) - Q) by (nonlinear_arith)
        requires
            rate * Q <= (u64::MAX as int) * Q,
            pow2(125) == pow2(64) * pow2(61),
            pow2(64) == u64::MAX + 1,
            pow2(61) == Q,
    ;
    assert(0 <= rate_q <= rate * Q + 1);
    assert(pow2(61) <= v < pow2(126));
    let base = normalize_spec(v, up);
    lemma_normalize_side(v, up);
    lemma_pow1(den);
    lemma_pow1(num);
    if up {
        assert(scaled_value(base) * den >= h * num) by (nonlinear_arith)
            requires
                scaled_value(base) >= 4 * v,
                v == Q + rate_q,
                rate_q * (periods * scale) >= rate * Q,
                den == periods * scale,
                den > 0,
                num == den + rate,
                h == 4 * Q,
        ;
    } else {
        assert(scaled_value(base) * den <= h * num) by (nonlinear_arith)
            requires
                scaled_value(base) <= 4 * v,
                v == Q + rate_q,
                rate_q * (periods * scale) <= rate * Q,
                den == periods * scale,
                den > 0,
                num == den + rate,
                h == 4 * Q,
        ;
    }
    assert(bounds_power(base, num, den, 1, up));
    let one = normalized_one();
    lemma_pow0(den);
    lemma_pow0(num);
    assert(scaled_value(one) == h);
    assert(bounds_power(one, num, den, 0, up));
    let t = elapsed as nat;
    lemma_steps_bounds(one, base, t, num, den, 0, 1, up);
    let fin = binary_steps(one, base, t, up);
    assert(bounds_power(fin, num, den, t, up));
    lemma_project_side(fin, scale as int, up);
    lemma_pow_positive(den, t);
    let dt = pow(den, t);
    let nt = pow(num, t);
    let w = scaled_value(fin);
    if let Ok(bound) = project_normalized_spec(fin, scale as int, up) {
        if up {
            assert(bound * dt >= scale * nt) by (nonlinear_arith)
                requires
                    bound * h >= scale * w,
                    w * dt >= h * nt,
                    dt > 0,
                    h > 0,
                    scale > 0,
            {
                assert(bound * h * dt >= scale * w * dt);
                assert(scale * (w * dt) >= scale * (h * nt));
            }
        } else {
            assert(bound * dt <= scale * nt) by (nonlinear_arith)
                requires
                    bound * h <= scale * w,
                    w * dt <= h * nt,
                    dt > 0,
                    h > 0,
                    scale > 0,
            {
                assert(bound * h * dt <= scale * w * dt);
                assert(scale * (w * dt) <= scale * (h * nt));
            }
        }
    }
}

} // verus!

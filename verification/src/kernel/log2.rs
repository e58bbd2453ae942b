//! Certified bounds for `log2(x)` from a 2048-entry table, exact
//! reciprocals of the table nodes, and a quintic series.
use crate::arith::{directed, lemma_directed, lemma_div_le, lemma_div_lt_iff, lemma_div_mod, lemma_div_unique, lemma_mul_le, pair_results, pow10, word};
use crate::error::MathError;
use crate::kernel::scale::{
    lemma_q_is_pow2, normalize_q63_spec, normalize_unsigned_q63, normalize_unsigned_q63_bounds, pow2_u128,
    project_signed_q, project_signed_spec, Q,
};
use crate::kernel::tables::{log2_lower_at, log2_lower_entry, log2_upper_at, log2_upper_entry, LOG2_POW10_LOWER, LOG2_POW10_UPPER};
use crate::kernel::wide::{decimal_exponent, div_rem_128_by_64, lemma_leading_zeros, multiply_high};
use vstd::arithmetic::power2::{lemma_pow2_adds, lemma_pow2_pos, lemma_pow2_strictly_increases, pow2};
use vstd::prelude::*;

verus! {

/// `log2(e)` in Q63, rounded down.
pub const LOG2E_Q63_LOWER: u64 = 0xB8AA_3B29_5C17_F0BB;

/// `log2(e)` in Q63, rounded up.
pub const LOG2E_Q63_UPPER: u64 = 0xB8AA_3B29_5C17_F0BC;

/// `k` is `floor(log2(value / scale))`: `2^k <= value / scale < 2^(k + 1)`,
/// written as the Q63 mantissa `value * 2^(63 - k) / scale` lying in
/// `[2^63, 2^64)`.
pub open spec fn is_log2_floor(value: int, scale: int, k: int) -> bool {
    &&& -64 <= k <= 63
    &&& scale * pow2(63) <= value * pow2((63 - k) as nat)
    &&& value * pow2((63 - k) as nat) < scale * pow2(64)
}

/// `floor(log2(value / scale))` for positive words.
pub open spec fn log2_floor(value: int, scale: int) -> int {
    choose|k: int| is_log2_floor(value, scale, k)
}

/// The binary logarithm's floor is unique.
pub proof fn lemma_log2_floor_unique(value: int, scale: int, j: int, k: int)
    requires
        is_log2_floor(value, scale, j),
        is_log2_floor(value, scale, k),
        scale > 0,
    ensures
        j == k,
{
    if j < k {
        lemma_log2_floor_order(value, scale, j, k);
    } else if k < j {
        lemma_log2_floor_order(value, scale, k, j);
    }
}

/// Two floors `j < k` cannot both hold: the mantissa for `j` is at least
/// twice that for `k`.
proof fn lemma_log2_floor_order(value: int, scale: int, j: int, k: int)
    requires
        j < k,
        scale > 0,
    ensures
        !(is_log2_floor(value, scale, j) && is_log2_floor(value, scale, k)),
{
    if is_log2_floor(value, scale, j) && is_log2_floor(value, scale, k) {
        lemma_pow2_adds((63 - k) as nat, (k - j) as nat);
        lemma_pow2_adds(63, 1);
        vstd::arithmetic::power2::lemma2_to64();
        if k - j > 1 {
            lemma_pow2_strictly_increases(1, (k - j) as nat);
        }
        let a = value * pow2((63 - k) as nat);
        let e = pow2((k - j) as nat) as int;
        assert(value * pow2((63 - j) as nat) == a * e) by (nonlinear_arith)
            requires
                pow2((63 - j) as nat) == pow2((63 - k) as nat) * e,
                a == value * pow2((63 - k) as nat),
        ;
        lemma_pow2_pos(63);
        let c = scale * pow2(63);
        assert(c > 0) by (nonlinear_arith)
            requires
                scale > 0,
                pow2(63) > 0,
                c == scale * pow2(63),
        ;
        assert(scale * pow2(64) == c * 2) by (nonlinear_arith)
            requires
                pow2(64) == pow2(63) * 2,
                c == scale * pow2(63),
        ;
        assert(a * e >= a * 2) by (nonlinear_arith)
            requires
                e >= 2,
                a >= c,
                c > 0,
        ;
    }
}

/// `log2_floor` names the floor once one is known.
pub proof fn lemma_log2_floor_is(value: int, scale: int, k: int)
    requires
        is_log2_floor(value, scale, k),
        scale > 0,
    ensures
        log2_floor(value, scale) == k,
{
    lemma_log2_floor_unique(value, scale, log2_floor(value, scale), k);
}

/// What `leading_zeros` says of a nonzero word: its bit length.
pub proof fn lemma_bit_length(v: u64, lz: u64)
    requires
        v != 0,
        lz as int == vstd::std_specs::bits::u64_leading_zeros(v),
    ensures
        lz < 64,
        pow2((63 - lz) as nat) <= v,
        v < pow2((64 - lz) as nat),
{
    lemma_leading_zeros(v, lz);
    vstd::arithmetic::power2::lemma2_to64();
    vstd::arithmetic::power2::lemma2_to64_rest();
    let t = v >> ((63 - lz) as u64);
    assert(vstd::bits::low_bits_mask(1) == 1);
    vstd::bits::lemma_u64_low_bits_mask_is_mod(t, 1);
    vstd::bits::lemma_u64_shr_is_div(v, (63 - lz) as u64);
    lemma_pow2_pos((63 - lz) as nat);
    lemma_div_mod(v as int, pow2((63 - lz) as nat) as int);
    assert(t >= 1);
    let p = pow2((63 - lz) as nat) as int;
    let vi = v as int;
    assert(vi >= p) by (nonlinear_arith)
        requires
            vi == t * p + vi % p,
            t >= 1,
            vi % p >= 0,
            p > 0,
    ;
    if lz > 0 {
        vstd::bits::lemma_u64_shr_is_div(v, (64 - lz) as u64);
        lemma_pow2_pos((64 - lz) as nat);
        lemma_div_lt_iff(v as int, pow2((64 - lz) as nat) as int, 1);
    }
}

/// The floor from bit lengths `a` of the value and `b` of the scale: it is
/// `a - b` or one less, as decided by one comparison.
proof fn lemma_log2_floor_from_bits(v: int, s: int, a: int, b: int, k: int)
    requires
        1 <= a <= 64,
        1 <= b <= 64,
        pow2((a - 1) as nat) <= v < pow2(a as nat),
        pow2((b - 1) as nat) <= s < pow2(b as nat),
        k == a - b || k == a - b - 1,
        k == a - b ==> s * pow2(63) <= v * pow2((63 - k) as nat),
        k == a - b - 1 ==> v * pow2((63 - k) as nat) < s * pow2(64),
    ensures
        is_log2_floor(v, s, k),
{
    let e = (63 - k) as nat;
    lemma_pow2_pos(e);
    if k == a - b {
        // v * 2^(63 - k) < 2^(63 + b) = 2^64 * 2^(b - 1) <= 2^64 * s
        lemma_pow2_adds(a as nat, e);
        lemma_pow2_adds(64, (b - 1) as nat);
        assert(v * pow2(e) < pow2(a as nat) * pow2(e)) by (nonlinear_arith)
            requires
                v < pow2(a as nat),
                pow2(e) > 0,
        ;
        assert(pow2(64) * pow2((b - 1) as nat) <= s * pow2(64)) by (nonlinear_arith)
            requires
                pow2((b - 1) as nat) <= s,
                pow2(64) > 0,
        ;
        lemma_pow2_pos(64);
    } else {
        // v * 2^(63 - k) >= 2^(a - 1 + 64 - a + b) = 2^(63 + b) > s * 2^63
        lemma_pow2_adds((a - 1) as nat, e);
        lemma_pow2_adds(63, b as nat);
        assert(v * pow2(e) >= pow2((a - 1) as nat) * pow2(e)) by (nonlinear_arith)
            requires
                v >= pow2((a - 1) as nat),
                pow2(e) > 0,
        ;
        lemma_pow2_pos(63);
        assert(s * pow2(63) <= pow2(b as nat) * pow2(63)) by (nonlinear_arith)
            requires
                s < pow2(b as nat),
                pow2(63) > 0,
        ;
    }
}

/// `floor(log2(value / scale))` from bit lengths and one comparison.
pub fn integer_estimate(value: u64, scale: u64) -> (r: i32)
    requires
        value != 0,
        scale != 0,
    ensures
        is_log2_floor(value as int, scale as int, r as int),
{
    let value_zeros = value.leading_zeros() as u64;
    let scale_zeros = scale.leading_zeros() as u64;
    proof {
        lemma_bit_length(value, value_zeros);
        lemma_bit_length(scale, scale_zeros);
    }
    let value_bits = 64 - value_zeros as i32;
    let scale_bits = 64 - scale_zeros as i32;
    let integer = value_bits - scale_bits;
    let ghost a = value_bits as int;
    let ghost b = scale_bits as int;
    let ghost v = value as int;
    let ghost s = scale as int;
    let below = if integer >= 0 {
        let power = pow2_u128(integer as u32);
        proof {
            lemma_pow2_pos(integer as nat);
            lemma_pow2_adds((b - 1) as nat, integer as nat);
            lemma_mul_le(s, pow2(integer as nat) as int, pow2(b as nat) as int, pow2(integer as nat) as int);
            lemma_pow2_adds(b as nat, integer as nat);
            vstd::arithmetic::power2::lemma2_to64_rest();
            if a < 64 {
                lemma_pow2_strictly_increases(a as nat, 64);
            }
            lemma_pow2_adds(64, 64);
            assert(pow2(128) == 0x1_0000_0000_0000_0000 * 0x1_0000_0000_0000_0000);
        }
        (value as u128) < (scale as u128) * power
    } else {
        let power = pow2_u128((-integer) as u32);
        proof {
            let n = (-integer) as nat;
            lemma_pow2_pos(n);
            lemma_pow2_adds(a as nat, n);
            lemma_mul_le(v, pow2(n) as int, pow2(a as nat) as int, pow2(n) as int);
            vstd::arithmetic::power2::lemma2_to64_rest();
            if b < 64 {
                lemma_pow2_strictly_increases(b as nat, 64);
            }
            lemma_pow2_adds(64, 64);
            assert(pow2(128) == 0x1_0000_0000_0000_0000 * 0x1_0000_0000_0000_0000);
        }
        (value as u128) * power < (scale as u128)
    };
    let result = if below { integer - 1 } else { integer };
    proof {
        lemma_pow2_pos(63);
        lemma_pow2_adds(63, 1);
        vstd::arithmetic::power2::lemma2_to64();
        let k = result as int;
        if integer >= 0 {
            let i = integer as nat;
            if below {
                // v < s * 2^i  ==>  v * 2^(64 - i) < s * 2^64
                lemma_pow2_adds(i, (64 - i) as nat);
                let p = pow2((64 - i) as nat) as int;
                lemma_pow2_pos((64 - i) as nat);
                assert(v * p < s * pow2(64)) by (nonlinear_arith)
                    requires
                        v < s * pow2(i),
                        p > 0,
                        pow2(64) == pow2(i) * p,
                ;
            } else {
                lemma_pow2_adds(i, (63 - i) as nat);
                let p = pow2((63 - i) as nat) as int;
                lemma_pow2_pos((63 - i) as nat);
                assert(s * pow2(63) <= v * p) by (nonlinear_arith)
                    requires
                        s * pow2(i) <= v,
                        p > 0,
                        pow2(63) == pow2(i) * p,
                ;
            }
        } else {
            let n = (-integer) as nat;
            if below {
                lemma_pow2_adds(n, 64);
                assert(v * pow2((64 + n) as nat) < s * pow2(64)) by (nonlinear_arith)
                    requires
                        v * pow2(n) < s,
                        pow2((64 + n) as nat) == pow2(n) * pow2(64),
                        pow2(64) > 0,
                ;
                assert((63 - k) as nat == (64 + n) as nat);
            } else {
                lemma_pow2_adds(n, 63);
                assert(s * pow2(63) <= v * pow2((63 + n) as nat)) by (nonlinear_arith)
                    requires
                        s <= v * pow2(n),
                        pow2((63 + n) as nat) == pow2(n) * pow2(63),
                        pow2(63) > 0,
                ;
                assert((63 - k) as nat == (63 + n) as nat);
            }
        }
        lemma_log2_floor_from_bits(v, s, a, b, k);
    }
    result
}

} // verus!

verus! {

/// `2^52`: one table step of a Q63 mantissa.
pub open spec fn mantissa_step() -> int {
    0x10_0000_0000_0000
}

/// The table index of a Q63 mantissa in `[2^63, 2^64)`: its top eleven
/// bits below the leading one.
pub open spec fn fraction_index(mantissa: int) -> int {
    (mantissa - 0x8000_0000_0000_0000) / mantissa_step()
}

/// What a mantissa holds beyond its table node.
pub open spec fn fraction_residual(mantissa: int) -> int {
    (mantissa - 0x8000_0000_0000_0000) % mantissa_step()
}

/// The Q63 table node `1 + index / 2048`.
pub open spec fn table_node(index: int) -> int {
    0x8000_0000_0000_0000 + index * mantissa_step()
}

/// `log2(1 + index / 2048)` in Q64 from the table, rounded down or up.
pub open spec fn node_log(index: int, up: bool) -> int {
    if up {
        log2_upper_at(index) as int
    } else {
        log2_lower_at(index) as int
    }
}

/// `2^127`.
pub open spec fn pow2_127() -> int {
    0x8000_0000_0000_0000_0000_0000_0000_0000
}

/// The Q75 legs bracketing `t = residual / node`: the lower from the
/// rounded-down reciprocal of the node, the upper from the rounded-up one
/// padded by one Q64 unit; below the first node the division is exact.
pub open spec fn residual_legs_spec(index: int, residual: int) -> (int, int) {
    if index == 0 {
        (residual * 2 * 2048, residual * 2 * 2048)
    } else {
        let reciprocal = pow2_127() / table_node(index);
        let reciprocal_upper = crate::arith::ceil_div(pow2_127(), table_node(index));
        (
            (residual * reciprocal / 0x8000_0000_0000_0000) * 2048,
            (residual * reciprocal_upper / 0x8000_0000_0000_0000 + 1) * 2048,
        )
    }
}

/// The series for `ln(1 + t)` in Q75 between the legs of `t`: through the
/// fourth power for the lower bound, the fifth for the upper, each term
/// rounded in the direction that keeps the bound one-sided.
pub open spec fn series_spec(lower: int, upper: int, up: bool) -> int {
    let square_lower = (lower * lower / word()) / 2048;
    let square_upper = (upper * upper / word()) / 2048 + 1;
    let fourth_upper = (square_upper * square_upper / word()) / 2048 + 1;
    if up {
        let cube_upper = (square_upper * upper / word()) / 2048 + 1;
        let fourth_lower = (square_lower * square_lower / word()) / 2048;
        let fifth_upper = (fourth_upper * upper / word()) / 2048 + 1;
        upper - square_lower / 2 + (cube_upper / 3 + 1) - fourth_lower / 4 + (fifth_upper / 5 + 1)
    } else {
        let cube_lower = (square_lower * lower / word()) / 2048;
        lower - (square_upper / 2 + 1) - (fourth_upper / 4 + 1) + cube_lower / 3
    }
}

/// The Q64 fraction of `log2` at table entry `index` plus the residual's
/// `ln(1 + t) * log2(e)`, as a word and its carry.
pub open spec fn assemble_spec(index: int, lower: int, upper: int, up: bool) -> (int, bool) {
    let series = series_spec(lower, upper, up);
    let residual_log = if up {
        (series * (LOG2E_Q63_UPPER as int) / word()) / 1024 + 1
    } else {
        (series * (LOG2E_Q63_LOWER as int) / word()) / 1024
    };
    let base = if index == 0 { 0 } else { node_log(index, up) };
    let sum = base + residual_log;
    (sum % word(), sum >= word())
}

/// The Q64 fraction of `log2(mantissa / 2^63)` for a mantissa in
/// `[2^63, 2^64)`, as a word and its carry: a table node exactly, else the
/// node plus the series of its residual.
pub open spec fn log2_fraction_spec(mantissa: int, up: bool) -> (int, bool) {
    let index = fraction_index(mantissa);
    let residual = fraction_residual(mantissa);
    if residual == 0 {
        (node_log(index, up), false)
    } else {
        assemble_spec(index, residual_legs_spec(index, residual).0, residual_legs_spec(index, residual).1, up)
    }
}

/// An integer part and a Q64 fraction with its carry, as Q61 with the
/// dropped three bits rounded in the promised direction.
pub open spec fn pack_spec(integer: int, fraction: int, carry: bool, up: bool) -> int {
    (integer + (if carry { 1int } else { 0 })) * (Q as int) + directed(fraction, 8, up)
}

/// The table index and residual of a Q63 mantissa.
fn fraction_split(mantissa: u64) -> (r: (usize, u64))
    requires
        mantissa >= 0x8000_0000_0000_0000,
    ensures
        r.0 == fraction_index(mantissa as int),
        r.1 == fraction_residual(mantissa as int),
        r.0 < 2048,
        r.1 < mantissa_step(),
{
    let offset = mantissa - 0x8000_0000_0000_0000;
    proof {
        lemma_div_mod(offset as int, mantissa_step());
        lemma_div_lt_iff(offset as int, mantissa_step(), 2048);
    }
    let index = (offset / 0x10_0000_0000_0000) as usize;
    (index, offset % 0x10_0000_0000_0000)
}

/// The table's `log2` of node `index`, rounded down or up.
fn fraction_node<const UPPER: bool>(index: usize) -> (r: u64)
    requires
        index < 2048,
    ensures
        r == node_log(index as int, UPPER),
{
    if UPPER {
        log2_upper_entry(index)
    } else {
        log2_lower_entry(index)
    }
}

/// `2^127 / node` for table node `index`, and whether the division was
/// inexact.
fn node_reciprocal(index: usize) -> (r: (u64, bool))
    requires
        1 <= index < 2048,
    ensures
        r.0 == pow2_127() / table_node(index as int),
        r.1 == (pow2_127() % table_node(index as int) != 0),
{
    let node = 0x8000_0000_0000_0000u64 + (index as u64) * 0x10_0000_0000_0000;
    let (quotient, remainder) = div_rem_128_by_64(0x8000_0000_0000_0000, 0, node);
    (quotient, remainder != 0)
}

/// A node's reciprocals stay within a word and shrink the residual below
/// one table step.
pub(crate) proof fn lemma_reciprocal_bounds(index: int, residual: int)
    requires
        1 <= index < 2048,
        1 <= residual < mantissa_step(),
    ensures
        residual_legs_spec(index, residual).0 >= 2048,
        residual_legs_spec(index, residual).0 + 2048 <= residual_legs_spec(index, residual).1,
        residual_legs_spec(index, residual).1 <= residual_legs_spec(index, residual).0 + 4096,
        residual_legs_spec(index, residual).1 <= 0xFFF0_0000_0000_0000,
        pow2_127() / table_node(index) <= u64::MAX,
        crate::arith::ceil_div(pow2_127(), table_node(index)) <= u64::MAX,
{
    let node = table_node(index);
    let reciprocal = pow2_127() / node;
    let reciprocal_upper = crate::arith::ceil_div(pow2_127(), node);
    lemma_div_mod(pow2_127(), node);
    lemma_directed(pow2_127(), node);
    assert(directed(pow2_127(), node, true) == reciprocal_upper);
    assert(0x8000_0000_0000_0000 + 0x10_0000_0000_0000 <= node < 0x1_0000_0000_0000_0000);
    // 2^63 <= reciprocal and reciprocal_upper * (2^63 + 2^52) <= 2^127 + 2^64.
    lemma_div_lt_iff(pow2_127(), node, 0x8000_0000_0000_0000);
    lemma_mul_le(0x8000_0000_0000_0000int + 0x10_0000_0000_0000, reciprocal_upper, node, reciprocal_upper);
    assert(reciprocal * node <= pow2_127());
    assert(reciprocal_upper * node <= pow2_127() + node) by (nonlinear_arith)
        requires
            reciprocal * node <= pow2_127(),
            reciprocal_upper <= reciprocal + 1,
            node > 0,
    ;
    lemma_mul_le(reciprocal, 0x8000_0000_0000_0000int + 0x10_0000_0000_0000, reciprocal, node);
    assert(reciprocal < 0x1_0000_0000_0000_0000) by (nonlinear_arith)
        requires
            reciprocal * node <= pow2_127(),
            node >= 0x8000_0000_0000_0000 + 0x10_0000_0000_0000,
            reciprocal >= 0,
    ;
    assert(reciprocal_upper < 0x1_0000_0000_0000_0000) by (nonlinear_arith)
        requires
            reciprocal_upper <= reciprocal + 1,
            reciprocal * node <= pow2_127(),
            node >= 0x8000_0000_0000_0000 + 0x10_0000_0000_0000,
            reciprocal >= 0,
    ;
    // The lower leg is at least one unit.
    lemma_mul_le(1, 0x8000_0000_0000_0000, residual, reciprocal);
    lemma_div_le(0x8000_0000_0000_0000, residual * reciprocal, 0x8000_0000_0000_0000);
    // The upper product stays below (2^53 - 2^41 - 2) * 2^63.
    let x = residual * reciprocal_upper;
    assert(x < (0x20_0000_0000_0000 - 0x200_0000_0000 - 2) * 0x8000_0000_0000_0000) by (nonlinear_arith)
        requires
            x == residual * reciprocal_upper,
            1 <= residual < 0x10_0000_0000_0000,
            reciprocal_upper >= 0,
            reciprocal_upper * (0x8000_0000_0000_0000 + 0x10_0000_0000_0000) <= pow2_127() + 0x1_0000_0000_0000_0000,
    ;
    lemma_div_lt_iff(x, 0x8000_0000_0000_0000, 0x20_0000_0000_0000 - 0x200_0000_0000 - 2);
    // The two legs differ by at most one unit before padding.
    let y = residual * reciprocal;
    assert(x <= y + residual) by (nonlinear_arith)
        requires
            x == residual * reciprocal_upper,
            y == residual * reciprocal,
            reciprocal_upper <= reciprocal + 1,
            residual >= 0,
    ;
    assert(y <= x) by (nonlinear_arith)
        requires
            x == residual * reciprocal_upper,
            y == residual * reciprocal,
            reciprocal <= reciprocal_upper,
            residual >= 0,
    ;
    lemma_div_le(y, x, 0x8000_0000_0000_0000);
    lemma_div_mod(y, 0x8000_0000_0000_0000);
    lemma_div_lt_iff(x, 0x8000_0000_0000_0000, y / 0x8000_0000_0000_0000 + 2);
}

/// The Q75 legs of `residual_legs_spec`.
fn residual_legs(index: usize, residual: u64) -> (r: (u64, u64))
    requires
        index < 2048,
        1 <= residual < mantissa_step(),
    ensures
        r.0 == residual_legs_spec(index as int, residual as int).0,
        r.1 == residual_legs_spec(index as int, residual as int).1,
        2048 <= r.0 <= r.1 <= r.0 + 4096,
        r.1 <= 0xFFFF_FFFF_FFFF_F000,
        r.1 <= 0xFFF0_0000_0000_0000 || r.0 == r.1,
{
    if index == 0 {
        let exact = residual * 2;
        return (exact * 2048, exact * 2048);
    }
    let (reciprocal, inexact) = node_reciprocal(index);
    proof {
        lemma_reciprocal_bounds(index as int, residual as int);
        lemma_directed(pow2_127(), table_node(index as int));
        lemma_mul_le(residual as int, reciprocal as int, u64::MAX as int, u64::MAX as int);
    }
    let reciprocal_upper = reciprocal + if inexact { 1 } else { 0 };
    proof {
        lemma_mul_le(residual as int, reciprocal_upper as int, u64::MAX as int, u64::MAX as int);
    }
    let lower = ((residual as u128) * (reciprocal as u128) / 0x8000_0000_0000_0000) as u64;
    let upper = ((residual as u128) * (reciprocal_upper as u128) / 0x8000_0000_0000_0000) as u64 + 1;
    (lower * 2048, upper * 2048)
}

} // verus!

verus! {

/// A product with a word factor is at most the other factor.
pub(crate) proof fn lemma_product_shrinks(a: int, b: int)
    requires
        0 <= a < word(),
        0 <= b,
    ensures
        a * b / word() <= b,
        (a * b / word()) / 2048 <= b / 2048,
        0 <= a * b / word(),
{
    lemma_mul_le(a, b, word(), b);
    assert(word() * b == b * word()) by (nonlinear_arith);
    lemma_div_le(a * b, b * word(), word());
    vstd::arithmetic::div_mod::lemma_div_multiples_vanish(b, word());
    lemma_div_le(a * b / word(), b, 2048);
    assert(a * b >= 0) by (nonlinear_arith)
        requires
            a >= 0,
            b >= 0,
    ;
    vstd::arithmetic::div_mod::lemma_div_pos_is_pos(a * b, word());
}

/// The square of a word with its top bit set keeps at least half of it in
/// the top word.
proof fn lemma_square_at_least_half(x: int)
    requires
        0x8000_0000_0000_0000 <= x < word(),
    ensures
        x * x / word() >= x / 2,
{
    lemma_mul_le(x, 0x8000_0000_0000_0000, x, x);
    lemma_div_le(x * 0x8000_0000_0000_0000, x * x, word());
    lemma_div_mod(x, 2);
    let h = x / 2;
    assert(x * 0x8000_0000_0000_0000 == h * word() + (x % 2) * 0x8000_0000_0000_0000) by (nonlinear_arith)
        requires
            x == h * 2 + x % 2,
    ;
    lemma_div_unique(x * 0x8000_0000_0000_0000, word(), h, (x % 2) * 0x8000_0000_0000_0000);
}

/// `(a * b / 2^64) / 2^11`: one Q75 product.
fn mul_q75(a: u64, b: u64) -> (r: u64)
    ensures
        r == (a * b / word()) / 2048,
        r <= a / 2048,
        r <= b / 2048,
{
    let high = multiply_high(a, b);
    proof {
        vstd::bits::lemma_u64_shr_is_div(high, 11);
        vstd::arithmetic::power2::lemma2_to64();
        lemma_product_shrinks(a as int, b as int);
        lemma_product_shrinks(b as int, a as int);
        assert(a * b == b * a) by (nonlinear_arith);
    }
    high >> 11
}

/// The Q64 fraction of `assemble_spec`: the series of the legs, converted
/// from natural to binary logarithm and added to the node's table value.
fn fraction_assemble<const UPPER: bool>(index: usize, lower: u64, upper: u64) -> (r: (u64, bool))
    requires
        index < 2048,
        2048 <= lower <= upper <= lower + 4096,
        upper <= 0xFFFF_FFFF_FFFF_F000,
        upper <= 0xFFF0_0000_0000_0000 || lower == upper,
    ensures
        r.0 == assemble_spec(index as int, lower as int, upper as int, UPPER).0,
        r.1 == assemble_spec(index as int, lower as int, upper as int, UPPER).1,
{
    let square_lower = mul_q75(lower, lower);
    let square_upper = mul_q75(upper, upper) + 1;
    let fourth_upper = mul_q75(square_upper, square_upper) + 1;
    proof {
        if upper > 0xFFF0_0000_0000_0000 {
            lemma_square_at_least_half(upper as int);
            lemma_div_le(upper as int / 2, upper * upper / word(), 2048);
        }
    }
    let series = if UPPER {
        let cube_upper = mul_q75(square_upper, upper) + 1;
        let fourth_lower = mul_q75(square_lower, square_lower);
        let fifth_upper = mul_q75(fourth_upper, upper) + 1;
        upper - square_lower / 2 + (cube_upper / 3 + 1) - fourth_lower / 4 + (fifth_upper / 5 + 1)
    } else {
        let cube_lower = mul_q75(square_lower, lower);
        lower - (square_upper / 2 + 1) - (fourth_upper / 4 + 1) + cube_lower / 3
    };
    let residual_log = if UPPER {
        let product = multiply_high(series, LOG2E_Q63_UPPER);
        proof {
            vstd::bits::lemma_u64_shr_is_div(product, 10);
            vstd::arithmetic::power2::lemma2_to64();
            lemma_product_shrinks(series as int, LOG2E_Q63_UPPER as int);
        }
        (product >> 10) + 1
    } else {
        let product = multiply_high(series, LOG2E_Q63_LOWER);
        proof {
            vstd::bits::lemma_u64_shr_is_div(product, 10);
            vstd::arithmetic::power2::lemma2_to64();
        }
        product >> 10
    };
    let base = if index == 0 { 0 } else { fraction_node::<UPPER>(index) };
    let total = (base as u128) + (residual_log as u128);
    if total >= 0x1_0000_0000_0000_0000 {
        proof {
            lemma_div_unique(total as int, word(), 1, total - word());
        }
        ((total - 0x1_0000_0000_0000_0000) as u64, true)
    } else {
        proof {
            lemma_div_unique(total as int, word(), 0, total as int);
        }
        (total as u64, false)
    }
}

} // verus!

verus! {

/// The Q64 fraction of `log2(mantissa / 2^63)`, as `log2_fraction_spec`
/// states it.
fn log2_fraction_q64<const UPPER: bool>(mantissa: u64) -> (r: (u64, bool))
    requires
        mantissa >= 0x8000_0000_0000_0000,
    ensures
        r.0 == log2_fraction_spec(mantissa as int, UPPER).0,
        r.1 == log2_fraction_spec(mantissa as int, UPPER).1,
{
    let (index, residual) = fraction_split(mantissa);
    if residual == 0 {
        return (fraction_node::<UPPER>(index), false);
    }
    let (lower, upper) = residual_legs(index, residual);
    fraction_assemble::<UPPER>(index, lower, upper)
}

/// Both directed fractions from one residual reduction.
fn log2_fraction_q64_bounds(mantissa: u64) -> (r: ((u64, bool), (u64, bool)))
    requires
        mantissa >= 0x8000_0000_0000_0000,
    ensures
        r.0.0 == log2_fraction_spec(mantissa as int, false).0,
        r.0.1 == log2_fraction_spec(mantissa as int, false).1,
        r.1.0 == log2_fraction_spec(mantissa as int, true).0,
        r.1.1 == log2_fraction_spec(mantissa as int, true).1,
{
    let (index, residual) = fraction_split(mantissa);
    if residual == 0 {
        return ((fraction_node::<false>(index), false), (fraction_node::<true>(index), false));
    }
    let (lower, upper) = residual_legs(index, residual);
    (fraction_assemble::<false>(index, lower, upper), fraction_assemble::<true>(index, lower, upper))
}

/// Packs an integer part and a Q64 fraction with its carry into Q61.
fn pack_q61<const UPPER: bool>(integer: i32, fraction: (u64, bool)) -> (r: i128)
    requires
        -128 <= integer <= 127,
    ensures
        r == pack_spec(integer as int, fraction.0 as int, fraction.1, UPPER),
        integer * Q <= r <= (integer + 2) * Q,
{
    let (bits, carry) = fraction;
    let mut whole = integer + if carry { 1 } else { 0 };
    proof {
        lemma_q_is_pow2();
        vstd::bits::lemma_u64_shr_is_div(bits, 3);
        vstd::arithmetic::power2::lemma2_to64();
        lemma_div_mod(bits as int, 8);
        lemma_directed(bits as int, 8);
        lemma_div_lt_iff(bits as int, 8, 0x2000_0000_0000_0000);
    }
    let mut fraction_q61 = (bits >> 3) + if UPPER && bits % 8 != 0 { 1 } else { 0 };
    if fraction_q61 == 0x2000_0000_0000_0000 {
        fraction_q61 = 0;
        whole = whole + 1;
    }
    (whole as i128) * 0x2000_0000_0000_0000 + (fraction_q61 as i128)
}

/// `value / scale` is exactly `2^j`.
pub open spec fn is_exact_log2(value: int, scale: int, j: int) -> bool {
    if j >= 0 {
        value == scale * pow2(j as nat)
    } else {
        value * pow2((-j) as nat) == scale
    }
}

/// The exact binary logarithm of `value / scale` when it is an integer.
pub open spec fn exact_log2(value: int, scale: int) -> int {
    choose|j: int| is_exact_log2(value, scale, j)
}

/// An exact binary logarithm is unique.
pub proof fn lemma_exact_log2_unique(value: int, scale: int, i: int, j: int)
    requires
        value > 0,
        scale > 0,
        is_exact_log2(value, scale, i),
        is_exact_log2(value, scale, j),
    ensures
        i == j,
{
    if i < j {
        lemma_exact_log2_order(value, scale, i, j);
    } else if j < i {
        lemma_exact_log2_order(value, scale, j, i);
    }
}

/// Two distinct exponents cannot both be exact.
proof fn lemma_exact_log2_order(value: int, scale: int, i: int, j: int)
    requires
        value > 0,
        scale > 0,
        i < j,
    ensures
        !(is_exact_log2(value, scale, i) && is_exact_log2(value, scale, j)),
{
    if is_exact_log2(value, scale, i) && is_exact_log2(value, scale, j) {
        if i >= 0 {
            lemma_pow2_strictly_increases(i as nat, j as nat);
            assert(scale * pow2(i as nat) < scale * pow2(j as nat)) by (nonlinear_arith)
                requires
                    pow2(i as nat) < pow2(j as nat),
                    scale > 0,
            ;
        } else if j >= 0 {
            let n = (-i) as nat;
            lemma_pow2_adds(j as nat, n);
            lemma_pow2_strictly_increases(0, (j + n) as nat);
            vstd::arithmetic::power2::lemma2_to64();
            assert(scale * pow2((j + n) as nat) > scale) by (nonlinear_arith)
                requires
                    pow2((j + n) as nat) > 1,
                    scale > 0,
            ;
            assert(scale * pow2((j + n) as nat) == scale) by (nonlinear_arith)
                requires
                    value == scale * pow2(j as nat),
                    value * pow2(n) == scale,
                    pow2((j + n) as nat) == pow2(j as nat) * pow2(n),
            ;
        } else {
            lemma_pow2_strictly_increases((-j) as nat, (-i) as nat);
            assert(value * pow2((-j) as nat) < value * pow2((-i) as nat)) by (nonlinear_arith)
                requires
                    pow2((-j) as nat) < pow2((-i) as nat),
                    value > 0,
            ;
        }
    }
}

/// An exact ratio to `10^p` pins the value's trailing zeros to `p + j`.
proof fn lemma_exact_log2_factor(v: u64, p: nat, j: int)
    requires
        v != 0,
        p < 20,
        is_exact_log2(v as int, pow10(p) as int, j),
    ensures
        0 <= p + j < 64,
        vstd::std_specs::bits::u64_trailing_zeros(v) == p + j,
{
    crate::kernel::wide::lemma_pow10_split(p);
    let f = crate::kernel::wide::pow5(p) as int;
    assert(f >= 1);
    if j >= 0 {
        lemma_pow2_adds(p, j as nat);
        assert(v == pow2((p + j) as nat) * f) by (nonlinear_arith)
            requires
                v == pow10(p) * pow2(j as nat),
                pow10(p) == pow2(p) * f,
                pow2((p + j) as nat) == pow2(p) * pow2(j as nat),
        ;
    } else {
        let n = (-j) as nat;
        lemma_pow2_pos(n);
        if n > p {
            lemma_pow2_adds(p, (n - p) as nat);
            vstd::arithmetic::power2::lemma_pow2_unfold((n - p) as nat);
            let h = pow2((n - p - 1) as nat) as int;
            lemma_pow2_pos(p);
            assert(v * (2 * h) == f) by (nonlinear_arith)
                requires
                    v * pow2(n) == pow2(p) * f,
                    pow2(n) == pow2(p) * pow2((n - p) as nat),
                    pow2((n - p) as nat) == 2 * h,
                    pow2(p) > 0,
            ;
            assert((v * h) * 2 == f) by (nonlinear_arith)
                requires
                    v * (2 * h) == f,
            ;
            vstd::arithmetic::div_mod::lemma_mod_multiples_basic(v * h, 2);
        }
        lemma_pow2_adds((p - n) as nat, n);
        assert(v * pow2(n) == (pow2((p - n) as nat) * f) * pow2(n)) by (nonlinear_arith)
            requires
                v * pow2(n) == pow2(p) * f,
                pow2(p) == pow2((p - n) as nat) * pow2(n),
        ;
        assert(pow2(n) * v == pow2(n) * (pow2((p - n) as nat) * f)) by (nonlinear_arith)
            requires
                v * pow2(n) == (pow2((p - n) as nat) * f) * pow2(n),
        ;
        vstd::arithmetic::mul::lemma_mul_equality_converse(pow2(n) as int, v as int, pow2((p - n) as nat) * f);
        assert((p + j) as nat == (p - n) as nat);
    }
    let e = (p + j) as nat;
    lemma_pow2_pos(e);
    if e >= 64 {
        if e > 64 {
            lemma_pow2_strictly_increases(64, e);
        }
        vstd::arithmetic::power2::lemma2_to64_rest();
        assert(pow2(e) * f >= pow2(e)) by (nonlinear_arith)
            requires
                f >= 1,
                pow2(e) > 0,
        ;
    }
    crate::kernel::wide::lemma_trailing_zeros_of(v, e, f);
}

/// `log2(value / 10^power)` exactly when it is an integer, in Q61.
fn pow10_exact(value: u64, scale: u64, power: usize) -> (r: Option<i128>)
    requires
        value != 0,
        power < 20,
        scale == pow10(power as nat),
    ensures
        r matches Some(x) ==> is_exact_log2(value as int, scale as int, (x as int) / (Q as int)) && (x as int) % (Q as int) == 0,
        r is None ==> forall|j: int| !is_exact_log2(value as int, scale as int, j),
{
    let trailing = value.trailing_zeros();
    proof {
        lemma_q_is_pow2();
        vstd::std_specs::bits::axiom_u64_trailing_zeros(value);
        vstd::arithmetic::power2::lemma2_to64_rest();
        lemma_pow2_adds(64, 64);
    }
    let power_bits = power as u32;
    if trailing >= power_bits {
        let j = trailing - power_bits;
        let lifted = pow2_u128(j);
        proof {
            if j < 64 {
                lemma_pow2_strictly_increases(j as nat, 64);
            }
            lemma_mul_le(scale as int, lifted as int, u64::MAX as int, 0x1_0000_0000_0000_0000);
        }
        if (scale as u128) * lifted == value as u128 {
            proof {
                lemma_div_unique((j as int) * (Q as int), Q as int, j as int, 0);
            }
            return Some((j as i128) * 0x2000_0000_0000_0000);
        }
        proof {
            assert forall|k: int| !is_exact_log2(value as int, scale as int, k) by {
                if is_exact_log2(value as int, scale as int, k) {
                    lemma_exact_log2_factor(value, power as nat, k);
                }
            }
        }
        None
    } else {
        let j = power_bits - trailing;
        let lifted = pow2_u128(j);
        proof {
            lemma_pow2_strictly_increases(j as nat, 64);
            lemma_mul_le(value as int, lifted as int, u64::MAX as int, 0x1_0000_0000_0000_0000);
        }
        if (value as u128) * lifted == scale as u128 {
            proof {
                lemma_div_unique(-(j as int) * (Q as int), Q as int, -(j as int), 0);
            }
            return Some(-(j as i128) * 0x2000_0000_0000_0000);
        }
        proof {
            assert forall|k: int| !is_exact_log2(value as int, scale as int, k) by {
                if is_exact_log2(value as int, scale as int, k) {
                    lemma_exact_log2_factor(value, power as nat, k);
                }
            }
        }
        None
    }
}

} // verus!

verus! {

/// `power * log2(10)` in Q61 from the table, rounded up when `upper`.
pub open spec fn log2_pow10_constant(power: int, upper: bool) -> int {
    if upper {
        LOG2_POW10_UPPER[power] as int
    } else {
        LOG2_POW10_LOWER[power] as int
    }
}

/// `log2(value / 10^power)` in Q61: exact when it is an integer, else
/// `log2(value)` minus the bracketing constant for `power * log2(10)` taken
/// on the side that keeps the bound one-sided.
#[verifier::opaque]
pub open spec fn log2_q_pow10_spec(value: int, power: int, up: bool) -> int {
    if exists|j: int| #[trigger] is_exact_log2(value, pow10(power as nat) as int, j) {
        exact_log2(value, pow10(power as nat) as int) * (Q as int)
    } else {
        let k = log2_floor(value, 1);
        let fraction = log2_fraction_spec(value * pow2((63 - k) as nat), up);
        pack_spec(k, fraction.0, fraction.1, up) - log2_pow10_constant(power, !up)
    }
}

/// `log2(value / scale)` in Q61, rounded up when `up`: a decimal scale
/// takes the `log2_q_pow10_spec` route, any other scale normalizes
/// `value / scale` to a Q63 mantissa with the exact floor of its logarithm
/// and adds the mantissa's fraction.
#[verifier::opaque]
pub open spec fn log2_q_spec(value: int, scale: int, up: bool) -> Result<int, MathError> {
    if scale == 0 {
        Err(MathError::DivByZero)
    } else if value == 0 {
        Err(MathError::OutOfDomain)
    } else if exists|p: int| #[trigger] crate::kernel::wide::is_decimal_power(scale, p) {
        Ok(log2_q_pow10_spec(value, choose|p: int| crate::kernel::wide::is_decimal_power(scale, p), up))
    } else {
        let k = log2_floor(value, scale);
        let normalized = normalize_q63_spec(value, scale, k, up);
        let fraction = log2_fraction_spec(normalized.0 as int, up);
        Ok(pack_spec(k + (if normalized.1 { 1int } else { 0 }), fraction.0, fraction.1, up))
    }
}

/// The bound of `log2(value / scale)` that `log2_lower` (`up == false`)
/// or `log2_upper` (`up == true`) returns, in raw units of `scale`.
pub open spec fn log2_spec(value: int, scale: int, up: bool) -> Result<i64, MathError> {
    match log2_q_spec(value, scale, up) {
        Err(error) => Err(error),
        Ok(q) => project_signed_spec(q, scale, up),
    }
}

/// A signed double-word result read as an integer result.
pub open spec fn as_int_result(r: Result<i128, MathError>) -> Result<int, MathError> {
    match r {
        Ok(x) => Ok(x as int),
        Err(error) => Err(error),
    }
}

/// Looks up `power * log2(10)` in Q61.
fn log2_pow10_constant_entry(power: usize, upper: bool) -> (r: i128)
    requires
        power < 20,
    ensures
        r == log2_pow10_constant(power as int, upper),
        0 <= r <= 0x10_0000_0000_0000_0000,
{
    if upper {
        LOG2_POW10_UPPER[power]
    } else {
        LOG2_POW10_LOWER[power]
    }
}

/// The mantissa of a nonzero word: its bits shifted up to the top, with
/// the floor of its logarithm.
fn word_mantissa(value: u64) -> (r: (u64, i32))
    requires
        value != 0,
    ensures
        r.0 == value * pow2((63 - r.1) as nat),
        r.0 >= 0x8000_0000_0000_0000,
        is_log2_floor(value as int, 1, r.1 as int),
        0 <= r.1 <= 63,
{
    let leading = value.leading_zeros() as u64;
    proof {
        lemma_bit_length(value, leading);
        lemma_pow2_adds((64 - leading) as nat, leading as nat);
        lemma_pow2_adds((63 - leading) as nat, leading as nat);
        vstd::arithmetic::power2::lemma2_to64_rest();
        lemma_pow2_pos(leading as nat);
        assert(value * pow2(leading as nat) < pow2((64 - leading) as nat) * pow2(leading as nat)) by (nonlinear_arith)
            requires
                value < pow2((64 - leading) as nat),
                pow2(leading as nat) > 0,
        ;
        assert(value * pow2(leading as nat) >= pow2((63 - leading) as nat) * pow2(leading as nat)) by (nonlinear_arith)
            requires
                value >= pow2((63 - leading) as nat),
                pow2(leading as nat) > 0,
        ;
        vstd::bits::lemma_u64_shl_is_mul(value, leading);
    }
    (value << leading, 63 - leading as i32)
}

/// An exact decimal-scale logarithm is what `log2_q_pow10_spec` names.
proof fn lemma_pow10_exact_spec(value: u64, scale: u64, power: int, exact: int, up: bool)
    requires
        value != 0,
        0 <= power < 20,
        scale == pow10(power as nat),
        is_exact_log2(value as int, scale as int, exact / (Q as int)),
        exact % (Q as int) == 0,
    ensures
        exact == log2_q_pow10_spec(value as int, power, up),
{
    reveal(log2_q_pow10_spec);
    lemma_q_is_pow2();
    let j = exact / (Q as int);
    crate::kernel::wide::lemma_pow10_positive(power as nat);
    assert(is_exact_log2(value as int, pow10(power as nat) as int, j));
    lemma_exact_log2_unique(value as int, scale as int, j, exact_log2(value as int, scale as int));
    lemma_div_mod(exact, Q as int);
}

/// `log2(value / 10^power)` in Q61, as `log2_q_pow10_spec` states it.
fn log2_q_pow10<const UPPER: bool>(value: u64, scale: u64, power: usize) -> (r: i128)
    requires
        value != 0,
        power < 20,
        scale == pow10(power as nat),
    ensures
        r == log2_q_pow10_spec(value as int, power as int, UPPER),
{
    proof {
        reveal(log2_q_pow10_spec);
        lemma_q_is_pow2();
    }
    if let Some(exact) = pow10_exact(value, scale, power) {
        proof {
            lemma_pow10_exact_spec(value, scale, power as int, exact as int, UPPER);
        }
        return exact;
    }
    let (mantissa, integer) = word_mantissa(value);
    proof {
        lemma_log2_floor_is(value as int, 1, integer as int);
    }
    let fraction = log2_fraction_q64::<UPPER>(mantissa);
    let log_value = pack_q61::<UPPER>(integer, fraction);
    let constant = log2_pow10_constant_entry(power, !UPPER);
    log_value - constant
}

/// Both directed pow10 logarithms with the residual reduction shared.
fn log2_q_pow10_bounds(value: u64, scale: u64, power: usize) -> (r: (i128, i128))
    requires
        value != 0,
        power < 20,
        scale == pow10(power as nat),
    ensures
        r.0 == log2_q_pow10_spec(value as int, power as int, false),
        r.1 == log2_q_pow10_spec(value as int, power as int, true),
{
    proof {
        reveal(log2_q_pow10_spec);
        lemma_q_is_pow2();
    }
    if let Some(exact) = pow10_exact(value, scale, power) {
        proof {
            lemma_pow10_exact_spec(value, scale, power as int, exact as int, false);
            lemma_pow10_exact_spec(value, scale, power as int, exact as int, true);
        }
        return (exact, exact);
    }
    let (mantissa, integer) = word_mantissa(value);
    proof {
        lemma_log2_floor_is(value as int, 1, integer as int);
    }
    let (fraction_lower, fraction_upper) = log2_fraction_q64_bounds(mantissa);
    (
        pack_q61::<false>(integer, fraction_lower) - log2_pow10_constant_entry(power, true),
        pack_q61::<true>(integer, fraction_upper) - log2_pow10_constant_entry(power, false),
    )
}

/// The normalized mantissa of a value at its logarithm's floor has its top
/// bit set.
proof fn lemma_normalized_mantissa(value: int, scale: int, k: int, up: bool)
    requires
        scale > 0,
        is_log2_floor(value, scale, k),
    ensures
        normalize_q63_spec(value, scale, k, up).0 >= 0x8000_0000_0000_0000,
        value * pow2((63 - k) as nat) < scale * word(),
{
    let n = value * pow2((63 - k) as nat);
    vstd::arithmetic::power2::lemma2_to64_rest();
    lemma_directed(n, scale);
    lemma_div_lt_iff(n, scale, 0x8000_0000_0000_0000);
    assert(0x8000_0000_0000_0000 * scale == scale * pow2(63));
}

/// `log2(value / scale)` in Q61, rounded up when `UPPER`, as `log2_q_spec`
/// states it.
pub fn log2_q<const UPPER: bool>(value: u64, scale: u64) -> (r: Result<i128, MathError>)
    ensures
        as_int_result(r) == log2_q_spec(value as int, scale as int, UPPER),
{
    proof {
        reveal(log2_q_spec);
    }
    if scale == 0 {
        return Err(MathError::DivByZero);
    }
    if value == 0 {
        return Err(MathError::OutOfDomain);
    }
    if let Some(power) = decimal_exponent(scale) {
        proof {
            let p = choose|p: int| crate::kernel::wide::is_decimal_power(scale as int, p);
            crate::kernel::wide::lemma_decimal_power_unique(scale as int, p, power as int);
        }
        return Ok(log2_q_pow10::<UPPER>(value, scale, power));
    }
    let integer = integer_estimate(value, scale);
    proof {
        lemma_log2_floor_is(value as int, scale as int, integer as int);
        lemma_normalized_mantissa(value as int, scale as int, integer as int, UPPER);
    }
    let (mantissa, normalization_carry) = normalize_unsigned_q63::<UPPER>(value, scale, integer);
    let fraction = log2_fraction_q64::<UPPER>(mantissa);
    Ok(pack_q61::<UPPER>(integer + if normalization_carry { 1 } else { 0 }, fraction))
}

/// Both directed Q61 logarithms sharing the integer estimate and the
/// normalization division.
pub fn log2_q_bounds(value: u64, scale: u64) -> (r: Result<(i128, i128), MathError>)
    ensures
        r matches Ok(pair) ==> log2_q_spec(value as int, scale as int, false) == Ok::<int, MathError>(pair.0 as int)
            && log2_q_spec(value as int, scale as int, true) == Ok::<int, MathError>(pair.1 as int),
        r matches Err(error) ==> log2_q_spec(value as int, scale as int, false) == Err::<int, MathError>(error)
            && log2_q_spec(value as int, scale as int, true) == Err::<int, MathError>(error),
{
    proof {
        reveal(log2_q_spec);
    }
    if scale == 0 {
        return Err(MathError::DivByZero);
    }
    if value == 0 {
        return Err(MathError::OutOfDomain);
    }
    if let Some(power) = decimal_exponent(scale) {
        proof {
            let p = choose|p: int| crate::kernel::wide::is_decimal_power(scale as int, p);
            crate::kernel::wide::lemma_decimal_power_unique(scale as int, p, power as int);
        }
        return Ok(log2_q_pow10_bounds(value, scale, power));
    }
    let integer = integer_estimate(value, scale);
    proof {
        lemma_log2_floor_is(value as int, scale as int, integer as int);
        lemma_normalized_mantissa(value as int, scale as int, integer as int, false);
        lemma_normalized_mantissa(value as int, scale as int, integer as int, true);
    }
    let ((mantissa_lower, carry_lower), (mantissa_upper, carry_upper)) = normalize_unsigned_q63_bounds(value, scale, integer);
    let lower = pack_q61::<false>(integer + if carry_lower { 1 } else { 0 }, log2_fraction_q64::<false>(mantissa_lower));
    let upper = pack_q61::<true>(integer + if carry_upper { 1 } else { 0 }, log2_fraction_q64::<true>(mantissa_upper));
    Ok((lower, upper))
}

/// A lower bound of `log2(value / scale)` in raw units of `scale`.
pub fn log2_lower(value: u64, scale: u64) -> (r: Result<i64, MathError>)
    ensures
        r == log2_spec(value as int, scale as int, false),
{
    let result = match log2_q::<false>(value, scale) {
        Ok(result) => result,
        Err(error) => return Err(error),
    };
    project_signed_q::<false>(result, scale)
}

/// An upper bound of `log2(value / scale)` in raw units of `scale`.
pub fn log2_upper(value: u64, scale: u64) -> (r: Result<i64, MathError>)
    ensures
        r == log2_spec(value as int, scale as int, true),
{
    let result = match log2_q::<true>(value, scale) {
        Ok(result) => result,
        Err(error) => return Err(error),
    };
    project_signed_q::<true>(result, scale)
}

/// Both directed logarithms in one pass: exactly `(log2_lower,
/// log2_upper)` when both succeed, and the first error otherwise.
pub fn log2_bounds(value: u64, scale: u64) -> (r: Result<(i64, i64), MathError>)
    ensures
        r == pair_results(log2_spec(value as int, scale as int, false), log2_spec(value as int, scale as int, true)),
{
    let (lower_q, upper_q) = match log2_q_bounds(value, scale) {
        Ok(pair) => pair,
        Err(error) => return Err(error),
    };
    let lower = match project_signed_q::<false>(lower_q, scale) {
        Ok(value) => value,
        Err(error) => return Err(error),
    };
    let upper = match project_signed_q::<true>(upper_q, scale) {
        Ok(value) => value,
        Err(error) => return Err(error),
    };
    Ok((lower, upper))
}

} // verus!

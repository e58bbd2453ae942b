# svm_math

Checked integer and fixed-point mathematics for on-chain programs, written
in Verus: every public operation carries a `requires`/`ensures` contract
that the verifier proves against its body.

A positive `scale` is the number of raw units in one mathematical unit.
Names ending in `floor` or `ceil` return that exact rounding; names ending
in `lower` or `upper` return one-sided bounds computed with directed
rounding; names ending in `bounds` return both from one pass and are
proved equal to the pair of single-direction calls.

## Layout

- `src/lib.rs` — the public operations: `mul_div_floor`, `mul_div_ceil`,
  `isqrt`, `sqrt_floor`, `sqrt_ceil`, and the `exp2`, `log2`, `pow`,
  `powi` and `compound` bounds.
- `src/arith.rs` — mathematical definitions (directed division, integer
  roots, powers of ten) and arithmetic lemmas.
- `src/error.rs` — `MathError` and its stable codes.
- `src/kernel/` — the kernels: two-word multiplication and Knuth division
  (`wide`), integer square roots (`sqrt`), Q61 conversions and projections
  (`scale`), the lookup tables (`tables`), and the transcendental kernels
  (`exp2`, `log2`, `pow`, `compound`).
- `src/defi/` — stateless recipes: fees, constant-product quotes, lending
  rates, oracle price bounds, vesting schedules and staking indices.
- `src/enclosure.rs` — what it means, in integers, for a result to bound
  `2^x`, `log2(x)`, `x^y` or a compounded value, and the facts that carry
  the exact cases over to those statements; `src/enclosure/squaring.rs`
  proves that directed binary squaring stays on its side,
  `src/enclosure/exp2_table.rs` and `log2_table.rs` check the tables
  entry by entry, and `exp2_order.rs`, `log2_order.rs` and
  `compound_order.rs` prove the two evaluations ordered.
- `src/laws.rs` — properties across operations: exactness of `exp2` at
  integer exponents and of `log2` at exact powers of two, `pow` at an
  integer exponent being `powi`, and the enclosure of exact rational powers
  by `powi_lower`/`powi_upper`.
- `tests/` — scenario and regression tests run against the compiled library.

## What the contracts state

Exact operations are specified by their mathematical result
(`floor(a * b / d)`, `r^2 <= n < (r + 1)^2`, ...) with every error case.
The transcendental bounds are specified by the exact value of their
fixed-point evaluation — Q61 entry rounding, table lookup, truncated series
with directed rounding, and directed projection — so each result is pinned
down for every input.

For every input, `exp2_bounds` and `compound_bounds` state that their
lower result does not exceed their upper one. For `exp2` the proof rests on
facts about the two tables that are checked entry by entry (each
rounded-down entry lies below its rounded-up twin, and a rounded-down entry
carried across a whole table step stays below the next rounded-up entry);
for `compound` on the ordering of the two `ln(1 + x)` sums and of `exp2`.
At a scale that is a power of ten, `log2_bounds` states the same: both
sides read one mantissa, and at one mantissa the rounded-down fraction
never exceeds the rounded-up one (the `log2` tables are checked entry by
entry as well).

Where the value is exact, each of them also states, in integers (both
sides raised to whole powers), that its result bounds the real value on
the promised side, and each `bounds` form that its lower result does not
exceed its upper one: `exp2` at exponents that are a whole number of
units, `log2` where `value / scale` is a power of two, `pow` at whole-unit
exponents or a zero base, and `compound` with no elapsed period, no
rate, or a per-period rate beyond `1/256` (there it is computed by
directed binary squaring, which is proved to stay on its side at every
step). Elsewhere the bracketing rests on the table entries and the series
padding, and is checked by the tests, not proved.

//! Parts-per-billion ratios and 18-decimal fixed-point rates.
//!
//! A `Perbill` is modelled by its number of parts per billion (a `u32` of at
//! most `PERBILL_ACCURACY`), a `FixedU128` rate by its inner `u128` value,
//! which counts units of `1 / RATE_ACCURACY`. The arithmetic itself is done
//! by `sp_arithmetic`.

use vstd::prelude::*;
use sp_arithmetic::FixedPointNumber;
use sp_arithmetic::FixedU128;
use sp_arithmetic::Perbill;

verus! {

/// Parts in a whole `Perbill`.
pub const PERBILL_ACCURACY: u32 = 1_000_000_000;

/// Inner value of the rate `1` in a `FixedU128`.
pub const RATE_ACCURACY: u128 = 1_000_000_000_000_000_000;

/// Parts per billion of `x` percent, where percentages above 100 count as 100.
pub open spec fn percent_parts(x: int) -> int {
    (if x > 100 { 100 } else { x }) * 10_000_000
}

/// What `Perbill::from_parts(parts) * x` gives: the parts are first clamped
/// to a whole, then `x` is scaled by `parts / 10^9` and rounded to the
/// nearest integer, halves rounding down.
pub open spec fn perbill_mul_spec(parts: int, x: int) -> int {
    let p = if parts > PERBILL_ACCURACY { PERBILL_ACCURACY as int } else { parts };
    let acc = PERBILL_ACCURACY as int;
    let rem = x % acc;
    (x / acc) * p + (rem * p) / acc + (if (rem * p) % acc > acc / 2 { 1int } else { 0int })
}

/// What `FixedU128::saturating_from_rational(n, d)` holds: `n / d` with 18
/// decimal places, rounded down, saturated at `u128::MAX`.
pub open spec fn rational_rate(n: int, d: int) -> int {
    if n * (RATE_ACCURACY as int) / d <= u128::MAX as int {
        n * (RATE_ACCURACY as int) / d
    } else {
        u128::MAX as int
    }
}

/// Calls `Perbill::from_percent` (the inherent one, on `u32`) and reads the
/// parts back with `deconstruct`. Its source clamps `x` to 100 and computes
/// `x * 10^9 / 100`, which is exact.
#[verifier::external_body]
pub(crate) fn perbill_from_percent(x: u32) -> (parts: u32)
    ensures
        parts == percent_parts(x as int),
{
    Perbill::from_percent(x).deconstruct()
}

/// Calls `Mul<u64>` of `Perbill` on `Perbill::from_parts(parts)`. Its source
/// (`overflow_prune_mul` with `Rounding::NearestPrefDown`) computes
/// `(x / 10^9) * p` plus the rounded correction for `x % 10^9`, as
/// `perbill_mul_spec` writes it out.
#[verifier::external_body]
pub(crate) fn perbill_mul(parts: u32, x: u64) -> (r: u64)
    ensures
        r == perbill_mul_spec(parts as int, x as int),
{
    Perbill::from_parts(parts) * x
}

/// Calls `FixedU128::saturating_from_rational(n, d)` and reads the inner
/// value with `into_inner`. Its source panics when `d` is zero, otherwise
/// multiplies `n` by `10^18` and divides by `d` with `Rounding::Down`
/// (`SignedRounding::Minor` on non-negative values), and saturates at the
/// maximum when the result does not fit.
#[verifier::external_body]
pub(crate) fn fixed_from_rational(n: u128, d: u128) -> (r: u128)
    requires
        d != 0,
    ensures
        r == rational_rate(n as int, d as int),
{
    FixedU128::saturating_from_rational(n, d).into_inner()
}

/// Multiplying by a ratio of at most one whole never increases a value.
pub proof fn lemma_perbill_mul_at_most_whole(parts: int, x: int)
    requires
        x >= 0,
        parts >= 0,
    ensures
        0 <= perbill_mul_spec(parts, x) <= x,
{
    let acc = PERBILL_ACCURACY as int;
    let p = if parts > acc { acc } else { parts };
    let q = x / acc;
    let rem = x % acc;
    assert(x == q * acc + rem && 0 <= rem < acc && q >= 0) by (nonlinear_arith)
        requires
            acc == 1_000_000_000,
            x >= 0,
            q == x / acc,
            rem == x % acc,
    ;
    assert(0 <= q * p <= q * acc) by (nonlinear_arith)
        requires
            0 <= p <= acc,
            q >= 0,
    ;
    assert(0 <= (rem * p) / acc <= rem) by (nonlinear_arith)
        requires
            0 <= p <= acc,
            acc > 0,
            0 <= rem < acc,
    ;
    assert((rem * p) % acc > acc / 2 ==> (rem * p) / acc < rem) by (nonlinear_arith)
        requires
            0 <= p <= acc,
            acc == 1_000_000_000,
            0 <= rem < acc,
    ;
}

} // verus!

//! Currency denominations and storage deposits.
//!
//! A currency with `decimals` decimal places has a "dollar" of `10^decimals`
//! smallest units (saturating at `u128::MAX`); a cent is a hundredth of that,
//! a millicent a thousandth of a cent and a microcent a thousandth of a
//! millicent, each rounded down.

use vstd::prelude::*;
use vstd::arithmetic::power::{pow, lemma_pow_increases, lemma_pow_adds, lemma_pow_positive};

verus! {

/// Amounts of a currency, in its smallest unit.
pub type Balance = u128;

/// `base^exp`, saturated at `u128::MAX`.
pub open spec fn saturated_pow(base: int, exp: nat) -> int {
    if pow(base, exp) <= u128::MAX as int {
        pow(base, exp)
    } else {
        u128::MAX as int
    }
}

/// One whole unit ("dollar") of a currency with `decimals` decimal places.
pub open spec fn spec_dollar(decimals: u32) -> int {
    saturated_pow(10, decimals as nat)
}

/// A hundredth of a dollar, rounded down.
pub open spec fn spec_cent(decimals: u32) -> int {
    spec_dollar(decimals) / 100
}

/// A thousandth of a cent, rounded down.
pub open spec fn spec_millicent(decimals: u32) -> int {
    spec_cent(decimals) / 1000
}

/// A thousandth of a millicent, rounded down.
pub open spec fn spec_microcent(decimals: u32) -> int {
    spec_millicent(decimals) / 1000
}

/// The deposit owed for `items` storage items that take `bytes` bytes:
/// fifteen cents per item and six cents per byte.
pub open spec fn spec_deposit(items: int, bytes: int, decimals: u32) -> int {
    items * 15 * spec_cent(decimals) + bytes * 6 * spec_cent(decimals)
}

/// Calls `u128::saturating_pow`, which std documents as computing
/// `self.pow(exp)` and saturating at the numeric bounds instead of
/// overflowing; for an unsigned base the only bound reached is `u128::MAX`.
#[verifier::external_body]
fn u128_saturating_pow(base: u128, exp: u32) -> (r: u128)
    ensures
        r == saturated_pow(base as int, exp as nat),
{
    base.saturating_pow(exp)
}

/// One whole unit of a currency with `decimals` decimal places:
/// `10^decimals`, saturated at `u128::MAX`.
pub fn dollar(decimals: u32) -> (r: Balance)
    ensures
        r == spec_dollar(decimals),
{
    u128_saturating_pow(10, decimals)
}

/// A hundredth of [`dollar`], rounded down.
pub fn cent(decimals: u32) -> (r: Balance)
    ensures
        r == spec_cent(decimals),
{
    dollar(decimals) / 100
}

/// A thousandth of [`cent`], rounded down.
pub fn millicent(decimals: u32) -> (r: Balance)
    ensures
        r == spec_millicent(decimals),
{
    cent(decimals) / 1000
}

/// A thousandth of [`millicent`], rounded down.
pub fn microcent(decimals: u32) -> (r: Balance)
    ensures
        r == spec_microcent(decimals),
{
    millicent(decimals) / 1000
}

/// Every denomination is a non-negative amount.
proof fn lemma_denominations_nonnegative(decimals: u32)
    ensures
        spec_dollar(decimals) >= 1,
        spec_cent(decimals) >= 0,
{
    lemma_pow_positive(10, decimals as nat);
}

/// The storage deposit for `items` items of `bytes` bytes in total:
/// `items * 15 * cent + bytes * 6 * cent`. The amount must fit in a
/// `Balance`; the arithmetic would overflow otherwise.
pub fn deposit(items: u32, bytes: u32, decimals: u32) -> (r: Balance)
    requires
        spec_deposit(items as int, bytes as int, decimals) <= u128::MAX,
    ensures
        r == spec_deposit(items as int, bytes as int, decimals),
{
    proof {
        lemma_denominations_nonnegative(decimals);
    }
    let c1 = cent(decimals);
    let c2 = cent(decimals);
    let ghost c: int = spec_cent(decimals);
    assert(items * 15 * c <= u128::MAX && bytes * 6 * c <= u128::MAX) by (nonlinear_arith)
        requires
            c >= 0,
            items * 15 * c + bytes * 6 * c <= u128::MAX,
    ;
    items as u128 * 15 * c1 + bytes as u128 * 6 * c2
}

/// [`deposit`] for any inputs: `None` exactly when the deposit does not fit
/// in a `Balance`, where the computation of [`deposit`] would overflow.
pub fn checked_deposit(items: u32, bytes: u32, decimals: u32) -> (r: Option<Balance>)
    ensures
        r is None <==> spec_deposit(items as int, bytes as int, decimals) > u128::MAX,
        r matches Some(v) ==> v == spec_deposit(items as int, bytes as int, decimals),
{
    proof {
        lemma_denominations_nonnegative(decimals);
    }
    let c = cent(decimals);
    let ghost ci: int = c as int;
    assert(items * 15 * ci >= 0 && bytes * 6 * ci >= 0) by (nonlinear_arith)
        requires
            ci >= 0,
    ;
    let items_part = match (items as u128 * 15).checked_mul(c) {
        Some(v) => v,
        None => {
            return None;
        },
    };
    let bytes_part = match (bytes as u128 * 6).checked_mul(c) {
        Some(v) => v,
        None => {
            return None;
        },
    };
    items_part.checked_add(bytes_part)
}

/// `10^38` is the largest power of ten that fits in a `Balance`.
proof fn lemma_largest_power_that_fits()
    ensures
        pow(10, 38) <= u128::MAX,
        pow(10, 39) > u128::MAX,
{
    reveal_with_fuel(pow, 40);
    assert(pow(10, 38) == 100000000000000000000000000000000000000int);
    assert(pow(10, 39) == 1000000000000000000000000000000000000000int);
}

/// A dollar is exactly `10^decimals` whenever that fits in a `Balance`,
/// that is for up to 38 decimal places.
pub proof fn lemma_dollar_is_power_of_ten(decimals: u32)
    requires
        decimals <= 38,
    ensures
        spec_dollar(decimals) == pow(10, decimals as nat),
{
    lemma_largest_power_that_fits();
    lemma_pow_increases(10, decimals as nat, 38);
}

/// From 39 decimal places on, a dollar saturates at `u128::MAX`.
pub proof fn lemma_dollar_saturates(decimals: u32)
    requires
        decimals >= 39,
    ensures
        spec_dollar(decimals) == u128::MAX,
{
    lemma_largest_power_that_fits();
    lemma_pow_increases(10, 39, decimals as nat);
}

/// A currency with more decimal places never has a smaller dollar.
pub proof fn lemma_dollar_monotone(d1: u32, d2: u32)
    requires
        d1 <= d2,
    ensures
        spec_dollar(d1) <= spec_dollar(d2),
{
    lemma_pow_increases(10, d1 as nat, d2 as nat);
}

/// The denominations are ordered: `0 <= microcent <= millicent <= cent <= dollar`.
pub proof fn lemma_denominations_ordered(decimals: u32)
    ensures
        0 <= spec_microcent(decimals),
        spec_microcent(decimals) <= spec_millicent(decimals),
        spec_millicent(decimals) <= spec_cent(decimals),
        spec_cent(decimals) <= spec_dollar(decimals),
{
    lemma_denominations_nonnegative(decimals);
}

/// With at least two and at most 38 decimal places nothing is lost to
/// rounding: a cent is `10^(decimals - 2)` and a dollar is exactly 100 cents.
pub proof fn lemma_cent_is_exact(decimals: u32)
    requires
        2 <= decimals <= 38,
    ensures
        spec_cent(decimals) == pow(10, (decimals - 2) as nat),
        spec_dollar(decimals) == 100 * spec_cent(decimals),
{
    lemma_dollar_is_power_of_ten(decimals);
    lemma_pow_adds(10, 2, (decimals - 2) as nat);
    reveal_with_fuel(pow, 3);
    assert(pow(10, 2) == 100);
}

/// With at least eight and at most 38 decimal places a microcent is
/// `10^(decimals - 8)` and a dollar is exactly `10^8` microcents.
pub proof fn lemma_microcent_is_exact(decimals: u32)
    requires
        8 <= decimals <= 38,
    ensures
        spec_microcent(decimals) == pow(10, (decimals - 8) as nat),
        spec_millicent(decimals) == 1000 * spec_microcent(decimals),
        spec_cent(decimals) == 1000 * spec_millicent(decimals),
        spec_dollar(decimals) == 100000000 * spec_microcent(decimals),
{
    lemma_cent_is_exact(decimals);
    let e = (decimals - 8) as nat;
    lemma_pow_adds(10, 6, e);
    lemma_pow_adds(10, 3, e);
    reveal_with_fuel(pow, 7);
    assert(pow(10, 3) == 1000);
    assert(pow(10, 6) == 1000000);
    assert(spec_cent(decimals) == 1000000 * pow(10, e));
    assert(spec_millicent(decimals) == 1000 * pow(10, e));
}

/// Each denomination is the smaller one rounded down, for every number of
/// decimal places: a cent is the largest amount of which 100 fit in a
/// dollar, a millicent the largest of which 1000 fit in a cent, and a
/// microcent the largest of which 1000 fit in a millicent.
pub proof fn lemma_denominations_round_down(decimals: u32)
    ensures
        100 * spec_cent(decimals) <= spec_dollar(decimals) < 100 * spec_cent(decimals) + 100,
        1000 * spec_millicent(decimals) <= spec_cent(decimals) < 1000 * spec_millicent(decimals)
            + 1000,
        1000 * spec_microcent(decimals) <= spec_millicent(decimals) < 1000 * spec_microcent(
            decimals,
        ) + 1000,
        spec_microcent(decimals) == spec_dollar(decimals) / 100_000_000,
{
    lemma_denominations_nonnegative(decimals);
    let d = spec_dollar(decimals);
    assert(d / 100 / 1000 / 1000 == d / 100_000_000) by (nonlinear_arith)
        requires
            d >= 0,
    ;
}

/// The deposit charges fifteen cents for each item and six cents for each
/// byte, for every currency: one item alone costs 15 cents, one byte alone
/// 6 cents, nothing costs nothing, and deposits for separate items and bytes
/// add up, so that `items` items of `bytes` bytes cost
/// `items * 15 cents + bytes * 6 cents`.
pub proof fn lemma_deposit_prices(items: int, bytes: int, decimals: u32)
    ensures
        spec_deposit(1, 0, decimals) == 15 * spec_cent(decimals),
        spec_deposit(0, 1, decimals) == 6 * spec_cent(decimals),
        spec_deposit(0, 0, decimals) == 0,
        spec_deposit(items, bytes, decimals) == items * spec_deposit(1, 0, decimals) + bytes
            * spec_deposit(0, 1, decimals),
{
    let c = spec_cent(decimals);
    assert(1 * 15 * c + 0 * 6 * c == 15 * c && 0 * 15 * c + 1 * 6 * c == 6 * c) by (nonlinear_arith);
    assert(0 * 15 * c + 0 * 6 * c == 0) by (nonlinear_arith);
    assert(items * 15 * c + bytes * 6 * c == items * (15 * c) + bytes * (6 * c)) by (nonlinear_arith);
}

/// Deposits add up: the deposit for two sets of items together is the sum of
/// their deposits.
pub proof fn lemma_deposit_additive(i1: int, b1: int, i2: int, b2: int, decimals: u32)
    ensures
        spec_deposit(i1 + i2, b1 + b2, decimals) == spec_deposit(i1, b1, decimals)
            + spec_deposit(i2, b2, decimals),
{
    let c = spec_cent(decimals);
    assert((i1 + i2) * 15 * c + (b1 + b2) * 6 * c == (i1 * 15 * c + b1 * 6 * c) + (i2 * 15 * c
        + b2 * 6 * c)) by (nonlinear_arith);
}

/// More items or more bytes never lower the deposit.
pub proof fn lemma_deposit_monotone(i1: int, b1: int, i2: int, b2: int, decimals: u32)
    requires
        0 <= i1 <= i2,
        0 <= b1 <= b2,
    ensures
        spec_deposit(i1, b1, decimals) <= spec_deposit(i2, b2, decimals),
{
    lemma_denominations_nonnegative(decimals);
    let c = spec_cent(decimals);
    assert(i1 * 15 * c + b1 * 6 * c <= i2 * 15 * c + b2 * 6 * c) by (nonlinear_arith)
        requires
            c >= 0,
            0 <= i1 <= i2,
            0 <= b1 <= b2,
    ;
}

} // verus!

//! Parameters shared by the Setheum, Neom and NewRome runtimes: transaction
//! priorities, dispatch ratios, block length and block weight limits, and the
//! validator filter.

use vstd::prelude::*;
use crate::fractions::{
    percent_parts, perbill_mul_spec, perbill_from_percent, perbill_mul,
    lemma_perbill_mul_at_most_whole, PERBILL_ACCURACY,
};

verus! {

/// Priority of unsigned staking transactions: half of the largest
/// transaction priority.
pub const STAKING_UNSIGNED_PRIORITY: u64 = u64::MAX / 2;

/// Weight of one second of execution time.
pub const WEIGHT_PER_SECOND: u64 = 1_000_000_000_000;

/// Weight of one millisecond of execution time.
pub const WEIGHT_PER_MILLIS: u64 = WEIGHT_PER_SECOND / 1000;

/// A parachain has half a second of computation time per block.
pub const MAXIMUM_BLOCK_WEIGHT: u64 = 500 * WEIGHT_PER_MILLIS;

/// Maximum length of a block in bytes: 5 MiB.
pub const MAXIMUM_BLOCK_LENGTH: u32 = 5 * 1024 * 1024;

/// Share of a block, in parts per billion, that initialisation is expected to
/// take on average: 10%.
pub open spec fn spec_average_on_initialize_ratio() -> int {
    percent_parts(10)
}

/// Share of a block, in parts per billion, that `Normal` extrinsics may
/// occupy: 70%.
pub open spec fn spec_normal_dispatch_ratio() -> int {
    percent_parts(70)
}

/// The average initialisation ratio, 10%, in parts per billion.
pub fn average_on_initialize_ratio() -> (parts: u32)
    ensures
        parts == spec_average_on_initialize_ratio(),
{
    perbill_from_percent(10)
}

/// The normal dispatch ratio, 70%, in parts per billion.
pub fn normal_dispatch_ratio() -> (parts: u32)
    ensures
        parts == spec_normal_dispatch_ratio(),
{
    perbill_from_percent(70)
}

/// Normal extrinsics are given at least the share of a block that
/// initialisation takes on average.
pub proof fn lemma_normal_ratio_covers_initialization()
    ensures
        spec_normal_dispatch_ratio() >= spec_average_on_initialize_ratio(),
        spec_normal_dispatch_ratio() <= PERBILL_ACCURACY,
{
}

/// Maximum block length for each dispatch class, in bytes.
pub struct BlockLength {
    pub normal: u32,
    pub operational: u32,
    pub mandatory: u32,
}

/// Block lengths where `Normal` extrinsics get the share `normal_parts`
/// (parts per billion) of `max`, and the other classes get all of `max`.
pub fn max_with_normal_ratio(max: u32, normal_parts: u32) -> (r: BlockLength)
    ensures
        r.normal == perbill_mul_spec(normal_parts as int, max as int),
        r.operational == max,
        r.mandatory == max,
{
    proof {
        lemma_perbill_mul_at_most_whole(normal_parts as int, max as int);
    }
    let normal = perbill_mul(normal_parts, max as u64);
    BlockLength { normal: normal as u32, operational: max, mandatory: max }
}

/// The runtime's block length limits: 5 MiB, of which 70% for `Normal`
/// extrinsics.
pub fn runtime_block_length() -> (r: BlockLength)
    ensures
        r.normal == perbill_mul_spec(spec_normal_dispatch_ratio(), MAXIMUM_BLOCK_LENGTH as int),
        r.operational == MAXIMUM_BLOCK_LENGTH,
        r.mandatory == MAXIMUM_BLOCK_LENGTH,
{
    max_with_normal_ratio(MAXIMUM_BLOCK_LENGTH, normal_dispatch_ratio())
}

/// The per-class weight limits that the runtime sets on top of the defaults.
pub struct ClassWeightLimits {
    /// Largest total weight of `Normal` extrinsics in a block.
    pub normal_max_total: u64,
    /// Largest total weight of `Operational` extrinsics in a block.
    pub operational_max_total: u64,
    /// Weight reserved for `Operational` extrinsics beyond what `Normal` ones
    /// may use, so that they are included even in a full block.
    pub operational_reserved: u64,
}

/// The runtime's weight limits: `Normal` extrinsics get 70% of
/// `MAXIMUM_BLOCK_WEIGHT`, `Operational` ones all of it, with the other 30%
/// reserved for them.
pub fn runtime_class_weight_limits() -> (r: ClassWeightLimits)
    ensures
        r.normal_max_total == perbill_mul_spec(
            spec_normal_dispatch_ratio(),
            MAXIMUM_BLOCK_WEIGHT as int,
        ),
        r.operational_max_total == MAXIMUM_BLOCK_WEIGHT,
        r.operational_reserved == MAXIMUM_BLOCK_WEIGHT - perbill_mul_spec(
            spec_normal_dispatch_ratio(),
            MAXIMUM_BLOCK_WEIGHT as int,
        ),
{
    proof {
        lemma_perbill_mul_at_most_whole(spec_normal_dispatch_ratio(), MAXIMUM_BLOCK_WEIGHT as int);
    }
    let normal_max_total = perbill_mul(normal_dispatch_ratio(), MAXIMUM_BLOCK_WEIGHT);
    let operational_max_total = MAXIMUM_BLOCK_WEIGHT;
    let operational_reserved = MAXIMUM_BLOCK_WEIGHT - perbill_mul(
        normal_dispatch_ratio(),
        MAXIMUM_BLOCK_WEIGHT,
    );
    ClassWeightLimits { normal_max_total, operational_max_total, operational_reserved }
}

/// The limits come to: 3,670,016 bytes of a 5 MiB block for `Normal`
/// extrinsics; 350,000,000,000 weight for `Normal` extrinsics and the
/// remaining 150,000,000,000 of the 500,000,000,000 reserved for
/// `Operational` ones, so that the two together make up the whole block.
pub proof fn lemma_runtime_limits()
    ensures
        perbill_mul_spec(spec_normal_dispatch_ratio(), MAXIMUM_BLOCK_LENGTH as int) == 3_670_016,
        perbill_mul_spec(spec_normal_dispatch_ratio(), MAXIMUM_BLOCK_WEIGHT as int)
            == 350_000_000_000,
        MAXIMUM_BLOCK_WEIGHT == 500_000_000_000,
        MAXIMUM_BLOCK_WEIGHT - perbill_mul_spec(
            spec_normal_dispatch_ratio(),
            MAXIMUM_BLOCK_WEIGHT as int,
        ) + perbill_mul_spec(spec_normal_dispatch_ratio(), MAXIMUM_BLOCK_WEIGHT as int)
            == MAXIMUM_BLOCK_WEIGHT,
{
    assert(MAXIMUM_BLOCK_LENGTH == 5_242_880);
    assert(5_242_880int / 1_000_000_000 == 0 && 5_242_880int % 1_000_000_000 == 5_242_880) by (nonlinear_arith);
    assert((5_242_880int % 1_000_000_000) * 700_000_000 == 3_670_016_000_000_000) by (nonlinear_arith);
    assert(3_670_016_000_000_000int / 1_000_000_000 == 3_670_016) by (nonlinear_arith);
    assert(3_670_016_000_000_000int % 1_000_000_000 == 0) by (nonlinear_arith);
    assert((500_000_000_000int / 1_000_000_000) * 700_000_000 == 350_000_000_000) by (nonlinear_arith);
    assert(500_000_000_000int % 1_000_000_000 == 0) by (nonlinear_arith);
}

/// Filter of relay-chain validators: every account passes.
pub struct RelaychainValidatorFilter;

impl RelaychainValidatorFilter {
    /// Whether `account` passes the filter: always `true`.
    pub fn contains<AccountId>(_account: &AccountId) -> (r: bool)
        ensures
            r,
    {
        true
    }
}

} // verus!

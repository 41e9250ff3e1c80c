use setheum::fee_rates::fee_rate_matrix;
use setheum::fractions::{PERBILL_ACCURACY, RATE_ACCURACY};
use setheum::runtime::{
    average_on_initialize_ratio, max_with_normal_ratio, normal_dispatch_ratio,
    runtime_block_length, runtime_class_weight_limits, RelaychainValidatorFilter,
    MAXIMUM_BLOCK_LENGTH, MAXIMUM_BLOCK_WEIGHT, STAKING_UNSIGNED_PRIORITY, WEIGHT_PER_MILLIS,
};

#[test]
fn constants() {
    assert_eq!(STAKING_UNSIGNED_PRIORITY, u64::MAX / 2);
    assert_eq!(WEIGHT_PER_MILLIS, 1_000_000_000);
    assert_eq!(MAXIMUM_BLOCK_WEIGHT, 500_000_000_000);
    assert_eq!(MAXIMUM_BLOCK_LENGTH, 5 * 1024 * 1024);
}

#[test]
fn dispatch_ratios() {
    assert_eq!(average_on_initialize_ratio(), 100_000_000);
    assert_eq!(normal_dispatch_ratio(), 700_000_000);
    assert!(normal_dispatch_ratio() >= average_on_initialize_ratio());
}

#[test]
fn block_length_limits() {
    let l = runtime_block_length();
    assert_eq!(l.normal, 3_670_016);
    assert_eq!(l.operational, 5 * 1024 * 1024);
    assert_eq!(l.mandatory, 5 * 1024 * 1024);
}

#[test]
fn normal_ratio_rounds_to_nearest_halves_down() {
    assert_eq!(max_with_normal_ratio(3, 500_000_000).normal, 1);
    assert_eq!(max_with_normal_ratio(3, 600_000_000).normal, 2);
    assert_eq!(max_with_normal_ratio(7, 300_000_000).normal, 2);
    assert_eq!(max_with_normal_ratio(10, PERBILL_ACCURACY).normal, 10);
    assert_eq!(max_with_normal_ratio(10, u32::MAX).normal, 10);
    assert_eq!(max_with_normal_ratio(u32::MAX, 0).normal, 0);
    assert_eq!(max_with_normal_ratio(u32::MAX, 0).operational, u32::MAX);
}

#[test]
fn block_weight_limits() {
    let w = runtime_class_weight_limits();
    assert_eq!(w.normal_max_total, 350_000_000_000);
    assert_eq!(w.operational_max_total, 500_000_000_000);
    assert_eq!(w.operational_reserved, 150_000_000_000);
    assert_eq!(w.normal_max_total + w.operational_reserved, MAXIMUM_BLOCK_WEIGHT);
}

#[test]
fn every_validator_passes_the_filter() {
    assert!(RelaychainValidatorFilter::contains(&0u64));
    assert!(RelaychainValidatorFilter::contains(&"alice"));
    assert!(RelaychainValidatorFilter::contains(&[7u8; 32]));
}

#[test]
fn fee_rate_matrix_entries() {
    let m = fee_rate_matrix();
    assert_eq!(m.len(), 11);
    assert_eq!(m[0][0], 0);
    assert_eq!(m[0][1], 2_314_870_000_000_000);
    assert_eq!(m[0][3], 10_614_800_000_000_000);
    assert_eq!(m[0][10], 510_500_000_000_000_000);
    assert_eq!(m[5][5], 282_343_000_000_000_000);
    assert_eq!(m[9][10], 998_024_000_000_000_000);
    assert_eq!(m[10][0], 0);
    assert_eq!(m[10][1], RATE_ACCURACY);
    assert_eq!(m[10][10], RATE_ACCURACY);
}

#[test]
fn fee_rates_are_bounded_and_monotone() {
    let m = fee_rate_matrix();
    for row in 0..11 {
        assert_eq!(m[row].len(), 11);
        assert_eq!(m[row][0], 0);
        for col in 0..11 {
            assert!(m[row][col] <= RATE_ACCURACY);
            if col > 0 {
                assert!(m[row][col - 1] <= m[row][col]);
            }
            if row > 0 {
                assert!(m[row - 1][col] <= m[row][col]);
            }
        }
    }
}

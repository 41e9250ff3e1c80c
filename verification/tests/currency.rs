use setheum::currency::{cent, checked_deposit, deposit, dollar, microcent, millicent};

#[test]
fn denominations_of_twelve_decimals() {
    assert_eq!(dollar(12), 1_000_000_000_000);
    assert_eq!(cent(12), 10_000_000_000);
    assert_eq!(millicent(12), 10_000_000);
    assert_eq!(microcent(12), 10_000);
}

#[test]
fn denominations_of_eighteen_decimals() {
    assert_eq!(dollar(18), 1_000_000_000_000_000_000);
    assert_eq!(cent(18), 10_000_000_000_000_000);
    assert_eq!(millicent(18), 10_000_000_000_000);
    assert_eq!(microcent(18), 10_000_000_000);
}

#[test]
fn denominations_round_down_with_few_decimals() {
    assert_eq!(dollar(0), 1);
    assert_eq!(cent(0), 0);
    assert_eq!(dollar(2), 100);
    assert_eq!(cent(2), 1);
    assert_eq!(millicent(2), 0);
    assert_eq!(microcent(7), 0);
    assert_eq!(microcent(8), 1);
}

#[test]
fn dollar_saturates_above_thirty_eight_decimals() {
    assert_eq!(dollar(38), 100_000_000_000_000_000_000_000_000_000_000_000_000);
    assert_eq!(dollar(39), u128::MAX);
    assert_eq!(dollar(u32::MAX), u128::MAX);
    assert_eq!(cent(39), u128::MAX / 100);
}

#[test]
fn denominations_are_ordered() {
    for d in 0..45u32 {
        assert!(microcent(d) <= millicent(d));
        assert!(millicent(d) <= cent(d));
        assert!(cent(d) <= dollar(d));
        if d > 0 {
            assert!(dollar(d - 1) <= dollar(d));
        }
        if (2..=38).contains(&d) {
            assert_eq!(dollar(d), 100 * cent(d));
        }
    }
}

#[test]
fn deposit_charges_per_item_and_per_byte() {
    // 15 cents per item and 6 cents per byte.
    assert_eq!(deposit(1, 0, 12), 15 * 10_000_000_000);
    assert_eq!(deposit(0, 1, 12), 6 * 10_000_000_000);
    assert_eq!(deposit(2, 100, 12), 2 * 15 * 10_000_000_000 + 100 * 6 * 10_000_000_000);
    assert_eq!(deposit(0, 0, 12), 0);
    assert_eq!(deposit(u32::MAX, u32::MAX, 0), 0);
}

#[test]
fn deposit_is_additive_and_monotone() {
    let d = 12;
    assert_eq!(deposit(3 + 4, 10 + 20, d), deposit(3, 10, d) + deposit(4, 20, d));
    assert!(deposit(3, 10, d) <= deposit(4, 10, d));
    assert!(deposit(3, 10, d) <= deposit(3, 11, d));
}

#[test]
fn checked_deposit_refuses_overflow() {
    assert_eq!(checked_deposit(2, 100, 12), Some(deposit(2, 100, 12)));
    assert_eq!(checked_deposit(0, 0, 38), Some(0));
    assert_eq!(checked_deposit(1, 0, 38), Some(15 * 10u128.pow(36)));
    assert_eq!(checked_deposit(100, 0, 38), None);
    assert_eq!(checked_deposit(0, 100, 39), None);
    assert_eq!(checked_deposit(u32::MAX, u32::MAX, 24), Some(deposit(u32::MAX, u32::MAX, 24)));
    assert_eq!(checked_deposit(u32::MAX, u32::MAX, 30), None);
}

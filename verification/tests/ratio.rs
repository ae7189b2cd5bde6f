use tokenization::ratio::{admitted, initial_pool_supply, owner_supply, supply_percent};

#[test]
fn initial_pool_supply_is_the_share_rounded_down() {
    assert_eq!(initial_pool_supply(1000, (1, 5)), 200);
    assert_eq!(initial_pool_supply(1000, (1, 10)), 100);
    assert_eq!(initial_pool_supply(1000, (1, 3)), 333);
    assert_eq!(initial_pool_supply(7, (2, 3)), 4);
    assert_eq!(initial_pool_supply(1000, (3, 1)), 3000);
    assert_eq!(initial_pool_supply(0, (1, 5)), 0);
    assert_eq!(initial_pool_supply(1000, (0, 5)), 0);
}

#[test]
fn initial_pool_supply_with_zero_denominator_is_zero() {
    assert_eq!(initial_pool_supply(1000, (1, 0)), 0);
    assert_eq!(initial_pool_supply(u128::MAX, (u32::MAX, 0)), 0);
}

#[test]
fn initial_pool_supply_holds_the_product_at_the_maximum() {
    assert_eq!(initial_pool_supply(u128::MAX, (2, 1)), u128::MAX);
    assert_eq!(initial_pool_supply(u128::MAX, (2, 4)), u128::MAX / 4);
    assert_eq!(initial_pool_supply(u128::MAX, (1, 1)), u128::MAX);
    assert_eq!(initial_pool_supply(u128::MAX / 2 + 1, (2, 3)), u128::MAX / 3);
}

#[test]
fn supply_percent_is_the_percentage_rounded_down() {
    assert_eq!(supply_percent(200, 1000), 20);
    assert_eq!(supply_percent(100, 1000), 10);
    assert_eq!(supply_percent(199, 1000), 19);
    assert_eq!(supply_percent(1, 3), 33);
    assert_eq!(supply_percent(2, 3), 66);
    assert_eq!(supply_percent(1000, 1000), 100);
    assert_eq!(supply_percent(3000, 1000), 300);
    assert_eq!(supply_percent(0, 1000), 0);
    assert_eq!(supply_percent(1, 101), 0);
    assert_eq!(supply_percent(u128::MAX / 5 - 1, u128::MAX), 19);
    assert_eq!(supply_percent(u128::MAX / 5, u128::MAX), 20);
    assert_eq!(supply_percent(u128::MAX, u128::MAX), 100);
}

#[test]
fn supply_percent_of_no_supply_is_zero() {
    assert_eq!(supply_percent(0, 0), 0);
    assert_eq!(supply_percent(200, 0), 0);
}

#[test]
fn supply_percent_beyond_the_fraction_is_zero() {
    assert_eq!(supply_percent(u128::MAX, 1), 0);
    assert_eq!(supply_percent(340_282_366_920_938_463_464, 1), 0);
    assert_eq!(supply_percent(340_282_366_920_938_463_463, 1), 34_028_236_692_093_846_346_300);
}

#[test]
fn admitted_from_twenty_percent() {
    assert!(!admitted(0));
    assert!(!admitted(19));
    assert!(admitted(20));
    assert!(admitted(21));
    assert!(admitted(u128::MAX));
}

#[test]
fn owner_supply_is_what_the_pool_leaves() {
    assert_eq!(owner_supply(1000, 200), 800);
    assert_eq!(owner_supply(1000, 1000), 0);
    assert_eq!(owner_supply(1000, 3000), 0);
    assert_eq!(owner_supply(0, 0), 0);
    assert_eq!(owner_supply(u128::MAX, 1), u128::MAX - 1);
}

#[test]
fn the_pool_is_admitted_from_a_fifth_of_the_supply() {
    for (total_supply, initial_lp) in
        [(1000u128, (1u32, 5u32)), (1000, (1, 6)), (999, (1, 5)), (5, (1, 5)), (4, (1, 5)), (12345, (7, 30))]
    {
        let pool_supply = initial_pool_supply(total_supply, initial_lp);
        assert_eq!(
            admitted(supply_percent(pool_supply, total_supply)),
            5 * pool_supply >= total_supply
        );
    }
}

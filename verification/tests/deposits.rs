use pallet_chainlink::deposit;
use pallet_chainlink::deposits::{CENTS, MILLICENTS, UNITS};

#[test]
fn deposit_counts_items_and_bytes() {
    assert_eq!(deposit(0, 0), 0);
    assert_eq!(deposit(1, 16), 1_000_000_000_000 + 16 * 50_000_000);
    assert_eq!(deposit(1, 68), 1_003_400_000_000);
    assert_eq!(deposit(0, 1), 50_000_000);
}

#[test]
fn deposit_of_the_largest_arguments_fits() {
    let most = u32::MAX as u128;
    assert_eq!(deposit(u32::MAX, u32::MAX), most * 1_000_000_000_000 + most * 50_000_000);
}

#[test]
fn currency_units_divide_as_named() {
    assert_eq!(CENTS, UNITS / 100);
    assert_eq!(MILLICENTS, CENTS / 1_000);
}

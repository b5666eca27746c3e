use pallet_chainlink::escrow::Account;
use pallet_chainlink::{Balances, Escrow, EscrowError};

#[test]
fn untouched_account_is_empty() {
    let balances = Balances::new();
    assert_eq!(balances.account(9), Account { free: 0, reserved: 0 });
}

#[test]
fn reserve_moves_free_funds_aside() {
    let mut balances = Balances::new();
    balances.set_free_balance(1, 10);
    assert_eq!(balances.reserve(1, 4), Ok(()));
    assert_eq!(balances.account(1), Account { free: 6, reserved: 4 });
    assert_eq!(balances.reserve(1, 7), Err(EscrowError::InsufficientBalance));
    assert_eq!(balances.account(1), Account { free: 6, reserved: 4 });
    assert_eq!(balances.reserve(1, 6), Ok(()));
    assert_eq!(balances.account(1), Account { free: 0, reserved: 10 });
}

#[test]
fn reserve_refuses_to_overflow() {
    let mut balances = Balances::new();
    balances.set_free_balance(1, u128::MAX);
    assert_eq!(balances.reserve(1, u128::MAX), Ok(()));
    balances.set_free_balance(1, 1);
    assert_eq!(balances.reserve(1, 1), Err(EscrowError::Overflow));
    assert_eq!(balances.account(1), Account { free: 1, reserved: u128::MAX });
}

#[test]
fn repatriate_pays_out_of_the_reserve() {
    let mut balances = Balances::new();
    balances.set_free_balance(1, 10);
    balances.set_free_balance(2, 1);
    assert_eq!(balances.reserve(1, 4), Ok(()));
    assert_eq!(balances.repatriate_reserved(1, 2, 5), Err(EscrowError::InsufficientReserve));
    assert_eq!(balances.repatriate_reserved(1, 2, 3), Ok(()));
    assert_eq!(balances.account(1), Account { free: 6, reserved: 1 });
    assert_eq!(balances.account(2), Account { free: 4, reserved: 0 });
    assert_eq!(balances.repatriate_reserved(1, 1, 1), Ok(()));
    assert_eq!(balances.account(1), Account { free: 7, reserved: 0 });
}

#[test]
fn set_free_balance_keeps_the_reserve() {
    let mut balances = Balances::new();
    balances.set_free_balance(1, 10);
    assert_eq!(balances.reserve(1, 4), Ok(()));
    balances.set_free_balance(1, 100);
    assert_eq!(balances.account(1), Account { free: 100, reserved: 4 });
}

#[test]
fn queries_move_nothing() {
    let mut balances = Balances::new();
    balances.set_free_balance(1, 10);
    assert_eq!(balances.can_reserve(1, 10), Ok(()));
    assert_eq!(balances.can_reserve(1, 11), Err(EscrowError::InsufficientBalance));
    assert_eq!(balances.can_repatriate(1, 2, 1), Err(EscrowError::InsufficientReserve));
    assert_eq!(balances.reserve(1, 4), Ok(()));
    assert_eq!(balances.can_repatriate(1, 2, 4), Ok(()));
    balances.set_free_balance(2, u128::MAX);
    assert_eq!(balances.can_repatriate(1, 2, 4), Err(EscrowError::Overflow));
    assert_eq!(balances.account(1), Account { free: 6, reserved: 4 });
}

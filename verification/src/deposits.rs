//! Storage deposits of the asset registry.

use crate::types::Balance;
use vstd::prelude::*;

verus! {

/// One whole unit of the currency.
pub const UNITS: Balance = 1_000_000_000_000;

/// A hundredth of a unit.
pub const CENTS: Balance = 10_000_000_000;

/// A thousandth of a cent.
pub const MILLICENTS: Balance = 10_000_000;

/// The deposit owed for `items` stored items that take `bytes` bytes.
pub open spec fn deposit_of(items: u32, bytes: u32) -> int {
    items * 100 * CENTS + bytes * 5 * MILLICENTS
}

/// Computes the deposit for `items` stored items of `bytes` bytes in all:
/// a hundred cents for each item and five millicents for each byte.
pub fn deposit(items: u32, bytes: u32) -> (amount: Balance)
    ensures
        amount == deposit_of(items, bytes),
{
    let per_items: Balance = (items as Balance) * 100 * CENTS;
    let per_bytes: Balance = (bytes as Balance) * 5 * MILLICENTS;
    per_items + per_bytes
}

} // verus!

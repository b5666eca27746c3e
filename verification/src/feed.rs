//! Aggregating the answers of several oracles.

use bounded_collections::{BoundedVec, ConstU32};
use vstd::prelude::*;

verus! {

/// The bounded vector of bounded-collections.
#[verifier::external_type_specification]
#[verifier::external_body]
#[verifier::reject_recursive_types(T)]
#[verifier::reject_recursive_types(S)]
pub struct ExBoundedVec<T, S>(BoundedVec<T, S>);

/// The constant bound of bounded-collections.
#[verifier::external_type_specification]
#[verifier::external_body]
pub struct ExConstU32<const T: u32>(ConstU32<T>);

/// The numbers that a bounded vector holds, in their order.
pub uninterp spec fn bounded_values(numbers: BoundedVec<u32, ConstU32<10>>) -> Seq<u32>;

/// No number of `values` is smaller than one before it.
pub open spec fn ascending(values: Seq<u32>) -> bool {
    forall|i: int, j: int| 0 <= i <= j < values.len() ==> values[i] <= values[j]
}

/// The middle of the ascending `values`: the number in the middle where
/// their count is odd, and half the sum of the two in the middle, rounded
/// down, where it is even. A sum beyond the largest number counts as the
/// largest number.
pub open spec fn median_of(values: Seq<u32>) -> u32
    recommends
        values.len() > 0,
{
    let mid = values.len() as int / 2;
    if values.len() % 2 == 0 {
        let sum = values[mid - 1] + values[mid];
        if sum > u32::MAX {
            (u32::MAX / 2) as u32
        } else {
            (sum / 2) as u32
        }
    } else {
        values[mid]
    }
}

/// The median parts ascending numbers in halves: no number of the lower
/// half is above it and none of the upper half is below it. This is claimed
/// where the two numbers in the middle of an even count can be added without
/// passing the largest number; beyond that the sum is cut short and the
/// median may lie below both.
pub proof fn lemma_median_parts_in_halves(values: Seq<u32>)
    requires
        ascending(values),
        values.len() > 0,
        values.len() % 2 == 0 ==> values[values.len() / 2 - 1] + values[values.len() as int / 2]
            <= u32::MAX,
    ensures
        forall|i: int| 0 <= i <= (values.len() - 1) / 2 ==> values[i] <= median_of(values),
        forall|i: int| values.len() / 2 <= i < values.len() ==> median_of(values) <= values[i],
{
    let mid = values.len() as int / 2;
    if values.len() % 2 == 0 {
        assert(values[mid - 1] <= values[mid]);
        assert(values[mid - 1] <= median_of(values) <= values[mid]);
        assert forall|i: int| 0 <= i <= (values.len() - 1) / 2 implies values[i] <= median_of(
            values,
        ) by {
            assert(values[i] <= values[mid - 1]);
        }
        assert forall|i: int| mid <= i < values.len() implies median_of(values) <= values[i] by {
            assert(values[mid] <= values[i]);
        }
    }
}

/// `BoundedVec::sort` of bounded-collections, which is `slice::sort` on the
/// numbers held: afterwards the same numbers stand in ascending order.
#[verifier::external_body]
fn sort_values(numbers: &mut BoundedVec<u32, ConstU32<10>>)
    ensures
        ascending(bounded_values(*final(numbers))),
        bounded_values(*final(numbers)).len() == bounded_values(*old(numbers)).len(),
        bounded_values(*final(numbers)).to_multiset() == bounded_values(
            *old(numbers),
        ).to_multiset(),
{
    numbers.sort()
}

/// `len` of the slice that a `BoundedVec` dereferences to: the count of the
/// numbers held.
#[verifier::external_body]
fn count_values(numbers: &BoundedVec<u32, ConstU32<10>>) -> (count: usize)
    ensures
        count == bounded_values(*numbers).len(),
{
    numbers.len()
}

/// Indexing of a `BoundedVec`, which indexes the vector inside: the number
/// at the place `i`. It panics past the end, which `requires` excludes.
#[verifier::external_body]
fn value_at(numbers: &BoundedVec<u32, ConstU32<10>>, i: usize) -> (value: u32)
    requires
        i < bounded_values(*numbers).len(),
    ensures
        value == bounded_values(*numbers)[i as int],
{
    numbers[i]
}

/// Sorts `numbers` and determines their median, where there are any; an
/// empty vector is left as it is and has none.
pub fn try_median(numbers: &mut BoundedVec<u32, ConstU32<10>>) -> (middle: Option<u32>)
    ensures
        bounded_values(*old(numbers)).len() == 0 ==> middle is None && *final(numbers) == *old(
            numbers,
        ),
        bounded_values(*old(numbers)).len() > 0 ==> {
            &&& ascending(bounded_values(*final(numbers)))
            &&& bounded_values(*final(numbers)).to_multiset() == bounded_values(
                *old(numbers),
            ).to_multiset()
            &&& middle == Some(median_of(bounded_values(*final(numbers))))
        },
{
    if count_values(numbers) == 0 {
        None
    } else {
        Some(median(numbers))
    }
}

/// Sorts `numbers`, of which there is at least one, and determines their
/// median.
pub fn median(numbers: &mut BoundedVec<u32, ConstU32<10>>) -> (middle: u32)
    requires
        bounded_values(*old(numbers)).len() > 0,
    ensures
        ascending(bounded_values(*final(numbers))),
        bounded_values(*final(numbers)).to_multiset() == bounded_values(
            *old(numbers),
        ).to_multiset(),
        middle == median_of(bounded_values(*final(numbers))),
{
    sort_values(numbers);
    let count = count_values(numbers);
    let mid = count / 2;
    if count % 2 == 0 {
        value_at(numbers, mid - 1).saturating_add(value_at(numbers, mid)) / 2
    } else {
        value_at(numbers, mid)
    }
}

} // verus!

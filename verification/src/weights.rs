//! What the operations of the feed cost: reference time measured with
//! twenty steps and ten repetitions, and the reads and writes of the
//! database that each operation makes.

use frame_support::traits::Get;
use frame_support::weights::constants::RocksDbWeight;
use vstd::prelude::*;

verus! {

/// The reference time of one read of the database.
pub const READ: u64 = 25_000_000;

/// The reference time of one write to the database.
pub const WRITE: u64 = 100_000_000;

/// The cost of an operation: time on the reference machine and bytes of
/// proof.
#[derive(Debug, Clone, Copy, PartialEq, Eq)]
pub struct Weight {
    /// Reference time.
    pub ref_time: u64,
    /// Size of the proof.
    pub proof_size: u64,
}

impl Weight {
    /// The weight of `ref_time` and no proof.
    pub fn from_ref_time(ref_time: u64) -> (weight: Weight)
        ensures
            weight == (Weight { ref_time, proof_size: 0 }),
    {
        Weight { ref_time, proof_size: 0 }
    }
}

/// `x`, or the largest `u64` where `x` is beyond it.
pub open spec fn saturated(x: int) -> u64 {
    if x > u64::MAX {
        u64::MAX
    } else {
        x as u64
    }
}

/// `u64::saturating_mul` of std: the product, or the largest `u64` where the
/// product is beyond it.
pub assume_specification[ u64::saturating_mul ](x: u64, y: u64) -> (product: u64)
    ensures
        product == saturated(x * y),
;

/// `Weight::saturating_add` of sp-weights: each part is the sum of the two
/// parts, or the largest `u64` where the sum is beyond it.
#[verifier::external_body]
fn saturating_add(a: Weight, b: Weight) -> (sum: Weight)
    ensures
        sum.ref_time == saturated(a.ref_time + b.ref_time),
        sum.proof_size == saturated(a.proof_size + b.proof_size),
{
    let sum = frame_support::weights::Weight::from_parts(a.ref_time, a.proof_size).saturating_add(
        frame_support::weights::Weight::from_parts(b.ref_time, b.proof_size),
    );
    Weight { ref_time: sum.ref_time(), proof_size: sum.proof_size() }
}

/// `Weight::saturating_mul` of sp-weights: each part is multiplied by
/// `scalar`, and is the largest `u64` where the product is beyond it.
#[verifier::external_body]
fn saturating_mul(a: Weight, scalar: u64) -> (product: Weight)
    ensures
        product.ref_time == saturated(a.ref_time * scalar),
        product.proof_size == saturated(a.proof_size * scalar),
{
    let product = frame_support::weights::Weight::from_parts(
        a.ref_time,
        a.proof_size,
    ).saturating_mul(scalar);
    Weight { ref_time: product.ref_time(), proof_size: product.proof_size() }
}

/// `RuntimeDbWeight::reads` of sp-weights on the `RocksDbWeight` of
/// frame-support: `r` times the time of one read, saturated, and no proof.
#[verifier::external_body]
fn reads(r: u64) -> (weight: Weight)
    ensures
        weight.ref_time == saturated(READ * r),
        weight.proof_size == 0,
{
    let weight = RocksDbWeight::get().reads(r);
    Weight { ref_time: weight.ref_time(), proof_size: weight.proof_size() }
}

/// `RuntimeDbWeight::writes` of sp-weights on the `RocksDbWeight` of
/// frame-support: `w` times the time of one write, saturated, and no proof.
#[verifier::external_body]
fn writes(w: u64) -> (weight: Weight)
    ensures
        weight.ref_time == saturated(WRITE * w),
        weight.proof_size == 0,
{
    let weight = RocksDbWeight::get().writes(w);
    Weight { ref_time: weight.ref_time(), proof_size: weight.proof_size() }
}

/// The weights of the feed's operations on the reference machine. None of
/// them saturates, whatever the counts.
pub struct SubstrateWeight;

impl SubstrateWeight {
    /// Creating a feed with `o` oracles.
    pub fn create_feed(o: u32) -> (weight: Weight)
        ensures
            weight.ref_time == 73_153_000 + 25_403_000 * o + 2 * READ + 2 * o * READ
                + 3 * WRITE + 2 * o * WRITE,
            weight.proof_size == 0,
    {
        let weight = Weight::from_ref_time(73_153_000);
        let weight = saturating_add(
            weight,
            saturating_mul(Weight::from_ref_time(25_403_000), o as u64),
        );
        let weight = saturating_add(weight, reads(2));
        let weight = saturating_add(weight, reads((2u64).saturating_mul(o as u64)));
        let weight = saturating_add(weight, writes(3));
        let weight = saturating_add(weight, writes((2u64).saturating_mul(o as u64)));
        weight
    }

    /// Offering the ownership of a feed to another account.
    pub fn transfer_ownership() -> (weight: Weight)
        ensures
            weight.ref_time == 35_000_000 + READ + WRITE,
            weight.proof_size == 0,
    {
        let weight = Weight::from_ref_time(35_000_000);
        let weight = saturating_add(weight, reads(1));
        let weight = saturating_add(weight, writes(1));
        weight
    }

    /// Withdrawing an offer of ownership.
    pub fn cancel_ownership_transfer() -> (weight: Weight)
        ensures
            weight.ref_time == 35_000_000 + READ + WRITE,
            weight.proof_size == 0,
    {
        let weight = Weight::from_ref_time(35_000_000);
        let weight = saturating_add(weight, reads(1));
        let weight = saturating_add(weight, writes(1));
        weight
    }

    /// Accepting the ownership of a feed.
    pub fn accept_ownership() -> (weight: Weight)
        ensures
            weight.ref_time == 35_000_000 + READ + WRITE,
            weight.proof_size == 0,
    {
        let weight = Weight::from_ref_time(35_000_000);
        let weight = saturating_add(weight, reads(1));
        let weight = saturating_add(weight, writes(1));
        weight
    }

    /// Setting the pruning window, which prunes `o` rounds.
    pub fn set_pruning_window(o: u32) -> (weight: Weight)
        ensures
            weight.ref_time == 6_280_000 + 5_429_000 * o + READ + 2 * o * WRITE,
            weight.proof_size == 0,
    {
        let weight = Weight::from_ref_time(6_280_000);
        let weight = saturating_add(
            weight,
            saturating_mul(Weight::from_ref_time(5_429_000), o as u64),
        );
        let weight = saturating_add(weight, reads(1));
        let weight = saturating_add(weight, writes((2u64).saturating_mul(o as u64)));
        weight
    }

    /// Submitting an answer that opens a round.
    pub fn submit_opening_round_answers() -> (weight: Weight)
        ensures
            weight.ref_time == 149_000_000 + 6 * READ + 6 * WRITE,
            weight.proof_size == 0,
    {
        let weight = Weight::from_ref_time(149_000_000);
        let weight = saturating_add(weight, reads(6));
        let weight = saturating_add(weight, writes(6));
        weight
    }

    /// Submitting the answer that closes a round; the count of oracles does not enter.
    pub fn submit_closing_answer(_o: u32) -> (weight: Weight)
        ensures
            weight.ref_time == 123_300_000 + 7 * READ + 6 * WRITE,
            weight.proof_size == 0,
    {
        let weight = Weight::from_ref_time(123_300_000);
        let weight = saturating_add(weight, reads(7));
        let weight = saturating_add(weight, writes(6));
        weight
    }

    /// Disabling `d` oracles and adding `n`.
    pub fn change_oracles(d: u32, n: u32) -> (weight: Weight)
        ensures
            weight.ref_time == 23_471_000 * d + 28_220_000 * n + READ + d * READ
                + 2 * n * READ + WRITE + d * WRITE + 2 * n * WRITE,
            weight.proof_size == 0,
    {
        let weight = Weight::from_ref_time(0);
        let weight = saturating_add(
            weight,
            saturating_mul(Weight::from_ref_time(23_471_000), d as u64),
        );
        let weight = saturating_add(
            weight,
            saturating_mul(Weight::from_ref_time(28_220_000), n as u64),
        );
        let weight = saturating_add(weight, reads(1));
        let weight = saturating_add(weight, reads((1u64).saturating_mul(d as u64)));
        let weight = saturating_add(weight, reads((2u64).saturating_mul(n as u64)));
        assert(weight.ref_time == 23_471_000 * d + 28_220_000 * n + READ + d * READ + 2 * n
            * READ);
        let weight = saturating_add(weight, writes(1));
        let weight = saturating_add(weight, writes((1u64).saturating_mul(d as u64)));
        let weight = saturating_add(weight, writes((2u64).saturating_mul(n as u64)));
        weight
    }

    /// Changing the parameters of the rounds to come.
    pub fn update_future_rounds() -> (weight: Weight)
        ensures
            weight.ref_time == 34_000_000 + READ + WRITE,
            weight.proof_size == 0,
    {
        let weight = Weight::from_ref_time(34_000_000);
        let weight = saturating_add(weight, reads(1));
        let weight = saturating_add(weight, writes(1));
        weight
    }

    /// Allowing an account to request rounds.
    pub fn set_requester() -> (weight: Weight)
        ensures
            weight.ref_time == 38_000_000 + 2 * READ + WRITE,
            weight.proof_size == 0,
    {
        let weight = Weight::from_ref_time(38_000_000);
        let weight = saturating_add(weight, reads(2));
        let weight = saturating_add(weight, writes(1));
        weight
    }

    /// Taking that permission from an account.
    pub fn remove_requester() -> (weight: Weight)
        ensures
            weight.ref_time == 37_000_000 + 2 * READ + WRITE,
            weight.proof_size == 0,
    {
        let weight = Weight::from_ref_time(37_000_000);
        let weight = saturating_add(weight, reads(2));
        let weight = saturating_add(weight, writes(1));
        weight
    }

    /// Requesting a new round.
    pub fn request_new_round() -> (weight: Weight)
        ensures
            weight.ref_time == 76_000_000 + 4 * READ + 4 * WRITE,
            weight.proof_size == 0,
    {
        let weight = Weight::from_ref_time(76_000_000);
        let weight = saturating_add(weight, reads(4));
        let weight = saturating_add(weight, writes(4));
        weight
    }

    /// Paying an oracle what it has earned.
    pub fn withdraw_payment() -> (weight: Weight)
        ensures
            weight.ref_time == 111_000_000 + 3 * READ + 3 * WRITE,
            weight.proof_size == 0,
    {
        let weight = Weight::from_ref_time(111_000_000);
        let weight = saturating_add(weight, reads(3));
        let weight = saturating_add(weight, writes(3));
        weight
    }

    /// Offering the administration of an oracle to another account.
    pub fn transfer_admin() -> (weight: Weight)
        ensures
            weight.ref_time == 30_000_000 + READ + WRITE,
            weight.proof_size == 0,
    {
        let weight = Weight::from_ref_time(30_000_000);
        let weight = saturating_add(weight, reads(1));
        let weight = saturating_add(weight, writes(1));
        weight
    }

    /// Withdrawing that offer.
    pub fn cancel_admin_transfer() -> (weight: Weight)
        ensures
            weight.ref_time == 30_000_000 + READ + WRITE,
            weight.proof_size == 0,
    {
        let weight = Weight::from_ref_time(30_000_000);
        let weight = saturating_add(weight, reads(1));
        let weight = saturating_add(weight, writes(1));
        weight
    }

    /// Accepting the administration of an oracle.
    pub fn accept_admin() -> (weight: Weight)
        ensures
            weight.ref_time == 30_000_000 + READ + WRITE,
            weight.proof_size == 0,
    {
        let weight = Weight::from_ref_time(30_000_000);
        let weight = saturating_add(weight, reads(1));
        let weight = saturating_add(weight, writes(1));
        weight
    }

    /// Withdrawing funds from the feed.
    pub fn withdraw_funds() -> (weight: Weight)
        ensures
            weight.ref_time == 79_000_000 + 3 * READ + 2 * WRITE,
            weight.proof_size == 0,
    {
        let weight = Weight::from_ref_time(79_000_000);
        let weight = saturating_add(weight, reads(3));
        let weight = saturating_add(weight, writes(2));
        weight
    }

    /// Paying off debt of a feed.
    pub fn reduce_debt() -> (weight: Weight)
        ensures
            weight.ref_time == 50_000_000 + 2 * READ + 2 * WRITE,
            weight.proof_size == 0,
    {
        let weight = Weight::from_ref_time(50_000_000);
        let weight = saturating_add(weight, reads(2));
        let weight = saturating_add(weight, writes(2));
        weight
    }

    /// Offering the administration of the feeds to another account.
    pub fn transfer_pallet_admin() -> (weight: Weight)
        ensures
            weight.ref_time == 30_000_000 + 2 * READ + WRITE,
            weight.proof_size == 0,
    {
        let weight = Weight::from_ref_time(30_000_000);
        let weight = saturating_add(weight, reads(2));
        let weight = saturating_add(weight, writes(1));
        weight
    }

    /// Withdrawing that offer.
    pub fn cancel_pallet_admin_transfer() -> (weight: Weight)
        ensures
            weight.ref_time == 29_000_000 + 2 * READ + WRITE,
            weight.proof_size == 0,
    {
        let weight = Weight::from_ref_time(29_000_000);
        let weight = saturating_add(weight, reads(2));
        let weight = saturating_add(weight, writes(1));
        weight
    }

    /// Accepting the administration of the feeds.
    pub fn accept_pallet_admin() -> (weight: Weight)
        ensures
            weight.ref_time == 29_000_000 + READ + 2 * WRITE,
            weight.proof_size == 0,
    {
        let weight = Weight::from_ref_time(29_000_000);
        let weight = saturating_add(weight, reads(1));
        let weight = saturating_add(weight, writes(2));
        weight
    }

    /// Allowing an account to create feeds.
    pub fn set_feed_creator() -> (weight: Weight)
        ensures
            weight.ref_time == 27_000_000 + READ + WRITE,
            weight.proof_size == 0,
    {
        let weight = Weight::from_ref_time(27_000_000);
        let weight = saturating_add(weight, reads(1));
        let weight = saturating_add(weight, writes(1));
        weight
    }

    /// Taking that permission from an account.
    pub fn remove_feed_creator() -> (weight: Weight)
        ensures
            weight.ref_time == 27_000_000 + READ + WRITE,
            weight.proof_size == 0,
    {
        let weight = Weight::from_ref_time(27_000_000);
        let weight = saturating_add(weight, reads(1));
        let weight = saturating_add(weight, writes(1));
        weight
    }
}

} // verus!

use pallet_chainlink::weights::{SubstrateWeight, Weight, READ, WRITE};

fn cost(ref_time: u64) -> Weight {
    Weight { ref_time, proof_size: 0 }
}

#[test]
fn weight_of_create_feed() {
    assert_eq!(SubstrateWeight::create_feed(0), cost(423_153_000));
    assert_eq!(SubstrateWeight::create_feed(3), cost(1_249_362_000));
}

#[test]
fn weight_of_transfer_ownership() {
    assert_eq!(SubstrateWeight::transfer_ownership(), cost(160_000_000));
}

#[test]
fn weight_of_cancel_ownership_transfer() {
    assert_eq!(SubstrateWeight::cancel_ownership_transfer(), cost(160_000_000));
}

#[test]
fn weight_of_accept_ownership() {
    assert_eq!(SubstrateWeight::accept_ownership(), cost(160_000_000));
}

#[test]
fn weight_of_set_pruning_window() {
    assert_eq!(SubstrateWeight::set_pruning_window(0), cost(31_280_000));
    assert_eq!(SubstrateWeight::set_pruning_window(3), cost(647_567_000));
}

#[test]
fn weight_of_submit_opening_round_answers() {
    assert_eq!(SubstrateWeight::submit_opening_round_answers(), cost(899_000_000));
}

#[test]
fn weight_of_submit_closing_answer() {
    assert_eq!(SubstrateWeight::submit_closing_answer(0), cost(898_300_000));
    assert_eq!(SubstrateWeight::submit_closing_answer(3), cost(898_300_000));
}

#[test]
fn weight_of_change_oracles() {
    assert_eq!(SubstrateWeight::change_oracles(0, 0), cost(125_000_000));
    assert_eq!(SubstrateWeight::change_oracles(3, 4), cost(1_683_293_000));
}

#[test]
fn weight_of_update_future_rounds() {
    assert_eq!(SubstrateWeight::update_future_rounds(), cost(159_000_000));
}

#[test]
fn weight_of_set_requester() {
    assert_eq!(SubstrateWeight::set_requester(), cost(188_000_000));
}

#[test]
fn weight_of_remove_requester() {
    assert_eq!(SubstrateWeight::remove_requester(), cost(187_000_000));
}

#[test]
fn weight_of_request_new_round() {
    assert_eq!(SubstrateWeight::request_new_round(), cost(576_000_000));
}

#[test]
fn weight_of_withdraw_payment() {
    assert_eq!(SubstrateWeight::withdraw_payment(), cost(486_000_000));
}

#[test]
fn weight_of_transfer_admin() {
    assert_eq!(SubstrateWeight::transfer_admin(), cost(155_000_000));
}

#[test]
fn weight_of_cancel_admin_transfer() {
    assert_eq!(SubstrateWeight::cancel_admin_transfer(), cost(155_000_000));
}

#[test]
fn weight_of_accept_admin() {
    assert_eq!(SubstrateWeight::accept_admin(), cost(155_000_000));
}

#[test]
fn weight_of_withdraw_funds() {
    assert_eq!(SubstrateWeight::withdraw_funds(), cost(354_000_000));
}

#[test]
fn weight_of_reduce_debt() {
    assert_eq!(SubstrateWeight::reduce_debt(), cost(300_000_000));
}

#[test]
fn weight_of_transfer_pallet_admin() {
    assert_eq!(SubstrateWeight::transfer_pallet_admin(), cost(180_000_000));
}

#[test]
fn weight_of_cancel_pallet_admin_transfer() {
    assert_eq!(SubstrateWeight::cancel_pallet_admin_transfer(), cost(179_000_000));
}

#[test]
fn weight_of_accept_pallet_admin() {
    assert_eq!(SubstrateWeight::accept_pallet_admin(), cost(254_000_000));
}

#[test]
fn weight_of_set_feed_creator() {
    assert_eq!(SubstrateWeight::set_feed_creator(), cost(152_000_000));
}

#[test]
fn weight_of_remove_feed_creator() {
    assert_eq!(SubstrateWeight::remove_feed_creator(), cost(152_000_000));
}

#[test]
fn database_costs_are_those_of_the_reference_machine() {
    assert_eq!(READ, 25_000 * 1_000);
    assert_eq!(WRITE, 100_000 * 1_000);
    assert_eq!(SubstrateWeight::set_requester(), cost(38_000_000 + 2 * READ + WRITE));
}

#[test]
fn largest_counts_do_not_saturate() {
    let most = u32::MAX as u64;
    assert_eq!(
        SubstrateWeight::change_oracles(u32::MAX, u32::MAX),
        cost((23_471_000 + 28_220_000) * most + READ * (1 + 3 * most) + WRITE * (1 + 3 * most))
    );
}

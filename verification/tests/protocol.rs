use pallet_chainlink::example::{Call, Pallet as Example};
use pallet_chainlink::{
    Balances, Config, Error, Escrow, EscrowError, Event, Pallet, Request, CALLBACK_NAME,
};
use parity_scale_codec::{Decode, Encode};

type Chainlink = Pallet<Call>;

fn config() -> Config {
    Config {
        validity_period: 10,
        max_request_len: 16,
        max_requests: 1,
        max_result_len: 16,
        max_spec_index_len: 0,
    }
}

fn new_test_ext() -> (Chainlink, Balances) {
    let mut balances = Balances::new();
    balances.set_free_balance(0, 100000);
    balances.set_free_balance(1, 100000);
    balances.set_free_balance(2, 100000);
    (Chainlink::new(config()), balances)
}

fn empty_callback() -> Call {
    Call::callback { result: vec![] }
}

#[test]
fn operators_can_be_registered() {
    let (mut chainlink, _balances) = new_test_ext();
    assert!(!chainlink.operator(1));
    let event = chainlink.register_operator(1);
    assert_eq!(event, Ok(Event::OperatorRegistered(1)));
    assert!(chainlink.operator(1));
    let event = chainlink.unregister_operator(1);
    assert!(!chainlink.operator(1));
    assert_eq!(event, Ok(Event::OperatorUnregistered(1)));

    let (mut chainlink, _balances) = new_test_ext();
    assert_eq!(chainlink.unregister_operator(1), Err(Error::UnknownOperator));
    assert!(!chainlink.operator(1));
}

#[test]
fn initiate_requests() {
    let (mut chainlink, mut balances) = new_test_ext();
    assert!(chainlink.register_operator(1).is_ok());
    assert_eq!(
        chainlink.initiate_request(&mut balances, 2, 1, vec![], 1, vec![], 0, empty_callback(), 0),
        Err(Error::InsufficientFee)
    );

    let (mut chainlink, mut balances) = new_test_ext();
    assert_eq!(
        chainlink.initiate_request(&mut balances, 2, 1, vec![], 1, vec![], 1, empty_callback(), 0),
        Err(Error::UnknownOperator)
    );

    let (mut chainlink, mut balances) = new_test_ext();
    assert!(chainlink.register_operator(1).is_ok());
    assert!(chainlink
        .initiate_request(&mut balances, 2, 1, vec![], 1, vec![], 2, empty_callback(), 0)
        .is_ok());
    assert_eq!(
        chainlink.callback(&mut balances, 3, 0, 10.encode()).err(),
        Some(Error::WrongOperator)
    );

    let (mut chainlink, mut balances) = new_test_ext();
    assert_eq!(
        chainlink.callback(&mut balances, 1, 0, 10.encode()).err(),
        Some(Error::UnknownRequest)
    );

    let (mut chainlink, mut balances) = new_test_ext();
    let mut example = Example::new();
    assert_eq!(chainlink.register_operator(1), Ok(Event::OperatorRegistered(1)));

    let parameters = ("a", "b");
    let data: Vec<u8> = parameters.encode();
    let event = chainlink.initiate_request(
        &mut balances,
        2,
        1,
        vec![],
        1,
        data.clone(),
        2,
        empty_callback(),
        1,
    );
    assert_eq!(
        event,
        Ok(Event::OracleRequest(1, vec![], 0, 2, 1, data.clone(), CALLBACK_NAME, 2))
    );

    let r = <(Vec<u8>, Vec<u8>)>::decode(&mut &data[..]).unwrap().0;
    assert_eq!("a", std::str::from_utf8(&r).unwrap());

    let result: u128 = 10;
    let answered = chainlink.callback(&mut balances, 1, 0, result.encode());
    assert!(answered.is_ok());
    let (dispatch, event) = answered.unwrap();
    assert_eq!(event, Event::OracleAnswer(1, 0, 2, result.encode(), 2));
    assert_eq!(example.dispatch_bypass_filter(dispatch), Ok(()));
    assert_eq!(example.result(), 10);
}

#[test]
fn on_finalize() {
    let (mut chainlink, mut balances) = new_test_ext();
    assert!(chainlink.register_operator(1).is_ok());
    assert!(chainlink
        .initiate_request(&mut balances, 2, 1, vec![], 1, vec![], 2, empty_callback(), 0)
        .is_ok());
    let events = chainlink.on_finalize(20);
    assert_eq!(events, vec![Event::KillRequest(0)]);
    assert_eq!(
        chainlink.callback(&mut balances, 1, 0, 10.encode()).err(),
        Some(Error::UnknownRequest)
    );
}

#[test]
fn callback_name_spells_the_entry_point() {
    assert_eq!(&CALLBACK_NAME[..], &b"Chainlink.callback"[..]);
}

#[test]
fn registering_twice_is_refused() {
    let (mut chainlink, _balances) = new_test_ext();
    assert_eq!(chainlink.register_operator(7), Ok(Event::OperatorRegistered(7)));
    assert_eq!(chainlink.register_operator(7), Err(Error::OperatorAlreadyRegistered));
    assert!(chainlink.operator(7));
    assert_eq!(chainlink.unregister_operator(7), Ok(Event::OperatorUnregistered(7)));
    assert_eq!(chainlink.unregister_operator(7), Err(Error::UnknownOperator));
    assert_eq!(chainlink.register_operator(7), Ok(Event::OperatorRegistered(7)));
}

#[test]
fn fee_moves_from_requester_to_operator() {
    let (mut chainlink, mut balances) = new_test_ext();
    assert!(chainlink.register_operator(1).is_ok());
    assert!(chainlink
        .initiate_request(&mut balances, 2, 1, vec![], 1, vec![], 2, empty_callback(), 0)
        .is_ok());
    assert_eq!(balances.account(2).free, 99998);
    assert_eq!(balances.account(2).reserved, 2);
    assert_eq!(balances.account(1).free, 100000);
    assert_eq!(balances.account(1).reserved, 0);
    assert!(chainlink.callback(&mut balances, 1, 0, vec![1, 2, 3]).is_ok());
    assert_eq!(balances.account(2).free, 99998);
    assert_eq!(balances.account(2).reserved, 0);
    assert_eq!(balances.account(1).free, 100002);
    assert_eq!(balances.account(1).reserved, 0);
    assert_eq!(balances.account(0).free, 100000);
}

#[test]
fn wrong_operator_changes_nothing() {
    let (mut chainlink, mut balances) = new_test_ext();
    assert!(chainlink.register_operator(1).is_ok());
    assert!(chainlink
        .initiate_request(&mut balances, 2, 1, vec![], 1, vec![], 5, empty_callback(), 0)
        .is_ok());
    assert_eq!(
        chainlink.callback(&mut balances, 2, 0, vec![]).err(),
        Some(Error::WrongOperator)
    );
    assert!(chainlink.is_pending(0));
    assert_eq!(balances.account(2).free, 99995);
    assert_eq!(balances.account(2).reserved, 5);
    assert_eq!(balances.account(1).free, 100000);
    assert!(chainlink.callback(&mut balances, 1, 0, vec![]).is_ok());
}

#[test]
fn answered_request_is_unknown() {
    let (mut chainlink, mut balances) = new_test_ext();
    assert!(chainlink.register_operator(1).is_ok());
    assert!(chainlink
        .initiate_request(&mut balances, 2, 1, vec![], 1, vec![], 2, empty_callback(), 0)
        .is_ok());
    assert!(chainlink.callback(&mut balances, 1, 0, vec![]).is_ok());
    assert!(!chainlink.is_pending(0));
    assert_eq!(
        chainlink.callback(&mut balances, 1, 0, vec![]).err(),
        Some(Error::UnknownRequest)
    );
    assert_eq!(balances.account(1).free, 100002);
}

#[test]
fn request_expires_after_its_window() {
    let (mut chainlink, mut balances) = new_test_ext();
    assert!(chainlink.register_operator(1).is_ok());
    assert!(chainlink
        .initiate_request(&mut balances, 2, 1, vec![], 1, vec![], 2, empty_callback(), 5)
        .is_ok());
    assert!(chainlink
        .initiate_request(&mut balances, 0, 1, vec![], 1, vec![], 3, empty_callback(), 6)
        .is_ok());
    assert_eq!(chainlink.on_finalize(15), vec![]);
    assert!(chainlink.is_pending(0));
    assert_eq!(chainlink.on_finalize(16), vec![Event::KillRequest(0)]);
    assert!(!chainlink.is_pending(0));
    assert!(chainlink.is_pending(1));
    assert_eq!(chainlink.on_finalize(16), vec![]);
    assert_eq!(
        chainlink.callback(&mut balances, 1, 0, vec![]).err(),
        Some(Error::UnknownRequest)
    );
    assert!(chainlink.callback(&mut balances, 1, 1, vec![]).is_ok());
    assert_eq!(chainlink.on_finalize(u64::MAX), vec![]);
}

#[test]
fn sweep_near_the_largest_height_does_not_overflow() {
    let (mut chainlink, mut balances) = new_test_ext();
    assert!(chainlink.register_operator(1).is_ok());
    assert!(chainlink
        .initiate_request(&mut balances, 2, 1, vec![], 1, vec![], 2, empty_callback(), u64::MAX - 3)
        .is_ok());
    assert_eq!(chainlink.on_finalize(u64::MAX), vec![]);
    assert!(chainlink.is_pending(0));
}

#[test]
fn sweep_removes_every_expired_request() {
    let (mut chainlink, mut balances) = new_test_ext();
    assert!(chainlink.register_operator(1).is_ok());
    for now in 0..4u64 {
        assert!(chainlink
            .initiate_request(&mut balances, 2, 1, vec![], 1, vec![], 1, empty_callback(), now)
            .is_ok());
    }
    let mut events = chainlink.on_finalize(12);
    events.sort_by_key(|event| match event {
        Event::KillRequest(id) => *id,
        _ => u64::MAX,
    });
    assert_eq!(events, vec![Event::KillRequest(0), Event::KillRequest(1)]);
    assert!(chainlink.is_pending(2));
    assert!(chainlink.is_pending(3));
    assert_eq!(balances.account(2).reserved, 4);
}

#[test]
fn identifiers_wrap_to_zero() {
    let (mut chainlink, mut balances) = new_test_ext();
    assert!(chainlink.register_operator(1).is_ok());
    chainlink.set_next_request_identifier(u64::MAX);
    let event = chainlink
        .initiate_request(&mut balances, 2, 1, vec![], 1, vec![], 2, empty_callback(), 0)
        .unwrap();
    assert_eq!(
        event,
        Event::OracleRequest(1, vec![], u64::MAX, 2, 1, vec![], CALLBACK_NAME, 2)
    );
    let event = chainlink
        .initiate_request(&mut balances, 2, 1, vec![], 1, vec![], 2, empty_callback(), 0)
        .unwrap();
    assert_eq!(event, Event::OracleRequest(1, vec![], 0, 2, 1, vec![], CALLBACK_NAME, 2));
}

#[test]
fn pending_identifier_is_not_overwritten() {
    let (mut chainlink, mut balances) = new_test_ext();
    assert!(chainlink.register_operator(1).is_ok());
    assert!(chainlink
        .initiate_request(&mut balances, 2, 1, vec![], 1, vec![], 2, empty_callback(), 0)
        .is_ok());
    chainlink.set_next_request_identifier(0);
    assert_eq!(
        chainlink.initiate_request(&mut balances, 0, 1, vec![], 1, vec![], 9, empty_callback(), 3),
        Err(Error::TooManyRequests)
    );
    assert_eq!(balances.account(0).free, 100000);
    assert_eq!(balances.account(0).reserved, 0);
    assert!(chainlink.is_pending(0));
    assert!(chainlink.callback(&mut balances, 1, 0, vec![]).is_ok());
    assert_eq!(balances.account(1).free, 100002);
    assert_eq!(
        chainlink.initiate_request(&mut balances, 0, 1, vec![], 1, vec![], 9, empty_callback(), 3),
        Ok(Event::OracleRequest(1, vec![], 0, 0, 1, vec![], CALLBACK_NAME, 9))
    );
}

#[test]
fn no_room_for_an_action() {
    let mut limits = config();
    limits.max_requests = 0;
    let mut chainlink = Chainlink::new(limits);
    let mut balances = Balances::new();
    balances.set_free_balance(2, 10);
    assert!(chainlink.register_operator(1).is_ok());
    assert_eq!(
        chainlink.initiate_request(&mut balances, 2, 1, vec![], 1, vec![], 2, empty_callback(), 0),
        Err(Error::TooManyRequests)
    );
    assert_eq!(balances.account(2).free, 10);
    assert!(!chainlink.is_pending(0));
}

#[test]
fn escrow_refusal_is_handed_on() {
    let (mut chainlink, mut balances) = new_test_ext();
    assert!(chainlink.register_operator(1).is_ok());
    assert_eq!(
        chainlink.initiate_request(&mut balances, 5, 1, vec![], 1, vec![], 2, empty_callback(), 0),
        Err(Error::Escrow(EscrowError::InsufficientBalance))
    );
    assert!(!chainlink.is_pending(0));
    assert!(chainlink
        .initiate_request(&mut balances, 2, 1, vec![], 1, vec![], 2, empty_callback(), 0)
        .is_ok());
    assert!(chainlink.is_pending(0));

    balances.set_free_balance(1, u128::MAX);
    assert_eq!(
        chainlink.callback(&mut balances, 1, 0, vec![]).err(),
        Some(Error::Escrow(EscrowError::Overflow))
    );
    assert!(chainlink.is_pending(0));
    assert_eq!(balances.account(2).reserved, 2);
}

#[test]
fn action_without_a_result_is_unknown() {
    let (mut chainlink, mut balances) = new_test_ext();
    assert!(chainlink.register_operator(1).is_ok());
    let action = Call::send_request { operator: 1, spec_id: vec![] };
    assert!(chainlink
        .initiate_request(&mut balances, 2, 1, vec![], 1, vec![], 2, action, 0)
        .is_ok());
    assert_eq!(
        chainlink.callback(&mut balances, 1, 0, vec![]).err(),
        Some(Error::UnknownCallback)
    );
    assert!(chainlink.is_pending(0));
    assert_eq!(balances.account(2).reserved, 2);
    assert_eq!(balances.account(1).free, 100000);
}

#[test]
fn unregistered_operator_can_still_answer() {
    let (mut chainlink, mut balances) = new_test_ext();
    assert!(chainlink.register_operator(1).is_ok());
    assert!(chainlink
        .initiate_request(&mut balances, 2, 1, vec![], 1, vec![], 2, empty_callback(), 0)
        .is_ok());
    assert!(chainlink.unregister_operator(1).is_ok());
    assert!(chainlink.callback(&mut balances, 1, 0, vec![]).is_ok());
}

#[test]
fn pending_request_records_who_asked_and_when() {
    let (mut chainlink, mut balances) = new_test_ext();
    assert!(chainlink.register_operator(1).is_ok());
    assert_eq!(chainlink.request(0), None);
    assert!(chainlink
        .initiate_request(&mut balances, 2, 1, vec![], 1, vec![], 7, empty_callback(), 42)
        .is_ok());
    assert_eq!(
        chainlink.request(0),
        Some(&Request {
            id: 0,
            requester: 2,
            operator: 1,
            callback: empty_callback(),
            created_at: 42,
            fee: 7,
        })
    );
    assert_eq!(chainlink.request(1), None);
}

#[test]
fn escrow_is_asked_before_the_room_is_counted() {
    let mut limits = config();
    limits.max_requests = 0;
    let mut chainlink = Chainlink::new(limits);
    let mut balances = Balances::new();
    balances.set_free_balance(2, 1);
    assert!(chainlink.register_operator(1).is_ok());
    assert_eq!(
        chainlink.initiate_request(&mut balances, 2, 1, vec![], 1, vec![], 2, empty_callback(), 0),
        Err(Error::Escrow(EscrowError::InsufficientBalance))
    );
    assert_eq!(
        chainlink.initiate_request(&mut balances, 2, 1, vec![], 1, vec![], 1, empty_callback(), 0),
        Err(Error::TooManyRequests)
    );
    assert_eq!(balances.account(2).free, 1);
    assert_eq!(balances.account(2).reserved, 0);
}

#[test]
fn escrow_is_asked_before_the_action() {
    let (mut chainlink, mut balances) = new_test_ext();
    assert!(chainlink.register_operator(1).is_ok());
    let action = Call::send_request { operator: 1, spec_id: vec![] };
    assert!(chainlink
        .initiate_request(&mut balances, 2, 1, vec![], 1, vec![], 2, action, 0)
        .is_ok());
    balances.set_free_balance(1, u128::MAX);
    assert_eq!(
        chainlink.callback(&mut balances, 1, 0, vec![]).err(),
        Some(Error::Escrow(EscrowError::Overflow))
    );
    balances.set_free_balance(1, 0);
    assert_eq!(
        chainlink.callback(&mut balances, 1, 0, vec![]).err(),
        Some(Error::UnknownCallback)
    );
    assert!(chainlink.is_pending(0));
    assert_eq!(balances.account(2).reserved, 2);
    assert_eq!(balances.account(1).free, 0);
}

#[test]
fn fee_and_operator_are_checked_first() {
    let (mut chainlink, mut balances) = new_test_ext();
    assert_eq!(
        chainlink.initiate_request(&mut balances, 9, 1, vec![], 1, vec![], 0, empty_callback(), 0),
        Err(Error::UnknownOperator)
    );
    assert!(chainlink.register_operator(1).is_ok());
    assert_eq!(
        chainlink.initiate_request(&mut balances, 9, 1, vec![], 1, vec![], 0, empty_callback(), 0),
        Err(Error::InsufficientFee)
    );
}

#[test]
fn limits_are_those_given() {
    let (chainlink, _balances) = new_test_ext();
    assert_eq!(chainlink.config(), config());
}

fn job(id: u64, fee: u128) -> Request<Call> {
    Request { id, requester: 2, operator: 1, callback: empty_callback(), created_at: 3, fee }
}

#[test]
fn state_is_handed_out_in_order() {
    let (mut chainlink, mut balances) = new_test_ext();
    assert!(chainlink.register_operator(9).is_ok());
    assert!(chainlink.register_operator(1).is_ok());
    chainlink.set_next_request_identifier(5);
    assert!(chainlink
        .initiate_request(&mut balances, 2, 1, vec![], 1, vec![], 2, empty_callback(), 3)
        .is_ok());
    chainlink.set_next_request_identifier(4);
    assert!(chainlink
        .initiate_request(&mut balances, 2, 1, vec![], 1, vec![], 7, empty_callback(), 3)
        .is_ok());
    assert_eq!(chainlink.operators(), vec![1, 9]);
    assert_eq!(chainlink.requests(), vec![&job(4, 7), &job(5, 2)]);
    assert_eq!(chainlink.next_request_identifier(), 5);
}

#[test]
fn restored_protocol_goes_on_where_it_was() {
    let mut balances = Balances::new();
    balances.set_free_balance(2, 100);
    assert_eq!(balances.reserve(2, 9), Ok(()));
    let restored = Chainlink::restore(config(), vec![1, 9, 1], vec![job(4, 7), job(5, 2)], 6);
    let mut chainlink = restored.unwrap();
    assert_eq!(chainlink.config(), config());
    assert_eq!(chainlink.operators(), vec![1, 9]);
    assert_eq!(chainlink.requests(), vec![&job(4, 7), &job(5, 2)]);
    assert_eq!(chainlink.next_request_identifier(), 6);
    assert_eq!(chainlink.register_operator(9), Err(Error::OperatorAlreadyRegistered));
    let (_, event) = chainlink.callback(&mut balances, 1, 4, vec![]).unwrap();
    assert_eq!(event, Event::OracleAnswer(1, 4, 2, vec![], 7));
    assert_eq!(chainlink.on_finalize(14), vec![Event::KillRequest(5)]);
    assert_eq!(
        chainlink.initiate_request(&mut balances, 2, 9, vec![], 1, vec![], 1, empty_callback(), 0),
        Ok(Event::OracleRequest(9, vec![], 6, 2, 1, vec![], CALLBACK_NAME, 1))
    );
}

#[test]
fn restore_refuses_what_cannot_be_pending() {
    assert!(Chainlink::restore(config(), vec![], vec![job(4, 7), job(4, 2)], 0).is_none());
    assert!(Chainlink::restore(config(), vec![], vec![job(4, 7), job(5, 0)], 0).is_none());
    assert!(Chainlink::restore(config(), vec![], vec![], 0).is_some());
}

use pallet_chainlink::{Error, Event, OperatorRegistry, Request, RequestLedger};

fn request(id: u64, created_at: u64) -> Request<u8> {
    Request { id, requester: 2, operator: 1, callback: 0, created_at, fee: 1 }
}

#[test]
fn registry_is_a_set() {
    let mut registry = OperatorRegistry::new();
    assert!(!registry.is_registered(4));
    assert_eq!(registry.register(4), Ok(Event::OperatorRegistered(4)));
    assert_eq!(registry.register(5), Ok(Event::OperatorRegistered(5)));
    assert_eq!(registry.register(4), Err(Error::OperatorAlreadyRegistered));
    assert!(registry.is_registered(4));
    assert_eq!(registry.unregister(4), Ok(Event::OperatorUnregistered(4)));
    assert!(!registry.is_registered(4));
    assert!(registry.is_registered(5));
    assert_eq!(registry.unregister(4), Err(Error::UnknownOperator));
}

#[test]
fn ledger_files_each_identifier_once() {
    let mut ledger: RequestLedger<u8> = RequestLedger::new();
    assert!(!ledger.contains(7));
    assert_eq!(ledger.lookup(7), None);
    assert_eq!(ledger.insert(request(7, 0)), Ok(()));
    assert_eq!(ledger.insert(request(8, 1)), Ok(()));
    let mut other = request(7, 5);
    other.fee = 9;
    assert_eq!(ledger.insert(other.clone()), Err(other));
    assert_eq!(ledger.lookup(7), Some(&request(7, 0)));
    assert_eq!(ledger.remove(7), Some(request(7, 0)));
    assert_eq!(ledger.remove(7), None);
    assert!(ledger.contains(8));
}

#[test]
fn ledger_sweep_keeps_what_is_still_valid() {
    let mut ledger: RequestLedger<u8> = RequestLedger::new();
    for id in 0..6u64 {
        assert_eq!(ledger.insert(request(id, id * 2)), Ok(()));
    }
    let mut killed = ledger.sweep(15, 10);
    killed.sort();
    assert_eq!(killed, vec![0, 1, 2]);
    assert!(!ledger.contains(2));
    assert_eq!(ledger.lookup(3), Some(&request(3, 6)));
    assert_eq!(ledger.sweep(15, 10), Vec::<u64>::new());
    assert_eq!(ledger.sweep(16, 10), Vec::<u64>::new());
    assert_eq!(ledger.sweep(17, 10), vec![3]);
}

#[test]
fn request_expires_strictly_after_its_window() {
    let job = request(0, 5);
    assert!(!job.is_expired(4, 10));
    assert!(!job.is_expired(15, 10));
    assert!(job.is_expired(16, 10));
    assert!(!job.is_expired(u64::MAX, u64::MAX));
    assert!(request(0, 0).is_expired(1, 0));
}

#[test]
fn registry_lists_its_members_in_order() {
    let mut registry = OperatorRegistry::new();
    assert_eq!(registry.members(), Vec::<u64>::new());
    assert!(registry.register(7).is_ok());
    assert!(registry.register(3).is_ok());
    assert!(registry.register(5).is_ok());
    assert!(registry.unregister(3).is_ok());
    assert_eq!(registry.members(), vec![5, 7]);
}

#[test]
fn ledger_lists_what_is_pending_in_order() {
    let mut ledger: RequestLedger<u8> = RequestLedger::new();
    assert_eq!(ledger.insert(request(8, 1)), Ok(()));
    assert_eq!(ledger.insert(request(2, 30)), Ok(()));
    assert_eq!(ledger.insert(request(5, 0)), Ok(()));
    assert_eq!(ledger.ids(), vec![2, 5, 8]);
    assert_eq!(ledger.requests(), vec![&request(2, 30), &request(5, 0), &request(8, 1)]);
    assert_eq!(ledger.expired(12, 10), vec![5, 8]);
    assert_eq!(ledger.sweep(12, 10), vec![5, 8]);
    assert_eq!(ledger.ids(), vec![2]);
}

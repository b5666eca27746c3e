//! The four operations of the protocol and its periodic sweep.

use crate::dispatch::CallbackWithParameter;
use crate::escrow::{moved_to_reserve, repatriated, same_balances, Escrow};
use crate::operators::OperatorRegistry;
use crate::requests::{expired_ids, RequestLedger};
use crate::types::{
    AccountId, Balance, BlockNumber, Config, DataVersion, Error, Event, Request,
    RequestIdentifier, CALLBACK_NAME,
};
use vstd::prelude::*;

verus! {

/// What the protocol keeps between operations.
pub struct State<C> {
    /// The limits in force.
    pub config: Config,
    /// The registered operators.
    pub operators: Set<AccountId>,
    /// The pending requests, each under its identifier.
    pub requests: Map<RequestIdentifier, Request<C>>,
    /// The identifier that the next request gets.
    pub next_request_identifier: RequestIdentifier,
}

/// The identifier after `id`: one more, and zero after the largest.
pub open spec fn following(id: RequestIdentifier) -> RequestIdentifier {
    if id == RequestIdentifier::MAX {
        0
    } else {
        (id + 1) as RequestIdentifier
    }
}

/// Requests that can be pending together: no two share an identifier and
/// each has a positive fee.
pub open spec fn restorable<C>(requests: Seq<Request<C>>) -> bool {
    &&& forall|i: int, j: int|
        0 <= i < j < requests.len() ==> requests[i].id != requests[j].id
    &&& forall|i: int| 0 <= i < requests.len() ==> (#[trigger] requests[i]).fee > 0
}

/// The identifier that a notification of a removed request names.
pub open spec fn killed_id(event: Event) -> RequestIdentifier {
    match event {
        Event::KillRequest(id) => id,
        _ => 0,
    }
}

impl<C: CallbackWithParameter> State<C> {
    /// Every pending request is kept under the identifier that it carries.
    pub open spec fn keyed_by_id(self) -> bool {
        forall|id: RequestIdentifier|
            self.requests.contains_key(id) ==> (#[trigger] self.requests[id]).id == id
    }

    /// Every pending request was paid for: its fee is positive.
    pub open spec fn fees_positive(self) -> bool {
        forall|id: RequestIdentifier|
            self.requests.contains_key(id) ==> (#[trigger] self.requests[id]).fee > 0
    }

    /// What holds of the pending requests between any two operations.
    pub open spec fn sound(self) -> bool {
        self.keyed_by_id() && self.fees_positive()
    }

    /// Whether `who` may be registered.
    pub open spec fn register_decision(self, who: AccountId) -> Result<(), Error> {
        if self.operators.contains(who) {
            Err(Error::OperatorAlreadyRegistered)
        } else {
            Ok(())
        }
    }

    /// The state with `who` among the operators.
    pub open spec fn after_register(self, who: AccountId) -> State<C> {
        State {
            config: self.config,
            operators: self.operators.insert(who),
            requests: self.requests,
            next_request_identifier: self.next_request_identifier,
        }
    }

    /// Whether `who` may be unregistered.
    pub open spec fn unregister_decision(self, who: AccountId) -> Result<(), Error> {
        if self.operators.contains(who) {
            Ok(())
        } else {
            Err(Error::UnknownOperator)
        }
    }

    /// The state without `who` among the operators.
    pub open spec fn after_unregister(self, who: AccountId) -> State<C> {
        State {
            config: self.config,
            operators: self.operators.remove(who),
            requests: self.requests,
            next_request_identifier: self.next_request_identifier,
        }
    }

    /// Whether `who` may ask `operator` for data at the price of `fee`,
    /// given the funds in `escrow`. The operator must be registered and the
    /// fee positive; the escrow must agree to reserve the fee; and there
    /// must be room for the action, under an identifier that is free. The
    /// first of these that fails gives the error.
    pub open spec fn initiate_decision<E: Escrow>(
        self,
        escrow: E,
        who: AccountId,
        operator: AccountId,
        fee: Balance,
    ) -> Result<(), Error> {
        if !self.operators.contains(operator) {
            Err(Error::UnknownOperator)
        } else if fee == 0 {
            Err(Error::InsufficientFee)
        } else if let Err(refusal) = escrow.reserve_outcome(who, fee) {
            Err(Error::Escrow(refusal))
        } else if self.config.max_requests < 1 || self.requests.contains_key(
            self.next_request_identifier,
        ) {
            Err(Error::TooManyRequests)
        } else {
            Ok(())
        }
    }

    /// The request that `who` creates at height `now`.
    pub open spec fn new_request(
        self,
        who: AccountId,
        operator: AccountId,
        fee: Balance,
        callback: C,
        now: BlockNumber,
    ) -> Request<C> {
        Request {
            id: self.next_request_identifier,
            requester: who,
            operator,
            callback,
            created_at: now,
            fee,
        }
    }

    /// The state with the new request pending and the counter moved on.
    pub open spec fn after_initiate(
        self,
        who: AccountId,
        operator: AccountId,
        fee: Balance,
        callback: C,
        now: BlockNumber,
    ) -> State<C> {
        State {
            config: self.config,
            operators: self.operators,
            requests: self.requests.insert(
                self.next_request_identifier,
                self.new_request(who, operator, fee, callback, now),
            ),
            next_request_identifier: following(self.next_request_identifier),
        }
    }

    /// Whether `who` may answer the request `request_id`, given the funds in
    /// `escrow`. The request must be pending and name
    /// `who` as its operator; the escrow must agree to pay the fee out of the
    /// requester's reserve; and the stored action must take a result. The
    /// first of these that fails gives the error.
    pub open spec fn callback_decision<E: Escrow>(
        self,
        escrow: E,
        who: AccountId,
        request_id: RequestIdentifier,
    ) -> Result<(), Error> {
        if !self.requests.contains_key(request_id) {
            Err(Error::UnknownRequest)
        } else if self.requests[request_id].operator != who {
            Err(Error::WrongOperator)
        } else if let Err(refusal) = escrow.repatriate_outcome(
            self.requests[request_id].requester,
            who,
            self.requests[request_id].fee,
        ) {
            Err(Error::Escrow(refusal))
        } else if !self.requests[request_id].callback.takes_result() {
            Err(Error::UnknownCallback)
        } else {
            Ok(())
        }
    }

    /// The state without the request `request_id`.
    pub open spec fn after_callback(self, request_id: RequestIdentifier) -> State<C> {
        State {
            config: self.config,
            operators: self.operators,
            requests: self.requests.remove(request_id),
            next_request_identifier: self.next_request_identifier,
        }
    }

    /// The identifiers of the requests that a sweep at height `now` removes.
    pub open spec fn expired(self, now: BlockNumber) -> Set<RequestIdentifier> {
        expired_ids(self.requests, now, self.config.validity_period)
    }

    /// The state without the requests that have expired at height `now`.
    pub open spec fn after_sweep(self, now: BlockNumber) -> State<C> {
        State {
            config: self.config,
            operators: self.operators,
            requests: self.requests.remove_keys(self.expired(now)),
            next_request_identifier: self.next_request_identifier,
        }
    }
}

/// The right to run an action with the authority of the system itself,
/// whoever signed the call that led to it. Only a successful
/// [`Pallet::callback`] makes one.
pub struct RootDispatch<C> {
    action: C,
}

impl<C> RootDispatch<C> {
    /// The action to run.
    pub closed spec fn action(self) -> C {
        self.action
    }

    /// Hands the action over to be run.
    pub fn into_action(self) -> (action: C)
        ensures
            action == self.action(),
    {
        self.action
    }
}

/// The protocol: the operators, the pending requests and the counter from
/// which identifiers are taken.
pub struct Pallet<C> {
    config: Config,
    operators: OperatorRegistry,
    requests: RequestLedger<C>,
    next_request_identifier: RequestIdentifier,
}

impl<C: CallbackWithParameter> View for Pallet<C> {
    type V = State<C>;

    closed spec fn view(&self) -> State<C> {
        State {
            config: self.config,
            operators: self.operators@,
            requests: self.requests@,
            next_request_identifier: self.next_request_identifier,
        }
    }
}

impl<C: CallbackWithParameter> Pallet<C> {
    /// The ledger of requests is in order and every pending request has a
    /// positive fee.
    pub closed spec fn wf(&self) -> bool {
        self.requests.wf() && self@.fees_positive()
    }

    /// Between operations the pending requests are sound.
    pub proof fn lemma_sound(&self)
        requires
            self.wf(),
        ensures
            self@.sound(),
    {
        self.requests.lemma_keyed_by_id();
    }

    /// A protocol with no operator and no request, whose first request gets
    /// the identifier zero.
    pub fn new(config: Config) -> (pallet: Pallet<C>)
        ensures
            pallet.wf(),
            pallet@ == (State::<C> {
                config,
                operators: Set::empty(),
                requests: Map::empty(),
                next_request_identifier: 0,
            }),
    {
        Pallet {
            config,
            operators: OperatorRegistry::new(),
            requests: RequestLedger::new(),
            next_request_identifier: 0,
        }
    }

    /// The protocol as it was when `operators`, `requests` and `next` were
    /// taken from it, under the limits `config`; `None` where the requests
    /// cannot be pending together.
    pub fn restore(
        config: Config,
        operators: Vec<AccountId>,
        requests: Vec<Request<C>>,
        next: RequestIdentifier,
    ) -> (restored: Option<Pallet<C>>)
        ensures
            restored is Some <==> restorable(requests@),
            match restored {
                Some(pallet) => {
                    &&& pallet.wf()
                    &&& pallet@.config == config
                    &&& pallet@.operators == operators@.to_set()
                    &&& pallet@.next_request_identifier == next
                    &&& forall|i: int|
                        0 <= i < requests@.len() ==> pallet@.requests.contains_key(
                            (#[trigger] requests@[i]).id,
                        ) && pallet@.requests[requests@[i].id] == requests@[i]
                    &&& forall|id: RequestIdentifier|
                        pallet@.requests.contains_key(id) ==> exists|i: int|
                            0 <= i < requests@.len() && (#[trigger] requests@[i]).id == id
                },
                None => true,
            },
    {
        let mut registry = OperatorRegistry::new();
        let mut i: usize = 0;
        while i < operators.len()
            invariant
                i <= operators@.len(),
                registry@ == operators@.take(i as int).to_set(),
            decreases operators@.len() - i,
        {
            let ghost members = registry@;
            let _ = registry.register(operators[i]);
            proof {
                let done = operators@.take(i as int);
                let more = operators@.take(i + 1);
                assert(more == done.push(operators@[i as int]));
                assert forall|a: AccountId| more.to_set().contains(a) <==> members.insert(
                    operators@[i as int],
                ).contains(a) by {
                    if more.to_set().contains(a) {
                        let k = choose|k: int| 0 <= k < more.len() && more[k] == a;
                        if k < done.len() {
                            assert(done[k] == a);
                        }
                    }
                    if done.to_set().contains(a) {
                        let k = choose|k: int| 0 <= k < done.len() && done[k] == a;
                        assert(more[k] == a);
                    }
                    if a == operators@[i as int] {
                        assert(more[i as int] == a);
                    }
                }
                assert(registry@ =~= more.to_set());
            }
            i += 1;
        }
        proof {
            assert(operators@.take(operators@.len() as int) == operators@);
        }
        let ghost given = requests@;
        let mut rest = requests;
        let mut ledger: RequestLedger<C> = RequestLedger::new();
        while rest.len() > 0
            invariant
                ledger.wf(),
                given == requests@,
                registry@ == operators@.to_set(),
                rest@.len() <= given.len(),
                rest@ == given.take(rest@.len() as int),
                forall|j: int|
                    rest@.len() <= j < given.len() ==> ledger@.contains_key(
                        (#[trigger] given[j]).id,
                    ) && ledger@[given[j].id] == given[j] && given[j].fee > 0,
                forall|id: RequestIdentifier|
                    ledger@.contains_key(id) ==> exists|j: int|
                        rest@.len() <= j < given.len() && (#[trigger] given[j]).id == id,
                forall|a: int, b: int|
                    rest@.len() <= a < b < given.len() ==> given[a].id != given[b].id,
            decreases rest@.len(),
        {
            let ghost filed = ledger@;
            let ghost n = rest@.len() - 1;
            match rest.pop() {
                None => {},
                Some(request) => {
                    assert(request == given[n]);
                    if request.fee == 0 {
                        proof {
                            assert(given[n].fee == 0);
                            assert(!restorable(given));
                        }
                        return None;
                    }
                    proof {
                        if filed.contains_key(request.id) {
                            let j = choose|j: int|
                                n + 1 <= j < given.len() && (#[trigger] given[j]).id == request.id;
                            assert(0 <= n < j < given.len() && given[n].id == given[j].id);
                            assert(!restorable(given));
                        }
                    }
                    match ledger.insert(request) {
                        Err(_) => {
                            return None;
                        },
                        Ok(_) => {},
                    }
                    proof {
                        assert forall|j: int| n <= j < given.len() implies ledger@.contains_key(
                            (#[trigger] given[j]).id,
                        ) && ledger@[given[j].id] == given[j] && given[j].fee > 0 by {
                            if j > n {
                                assert(given[j].id != given[n].id) by {
                                    if given[j].id == given[n].id {
                                        assert(filed.contains_key(given[j].id));
                                    }
                                }
                            }
                        }
                        assert forall|id: RequestIdentifier| ledger@.contains_key(id) implies exists|
                            j: int,
                        |
                            n <= j < given.len() && (#[trigger] given[j]).id == id by {
                            if id == given[n].id {
                                assert(given[n].id == id);
                            } else {
                                let j = choose|j: int|
                                    n + 1 <= j < given.len() && (#[trigger] given[j]).id == id;
                                assert(given[j].id == id);
                            }
                        }
                        assert forall|a: int, b: int| n <= a < b < given.len() implies given[a].id
                            != given[b].id by {
                            if a == n {
                                if given[b].id == given[n].id {
                                    assert(filed.contains_key(given[b].id));
                                }
                            }
                        }
                    }
                },
            }
        }
        let pallet = Pallet {
            config,
            operators: registry,
            requests: ledger,
            next_request_identifier: next,
        };
        proof {
            assert forall|id: RequestIdentifier| pallet@.requests.contains_key(id) implies (
            #[trigger] pallet@.requests[id]).fee > 0 by {
                let j = choose|j: int| 0 <= j < given.len() && (#[trigger] given[j]).id == id;
                assert(given[j].fee > 0);
            }
        }
        Some(pallet)
    }

    /// The operators, each once, in the order of their identities.
    pub fn operators(&self) -> (operators: Vec<AccountId>)
        ensures
            operators@.no_duplicates(),
            operators@.to_set() == self@.operators,
    {
        self.operators.members()
    }

    /// The pending requests, each once, in the order of their identifiers.
    pub fn requests(&self) -> (pending: Vec<&Request<C>>)
        requires
            self.wf(),
        ensures
            forall|k: int|
                0 <= k < pending@.len() ==> self@.requests.contains_key(
                    (#[trigger] pending@[k]).id,
                ) && self@.requests[pending@[k].id] == *pending@[k],
            forall|a: int, b: int|
                0 <= a < pending@.len() && 0 <= b < pending@.len() && a != b ==> pending@[a].id
                    != pending@[b].id,
            forall|id: RequestIdentifier|
                self@.requests.contains_key(id) ==> exists|k: int|
                    0 <= k < pending@.len() && (#[trigger] pending@[k]).id == id,
    {
        self.requests.requests()
    }

    /// The identifier that the next request gets.
    pub fn next_request_identifier(&self) -> (next: RequestIdentifier)
        ensures
            next == self@.next_request_identifier,
    {
        self.next_request_identifier
    }

    /// Moves the counter to `next`, from which the following request takes
    /// its identifier; nothing else changes.
    pub fn set_next_request_identifier(&mut self, next: RequestIdentifier)
        requires
            old(self).wf(),
        ensures
            final(self).wf(),
            final(self)@ == (State::<C> {
                config: old(self)@.config,
                operators: old(self)@.operators,
                requests: old(self)@.requests,
                next_request_identifier: next,
            }),
    {
        self.next_request_identifier = next;
    }

    /// Whether `account` is a registered operator.
    pub fn operator(&self, account: AccountId) -> (registered: bool)
        ensures
            registered == self@.operators.contains(account),
    {
        self.operators.is_registered(account)
    }

    /// The limits in force.
    pub fn config(&self) -> (config: Config)
        ensures
            config == self@.config,
    {
        self.config
    }

    /// Whether a request is pending under `request_id`.
    pub fn is_pending(&self, request_id: RequestIdentifier) -> (pending: bool)
        requires
            self.wf(),
        ensures
            pending == self@.requests.contains_key(request_id),
    {
        self.requests.contains(request_id)
    }

    /// The request pending under `request_id`, if there is one.
    pub fn request(&self, request_id: RequestIdentifier) -> (found: Option<&Request<C>>)
        requires
            self.wf(),
        ensures
            match found {
                Some(request) => self@.requests.contains_key(request_id) && *request
                    == self@.requests[request_id],
                None => !self@.requests.contains_key(request_id),
            },
    {
        self.requests.lookup(request_id)
    }

    /// Registers `who` as an operator.
    ///
    /// Fails with `OperatorAlreadyRegistered`, and changes nothing, where
    /// `who` is an operator already.
    pub fn register_operator(&mut self, who: AccountId) -> (outcome: Result<Event, Error>)
        requires
            old(self).wf(),
        ensures
            final(self).wf(),
            match outcome {
                Ok(event) => old(self)@.register_decision(who) is Ok && event
                    == Event::OperatorRegistered(who) && final(self)@ == old(self)@.after_register(
                    who,
                ),
                Err(error) => old(self)@.register_decision(who) == Err::<(), Error>(error)
                    && final(self)@ == old(self)@,
            },
    {
        let outcome = self.operators.register(who);
        proof {
            if outcome is Ok {
                assert(self@.operators =~= old(self)@.after_register(who).operators);
            }
        }
        outcome
    }

    /// Takes `who` out of the operators.
    ///
    /// Fails with `UnknownOperator`, and changes nothing, where `who` is no
    /// operator.
    pub fn unregister_operator(&mut self, who: AccountId) -> (outcome: Result<Event, Error>)
        requires
            old(self).wf(),
        ensures
            final(self).wf(),
            match outcome {
                Ok(event) => old(self)@.unregister_decision(who) is Ok && event
                    == Event::OperatorUnregistered(who) && final(self)@ == old(
                    self,
                )@.after_unregister(who),
                Err(error) => old(self)@.unregister_decision(who) == Err::<(), Error>(error)
                    && final(self)@ == old(self)@,
            },
    {
        self.operators.unregister(who)
    }

    /// Creates a request of `who` to `operator` at height `now` and reserves
    /// `fee` from `who`.
    ///
    /// On success the request is pending under the identifier that the
    /// counter held, the counter has moved on, the fee sits in the reserve of
    /// `who`, and the notification for the operators is returned. On failure
    /// nothing has changed, in the protocol or in the escrow. The bounds on
    /// `spec_index` and `data` are those of the configuration.
    pub fn initiate_request<E: Escrow>(
        &mut self,
        escrow: &mut E,
        who: AccountId,
        operator: AccountId,
        spec_index: Vec<u8>,
        data_version: DataVersion,
        data: Vec<u8>,
        fee: Balance,
        callback: C,
        now: BlockNumber,
    ) -> (outcome: Result<Event, Error>)
        requires
            old(self).wf(),
            spec_index@.len() <= old(self)@.config.max_spec_index_len,
            data@.len() <= old(self)@.config.max_request_len,
        ensures
            final(self).wf(),
            match outcome {
                Ok(event) => {
                    &&& old(self)@.initiate_decision(*old(escrow), who, operator, fee) is Ok
                    &&& event == Event::OracleRequest(
                        operator,
                        spec_index,
                        old(self)@.next_request_identifier,
                        who,
                        data_version,
                        data,
                        CALLBACK_NAME,
                        fee,
                    )
                    &&& final(self)@ == old(self)@.after_initiate(who, operator, fee, callback, now)
                    &&& moved_to_reserve(old(escrow).ledger(), final(escrow).ledger(), who, fee)
                },
                Err(error) => {
                    &&& old(self)@.initiate_decision(*old(escrow), who, operator, fee) == Err::<
                        (),
                        Error,
                    >(error)
                    &&& final(self)@ == old(self)@
                    &&& same_balances(old(escrow).ledger(), final(escrow).ledger())
                },
            },
    {
        if !self.operators.is_registered(operator) {
            return Err(Error::UnknownOperator);
        }
        if fee == 0 {
            return Err(Error::InsufficientFee);
        }
        match escrow.can_reserve(who, fee) {
            Err(refusal) => {
                return Err(Error::Escrow(refusal));
            },
            Ok(_) => {},
        }
        let request_id = self.next_request_identifier;
        if self.config.max_requests < 1 || self.requests.contains(request_id) {
            return Err(Error::TooManyRequests);
        }
        match escrow.reserve(who, fee) {
            Err(refusal) => {
                return Err(Error::Escrow(refusal));
            },
            Ok(_) => {},
        }
        let request = Request {
            id: request_id,
            requester: who,
            operator,
            callback,
            created_at: now,
            fee,
        };
        let _ = self.requests.insert(request);
        self.next_request_identifier = if request_id == RequestIdentifier::MAX {
            0
        } else {
            request_id + 1
        };
        Ok(
            Event::OracleRequest(
                operator,
                spec_index,
                request_id,
                who,
                data_version,
                data,
                CALLBACK_NAME,
                fee,
            ),
        )
    }

    /// Takes the answer `result` of `who` to the request `request_id`.
    ///
    /// On success the request is gone, its fee has gone from the requester's
    /// reserve to the free balance of `who`, and the stored action, completed
    /// with `result`, is returned for dispatch with the notification. Whether
    /// that dispatch then succeeds is of no concern here: the operator has
    /// done its work and is paid. On failure nothing has changed, in the
    /// protocol or in the escrow. The bound on `result` is that of the
    /// configuration.
    pub fn callback<E: Escrow>(
        &mut self,
        escrow: &mut E,
        who: AccountId,
        request_id: RequestIdentifier,
        result: Vec<u8>,
    ) -> (outcome: Result<(RootDispatch<C>, Event), Error>)
        requires
            old(self).wf(),
            result@.len() <= old(self)@.config.max_result_len,
        ensures
            final(self).wf(),
            match outcome {
                Ok((dispatch, event)) => {
                    let request = old(self)@.requests[request_id];
                    &&& old(self)@.callback_decision(*old(escrow), who, request_id) is Ok
                    &&& dispatch.action().delivers(&request.callback, result@)
                    &&& event == Event::OracleAnswer(
                        who,
                        request_id,
                        request.requester,
                        result,
                        request.fee,
                    )
                    &&& final(self)@ == old(self)@.after_callback(request_id)
                    &&& repatriated(
                        old(escrow).ledger(),
                        final(escrow).ledger(),
                        request.requester,
                        who,
                        request.fee,
                    )
                },
                Err(error) => {
                    &&& old(self)@.callback_decision(*old(escrow), who, request_id)
                        == Err::<(), Error>(error)
                    &&& final(self)@ == old(self)@
                    &&& same_balances(old(escrow).ledger(), final(escrow).ledger())
                },
            },
    {
        let (requester, fee, completed) = match self.requests.lookup(request_id) {
            None => {
                return Err(Error::UnknownRequest);
            },
            Some(request) => {
                if request.operator != who {
                    return Err(Error::WrongOperator);
                }
                match escrow.can_repatriate(request.requester, who, request.fee) {
                    Err(refusal) => {
                        return Err(Error::Escrow(refusal));
                    },
                    Ok(_) => {},
                }
                let handed = result.clone();
                match request.callback.with_result(handed) {
                    None => {
                        return Err(Error::UnknownCallback);
                    },
                    Some(completed) => (request.requester, request.fee, completed),
                }
            },
        };
        match escrow.repatriate_reserved(requester, who, fee) {
            Err(refusal) => {
                return Err(Error::Escrow(refusal));
            },
            Ok(_) => {},
        }
        let _ = self.requests.remove(request_id);
        Ok(
            (
                RootDispatch { action: completed },
                Event::OracleAnswer(who, request_id, requester, result, fee),
            ),
        )
    }

    /// The sweep at the end of the period `n`: removes every request whose
    /// validity window has elapsed, and returns one notification for each.
    /// It cannot fail, and it touches no funds.
    pub fn on_finalize(&mut self, n: BlockNumber) -> (events: Vec<Event>)
        requires
            old(self).wf(),
        ensures
            final(self).wf(),
            final(self)@ == old(self)@.after_sweep(n),
            forall|k: int| 0 <= k < events@.len() ==> #[trigger] events@[k] is KillRequest,
            events@.map_values(|event: Event| killed_id(event)).no_duplicates(),
            events@.map_values(|event: Event| killed_id(event)).to_set() == old(self)@.expired(n),
    {
        let killed = self.requests.sweep(n, self.config.validity_period);
        proof {
            assert forall|id: RequestIdentifier| self@.requests.contains_key(id) implies (
            #[trigger] self@.requests[id]).fee > 0 by {
                assert(old(self)@.requests.contains_key(id));
                assert(old(self)@.requests[id] == self@.requests[id]);
            }
        }
        let mut events: Vec<Event> = Vec::new();
        let mut i: usize = 0;
        while i < killed.len()
            invariant
                i <= killed@.len(),
                events@.len() == i,
                forall|k: int| 0 <= k < i ==> #[trigger] events@[k] == Event::KillRequest(killed@[k]),
            decreases killed@.len() - i,
        {
            events.push(Event::KillRequest(killed[i]));
            i += 1;
        }
        proof {
            assert(events@.map_values(|event: Event| killed_id(event)) =~= killed@);
        }
        events
    }
}

} // verus!

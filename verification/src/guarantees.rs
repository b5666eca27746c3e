//! What the protocol guarantees across operations, proved from the
//! transitions that the operations are specified by.

use crate::dispatch::CallbackWithParameter;
use crate::escrow::{moved_to_reserve, repatriated, Escrow};
use crate::pallet::{restorable, State};
use crate::types::{AccountId, Balance, BlockNumber, Error, Request, RequestIdentifier};
use vstd::prelude::*;

verus! {

/// An account that was registered cannot be registered again, and one that
/// is not registered cannot be unregistered.
pub proof fn lemma_registration_is_not_repeated<C: CallbackWithParameter>(
    state: State<C>,
    who: AccountId,
)
    ensures
        state.after_register(who).register_decision(who) == Err::<(), Error>(
            Error::OperatorAlreadyRegistered,
        ),
        state.operators.contains(who) ==> state.register_decision(who) == Err::<(), Error>(
            Error::OperatorAlreadyRegistered,
        ),
        !state.operators.contains(who) ==> state.unregister_decision(who) == Err::<(), Error>(
            Error::UnknownOperator,
        ),
        state.after_unregister(who).unregister_decision(who) == Err::<(), Error>(
            Error::UnknownOperator,
        ),
{
}

/// Nothing but its own unregistration takes an operator out of the
/// registry: not the registration or unregistration of another account, not
/// a request, an answer or a sweep.
pub proof fn lemma_registration_lasts<C: CallbackWithParameter>(
    state: State<C>,
    who: AccountId,
    other: AccountId,
    requester: AccountId,
    operator: AccountId,
    fee: Balance,
    callback: C,
    request_id: RequestIdentifier,
    now: BlockNumber,
)
    requires
        state.operators.contains(who),
        other != who,
    ensures
        state.after_register(other).operators.contains(who),
        state.after_unregister(other).operators.contains(who),
        state.after_initiate(requester, operator, fee, callback, now).operators.contains(who),
        state.after_callback(request_id).operators.contains(who),
        state.after_sweep(now).operators.contains(who),
{
}

/// A request and its answer move the fee from the requester's free balance
/// to the operator's, and nothing else.
///
/// Between the two the fee sits in the requester's reserve, where neither
/// party can spend it. After the answer every reserve is what it was before
/// the request, the requester has the fee less and the operator the fee
/// more, so that what the two hold together is unchanged.
pub proof fn lemma_escrow_conservation<C: CallbackWithParameter, E: Escrow>(
    state: State<C>,
    before: E,
    between: E,
    after: E,
    requester: AccountId,
    operator: AccountId,
    fee: Balance,
    callback: C,
    now: BlockNumber,
)
    requires
        state.initiate_decision(before, requester, operator, fee) is Ok,
        moved_to_reserve(before.ledger(), between.ledger(), requester, fee),
        state.after_initiate(requester, operator, fee, callback, now).callback_decision(
            between,
            operator,
            state.next_request_identifier,
        ) is Ok,
        repatriated(between.ledger(), after.ledger(), requester, operator, fee),
    ensures
        (between.ledger())(requester).free == (before.ledger())(requester).free - fee,
        (between.ledger())(requester).reserved == (before.ledger())(requester).reserved + fee,
        requester != operator ==> (between.ledger())(operator) == (before.ledger())(operator),
        forall|a: AccountId|
            (#[trigger] (after.ledger())(a)).reserved == (before.ledger())(a).reserved,
        forall|a: AccountId|
            a != requester && a != operator ==> #[trigger] (after.ledger())(a) == (
            before.ledger())(a),
        requester != operator ==> (after.ledger())(requester).free == (before.ledger())(
            requester,
        ).free - fee && (after.ledger())(operator).free == (before.ledger())(operator).free + fee,
        requester == operator ==> (after.ledger())(requester) == (before.ledger())(requester),
        (after.ledger())(requester).free + (after.ledger())(operator).free == (before.ledger())(
            requester,
        ).free + (before.ledger())(operator).free,
{
    let pre = before.ledger();
    let mid = between.ledger();
    let post = after.ledger();
    assert forall|a: AccountId| (#[trigger] post(a)).reserved == pre(a).reserved by {
        let at_mid = mid(a);
    }
    assert forall|a: AccountId| a != requester && a != operator implies #[trigger] post(a) == pre(
        a,
    ) by {
        let at_mid = mid(a);
    }
    let requester_mid = mid(requester);
    let operator_mid = mid(operator);
    let requester_post = post(requester);
    let operator_post = post(operator);
}

/// Only the operator that a request designates can answer it: any other
/// caller is refused with `WrongOperator`, whatever the escrow holds.
pub proof fn lemma_only_the_operator_answers<C: CallbackWithParameter, E: Escrow>(
    state: State<C>,
    escrow: E,
    who: AccountId,
    request_id: RequestIdentifier,
)
    requires
        state.requests.contains_key(request_id),
        state.requests[request_id].operator != who,
    ensures
        state.callback_decision(escrow, who, request_id) == Err::<(), Error>(Error::WrongOperator),
{
}

/// An answer to a request that is not pending is refused with
/// `UnknownRequest`, and a request that was answered is no longer pending.
pub proof fn lemma_answered_once<C: CallbackWithParameter, E: Escrow>(
    state: State<C>,
    escrow: E,
    who: AccountId,
    request_id: RequestIdentifier,
)
    ensures
        !state.requests.contains_key(request_id) ==> state.callback_decision(
            escrow,
            who,
            request_id,
        ) == Err::<(), Error>(Error::UnknownRequest),
        state.after_callback(request_id).callback_decision(escrow, who, request_id) == Err::<
            (),
            Error,
        >(Error::UnknownRequest),
{
}

/// A request created at height `n` under the validity period `v` outlives
/// every sweep up to height `n + v`, unchanged and as answerable as it was,
/// and is removed by any sweep from height `n + v + 1` on, after which an
/// answer to it is refused with `UnknownRequest` even from its operator.
pub proof fn lemma_expiry<C: CallbackWithParameter, E: Escrow>(
    state: State<C>,
    escrow: E,
    who: AccountId,
    request_id: RequestIdentifier,
    now: BlockNumber,
)
    requires
        state.requests.contains_key(request_id),
    ensures
        now <= state.requests[request_id].created_at + state.config.validity_period ==> {
            &&& !state.expired(now).contains(request_id)
            &&& state.after_sweep(now).requests.contains_key(request_id)
            &&& state.after_sweep(now).requests[request_id] == state.requests[request_id]
            &&& state.after_sweep(now).callback_decision(escrow, who, request_id)
                == state.callback_decision(escrow, who, request_id)
        },
        now >= state.requests[request_id].created_at + state.config.validity_period + 1 ==> {
            &&& state.expired(now).contains(request_id)
            &&& !state.after_sweep(now).requests.contains_key(request_id)
            &&& state.after_sweep(now).callback_decision(
                escrow,
                state.requests[request_id].operator,
                request_id,
            ) == Err::<(), Error>(Error::UnknownRequest)
        },
{
}

/// A request leaves the ledger once: one that was answered is not swept
/// afterwards, and one that was swept is neither swept again nor answered.
pub proof fn lemma_removed_once<C: CallbackWithParameter, E: Escrow>(
    state: State<C>,
    escrow: E,
    who: AccountId,
    request_id: RequestIdentifier,
    now: BlockNumber,
    later: BlockNumber,
)
    ensures
        !state.after_callback(request_id).expired(now).contains(request_id),
        state.expired(now).contains(request_id) ==> {
            &&& !state.after_sweep(now).expired(later).contains(request_id)
            &&& state.after_sweep(now).callback_decision(escrow, who, request_id) == Err::<
                (),
                Error,
            >(Error::UnknownRequest)
        },
{
}

/// A pending request is never overwritten. Where the counter has come round
/// to an identifier that is still pending, a new request is refused, with
/// `TooManyRequests` where nothing else stands against it; and a request
/// that is accepted leaves every pending one as it was and stands under an
/// identifier that was free.
pub proof fn lemma_pending_request_is_kept<C: CallbackWithParameter, E: Escrow>(
    state: State<C>,
    escrow: E,
    who: AccountId,
    operator: AccountId,
    fee: Balance,
    callback: C,
    now: BlockNumber,
)
    ensures
        state.requests.contains_key(state.next_request_identifier) ==> state.initiate_decision(
            escrow,
            who,
            operator,
            fee,
        ) is Err,
        state.operators.contains(operator) && fee > 0 && escrow.reserve_outcome(who, fee) is Ok
            && state.requests.contains_key(state.next_request_identifier)
            ==> state.initiate_decision(escrow, who, operator, fee) == Err::<(), Error>(
            Error::TooManyRequests,
        ),
        state.initiate_decision(escrow, who, operator, fee) is Ok ==> {
            let next = state.after_initiate(who, operator, fee, callback, now);
            &&& !state.requests.contains_key(state.next_request_identifier)
            &&& next.requests.contains_key(state.next_request_identifier)
            &&& next.requests[state.next_request_identifier] == state.new_request(
                who,
                operator,
                fee,
                callback,
                now,
            )
            &&& forall|id: RequestIdentifier| #[trigger]
                state.requests.contains_key(id) ==> next.requests.contains_key(id)
                    && next.requests[id] == state.requests[id]
        },
{
}

/// What a sound protocol hands out of its pending requests can be restored,
/// and restoring it gives the same pending requests back.
///
/// `pending` is what `Pallet::requests` promises of a state, and `restored`
/// is what `Pallet::restore` promises of `pending`.
pub proof fn lemma_exported_requests_restore<C: CallbackWithParameter>(
    state: State<C>,
    pending: Seq<Request<C>>,
    restored: Map<RequestIdentifier, Request<C>>,
)
    requires
        state.sound(),
        forall|k: int|
            0 <= k < pending.len() ==> state.requests.contains_key((#[trigger] pending[k]).id)
                && state.requests[pending[k].id] == pending[k],
        forall|a: int, b: int|
            0 <= a < pending.len() && 0 <= b < pending.len() && a != b ==> pending[a].id
                != pending[b].id,
        forall|id: RequestIdentifier|
            state.requests.contains_key(id) ==> exists|k: int|
                0 <= k < pending.len() && (#[trigger] pending[k]).id == id,
        forall|i: int|
            0 <= i < pending.len() ==> restored.contains_key((#[trigger] pending[i]).id)
                && restored[pending[i].id] == pending[i],
        forall|id: RequestIdentifier|
            restored.contains_key(id) ==> exists|i: int|
                0 <= i < pending.len() && (#[trigger] pending[i]).id == id,
    ensures
        restorable(pending),
        restored == state.requests,
{
    assert forall|i: int| 0 <= i < pending.len() implies (#[trigger] pending[i]).fee > 0 by {
        assert(state.requests[pending[i].id].fee > 0);
    }
    assert forall|id: RequestIdentifier| restored.contains_key(id) implies state.requests.contains_key(
        id,
    ) && state.requests[id] == restored[id] by {
        let i = choose|i: int| 0 <= i < pending.len() && (#[trigger] pending[i]).id == id;
        assert(state.requests.contains_key(pending[i].id));
    }
    assert forall|id: RequestIdentifier| state.requests.contains_key(id) implies restored.contains_key(
        id,
    ) by {
        let k = choose|k: int| 0 <= k < pending.len() && (#[trigger] pending[k]).id == id;
        assert(restored.contains_key(pending[k].id));
    }
    assert(restored =~= state.requests);
}

/// Every accepted transition keeps the pending requests sound: each under
/// the identifier that it carries, each with a positive fee.
pub proof fn lemma_soundness_is_kept<C: CallbackWithParameter, E: Escrow>(
    state: State<C>,
    escrow: E,
    who: AccountId,
    operator: AccountId,
    fee: Balance,
    callback: C,
    request_id: RequestIdentifier,
    now: BlockNumber,
)
    requires
        state.sound(),
    ensures
        state.after_register(who).sound(),
        state.after_unregister(who).sound(),
        state.initiate_decision(escrow, who, operator, fee) is Ok ==> state.after_initiate(
            who,
            operator,
            fee,
            callback,
            now,
        ).sound(),
        state.after_callback(request_id).sound(),
        state.after_sweep(now).sound(),
{
}

} // verus!

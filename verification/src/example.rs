//! A client of the protocol: it asks for the price of a currency pair and
//! keeps the answer.

use crate::dispatch::CallbackWithParameter;
use crate::escrow::{moved_to_reserve, same_balances, Escrow};
use crate::pallet::{Pallet as Chainlink, RootDispatch, State};
use crate::types::{AccountId, Balance, BlockNumber, DataVersion, Event, CALLBACK_NAME};
use crate::scale::{decode_i128, decoded_i128, encode_parameters, scale_encoded_parameters};
use vstd::prelude::*;

verus! {

/// The fee that the client offers for one answer.
pub const FEE: Balance = 100;

/// The data version that the client announces.
pub const DATA_VERSION: DataVersion = 0;

/// Why the client refused an operation.
#[derive(Debug, Clone, Copy, PartialEq, Eq)]
pub enum Error {
    /// The parameters of the request do not fit its payload.
    EncodingFailed,
    /// The answer does not hold a number.
    DecodingFailed,
    /// The action needs a signer and was run without one.
    BadOrigin,
    /// The protocol refused the request.
    Chainlink(crate::types::Error),
}

/// The actions of the client.
#[allow(non_camel_case_types)]
#[derive(Debug, Clone, PartialEq, Eq)]
pub enum Call {
    /// Ask `operator` for the price, under the specification `spec_id`.
    send_request { operator: AccountId, spec_id: Vec<u8> },
    /// Take the answer `result`.
    callback { result: Vec<u8> },
}

impl CallbackWithParameter for Call {
    open spec fn takes_result(&self) -> bool {
        self is callback
    }

    open spec fn delivers(&self, stored: &Self, result: Seq<u8>) -> bool {
        match self {
            Call::callback { result: delivered } => delivered@ == result,
            _ => false,
        }
    }

    fn with_result(&self, result: Vec<u8>) -> (completed: Option<Self>) {
        match self {
            Call::callback { .. } => Some(Call::callback { result }),
            _ => None,
        }
    }
}

/// The client: it remembers the last answer that it was given.
pub struct Pallet {
    result: i128,
}

impl View for Pallet {
    type V = i128;

    closed spec fn view(&self) -> i128 {
        self.result
    }
}

impl Pallet {
    /// A client that has had no answer yet and holds zero.
    pub fn new() -> (client: Pallet)
        ensures
            client@ == 0,
    {
        Pallet { result: 0 }
    }

    /// The last answer.
    pub fn result(&self) -> (result: i128)
        ensures
            result == self@,
    {
        self.result
    }

    /// Asks `operator` for the price of a pair, in the name of `who`.
    ///
    /// The parameters of the query are written with the codec. What happens
    /// to the bytes is what `send_encoded_request` says.
    pub fn send_request<E: Escrow>(
        chainlink: &mut Chainlink<Call>,
        escrow: &mut E,
        who: AccountId,
        operator: AccountId,
        spec_id: Vec<u8>,
        now: BlockNumber,
    ) -> (outcome: Result<Event, Error>)
        requires
            old(chainlink).wf(),
            spec_id@.len() <= old(chainlink)@.config.max_spec_index_len,
        ensures
            final(chainlink).wf(),
            sent(
                old(chainlink)@,
                final(chainlink)@,
                *old(escrow),
                *final(escrow),
                who,
                operator,
                spec_id,
                scale_encoded_parameters(
                    "get"@,
                    "https://min-api.cryptocompare.com/data/pricemultifull?fsyms=ETH&tsyms=USD"@,
                    "path"@,
                    "RAW.ETH.USD.PRICE"@,
                    "times"@,
                    "100000000"@,
                ),
                now,
                outcome,
            ),
    {
        proof {
            reveal_strlit("get");
            reveal_strlit(
                "https://min-api.cryptocompare.com/data/pricemultifull?fsyms=ETH&tsyms=USD",
            );
            reveal_strlit("path");
            reveal_strlit("RAW.ETH.USD.PRICE");
            reveal_strlit("times");
            reveal_strlit("100000000");
        }
        let parameters = encode_parameters(
            "get",
            "https://min-api.cryptocompare.com/data/pricemultifull?fsyms=ETH&tsyms=USD",
            "path",
            "RAW.ETH.USD.PRICE",
            "times",
            "100000000",
        );
        Self::send_encoded_request(chainlink, escrow, who, operator, spec_id, parameters, now)
    }

    /// Asks `operator` for an answer to the query that `parameters` hold, in
    /// the name of `who`, for the fee of a hundred.
    ///
    /// Fails with `EncodingFailed` where `parameters` are longer than a
    /// payload may be; otherwise the request is made, with an action that
    /// takes the answer, and the protocol's outcome is handed on.
    pub fn send_encoded_request<E: Escrow>(
        chainlink: &mut Chainlink<Call>,
        escrow: &mut E,
        who: AccountId,
        operator: AccountId,
        spec_id: Vec<u8>,
        parameters: Vec<u8>,
        now: BlockNumber,
    ) -> (outcome: Result<Event, Error>)
        requires
            old(chainlink).wf(),
            spec_id@.len() <= old(chainlink)@.config.max_spec_index_len,
        ensures
            final(chainlink).wf(),
            sent(
                old(chainlink)@,
                final(chainlink)@,
                *old(escrow),
                *final(escrow),
                who,
                operator,
                spec_id,
                parameters@,
                now,
                outcome,
            ),
    {
        if parameters.len() > chainlink.config().max_request_len as usize {
            return Err(Error::EncodingFailed);
        }
        let call = Call::callback { result: Vec::new() };
        match chainlink.initiate_request(
            escrow,
            who,
            operator,
            spec_id,
            DATA_VERSION,
            parameters,
            FEE,
            call,
            now,
        ) {
            Ok(event) => Ok(event),
            Err(error) => Err(Error::Chainlink(error)),
        }
    }

    /// Takes the answer `result`: a number of 128 bits in two's complement,
    /// lowest byte first.
    ///
    /// Fails with `DecodingFailed`, and keeps the last answer, where
    /// `result` holds fewer than sixteen bytes.
    pub fn callback(&mut self, result: Vec<u8>) -> (outcome: Result<(), Error>)
        ensures
            match decoded_i128(result@) {
                Some(value) => outcome is Ok && final(self)@ == value,
                None => outcome == Err::<(), Error>(Error::DecodingFailed) && final(self)@ == old(
                    self,
                )@,
            },
    {
        match decode_i128(&result) {
            Some(value) => {
                self.result = value;
                Ok(())
            },
            None => Err(Error::DecodingFailed),
        }
    }

    /// Runs an action that the protocol released, with the authority of the
    /// system. An answer is taken as `callback` takes it; a request has no
    /// signer here and is refused with `BadOrigin`.
    pub fn dispatch_bypass_filter(&mut self, dispatch: RootDispatch<Call>) -> (outcome: Result<
        (),
        Error,
    >)
        ensures
            match dispatch.action() {
                Call::callback { result } => match decoded_i128(result@) {
                    Some(value) => outcome is Ok && final(self)@ == value,
                    None => outcome == Err::<(), Error>(Error::DecodingFailed) && final(self)@
                        == old(self)@,
                },
                Call::send_request { .. } => outcome == Err::<(), Error>(Error::BadOrigin)
                    && final(self)@ == old(self)@,
            },
    {
        match dispatch.into_action() {
            Call::callback { result } => self.callback(result),
            Call::send_request { .. } => Err(Error::BadOrigin),
        }
    }
}

/// What `send_encoded_request` does with the payload `parameters`: it is
/// refused where it is too long, and otherwise a request for the fee of a
/// hundred is made, whose action takes an answer and holds none yet.
pub open spec fn sent<E: Escrow>(
    before: State<Call>,
    after: State<Call>,
    escrow_before: E,
    escrow_after: E,
    who: AccountId,
    operator: AccountId,
    spec_id: Vec<u8>,
    parameters: Seq<u8>,
    now: BlockNumber,
    outcome: Result<Event, Error>,
) -> bool {
    if parameters.len() > before.config.max_request_len {
        &&& outcome == Err::<Event, Error>(Error::EncodingFailed)
        &&& after == before
        &&& same_balances(escrow_before.ledger(), escrow_after.ledger())
    } else {
        match outcome {
            Ok(event) => {
                &&& before.initiate_decision(escrow_before, who, operator, FEE) is Ok
                &&& event matches Event::OracleRequest(
                    to,
                    index,
                    id,
                    from,
                    version,
                    payload,
                    tag,
                    fee,
                )
                &&& to == operator
                &&& index == spec_id
                &&& id == before.next_request_identifier
                &&& from == who
                &&& version == DATA_VERSION
                &&& payload@ == parameters
                &&& tag == CALLBACK_NAME
                &&& fee == FEE
                &&& after.requests.contains_key(id)
                &&& after.requests[id].callback matches Call::callback { result: answer }
                &&& answer@.len() == 0
                &&& after == before.after_initiate(
                    who,
                    operator,
                    FEE,
                    after.requests[id].callback,
                    now,
                )
                &&& moved_to_reserve(escrow_before.ledger(), escrow_after.ledger(), who, FEE)
            },
            Err(error) => {
                &&& error matches Error::Chainlink(refusal)
                &&& before.initiate_decision(escrow_before, who, operator, FEE) == Err::<
                    (),
                    crate::types::Error,
                >(refusal)
                &&& after == before
                &&& same_balances(escrow_before.ledger(), escrow_after.ledger())
            },
        }
    }
}

} // verus!

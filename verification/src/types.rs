//! Plain data of the protocol: identities, amounts, errors and notifications.

use crate::escrow::EscrowError;
use vstd::prelude::*;

verus! {

/// Identity of an account.
pub type AccountId = u64;

/// An amount of currency.
pub type Balance = u128;

/// A ledger height, the unit in which validity periods are measured.
pub type BlockNumber = u64;

/// Identifies a pending request.
pub type RequestIdentifier = u64;

/// The version of the serialized data format of a request's payload.
pub type DataVersion = u64;

/// The protocol tag announced with every request: the entry point that the
/// operator is expected to reply to, `Chainlink.callback` in ASCII.
pub const CALLBACK_NAME: [u8; 18] = [
    67, 104, 97, 105, 110, 108, 105, 110, 107, 46, 99, 97, 108, 108, 98, 97, 99, 107,
];

/// Why an operation of the protocol was refused.
#[derive(Debug, Clone, Copy, PartialEq, Eq)]
pub enum Error {
    /// The account is not a registered operator.
    UnknownOperator,
    /// No pending request has this identifier.
    UnknownRequest,
    /// The caller is not the operator that the request designates.
    WrongOperator,
    /// The account is a registered operator already.
    OperatorAlreadyRegistered,
    /// The stored action does not take a result.
    UnknownCallback,
    /// The fee offered is zero.
    InsufficientFee,
    /// The request cannot be stored: the list of actions has no room for
    /// one, or the identifier it would get is still pending.
    TooManyRequests,
    /// The escrow refused to move the fee; its error is handed on as it came.
    Escrow(EscrowError),
}

/// A notification of something that happened.
#[derive(Debug, Clone, PartialEq, Eq)]
pub enum Event {
    /// A request was accepted and its fee reserved. The fields are the
    /// operator, the specification index, the request's identifier, the
    /// requester, the data version, the payload, the protocol tag and the fee.
    OracleRequest(
        AccountId,
        Vec<u8>,
        RequestIdentifier,
        AccountId,
        DataVersion,
        Vec<u8>,
        [u8; 18],
        Balance,
    ),
    /// A request was answered and its fee paid out. The fields are the
    /// operator, the request's identifier, the requester, the result and the
    /// fee.
    OracleAnswer(AccountId, RequestIdentifier, AccountId, Vec<u8>, Balance),
    /// An operator was registered.
    OperatorRegistered(AccountId),
    /// An operator was unregistered.
    OperatorUnregistered(AccountId),
    /// A request got no answer in time and was removed.
    KillRequest(RequestIdentifier),
}

/// The limits that a deployment chooses.
#[derive(Debug, Clone, Copy, PartialEq, Eq)]
pub struct Config {
    /// Number of periods after its creation during which a request can still
    /// be answered.
    pub validity_period: BlockNumber,
    /// Longest payload of a request, in bytes.
    pub max_request_len: u32,
    /// Number of actions that one request can hold.
    pub max_requests: u32,
    /// Longest result of an operator, in bytes.
    pub max_result_len: u32,
    /// Longest specification index, in bytes.
    pub max_spec_index_len: u32,
}

/// One outstanding oracle job.
#[derive(Debug, Clone, PartialEq, Eq)]
pub struct Request<C> {
    /// The identifier under which the job is pending.
    pub id: RequestIdentifier,
    /// Who asked, and whose fee is reserved.
    pub requester: AccountId,
    /// Who alone may answer.
    pub operator: AccountId,
    /// The action to complete with the answer.
    pub callback: C,
    /// The ledger height at which the job was created.
    pub created_at: BlockNumber,
    /// The amount reserved from the requester, owed to the operator.
    pub fee: Balance,
}

impl<C> Request<C> {
    /// Whether the job's validity window has elapsed at height `now`.
    pub open spec fn expired_at(self, now: BlockNumber, validity_period: BlockNumber) -> bool {
        now > self.created_at + validity_period
    }

    /// Decides whether the job's validity window has elapsed at height `now`.
    pub fn is_expired(&self, now: BlockNumber, validity_period: BlockNumber) -> (expired: bool)
        ensures
            expired == self.expired_at(now, validity_period),
    {
        now > self.created_at && now - self.created_at > validity_period
    }
}

} // verus!

//! An oracle request/response protocol.
//!
//! A requester asks a registered operator for external data and escrows a
//! fee. Only the designated operator's reply releases the fee and yields the
//! requester's callback action, completed with the operator's result, for
//! privileged dispatch. Requests that outlive their validity window are swept
//! away at the end of each period.

pub mod deposits;
pub mod dispatch;
pub mod escrow;
pub mod example;
pub mod feed;
pub mod guarantees;
pub mod operators;
pub mod pallet;
pub mod requests;
pub mod scale;
pub mod types;
pub mod weights;

pub use deposits::deposit;
pub use dispatch::CallbackWithParameter;
pub use escrow::{Balances, Escrow, EscrowError};
pub use operators::OperatorRegistry;
pub use pallet::{Pallet, RootDispatch, State};
pub use requests::RequestLedger;
pub use types::{
    AccountId, Balance, BlockNumber, Config, DataVersion, Error, Event, Request,
    RequestIdentifier, CALLBACK_NAME,
};

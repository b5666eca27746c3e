//! The escrow capability: earmarking funds and paying them out.
//!
//! The protocol moves no money itself. It asks an [`Escrow`] to reserve a
//! fee, or to pay it out of the reserve to another account. [`Balances`] is an escrow held in memory.

use crate::types::{AccountId, Balance};
use std::collections::HashMap;
use vstd::prelude::*;

verus! {

broadcast use vstd::std_specs::hash::group_hash_axioms;

/// Why an escrow refused to move funds.
#[derive(Debug, Clone, Copy, PartialEq, Eq)]
pub enum EscrowError {
    /// The free balance does not cover the amount.
    InsufficientBalance,
    /// The reserve does not hold the amount.
    InsufficientReserve,
    /// The receiving balance cannot hold the amount.
    Overflow,
}

/// The free and the reserved funds of one account.
#[derive(Debug, Clone, Copy, PartialEq, Eq)]
pub struct Account {
    /// Funds that the owner can spend.
    pub free: Balance,
    /// Funds earmarked against pending requests.
    pub reserved: Balance,
}

/// `post` holds what `pre` holds, account by account.
pub open spec fn same_balances(
    pre: spec_fn(AccountId) -> Account,
    post: spec_fn(AccountId) -> Account,
) -> bool {
    forall|a: AccountId| #[trigger] post(a) == pre(a)
}

/// `post` is `pre` after `amount` went from the free balance of `who` to its
/// reserve; every other account is as it was.
pub open spec fn moved_to_reserve(
    pre: spec_fn(AccountId) -> Account,
    post: spec_fn(AccountId) -> Account,
    who: AccountId,
    amount: Balance,
) -> bool {
    forall|a: AccountId|
        {
            let moved: int = if a == who {
                amount as int
            } else {
                0
            };
            (#[trigger] post(a)).free == pre(a).free - moved && post(a).reserved == pre(a).reserved
                + moved
        }
}

/// `post` is `pre` after `amount` went from the reserve of `slashed` to the
/// free balance of `beneficiary`; every other balance is as it was.
pub open spec fn repatriated(
    pre: spec_fn(AccountId) -> Account,
    post: spec_fn(AccountId) -> Account,
    slashed: AccountId,
    beneficiary: AccountId,
    amount: Balance,
) -> bool {
    forall|a: AccountId|
        {
            let taken: int = if a == slashed {
                amount as int
            } else {
                0
            };
            let given: int = if a == beneficiary {
                amount as int
            } else {
                0
            };
            (#[trigger] post(a)).free == pre(a).free + given && post(a).reserved == pre(a).reserved
                - taken
        }
}

/// Reserving and repatriating funds between accounts.
///
/// An escrow decides by itself when it refuses; `reserve_outcome` and
/// `repatriate_outcome` name its decision. What it must keep to is that an
/// accepted move is carried out in full and a refused one changes nothing.
/// An implementation says what `ledger` and the two outcomes are; of one
/// that does not, nothing is known.
pub trait Escrow: Sized {
    /// What each account holds.
    open spec fn ledger(&self) -> spec_fn(AccountId) -> Account {
        arbitrary()
    }

    /// What `reserve` answers in this state.
    open spec fn reserve_outcome(&self, who: AccountId, amount: Balance) -> Result<(), EscrowError> {
        arbitrary()
    }

    /// What `repatriate_reserved` answers in this state.
    open spec fn repatriate_outcome(
        &self,
        slashed: AccountId,
        beneficiary: AccountId,
        amount: Balance,
    ) -> Result<(), EscrowError> {
        arbitrary()
    }

    /// Whether `reserve` would move `amount` now; nothing is moved.
    fn can_reserve(&self, who: AccountId, amount: Balance) -> (outcome: Result<(), EscrowError>)
        ensures
            outcome == self.reserve_outcome(who, amount),
    ;

    /// Whether `repatriate_reserved` would move `amount` now; nothing is
    /// moved.
    fn can_repatriate(&self, slashed: AccountId, beneficiary: AccountId, amount: Balance) -> (outcome:
        Result<(), EscrowError>)
        ensures
            outcome == self.repatriate_outcome(slashed, beneficiary, amount),
    ;

    /// Moves `amount` from the free balance of `who` to its reserve, or
    /// refuses and moves nothing.
    fn reserve(&mut self, who: AccountId, amount: Balance) -> (outcome: Result<(), EscrowError>)
        ensures
            outcome == old(self).reserve_outcome(who, amount),
            outcome is Ok ==> moved_to_reserve(old(self).ledger(), final(self).ledger(), who, amount),
            outcome is Err ==> same_balances(old(self).ledger(), final(self).ledger()),
    ;

    /// Moves `amount` from the reserve of `slashed` to the free balance of
    /// `beneficiary`, or refuses and moves nothing.
    fn repatriate_reserved(
        &mut self,
        slashed: AccountId,
        beneficiary: AccountId,
        amount: Balance,
    ) -> (outcome: Result<(), EscrowError>)
        ensures
            outcome == old(self).repatriate_outcome(slashed, beneficiary, amount),
            outcome is Ok ==> repatriated(
                old(self).ledger(),
                final(self).ledger(),
                slashed,
                beneficiary,
                amount,
            ),
            outcome is Err ==> same_balances(old(self).ledger(), final(self).ledger()),
    ;
}

/// An escrow that keeps its accounts in memory. An account that was never
/// touched holds nothing.
pub struct Balances {
    accounts: HashMap<AccountId, Account>,
}

impl View for Balances {
    type V = Map<AccountId, Account>;

    closed spec fn view(&self) -> Map<AccountId, Account> {
        self.accounts@
    }
}

impl Balances {
    /// What the account of `who` holds.
    pub open spec fn account_of(&self, who: AccountId) -> Account {
        if self@.contains_key(who) {
            self@[who]
        } else {
            Account { free: 0, reserved: 0 }
        }
    }

    /// An escrow in which every account is empty.
    pub fn new() -> (balances: Balances)
        ensures
            balances@ == Map::<AccountId, Account>::empty(),
    {
        Balances { accounts: HashMap::new() }
    }

    /// Reads the account of `who`.
    pub fn account(&self, who: AccountId) -> (account: Account)
        ensures
            account == self.account_of(who),
    {
        match self.accounts.get(&who) {
            Some(account) => *account,
            None => Account { free: 0, reserved: 0 },
        }
    }

    /// Sets the free balance of `who` to `amount` and leaves its reserve.
    pub fn set_free_balance(&mut self, who: AccountId, amount: Balance)
        ensures
            final(self)@ == old(self)@.insert(
                who,
                Account { free: amount, reserved: old(self).account_of(who).reserved },
            ),
    {
        let account = self.account(who);
        self.accounts.insert(who, Account { free: amount, reserved: account.reserved });
    }
}

impl Escrow for Balances {
    open spec fn ledger(&self) -> spec_fn(AccountId) -> Account {
        |who: AccountId| self.account_of(who)
    }

    open spec fn reserve_outcome(&self, who: AccountId, amount: Balance) -> Result<
        (),
        EscrowError,
    > {
        if self.account_of(who).free < amount {
            Err(EscrowError::InsufficientBalance)
        } else if self.account_of(who).reserved + amount > Balance::MAX {
            Err(EscrowError::Overflow)
        } else {
            Ok(())
        }
    }

    open spec fn repatriate_outcome(
        &self,
        slashed: AccountId,
        beneficiary: AccountId,
        amount: Balance,
    ) -> Result<(), EscrowError> {
        if self.account_of(slashed).reserved < amount {
            Err(EscrowError::InsufficientReserve)
        } else if self.account_of(beneficiary).free + amount > Balance::MAX {
            Err(EscrowError::Overflow)
        } else {
            Ok(())
        }
    }

    fn can_reserve(&self, who: AccountId, amount: Balance) -> (outcome: Result<(), EscrowError>) {
        let account = self.account(who);
        if account.free < amount {
            Err(EscrowError::InsufficientBalance)
        } else if amount > Balance::MAX - account.reserved {
            Err(EscrowError::Overflow)
        } else {
            Ok(())
        }
    }

    fn can_repatriate(&self, slashed: AccountId, beneficiary: AccountId, amount: Balance) -> (outcome:
        Result<(), EscrowError>) {
        if self.account(slashed).reserved < amount {
            Err(EscrowError::InsufficientReserve)
        } else if amount > Balance::MAX - self.account(beneficiary).free {
            Err(EscrowError::Overflow)
        } else {
            Ok(())
        }
    }

    fn reserve(&mut self, who: AccountId, amount: Balance) -> (outcome: Result<(), EscrowError>) {
        match self.can_reserve(who, amount) {
            Err(refusal) => {
                return Err(refusal);
            },
            Ok(_) => {},
        }
        let account = self.account(who);
        self.accounts.insert(
            who,
            Account { free: account.free - amount, reserved: account.reserved + amount },
        );
        Ok(())
    }

    fn repatriate_reserved(
        &mut self,
        slashed: AccountId,
        beneficiary: AccountId,
        amount: Balance,
    ) -> (outcome: Result<(), EscrowError>) {
        match self.can_repatriate(slashed, beneficiary, amount) {
            Err(refusal) => {
                return Err(refusal);
            },
            Ok(_) => {},
        }
        let from = self.account(slashed);
        self.accounts.insert(slashed, Account { free: from.free, reserved: from.reserved - amount });
        let to = self.account(beneficiary);
        self.accounts.insert(beneficiary, Account { free: to.free + amount, reserved: to.reserved });
        Ok(())
    }
}

} // verus!

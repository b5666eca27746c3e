//! The registry of operators: the accounts that may answer requests.

use crate::types::{AccountId, Error, Event};
use std::collections::BTreeSet;
use vstd::std_specs::iter::IteratorSpec;
use vstd::prelude::*;

verus! {

broadcast use vstd::std_specs::btree::group_btree_axioms;

/// The set of registered operators. An account is a member or it is not:
/// nothing else is kept of it.
pub struct OperatorRegistry {
    members: BTreeSet<AccountId>,
}

impl View for OperatorRegistry {
    type V = Set<AccountId>;

    closed spec fn view(&self) -> Set<AccountId> {
        self.members@
    }
}

impl OperatorRegistry {
    /// A registry without members.
    pub fn new() -> (registry: OperatorRegistry)
        ensures
            registry@ == Set::<AccountId>::empty(),
    {
        OperatorRegistry { members: BTreeSet::new() }
    }

    /// Whether `account` is a registered operator.
    pub fn is_registered(&self, account: AccountId) -> (registered: bool)
        ensures
            registered == self@.contains(account),
    {
        self.members.contains(&account)
    }

    /// The operators, each once, in the order of their identities.
    pub fn members(&self) -> (members: Vec<AccountId>)
        ensures
            members@.no_duplicates(),
            members@.to_set() == self@,
    {
        let mut members: Vec<AccountId> = Vec::new();
        let ghost all = vstd::std_specs::btree::spec_btree_keys_iter(&self.members).remaining();
        proof {
            vstd::std_specs::btree::axiom_spec_btree_keys_iter(&self.members);
        }
        for account in walk: self.members.iter()
            invariant
                walk.seq() == all,
                all.unref().to_set() == self@,
                all.no_duplicates(),
                members@.len() == walk.index(),
                forall|k: int| 0 <= k < members@.len() ==> #[trigger] members@[k] == *all[k],
        {
            members.push(*account);
        }
        proof {
            assert(members@ =~= all.unref());
            assert forall|a: int, b: int|
                0 <= a < members@.len() && 0 <= b < members@.len() && a != b implies members@[a]
                != members@[b] by {
                assert(all[a] != all[b]);
            }
        }
        members
    }

    /// Makes `account` an operator, unless it is one already.
    pub fn register(&mut self, account: AccountId) -> (outcome: Result<Event, Error>)
        ensures
            old(self)@.contains(account) ==> outcome == Err::<Event, Error>(
                Error::OperatorAlreadyRegistered,
            ) && final(self)@ == old(self)@,
            !old(self)@.contains(account) ==> outcome == Ok::<Event, Error>(
                Event::OperatorRegistered(account),
            ) && final(self)@ == old(self)@.insert(account),
    {
        if self.members.contains(&account) {
            return Err(Error::OperatorAlreadyRegistered);
        }
        self.members.insert(account);
        Ok(Event::OperatorRegistered(account))
    }

    /// Takes `account` out of the operators, if it is one.
    pub fn unregister(&mut self, account: AccountId) -> (outcome: Result<Event, Error>)
        ensures
            old(self)@.contains(account) ==> outcome == Ok::<Event, Error>(
                Event::OperatorUnregistered(account),
            ) && final(self)@ == old(self)@.remove(account),
            !old(self)@.contains(account) ==> outcome == Err::<Event, Error>(
                Error::UnknownOperator,
            ) && final(self)@ == old(self)@,
    {
        if self.members.remove(&account) {
            Ok(Event::OperatorUnregistered(account))
        } else {
            Err(Error::UnknownOperator)
        }
    }
}

} // verus!

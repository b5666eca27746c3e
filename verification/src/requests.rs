//! The ledger of pending requests.

use crate::types::{BlockNumber, Request, RequestIdentifier};
use std::collections::BTreeMap;
use vstd::prelude::*;
use vstd::std_specs::iter::IteratorSpec;

verus! {

broadcast use vstd::std_specs::btree::group_btree_axioms;

/// The identifiers of the requests in `pending` whose validity window has
/// elapsed at height `now`.
pub open spec fn expired_ids<C>(
    pending: Map<RequestIdentifier, Request<C>>,
    now: BlockNumber,
    validity_period: BlockNumber,
) -> Set<RequestIdentifier> {
    Set::new(
        |id: RequestIdentifier|
            pending.contains_key(id) && pending[id].expired_at(now, validity_period),
    )
}

/// One of the first `n` identifiers of `all` is `id`.
pub open spec fn among(all: Seq<&RequestIdentifier>, n: int, id: RequestIdentifier) -> bool {
    exists|j: int| 0 <= j < n && *#[trigger] all[j] == id
}

/// The pending requests, each under its identifier. They are walked in the
/// order of their identifiers, which is the same wherever the ledger runs.
pub struct RequestLedger<C> {
    entries: BTreeMap<RequestIdentifier, Request<C>>,
}

impl<C> View for RequestLedger<C> {
    type V = Map<RequestIdentifier, Request<C>>;

    closed spec fn view(&self) -> Map<RequestIdentifier, Request<C>> {
        self.entries@
    }
}

impl<C> RequestLedger<C> {
    /// Every request is kept under the identifier that it carries.
    pub closed spec fn wf(&self) -> bool {
        forall|id: RequestIdentifier|
            self.entries@.contains_key(id) ==> (#[trigger] self.entries@[id]).id == id
    }

    /// Every pending request is kept under the identifier that it carries.
    pub proof fn lemma_keyed_by_id(&self)
        requires
            self.wf(),
        ensures
            forall|id: RequestIdentifier|
                self@.contains_key(id) ==> (#[trigger] self@[id]).id == id,
    {
    }

    /// A ledger without requests.
    pub fn new() -> (ledger: RequestLedger<C>)
        ensures
            ledger.wf(),
            ledger@ == Map::<RequestIdentifier, Request<C>>::empty(),
    {
        RequestLedger { entries: BTreeMap::new() }
    }

    /// Whether a request is pending under `id`.
    pub fn contains(&self, id: RequestIdentifier) -> (pending: bool)
        requires
            self.wf(),
        ensures
            pending == self@.contains_key(id),
    {
        self.entries.contains_key(&id)
    }

    /// The request pending under `id`, if there is one.
    pub fn lookup(&self, id: RequestIdentifier) -> (found: Option<&Request<C>>)
        requires
            self.wf(),
        ensures
            match found {
                Some(request) => self@.contains_key(id) && *request == self@[id],
                None => !self@.contains_key(id),
            },
    {
        self.entries.get(&id)
    }

    /// Files `request` under its identifier, or hands it back where that
    /// identifier is pending already.
    pub fn insert(&mut self, request: Request<C>) -> (outcome: Result<(), Request<C>>)
        requires
            old(self).wf(),
        ensures
            final(self).wf(),
            old(self)@.contains_key(request.id) ==> outcome == Err::<(), Request<C>>(request)
                && final(self)@ == old(self)@,
            !old(self)@.contains_key(request.id) ==> outcome is Ok && final(self)@ == old(
                self,
            )@.insert(request.id, request),
    {
        if self.entries.contains_key(&request.id) {
            return Err(request);
        }
        self.entries.insert(request.id, request);
        Ok(())
    }

    /// Takes the request pending under `id` out of the ledger.
    pub fn remove(&mut self, id: RequestIdentifier) -> (taken: Option<Request<C>>)
        requires
            old(self).wf(),
        ensures
            final(self).wf(),
            match taken {
                Some(request) => old(self)@.contains_key(id) && request == old(self)@[id]
                    && final(self)@ == old(self)@.remove(id),
                None => !old(self)@.contains_key(id) && final(self)@ == old(self)@,
            },
    {
        self.entries.remove(&id)
    }

    /// The identifiers that are pending, each once, in ascending order.
    pub fn ids(&self) -> (ids: Vec<RequestIdentifier>)
        ensures
            ids@.no_duplicates(),
            ids@.to_set() == self@.dom(),
    {
        let mut ids: Vec<RequestIdentifier> = Vec::new();
        let ghost all = vstd::std_specs::btree::spec_keys_iter(&self.entries).remaining();
        proof {
            vstd::std_specs::btree::axiom_spec_keys_iter(&self.entries);
        }
        for id in keys: self.entries.keys()
            invariant
                keys.seq() == all,
                all.unref().to_set() == self@.dom(),
                all.no_duplicates(),
                ids@.len() == keys.index(),
                forall|k: int| 0 <= k < ids@.len() ==> #[trigger] ids@[k] == *all[k],
        {
            ids.push(*id);
        }
        proof {
            assert(ids@ =~= all.unref());
            assert forall|a: int, b: int|
                0 <= a < ids@.len() && 0 <= b < ids@.len() && a != b implies ids@[a] != ids@[b] by {
                assert(all[a] != all[b]);
            }
        }
        ids
    }

    /// The pending requests, each once, in the order of their identifiers.
    pub fn requests(&self) -> (pending: Vec<&Request<C>>)
        requires
            self.wf(),
        ensures
            forall|k: int|
                0 <= k < pending@.len() ==> self@.contains_key((#[trigger] pending@[k]).id)
                    && self@[pending@[k].id] == *pending@[k],
            forall|a: int, b: int|
                0 <= a < pending@.len() && 0 <= b < pending@.len() && a != b ==> pending@[a].id
                    != pending@[b].id,
            forall|id: RequestIdentifier|
                self@.contains_key(id) ==> exists|k: int|
                    0 <= k < pending@.len() && (#[trigger] pending@[k]).id == id,
    {
        let ids = self.ids();
        let mut pending: Vec<&Request<C>> = Vec::new();
        let mut i: usize = 0;
        while i < ids.len()
            invariant
                self.wf(),
                i <= ids@.len(),
                ids@.no_duplicates(),
                ids@.to_set() == self@.dom(),
                pending@.len() == i,
                forall|k: int|
                    0 <= k < i ==> (#[trigger] pending@[k]).id == ids@[k] && self@.contains_key(
                        ids@[k],
                    ) && self@[ids@[k]] == *pending@[k],
            decreases ids@.len() - i,
        {
            proof {
                assert(ids@.to_set().contains(ids@[i as int]));
            }
            match self.entries.get(&ids[i]) {
                Some(request) => {
                    let ghost listed = pending@;
                    pending.push(request);
                    proof {
                        assert(self.entries@[ids@[i as int]].id == ids@[i as int]);
                        assert forall|k: int| 0 <= k < i + 1 implies (#[trigger] pending@[k]).id
                            == ids@[k] && self@.contains_key(ids@[k]) && self@[ids@[k]]
                            == *pending@[k] by {
                            if k < i {
                                assert(pending@[k] == listed[k]);
                            }
                        }
                    }
                },
                None => {},
            }
            i += 1;
        }
        proof {
            assert forall|id: RequestIdentifier| self@.contains_key(id) implies exists|k: int|
                0 <= k < pending@.len() && (#[trigger] pending@[k]).id == id by {
                assert(ids@.to_set().contains(id));
                let j = choose|j: int| 0 <= j < ids@.len() && ids@[j] == id;
                assert(pending@[j].id == id);
            }
        }
        pending
    }

    /// The identifiers of the requests whose validity window has elapsed at
    /// height `now`, each once.
    pub fn expired(&self, now: BlockNumber, validity_period: BlockNumber) -> (ids: Vec<
        RequestIdentifier,
    >)
        ensures
            ids@.no_duplicates(),
            ids@.to_set() == expired_ids(self@, now, validity_period),
    {
        let mut ids: Vec<RequestIdentifier> = Vec::new();
        let ghost all = vstd::std_specs::btree::spec_keys_iter(&self.entries).remaining();
        proof {
            vstd::std_specs::btree::axiom_spec_keys_iter(&self.entries);
        }
        for id in keys: self.entries.keys()
            invariant
                keys.seq() == all,
                all.unref().to_set() == self@.dom(),
                all.no_duplicates(),
                forall|k: int|
                    0 <= k < ids@.len() ==> self@.contains_key(#[trigger] ids@[k])
                        && self@[ids@[k]].expired_at(now, validity_period),
                forall|k: int| 0 <= k < ids@.len() ==> among(all, keys.index(), #[trigger] ids@[k]),
                forall|j: int|
                    0 <= j < keys.index() && self@[*#[trigger] all[j]].expired_at(
                        now,
                        validity_period,
                    ) ==> ids@.contains(*all[j]),
                ids@.no_duplicates(),
        {
            let ghost listed = ids@;
            let ghost at = keys.index();
            match self.entries.get(id) {
                Some(request) => {
                    if request.is_expired(now, validity_period) {
                        ids.push(*id);
                        proof {
                            assert(ids@ == listed.push(*id));
                            assert forall|k: int| 0 <= k < ids@.len() implies among(
                                all,
                                at + 1,
                                #[trigger] ids@[k],
                            ) by {
                                if k < listed.len() {
                                    assert(among(all, at, listed[k]));
                                    let j = choose|j: int|
                                        0 <= j < at && *#[trigger] all[j] == listed[k];
                                    assert(*all[j] == ids@[k]);
                                } else {
                                    assert(*all[at] == ids@[k]);
                                }
                            }
                            assert forall|j: int|
                                0 <= j < at + 1 && self@[*#[trigger] all[j]].expired_at(
                                    now,
                                    validity_period,
                                ) implies ids@.contains(*all[j]) by {
                                if j < at {
                                    let k = choose|k: int|
                                        0 <= k < listed.len() && listed[k] == *all[j];
                                    assert(ids@[k] == *all[j]);
                                } else {
                                    assert(ids@[listed.len() as int] == *all[j]);
                                }
                            }
                            assert forall|a: int, b: int|
                                0 <= a < ids@.len() && 0 <= b < ids@.len() && a != b implies ids@[a]
                                != ids@[b] by {
                                if a < listed.len() && b < listed.len() {
                                    assert(listed[a] != listed[b]);
                                } else if a < listed.len() {
                                    assert(among(all, at, listed[a]));
                                    let j = choose|j: int|
                                        0 <= j < at && *#[trigger] all[j] == listed[a];
                                    assert(all[j] != all[at]);
                                } else {
                                    assert(among(all, at, listed[b]));
                                    let j = choose|j: int|
                                        0 <= j < at && *#[trigger] all[j] == listed[b];
                                    assert(all[j] != all[at]);
                                }
                            }
                        }
                    }
                },
                None => {
                    proof {
                        assert(all.unref()[at] == *id);
                        assert(all.unref().to_set().contains(*id));
                    }
                },
            }
        }
        proof {
            let gone = expired_ids(self@, now, validity_period);
            assert forall|id: RequestIdentifier| gone.contains(id) implies ids@.contains(id) by {
                assert(all.unref().to_set().contains(id));
                let j = choose|j: int| 0 <= j < all.unref().len() && all.unref()[j] == id;
                assert(*all[j] == id);
            }
            assert forall|id: RequestIdentifier| ids@.contains(id) implies gone.contains(id) by {
                let k = choose|k: int| 0 <= k < ids@.len() && ids@[k] == id;
                assert(self@.contains_key(ids@[k]));
            }
            assert(ids@.to_set() =~= gone);
        }
        ids
    }

    /// Removes every request whose validity window has elapsed at height
    /// `now`, and returns the identifiers of those it removed, each once.
    pub fn sweep(&mut self, now: BlockNumber, validity_period: BlockNumber) -> (killed: Vec<
        RequestIdentifier,
    >)
        requires
            old(self).wf(),
        ensures
            final(self).wf(),
            final(self)@ == old(self)@.remove_keys(expired_ids(old(self)@, now, validity_period)),
            killed@.no_duplicates(),
            killed@.to_set() == expired_ids(old(self)@, now, validity_period),
    {
        let ghost before = self@;
        let killed = self.expired(now, validity_period);
        let mut i: usize = 0;
        while i < killed.len()
            invariant
                self.wf(),
                i <= killed@.len(),
                self@ == before.remove_keys(killed@.take(i as int).to_set()),
            decreases killed@.len() - i,
        {
            let ghost pending = self@;
            self.entries.remove(&killed[i]);
            proof {
                let done = killed@.take(i as int);
                let more = killed@.take(i + 1);
                assert(more == done.push(killed@[i as int]));
                assert forall|id: RequestIdentifier| more.to_set().contains(id) <==> done.to_set().contains(
                    id,
                ) || id == killed@[i as int] by {
                    if more.to_set().contains(id) {
                        let k = choose|k: int| 0 <= k < more.len() && more[k] == id;
                        if k < done.len() {
                            assert(done[k] == id);
                        }
                    }
                    if done.to_set().contains(id) {
                        let k = choose|k: int| 0 <= k < done.len() && done[k] == id;
                        assert(more[k] == id);
                    }
                    if id == killed@[i as int] {
                        assert(more[i as int] == id);
                    }
                }
                assert(self@ =~= before.remove_keys(more.to_set()));
            }
            i += 1;
        }
        proof {
            assert(killed@.take(killed@.len() as int) == killed@);
        }
        killed
    }
}

} // verus!

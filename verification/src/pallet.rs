//! The ledger as an executable object, and its storage: what is read from it
//! and written to it, one entry at a time. Writing single entries can leave
//! registry and owner index at odds; the operations of the ledger do not.

use crate::laws::law_genesis_is_consistent;
use crate::model::Ledger;
use crate::owned::{list_as_vec, list_clone, list_new, list_try_push, owned_ids, MAX_OWNED};
use crate::registry::Registry;
use crate::types::{AccountId, Dna, Error, Event, Kitty};
use frame_support::traits::ConstU32;
use frame_support::BoundedVec;
use std::collections::HashMap;
use vstd::prelude::*;

verus! {

broadcast use vstd::std_specs::hash::group_hash_axioms;

/// The ledger: a counter, the registry of kitties, the owner index and the
/// events reported so far.
pub struct Pallet {
    count: u32,
    kitties: Registry,
    owned: HashMap<AccountId, BoundedVec<Dna, ConstU32<MAX_OWNED>>>,
    events: Vec<Event>,
}

/// The owner index that a map of lists stands for.
spec fn index(owned: Map<AccountId, BoundedVec<Dna, ConstU32<MAX_OWNED>>>) -> Map<
    AccountId,
    Seq<Dna>,
> {
    Map::new(|who: AccountId| owned.contains_key(who), |who: AccountId| owned_ids(owned[who]))
}

impl View for Pallet {
    type V = Ledger;

    closed spec fn view(&self) -> Ledger {
        Ledger {
            count: self.count,
            kitties: self.kitties@,
            owned: index(self.owned@),
            events: self.events@,
        }
    }
}

impl Pallet {
    /// A ledger in which nothing was minted yet.
    pub fn new() -> (pallet: Pallet)
        ensures
            pallet@ == Ledger::genesis(),
            pallet@.consistent(),
    {
        proof {
            law_genesis_is_consistent();
        }
        let pallet = Pallet {
            count: 0,
            kitties: Registry::new(),
            owned: HashMap::new(),
            events: Vec::new(),
        };
        assert(pallet@.owned =~= Map::empty());
        pallet
    }

    /// How many kitties were ever minted.
    pub fn count_for_kitties(&self) -> (count: u32)
        ensures
            count == self@.count,
    {
        self.count
    }

    /// Sets the counter of kitties.
    pub fn set_count_for_kitties(&mut self, count: u32)
        ensures
            final(self)@ == old(self)@.with_count(count),
    {
        self.count = count;
    }

    /// The kitty of identity `id`, if the registry holds one.
    pub fn kitties(&self, id: &Dna) -> (kitty: Option<Kitty>)
        ensures
            kitty == self@.kitty(*id),
            kitty matches Some(k) ==> k.dna == *id,
    {
        self.kitties.get(id)
    }

    /// Stores `kitty` in the registry under its identity, in place of the
    /// kitty that was stored under it, if there was one.
    pub fn insert_kitty(&mut self, kitty: Kitty)
        ensures
            final(self)@ == old(self)@.with_kitty(kitty),
    {
        self.kitties.insert(kitty);
    }

    /// The list of the kitties that `who` owns, as the owner index holds it.
    pub(crate) fn owned_list(&self, who: AccountId) -> (list: BoundedVec<Dna, ConstU32<MAX_OWNED>>)
        ensures
            owned_ids(list) == self@.owned_by(who),
    {
        match self.owned.get(&who) {
            Some(list) => list_clone(list),
            None => list_new(),
        }
    }

    /// Stores `list` in the owner index as the kitties that `who` owns.
    pub(crate) fn insert_owned_list(
        &mut self,
        who: AccountId,
        list: BoundedVec<Dna, ConstU32<MAX_OWNED>>,
    )
        ensures
            final(self)@ == old(self)@.with_owned(who, owned_ids(list)),
    {
        let ghost ids = owned_ids(list);
        self.owned.insert(who, list);
        assert(final(self)@.owned =~= old(self)@.owned.insert(who, ids));
    }

    /// The identities of the kitties that `who` owns, in the order in which
    /// the owner index holds them.
    pub fn kitties_owned(&self, who: AccountId) -> (ids: Vec<Dna>)
        ensures
            ids@ == self@.owned_by(who),
    {
        let list = self.owned_list(who);
        let held = list_as_vec(&list);
        let mut ids: Vec<Dna> = Vec::new();
        let mut i: usize = 0;
        while i < held.len()
            invariant
                i <= held@.len(),
                ids@ == held@.take(i as int),
            decreases held@.len() - i,
        {
            ids.push(held[i]);
            assert(held@.take(i + 1) =~= held@.take(i as int).push(held@[i as int]));
            i += 1;
        }
        assert(held@.take(held@.len() as int) =~= held@);
        ids
    }

    /// Stores `ids` in the owner index as the kitties that `who` owns, unless
    /// they are more than an account can own.
    pub fn insert_kitties_owned(&mut self, who: AccountId, ids: &Vec<Dna>) -> (r: Result<(), Error>)
        ensures
            r == if ids@.len() <= MAX_OWNED {
                Ok(())
            } else {
                Err(Error::TooManyOwned)
            },
            final(self)@ == if ids@.len() <= MAX_OWNED {
                old(self)@.with_owned(who, ids@)
            } else {
                old(self)@
            },
    {
        let mut list = list_new();
        let mut i: usize = 0;
        while i < ids.len()
            invariant
                i <= ids@.len(),
                i <= MAX_OWNED,
                owned_ids(list) == ids@.take(i as int),
            decreases ids@.len() - i,
        {
            if list_try_push(&mut list, ids[i]).is_err() {
                return Err(Error::TooManyOwned);
            }
            assert(ids@.take(i + 1) =~= ids@.take(i as int).push(ids@[i as int]));
            i += 1;
        }
        assert(ids@.take(ids@.len() as int) =~= ids@);
        self.insert_owned_list(who, list);
        Ok(())
    }

    /// Reports `event`.
    pub(crate) fn deposit_event(&mut self, event: Event)
        ensures
            final(self)@ == old(self)@.with_event(event),
    {
        self.events.push(event);
    }

    /// The events reported so far, oldest first.
    pub fn events(&self) -> (events: &Vec<Event>)
        ensures
            events@ == self@.events,
    {
        &self.events
    }
}

} // verus!

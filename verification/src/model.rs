//! The mathematical model of the ledger, and what each operation does to it.

use crate::owned::MAX_OWNED;
use crate::types::{AccountId, Balance, Dna, Error, Event, Kitty, Payment};
use frame_support::sp_runtime::DispatchError;
use vstd::prelude::*;

verus! {

/// The ledger as a mathematical value.
#[verifier::ext_equal]
pub struct Ledger {
    /// How many kitties were ever minted.
    pub count: u32,
    /// The registry: each kitty under its identity.
    pub kitties: Map<Dna, Kitty>,
    /// The owner index: the identities that an account owns. An account
    /// without an entry owns nothing.
    pub owned: Map<AccountId, Seq<Dna>>,
    /// The events reported so far, oldest first.
    pub events: Seq<Event>,
}

/// Whether `i` is the first place at which `ids` holds `id`.
pub open spec fn first_at(ids: Seq<Dna>, id: Dna, i: int) -> bool {
    &&& 0 <= i < ids.len()
    &&& ids[i] == id
    &&& forall|j: int| 0 <= j < i ==> ids[j] != id
}

/// `ids` without its first `id`: the last identity takes the freed place.
pub open spec fn without_first(ids: Seq<Dna>, id: Dna) -> Seq<Dna> {
    let i = choose|i: int| first_at(ids, id, i);
    ids.update(i, ids.last()).drop_last()
}

impl Ledger {
    /// The ledger before anything was minted.
    pub open spec fn genesis() -> Ledger {
        Ledger { count: 0, kitties: Map::empty(), owned: Map::empty(), events: Seq::empty() }
    }

    /// The kitty of identity `id`, if the registry holds one.
    pub open spec fn kitty(self, id: Dna) -> Option<Kitty> {
        if self.kitties.contains_key(id) {
            Some(self.kitties[id])
        } else {
            None
        }
    }

    /// The identities that `who` owns.
    pub open spec fn owned_by(self, who: AccountId) -> Seq<Dna> {
        if self.owned.contains_key(who) {
            self.owned[who]
        } else {
            Seq::empty()
        }
    }

    /// The ledger with one more event reported.
    pub open spec fn with_event(self, event: Event) -> Ledger {
        Ledger { events: self.events.push(event), ..self }
    }

    /// The ledger with `kitty` stored under its identity.
    pub open spec fn with_kitty(self, kitty: Kitty) -> Ledger {
        Ledger { kitties: self.kitties.insert(kitty.dna, kitty), ..self }
    }

    /// The ledger with `ids` as the identities that `who` owns.
    pub open spec fn with_owned(self, who: AccountId, ids: Seq<Dna>) -> Ledger {
        Ledger { owned: self.owned.insert(who, ids), ..self }
    }

    /// The ledger with `count` as its counter.
    pub open spec fn with_count(self, count: u32) -> Ledger {
        Ledger { count, ..self }
    }

    /// Why `owner` cannot mint a kitty of identity `dna`, if anything stands against it.
    pub open spec fn mint_error(self, owner: AccountId, dna: Dna) -> Option<Error> {
        if self.kitties.contains_key(dna) {
            Some(Error::DuplicateKitty)
        } else if self.count == u32::MAX {
            Some(Error::TooManyKitties)
        } else if self.owned_by(owner).len() >= MAX_OWNED {
            Some(Error::TooManyOwned)
        } else {
            None
        }
    }

    /// The ledger after `owner` has minted a kitty of identity `dna`.
    pub open spec fn minted(self, owner: AccountId, dna: Dna) -> Ledger {
        Ledger {
            count: (self.count + 1) as u32,
            kitties: self.kitties.insert(dna, Kitty { dna, owner, price: None }),
            owned: self.owned.insert(owner, self.owned_by(owner).push(dna)),
            events: self.events.push(Event::Created { owner }),
        }
    }

    /// Minting: the ledger that results, and what the caller is told.
    pub open spec fn mint(self, owner: AccountId, dna: Dna) -> (Ledger, Result<(), Error>) {
        match self.mint_error(owner, dna) {
            Some(e) => (self, Err(e)),
            None => (self.minted(owner, dna), Ok(())),
        }
    }

    /// Why `from` cannot hand the kitty `id` to `to`, if anything stands against it.
    pub open spec fn transfer_error(self, from: AccountId, to: AccountId, id: Dna) -> Option<
        Error,
    > {
        if from == to {
            Some(Error::TransferToSelf)
        } else if !self.kitties.contains_key(id) {
            Some(Error::NoKitty)
        } else if self.kitties[id].owner != from {
            Some(Error::NotOwner)
        } else if self.owned_by(to).len() >= MAX_OWNED {
            Some(Error::TooManyOwned)
        } else if !self.owned_by(from).contains(id) {
            Some(Error::NoKitty)
        } else {
            None
        }
    }

    /// The ledger after `from` has handed the kitty `id` to `to`.
    pub open spec fn transferred(self, from: AccountId, to: AccountId, id: Dna) -> Ledger {
        Ledger {
            count: self.count,
            kitties: self.kitties.insert(id, Kitty { dna: id, owner: to, price: None }),
            owned: self.owned.insert(from, without_first(self.owned_by(from), id)).insert(
                to,
                self.owned_by(to).push(id),
            ),
            events: self.events.push(Event::Transferred { from, to, kitty_id: id }),
        }
    }

    /// A transfer: the ledger that results, and what the caller is told.
    pub open spec fn transfer(self, from: AccountId, to: AccountId, id: Dna) -> (
        Ledger,
        Result<(), Error>,
    ) {
        match self.transfer_error(from, to, id) {
            Some(e) => (self, Err(e)),
            None => (self.transferred(from, to, id), Ok(())),
        }
    }

    /// Why `owner` cannot set the price of the kitty `id`, if anything stands against it.
    pub open spec fn set_price_error(self, owner: AccountId, id: Dna) -> Option<Error> {
        if !self.kitties.contains_key(id) {
            Some(Error::NoKitty)
        } else if self.kitties[id].owner != owner {
            Some(Error::NotOwner)
        } else {
            None
        }
    }

    /// The ledger after `owner` has set the price of the kitty `id`.
    pub open spec fn price_set(
        self,
        owner: AccountId,
        id: Dna,
        new_price: Option<Balance>,
    ) -> Ledger {
        Ledger {
            count: self.count,
            kitties: self.kitties.insert(id, Kitty { dna: id, owner, price: new_price }),
            owned: self.owned,
            events: self.events.push(Event::PriceSet { owner, kitty_id: id, new_price }),
        }
    }

    /// Setting a price: the ledger that results, and what the caller is told.
    pub open spec fn set_price(self, owner: AccountId, id: Dna, new_price: Option<Balance>) -> (
        Ledger,
        Result<(), Error>,
    ) {
        match self.set_price_error(owner, id) {
            Some(e) => (self, Err(e)),
            None => (self.price_set(owner, id, new_price), Ok(())),
        }
    }

    /// What `buyer` has to pay for the kitty `id` when willing to pay up to
    /// `max_price`, or why there is nothing to pay.
    pub open spec fn purchase_order(self, buyer: AccountId, id: Dna, max_price: Balance) -> Result<
        Payment,
        Error,
    > {
        if !self.kitties.contains_key(id) {
            Err(Error::NoKitty)
        } else {
            match self.kitties[id].price {
                None => Err(Error::NotForSale),
                Some(real_price) => if max_price < real_price {
                    Err(Error::MaxPriceTooLow)
                } else {
                    Ok(
                        Payment {
                            from: buyer,
                            to: self.kitties[id].owner,
                            amount: real_price,
                            preserve_existence: true,
                        },
                    )
                },
            }
        }
    }

    /// The end of a purchase, once the payment `order` has come back with
    /// `outcome`: the ledger that results, and what the caller is told.
    pub open spec fn settle(self, order: Payment, id: Dna, outcome: Result<(), DispatchError>) -> (
        Ledger,
        Result<(), Error>,
    ) {
        match outcome {
            Err(e) => (self, Err(Error::Payment(e))),
            Ok(_) => match self.transfer_error(order.to, order.from, id) {
                Some(e) => (self, Err(e)),
                None => (
                    self.transferred(order.to, order.from, id).with_event(
                        Event::Sold { buyer: order.from, kitty_id: id, price: order.amount },
                    ),
                    Ok(()),
                ),
            },
        }
    }

    /// Registry and owner index agree: a kitty is stored under its own
    /// identity and listed by its owner; a list holds no identity twice, only
    /// kitties of its account, and no more of them than an account can own.
    pub open spec fn consistent(self) -> bool {
        &&& forall|id: Dna| #[trigger]
            self.kitties.contains_key(id) ==> {
                &&& self.kitties[id].dna == id
                &&& self.owned_by(self.kitties[id].owner).contains(id)
            }
        &&& forall|who: AccountId, i: int|
            0 <= i < self.owned_by(who).len() ==> {
                &&& self.kitties.contains_key(#[trigger] self.owned_by(who)[i])
                &&& self.kitties[self.owned_by(who)[i]].owner == who
            }
        &&& forall|who: AccountId| (#[trigger] self.owned_by(who)).no_duplicates()
        &&& forall|who: AccountId| (#[trigger] self.owned_by(who)).len() <= MAX_OWNED
    }
}

} // verus!

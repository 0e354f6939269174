//! The operations of the ledger. Each checks all of its conditions before it
//! changes anything, so that it applies all of its changes or none.

use crate::dna::{context_dna, hash_of_context};
use crate::laws::{
    law_mint_fails_on_a_full_list, law_mint_keeps_consistency, law_mint_stores_a_new_kitty,
    law_purchase_hands_the_kitty_to_the_buyer, law_set_price_keeps_consistency,
    law_settle_keeps_consistency, law_transfer_keeps_consistency, law_transfer_moves_the_kitty,
};
use crate::owned::MAX_OWNED;
use crate::owned::{list_as_vec, list_swap_remove, list_try_push, position_of};
use crate::pallet::Pallet;
use crate::types::{AccountId, Balance, BlockContext, Dna, Error, Event, Kitty, Payment};
use frame_support::sp_runtime::DispatchError;
use vstd::prelude::*;

verus! {

impl Pallet {
    /// The identity that a kitty minted in `context` would get: the digest of
    /// the context and of the counter of kitties. Nothing makes two such
    /// identities differ; minting refuses an identity that is taken.
    pub fn gen_dna(&self, context: &BlockContext) -> (dna: Dna)
        ensures
            dna == context_dna(
                context.parent_hash,
                context.block_number,
                context.extrinsic_index,
                self@.count,
            ),
    {
        hash_of_context(
            context.parent_hash,
            context.block_number,
            context.extrinsic_index,
            self.count_for_kitties(),
        )
    }

    /// Mints a kitty of identity `dna` for `owner`: the kitty has no price,
    /// the counter goes up by one, and `Created` is reported.
    ///
    /// Fails, and changes nothing, with `DuplicateKitty` where the registry
    /// holds the identity already, else with `TooManyKitties` where the
    /// counter is at its maximum, else with `TooManyOwned` where the owner's
    /// list is full.
    pub fn mint(&mut self, owner: AccountId, dna: Dna) -> (r: Result<(), Error>)
        ensures
            r == old(self)@.mint(owner, dna).1,
            final(self)@ == old(self)@.mint(owner, dna).0,
            r is Err ==> final(self)@ == old(self)@,
            r is Ok ==> {
                &&& !old(self)@.kitties.contains_key(dna)
                &&& final(self)@.kitty(dna) == Some(Kitty { dna, owner, price: None })
                &&& final(self)@.owned_by(owner) == old(self)@.owned_by(owner).push(dna)
                &&& final(self)@.count == old(self)@.count + 1
            },
            old(self)@.consistent() ==> {
                &&& final(self)@.consistent()
                &&& r == Err::<(), Error>(Error::TooManyOwned) <==> {
                    &&& !old(self)@.kitties.contains_key(dna)
                    &&& old(self)@.count < u32::MAX
                    &&& old(self)@.owned_by(owner).len() == MAX_OWNED
                }
            },
    {
        proof {
            if old(self)@.mint(owner, dna).1 is Ok {
                law_mint_stores_a_new_kitty(old(self)@, owner, dna);
            }
            if old(self)@.consistent() {
                law_mint_keeps_consistency(old(self)@, owner, dna);
                law_mint_fails_on_a_full_list(old(self)@, owner, dna);
            }
        }
        if self.kitties(&dna).is_some() {
            return Err(Error::DuplicateKitty);
        }
        let current_count: u32 = self.count_for_kitties();
        let new_count: u32 = match current_count.checked_add(1) {
            Some(n) => n,
            None => {
                return Err(Error::TooManyKitties);
            },
        };
        let kitty = Kitty { dna, owner, price: None };
        let mut owned = self.owned_list(owner);
        if list_try_push(&mut owned, dna).is_err() {
            return Err(Error::TooManyOwned);
        }
        self.insert_owned_list(owner, owned);
        self.insert_kitty(kitty);
        self.set_count_for_kitties(new_count);
        self.deposit_event(Event::Created { owner });
        Ok(())
    }

    /// Mints a kitty for `who` under the identity that `context` gives, and
    /// returns that identity. An identity that is taken is not replaced by
    /// another: the mint fails as [`Pallet::mint`] does.
    pub fn create_kitty(&mut self, who: AccountId, context: &BlockContext) -> (r: Result<
        Dna,
        Error,
    >)
        ensures
            ({
                let dna = context_dna(
                    context.parent_hash,
                    context.block_number,
                    context.extrinsic_index,
                    old(self)@.count,
                );
                &&& final(self)@ == old(self)@.mint(who, dna).0
                &&& r == match old(self)@.mint(who, dna).1 {
                    Ok(_) => Ok(dna),
                    Err(e) => Err(e),
                }
            }),
    {
        let dna = self.gen_dna(context);
        match self.mint(who, dna) {
            Ok(_) => Ok(dna),
            Err(e) => Err(e),
        }
    }

    /// Hands the kitty `kitty_id` from `from` to `to`: it leaves the list of
    /// `from`, where the last identity takes its place, and is appended to
    /// the list of `to`; it loses its price; `Transferred` is reported.
    ///
    /// Fails, and changes nothing, with `TransferToSelf` where the two
    /// accounts are one, else with `NoKitty` where the registry holds no such
    /// kitty, else with `NotOwner` where it is not `from`'s, else with
    /// `TooManyOwned` where the list of `to` is full, else with `NoKitty`
    /// where the list of `from` lacks the kitty.
    pub fn do_transfer(&mut self, from: AccountId, to: AccountId, kitty_id: Dna) -> (r: Result<
        (),
        Error,
    >)
        ensures
            r == old(self)@.transfer(from, to, kitty_id).1,
            final(self)@ == old(self)@.transfer(from, to, kitty_id).0,
            r is Err ==> final(self)@ == old(self)@,
            from == to ==> r == Err::<(), Error>(Error::TransferToSelf),
            old(self)@.consistent() ==> {
                &&& final(self)@.consistent()
                &&& r is Ok ==> {
                    &&& final(self)@.owned_by(to).contains(kitty_id)
                    &&& !final(self)@.owned_by(from).contains(kitty_id)
                    &&& final(self)@.kitty(kitty_id) == Some(
                        Kitty { dna: kitty_id, owner: to, price: None },
                    )
                }
            },
    {
        proof {
            if old(self)@.consistent() {
                law_transfer_keeps_consistency(old(self)@, from, to, kitty_id);
                if old(self)@.transfer(from, to, kitty_id).1 is Ok {
                    law_transfer_moves_the_kitty(old(self)@, from, to, kitty_id);
                }
            }
        }
        if from == to {
            return Err(Error::TransferToSelf);
        }
        let mut kitty = match self.kitties(&kitty_id) {
            Some(kitty) => kitty,
            None => {
                return Err(Error::NoKitty);
            },
        };
        if kitty.owner != from {
            return Err(Error::NotOwner);
        }
        kitty.owner = to;
        kitty.price = None;

        let mut receiver = self.owned_list(to);
        if list_try_push(&mut receiver, kitty_id).is_err() {
            return Err(Error::TooManyOwned);
        }
        let mut sender = self.owned_list(from);
        match position_of(list_as_vec(&sender), &kitty_id) {
            Some(ind) => {
                list_swap_remove(&mut sender, ind);
            },
            None => {
                return Err(Error::NoKitty);
            },
        }

        self.insert_kitty(kitty);
        self.insert_owned_list(from, sender);
        self.insert_owned_list(to, receiver);
        self.deposit_event(Event::Transferred { from, to, kitty_id });
        Ok(())
    }

    /// Sets the price of the kitty `kitty_id` to `new_price`, where `None`
    /// takes it off the market, and reports `PriceSet`.
    ///
    /// Fails, and changes nothing, with `NoKitty` where the registry holds no
    /// such kitty, else with `NotOwner` where it is not `owner`'s.
    pub fn do_set_price(
        &mut self,
        owner: AccountId,
        kitty_id: Dna,
        new_price: Option<Balance>,
    ) -> (r: Result<(), Error>)
        ensures
            r == old(self)@.set_price(owner, kitty_id, new_price).1,
            final(self)@ == old(self)@.set_price(owner, kitty_id, new_price).0,
            r is Err ==> final(self)@ == old(self)@,
            old(self)@.kitty(kitty_id) matches Some(kitty) && kitty.owner != owner ==> r == Err::<
                (),
                Error,
            >(Error::NotOwner),
            old(self)@.consistent() ==> final(self)@.consistent(),
    {
        proof {
            if old(self)@.consistent() {
                law_set_price_keeps_consistency(old(self)@, owner, kitty_id, new_price);
            }
        }
        let mut kitty = match self.kitties(&kitty_id) {
            Some(kitty) => kitty,
            None => {
                return Err(Error::NoKitty);
            },
        };
        if kitty.owner != owner {
            return Err(Error::NotOwner);
        }
        kitty.price = new_price;
        self.insert_kitty(kitty);
        self.deposit_event(Event::PriceSet { owner, kitty_id, new_price });
        Ok(())
    }

    /// What `buyer` has to pay for the kitty `kitty_id` when willing to pay
    /// up to `price`: the asked price, to the owner, without giving up the
    /// buyer's account.
    ///
    /// There is nothing to pay, with `NoKitty` where the registry holds no
    /// such kitty, else with `NotForSale` where it has no price, else with
    /// `MaxPriceTooLow` where `price` is below the asked price.
    pub fn purchase_order(&self, buyer: AccountId, kitty_id: Dna, price: Balance) -> (r: Result<
        Payment,
        Error,
    >)
        ensures
            r == self@.purchase_order(buyer, kitty_id, price),
            self@.kitty(kitty_id) matches Some(kitty) ==> match kitty.price {
                None => r == Err::<Payment, Error>(Error::NotForSale),
                Some(asked) => r == if price < asked {
                    Err::<Payment, Error>(Error::MaxPriceTooLow)
                } else {
                    Ok::<Payment, Error>(
                        (Payment {
                            from: buyer,
                            to: kitty.owner,
                            amount: asked,
                            preserve_existence: true,
                        }),
                    )
                },
            },
    {
        let kitty = match self.kitties(&kitty_id) {
            Some(kitty) => kitty,
            None => {
                return Err(Error::NoKitty);
            },
        };
        let real_price = match kitty.price {
            Some(real_price) => real_price,
            None => {
                return Err(Error::NotForSale);
            },
        };
        if price < real_price {
            return Err(Error::MaxPriceTooLow);
        }
        Ok(Payment { from: buyer, to: kitty.owner, amount: real_price, preserve_existence: true })
    }

    /// Ends a purchase once the payment `order` has come back with
    /// `outcome`. A failed payment is handed on as it is, and nothing is
    /// changed. After a payment that was made, the kitty goes from the payee
    /// to the payer as in [`Pallet::do_transfer`], and `Sold` is reported
    /// with the amount paid; where that transfer fails, its error is
    /// returned and nothing is changed, though the payment stands.
    pub fn settle_purchase(
        &mut self,
        order: Payment,
        kitty_id: Dna,
        outcome: Result<(), DispatchError>,
    ) -> (r: Result<(), Error>)
        ensures
            r == old(self)@.settle(order, kitty_id, outcome).1,
            final(self)@ == old(self)@.settle(order, kitty_id, outcome).0,
            r is Err ==> final(self)@ == old(self)@,
            outcome matches Err(e) ==> r == Err::<(), Error>(Error::Payment(e)),
            old(self)@.consistent() ==> final(self)@.consistent(),
    {
        proof {
            if old(self)@.consistent() {
                law_settle_keeps_consistency(old(self)@, order, kitty_id, outcome);
            }
        }
        match outcome {
            Err(e) => Err(Error::Payment(e)),
            Ok(_) => match self.do_transfer(order.to, order.from, kitty_id) {
                Err(e) => Err(e),
                Ok(_) => {
                    self.deposit_event(
                        Event::Sold { buyer: order.from, kitty_id, price: order.amount },
                    );
                    Ok(())
                },
            },
        }
    }

    /// Buys the kitty `kitty_id` for `buyer` at its asked price, if that is
    /// at most `price`: [`Pallet::purchase_order`], then `pay` on that order,
    /// then [`Pallet::settle_purchase`] with what `pay` returned. `pay` is
    /// called at most once, and only where there is something to pay.
    pub fn do_buy_kitty<F>(
        &mut self,
        buyer: AccountId,
        kitty_id: Dna,
        price: Balance,
        pay: F,
    ) -> (r: Result<(), Error>) where F: FnOnce(Payment) -> Result<(), DispatchError>
        requires
            old(self)@.purchase_order(buyer, kitty_id, price) matches Ok(order) ==> call_requires(
                pay,
                (order,),
            ),
        ensures
            match old(self)@.purchase_order(buyer, kitty_id, price) {
                Err(e) => r == Err::<(), Error>(e) && final(self)@ == old(self)@,
                Ok(order) => exists|outcome: Result<(), DispatchError>|
                    {
                        &&& call_ensures(pay, (order,), outcome)
                        &&& r == (#[trigger] old(self)@.settle(order, kitty_id, outcome)).1
                        &&& final(self)@ == old(self)@.settle(order, kitty_id, outcome).0
                    },
            },
            r is Err ==> final(self)@ == old(self)@,
            old(self)@.consistent() ==> {
                &&& final(self)@.consistent()
                &&& r is Ok ==> {
                    &&& final(self)@.owned_by(buyer).contains(kitty_id)
                    &&& final(self)@.kitty(kitty_id) == Some(
                        Kitty { dna: kitty_id, owner: buyer, price: None },
                    )
                }
            },
    {
        let order = match self.purchase_order(buyer, kitty_id, price) {
            Ok(order) => order,
            Err(e) => {
                return Err(e);
            },
        };
        let outcome = pay(order);
        proof {
            if old(self)@.consistent() {
                law_purchase_hands_the_kitty_to_the_buyer(
                    old(self)@,
                    buyer,
                    kitty_id,
                    price,
                    outcome,
                );
            }
        }
        self.settle_purchase(order, kitty_id, outcome)
    }
}

} // verus!

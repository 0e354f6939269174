//! What holds of the operations on every ledger, proved over the model.

use crate::model::{first_at, without_first, Ledger};
use crate::owned::MAX_OWNED;
use crate::types::{AccountId, Balance, Dna, Error, Event, Kitty, Payment};
use frame_support::sp_runtime::DispatchError;
use vstd::prelude::*;

verus! {

/// A list that holds `id` holds it at a first place, and at one only.
pub proof fn lemma_first_at(ids: Seq<Dna>, id: Dna)
    requires
        ids.contains(id),
    ensures
        first_at(ids, id, choose|i: int| first_at(ids, id, i)),
        forall|i: int, j: int| first_at(ids, id, i) && first_at(ids, id, j) ==> i == j,
    decreases ids.len(),
{
    let k = choose|k: int| 0 <= k < ids.len() && ids[k] == id;
    if first_at(ids, id, k) {
    } else {
        let shorter = ids.take(k);
        let j = choose|j: int| 0 <= j < k && ids[j] == id;
        assert(shorter[j] == id);
        lemma_first_at(shorter, id);
        let i = choose|i: int| first_at(shorter, id, i);
        assert(first_at(ids, id, i)) by {
            assert forall|m: int| 0 <= m < i implies ids[m] != id by {
                assert(shorter[m] != id);
            }
        }
    }
}

/// Taking the first `id` out of a list without repeats leaves the other
/// identities, each once, and `id` no more.
pub proof fn lemma_without_first(ids: Seq<Dna>, id: Dna)
    requires
        ids.contains(id),
        ids.no_duplicates(),
    ensures
        without_first(ids, id).len() == ids.len() - 1,
        without_first(ids, id).no_duplicates(),
        !without_first(ids, id).contains(id),
        forall|other: Dna|
            other != id ==> (without_first(ids, id).contains(other) <==> ids.contains(other)),
        forall|j: int|
            0 <= j < without_first(ids, id).len() ==> ids.contains(
                #[trigger] without_first(ids, id)[j],
            ),
{
    lemma_first_at(ids, id);
    let i = choose|i: int| first_at(ids, id, i);
    let rest = without_first(ids, id);
    let last = ids.len() - 1;
    assert forall|j: int| 0 <= j < rest.len() implies rest[j] == (if j == i {
        ids[last]
    } else {
        ids[j]
    }) by {}
    assert forall|j: int| 0 <= j < rest.len() implies ids.contains(#[trigger] rest[j]) && rest[j]
        != id by {
        if j == i {
            assert(ids[last] == rest[j]);
        } else {
            assert(ids[j] == rest[j]);
        }
    }
    assert forall|other: Dna| other != id && ids.contains(other) implies rest.contains(other) by {
        let k = choose|k: int| 0 <= k < ids.len() && ids[k] == other;
        if k == last {
            assert(rest[i] == other);
        } else {
            assert(rest[k] == other);
        }
    }
}

/// The ledger in which nothing was minted is consistent.
pub proof fn law_genesis_is_consistent()
    ensures
        Ledger::genesis().consistent(),
{
    let s = Ledger::genesis();
    assert forall|who: AccountId| (#[trigger] s.owned_by(who)).len() == 0 by {}
}

/// A mint that succeeds stores, under an identity that the registry did not
/// hold, a kitty of that identity that belongs to the given owner and has no
/// price, and appends the identity to the owner's list. Every other kitty
/// and every other list stay as they were.
pub proof fn law_mint_stores_a_new_kitty(s: Ledger, owner: AccountId, dna: Dna)
    requires
        s.mint(owner, dna).1 is Ok,
    ensures
        !s.kitties.contains_key(dna),
        s.mint(owner, dna).0.kitty(dna) == Some(Kitty { dna, owner, price: None }),
        s.mint(owner, dna).0.owned_by(owner) == s.owned_by(owner).push(dna),
        s.mint(owner, dna).0.owned_by(owner).contains(dna),
        forall|other: Dna| other != dna ==> s.mint(owner, dna).0.kitty(other) == s.kitty(other),
        forall|who: AccountId|
            who != owner ==> s.mint(owner, dna).0.owned_by(who) == s.owned_by(who),
{
    let t = s.mint(owner, dna).0;
    let ids = t.owned_by(owner);
    assert(ids[ids.len() - 1] == dna);
}

/// A mint that succeeds increases the counter by exactly one; a mint that
/// fails leaves the counter, and all the rest of the ledger, as it was.
pub proof fn law_mint_counts_by_one(s: Ledger, owner: AccountId, dna: Dna)
    ensures
        s.mint(owner, dna).1 is Ok ==> s.mint(owner, dna).0.count == s.count + 1,
        s.mint(owner, dna).1 is Err ==> s.mint(owner, dna).0 == s,
{
}

/// In a consistent ledger a mint fails because the owner's list is full
/// exactly when no earlier check fails and the list holds as many kitties as
/// an account can own.
pub proof fn law_mint_fails_on_a_full_list(s: Ledger, owner: AccountId, dna: Dna)
    requires
        s.consistent(),
    ensures
        s.mint(owner, dna).1 == Err::<(), Error>(Error::TooManyOwned) <==> {
            &&& !s.kitties.contains_key(dna)
            &&& s.count < u32::MAX
            &&& s.owned_by(owner).len() == MAX_OWNED
        },
{
    assert(s.owned_by(owner).len() <= MAX_OWNED);
}

/// A transfer to the sender itself fails as such, whatever the kitty, and
/// changes nothing.
pub proof fn law_transfer_to_self_fails(s: Ledger, who: AccountId, id: Dna)
    ensures
        s.transfer(who, who, id) == (s, Err::<(), Error>(Error::TransferToSelf)),
{
}

/// After a transfer that succeeds in a consistent ledger, the receiver's
/// list holds the kitty, the sender's list does not, and the kitty belongs to
/// the receiver and has no price, whatever its price was. Every other kitty
/// and the list of every other account stay as they were.
pub proof fn law_transfer_moves_the_kitty(s: Ledger, from: AccountId, to: AccountId, id: Dna)
    requires
        s.consistent(),
        s.transfer(from, to, id).1 is Ok,
    ensures
        s.transfer(from, to, id).0.owned_by(to).contains(id),
        !s.transfer(from, to, id).0.owned_by(from).contains(id),
        s.transfer(from, to, id).0.kitty(id) == Some(Kitty { dna: id, owner: to, price: None }),
        s.transfer(from, to, id).0.owned_by(from).len() == s.owned_by(from).len() - 1,
        s.transfer(from, to, id).0.owned_by(to).len() == s.owned_by(to).len() + 1,
        forall|other: Dna|
            other != id ==> s.transfer(from, to, id).0.kitty(other) == s.kitty(other),
        forall|other: Dna|
            other != id ==> (s.transfer(from, to, id).0.owned_by(from).contains(other)
                <==> s.owned_by(from).contains(other)),
        forall|who: AccountId|
            who != from && who != to ==> s.transfer(from, to, id).0.owned_by(who) == s.owned_by(
                who,
            ),
{
    let t = s.transfer(from, to, id).0;
    assert(s.owned_by(from).no_duplicates());
    lemma_without_first(s.owned_by(from), id);
    let ids = t.owned_by(to);
    assert(ids[ids.len() - 1] == id);
    assert(t.owned_by(from) == without_first(s.owned_by(from), id));
}

/// In a consistent ledger the sender's list holds every kitty of the sender:
/// a transfer reports a missing kitty only where the registry holds none.
pub proof fn law_transfer_finds_the_kitty(s: Ledger, from: AccountId, to: AccountId, id: Dna)
    requires
        s.consistent(),
    ensures
        s.transfer(from, to, id).1 == Err::<(), Error>(Error::NoKitty) <==> from != to
            && !s.kitties.contains_key(id),
{
    if s.kitties.contains_key(id) && s.kitties[id].owner == from {
        assert(s.owned_by(from).contains(id));
    }
}

/// Setting the price of a kitty that belongs to another account fails as
/// such and changes nothing: the price stays as it was.
pub proof fn law_set_price_by_a_stranger_fails(
    s: Ledger,
    who: AccountId,
    id: Dna,
    new_price: Option<Balance>,
)
    requires
        s.kitties.contains_key(id),
        s.kitties[id].owner != who,
    ensures
        s.set_price(who, id, new_price) == (s, Err::<(), Error>(Error::NotOwner)),
{
}

/// Setting a price by the owner changes the price of that kitty and nothing
/// else of the registry or of the owner index.
pub proof fn law_set_price_changes_the_price_only(
    s: Ledger,
    owner: AccountId,
    id: Dna,
    new_price: Option<Balance>,
)
    requires
        s.consistent(),
        s.set_price(owner, id, new_price).1 is Ok,
    ensures
        s.set_price(owner, id, new_price).0.kitty(id) == Some(
            Kitty { price: new_price, ..s.kitties[id] },
        ),
        forall|other: Dna|
            other != id ==> s.set_price(owner, id, new_price).0.kitty(other) == s.kitty(other),
        s.set_price(owner, id, new_price).0.owned == s.owned,
        s.set_price(owner, id, new_price).0.count == s.count,
{
}

/// There is nothing to pay for a kitty that has no price, nor for one whose
/// price is above what the buyer offers.
pub proof fn law_purchase_is_refused_before_payment(
    s: Ledger,
    buyer: AccountId,
    id: Dna,
    max_price: Balance,
)
    requires
        s.kitties.contains_key(id),
    ensures
        s.kitties[id].price is None ==> s.purchase_order(buyer, id, max_price) == Err::<
            Payment,
            Error,
        >(Error::NotForSale),
        s.kitties[id].price matches Some(asked) && max_price < asked ==> s.purchase_order(
            buyer,
            id,
            max_price,
        ) == Err::<Payment, Error>(Error::MaxPriceTooLow),
{
}

/// What there is to pay is the price asked, not the price offered, from the
/// buyer to the owner, and it leaves the buyer's account in existence.
pub proof fn law_purchase_pays_the_asked_price(
    s: Ledger,
    buyer: AccountId,
    id: Dna,
    max_price: Balance,
)
    requires
        s.purchase_order(buyer, id, max_price) is Ok,
    ensures
        s.kitties.contains_key(id),
        s.kitties[id].price is Some,
        s.purchase_order(buyer, id, max_price) == Ok::<Payment, Error>(
            (Payment {
                from: buyer,
                to: s.kitties[id].owner,
                amount: s.kitties[id].price->Some_0,
                preserve_existence: true,
            }),
        ),
        s.kitties[id].price->Some_0 <= max_price,
{
}

/// A purchase reports the transfer and then the sale when both the payment
/// and the transfer succeed, and reports nothing and changes nothing when
/// either fails.
pub proof fn law_purchase_reports_transfer_then_sale(
    s: Ledger,
    order: Payment,
    id: Dna,
    outcome: Result<(), DispatchError>,
)
    ensures
        s.settle(order, id, outcome).1 is Ok <==> outcome is Ok && s.transfer(
            order.to,
            order.from,
            id,
        ).1 is Ok,
        s.settle(order, id, outcome).1 is Ok ==> s.settle(order, id, outcome).0.events
            == s.events.push(
            Event::Transferred { from: order.to, to: order.from, kitty_id: id },
        ).push(Event::Sold { buyer: order.from, kitty_id: id, price: order.amount }),
        s.settle(order, id, outcome).1 is Err ==> s.settle(order, id, outcome).0 == s,
        outcome matches Err(e) ==> s.settle(order, id, outcome).1 == Err::<(), Error>(
            Error::Payment(e),
        ),
{
}

/// In a consistent ledger a purchase goes through exactly when the kitty is
/// for sale at no more than the buyer offers, the payment is made, the buyer
/// is not the owner and the buyer's list is not full. The kitty is then the
/// buyer's, listed by the buyer and no more by the seller, and has no price.
pub proof fn law_purchase_hands_the_kitty_to_the_buyer(
    s: Ledger,
    buyer: AccountId,
    id: Dna,
    max_price: Balance,
    outcome: Result<(), DispatchError>,
)
    requires
        s.consistent(),
        s.purchase_order(buyer, id, max_price) is Ok,
    ensures
        ({
            let order = s.purchase_order(buyer, id, max_price)->Ok_0;
            let seller = s.kitties[id].owner;
            let end = s.settle(order, id, outcome);
            &&& end.1 is Ok <==> outcome is Ok && buyer != seller && s.owned_by(buyer).len()
                < MAX_OWNED
            &&& end.1 is Ok ==> {
                &&& end.0.kitty(id) == Some(Kitty { dna: id, owner: buyer, price: None })
                &&& end.0.owned_by(buyer).contains(id)
                &&& !end.0.owned_by(seller).contains(id)
            }
        }),
{
    let order = s.purchase_order(buyer, id, max_price)->Ok_0;
    let seller = s.kitties[id].owner;
    assert(s.owned_by(seller).contains(id));
    if s.settle(order, id, outcome).1 is Ok {
        law_transfer_moves_the_kitty(s, seller, buyer, id);
        let moved = s.transfer(seller, buyer, id).0;
        let end = s.settle(order, id, outcome).0;
        assert(end.owned_by(buyer) == moved.owned_by(buyer));
        assert(end.owned_by(seller) == moved.owned_by(seller));
    }
}

/// Minting keeps a consistent ledger consistent.
pub proof fn law_mint_keeps_consistency(s: Ledger, owner: AccountId, dna: Dna)
    requires
        s.consistent(),
    ensures
        s.mint(owner, dna).0.consistent(),
{
    if s.mint(owner, dna).1 is Ok {
        let t = s.mint(owner, dna).0;
        let before = s.owned_by(owner);
        assert forall|who: AccountId| #[trigger] t.owned_by(who) == (if who == owner {
            before.push(dna)
        } else {
            s.owned_by(who)
        }) by {}
        assert(!before.contains(dna)) by {
            if before.contains(dna) {
                let i = choose|i: int| 0 <= i < before.len() && before[i] == dna;
                assert(s.kitties.contains_key(s.owned_by(owner)[i]));
            }
        }
        assert forall|id: Dna| #[trigger] t.kitties.contains_key(id) implies {
            &&& t.kitties[id].dna == id
            &&& t.owned_by(t.kitties[id].owner).contains(id)
        } by {
            if id == dna {
                assert(t.owned_by(owner)[before.len() as int] == dna);
            } else {
                assert(s.kitties.contains_key(id));
                let who = s.kitties[id].owner;
                let i = choose|i: int| 0 <= i < s.owned_by(who).len() && s.owned_by(who)[i] == id;
                assert(t.owned_by(who)[i] == id);
            }
        }
        assert forall|who: AccountId, i: int| 0 <= i < t.owned_by(who).len() implies {
            &&& t.kitties.contains_key(#[trigger] t.owned_by(who)[i])
            &&& t.kitties[t.owned_by(who)[i]].owner == who
        } by {
            if who == owner && i == before.len() {
            } else {
                assert(s.kitties.contains_key(s.owned_by(who)[i]));
            }
        }
        assert forall|who: AccountId| (#[trigger] t.owned_by(who)).no_duplicates() by {
            assert(s.owned_by(who).no_duplicates());
        }
        assert forall|who: AccountId| (#[trigger] t.owned_by(who)).len() <= MAX_OWNED by {
            assert(s.owned_by(who).len() <= MAX_OWNED);
        }
    }
}

/// A transfer keeps a consistent ledger consistent.
pub proof fn law_transfer_keeps_consistency(s: Ledger, from: AccountId, to: AccountId, id: Dna)
    requires
        s.consistent(),
    ensures
        s.transfer(from, to, id).0.consistent(),
{
    if s.transfer(from, to, id).1 is Ok {
        let t = s.transfer(from, to, id).0;
        let sent = s.owned_by(from);
        let received = s.owned_by(to);
        let rest = without_first(sent, id);
        assert(sent.no_duplicates());
        lemma_without_first(sent, id);
        assert forall|who: AccountId| #[trigger] t.owned_by(who) == (if who == to {
            received.push(id)
        } else if who == from {
            rest
        } else {
            s.owned_by(who)
        }) by {}
        assert(!received.contains(id)) by {
            if received.contains(id) {
                let i = choose|i: int| 0 <= i < received.len() && received[i] == id;
                assert(s.kitties[s.owned_by(to)[i]].owner == to);
            }
        }
        assert forall|other: Dna| #[trigger] t.kitties.contains_key(other) implies {
            &&& t.kitties[other].dna == other
            &&& t.owned_by(t.kitties[other].owner).contains(other)
        } by {
            if other == id {
                assert(t.owned_by(to)[received.len() as int] == id);
            } else {
                assert(s.kitties.contains_key(other));
                let who = s.kitties[other].owner;
                assert(s.owned_by(who).contains(other));
                if who == to {
                    let i = choose|i: int| 0 <= i < received.len() && received[i] == other;
                    assert(t.owned_by(to)[i] == other);
                }
            }
        }
        assert forall|who: AccountId, i: int| 0 <= i < t.owned_by(who).len() implies {
            &&& t.kitties.contains_key(#[trigger] t.owned_by(who)[i])
            &&& t.kitties[t.owned_by(who)[i]].owner == who
        } by {
            let held = t.owned_by(who)[i];
            if who == to {
                if i < received.len() {
                    assert(s.kitties.contains_key(s.owned_by(to)[i]));
                }
            } else if who == from {
                assert(sent.contains(rest[i]));
                let k = choose|k: int| 0 <= k < sent.len() && sent[k] == held;
                assert(s.kitties.contains_key(s.owned_by(from)[k]));
                assert(!rest.contains(id));
            } else {
                assert(s.kitties.contains_key(s.owned_by(who)[i]));
                assert(held != id);
            }
        }
        assert forall|who: AccountId| (#[trigger] t.owned_by(who)).no_duplicates() by {
            assert(s.owned_by(who).no_duplicates());
        }
        assert forall|who: AccountId| (#[trigger] t.owned_by(who)).len() <= MAX_OWNED by {
            assert(s.owned_by(who).len() <= MAX_OWNED);
        }
    }
}

/// Setting a price keeps a consistent ledger consistent.
pub proof fn law_set_price_keeps_consistency(
    s: Ledger,
    owner: AccountId,
    id: Dna,
    new_price: Option<Balance>,
)
    requires
        s.consistent(),
    ensures
        s.set_price(owner, id, new_price).0.consistent(),
{
    if s.set_price(owner, id, new_price).1 is Ok {
        let t = s.set_price(owner, id, new_price).0;
        assert forall|who: AccountId| #[trigger] t.owned_by(who) == s.owned_by(who) by {}
        assert forall|other: Dna| #[trigger] t.kitties.contains_key(other) implies {
            &&& t.kitties[other].dna == other
            &&& t.owned_by(t.kitties[other].owner).contains(other)
        } by {
            assert(s.kitties.contains_key(other));
        }
        assert forall|who: AccountId, i: int| 0 <= i < t.owned_by(who).len() implies {
            &&& t.kitties.contains_key(#[trigger] t.owned_by(who)[i])
            &&& t.kitties[t.owned_by(who)[i]].owner == who
        } by {
            assert(s.kitties.contains_key(s.owned_by(who)[i]));
        }
        assert forall|who: AccountId| (#[trigger] t.owned_by(who)).no_duplicates() by {
            assert(s.owned_by(who).no_duplicates());
        }
        assert forall|who: AccountId| (#[trigger] t.owned_by(who)).len() <= MAX_OWNED by {
            assert(s.owned_by(who).len() <= MAX_OWNED);
        }
    }
}

/// The end of a purchase keeps a consistent ledger consistent, whatever the
/// payment came back with.
pub proof fn law_settle_keeps_consistency(
    s: Ledger,
    order: Payment,
    id: Dna,
    outcome: Result<(), DispatchError>,
)
    requires
        s.consistent(),
    ensures
        s.settle(order, id, outcome).0.consistent(),
{
    if s.settle(order, id, outcome).1 is Ok {
        law_transfer_keeps_consistency(s, order.to, order.from, id);
        let moved = s.transfer(order.to, order.from, id).0;
        let t = s.settle(order, id, outcome).0;
        assert(t.kitties == moved.kitties);
        assert(t.owned == moved.owned);
        assert forall|who: AccountId| #[trigger] t.owned_by(who) == moved.owned_by(who) by {}
        assert forall|who: AccountId, i: int| 0 <= i < t.owned_by(who).len() implies {
            &&& t.kitties.contains_key(#[trigger] t.owned_by(who)[i])
            &&& t.kitties[t.owned_by(who)[i]].owner == who
        } by {
            assert(moved.kitties.contains_key(moved.owned_by(who)[i]));
        }
        assert forall|who: AccountId| (#[trigger] t.owned_by(who)).no_duplicates() by {
            assert(moved.owned_by(who).no_duplicates());
        }
        assert forall|who: AccountId| (#[trigger] t.owned_by(who)).len() <= MAX_OWNED by {
            assert(moved.owned_by(who).len() <= MAX_OWNED);
        }
    }
}

/// No operation takes a kitty out of the registry or lowers the counter, and
/// only minting adds a kitty.
pub proof fn law_registry_only_grows(
    s: Ledger,
    a: AccountId,
    b: AccountId,
    id: Dna,
    price: Option<Balance>,
    order: Payment,
    outcome: Result<(), DispatchError>,
)
    ensures
        s.mint(a, id).0.count >= s.count,
        s.mint(a, id).0.kitties.dom() == if s.mint(a, id).1 is Ok {
            s.kitties.dom().insert(id)
        } else {
            s.kitties.dom()
        },
        s.transfer(a, b, id).0.count == s.count,
        s.transfer(a, b, id).0.kitties.dom() == s.kitties.dom(),
        s.set_price(a, id, price).0.count == s.count,
        s.set_price(a, id, price).0.kitties.dom() == s.kitties.dom(),
        s.settle(order, id, outcome).0.count == s.count,
        s.settle(order, id, outcome).0.kitties.dom() == s.kitties.dom(),
{
    assert(s.transfer(a, b, id).0.kitties.dom() =~= s.kitties.dom());
    assert(s.set_price(a, id, price).0.kitties.dom() =~= s.kitties.dom());
    assert(s.settle(order, id, outcome).0.kitties.dom() =~= s.kitties.dom());
    assert(s.mint(a, id).0.kitties.dom() =~= if s.mint(a, id).1 is Ok {
        s.kitties.dom().insert(id)
    } else {
        s.kitties.dom()
    });
}

} // verus!

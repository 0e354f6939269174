//! The plain values that the ledger holds and hands out.

use frame_support::sp_runtime::DispatchError;
use vstd::prelude::*;

verus! {

/// An account of the host chain.
pub type AccountId = u64;

/// An amount of the host chain's native currency.
pub type Balance = u128;

/// The 32-byte identity of a kitty.
pub type Dna = [u8; 32];

/// `DispatchError` of `sp_runtime`: the error that the payment capability
/// reports. It is carried through as it is, and never looked into.
#[verifier::external_type_specification]
#[verifier::external_body]
pub struct ExDispatchError(DispatchError);

/// One kitty of the registry.
#[derive(Clone, Copy, Debug, PartialEq, Eq)]
pub struct Kitty {
    /// The identity under which the registry holds the kitty.
    pub dna: Dna,
    /// The account that owns the kitty.
    pub owner: AccountId,
    /// `None` while the kitty is not for sale, else the exact price asked.
    pub price: Option<Balance>,
}

/// Why an operation changed nothing.
#[derive(Clone, Copy, Debug, PartialEq, Eq)]
pub enum Error {
    /// The registry already holds a kitty of this identity.
    DuplicateKitty,
    /// The counter of kitties cannot be increased any more.
    TooManyKitties,
    /// The account's list of kitties is full.
    TooManyOwned,
    /// The registry holds no kitty of this identity, or the sender's list lacks it.
    NoKitty,
    /// The account is not the kitty's owner.
    NotOwner,
    /// Sender and receiver are the same account.
    TransferToSelf,
    /// The kitty has no price.
    NotForSale,
    /// The buyer offers less than the price asked.
    MaxPriceTooLow,
    /// The payment failed; the error is the payment capability's own.
    Payment(DispatchError),
}

/// What an operation reports once all of its changes are made.
#[derive(Clone, Copy, Debug, PartialEq, Eq)]
pub enum Event {
    Created { owner: AccountId },
    Transferred { from: AccountId, to: AccountId, kitty_id: Dna },
    PriceSet { owner: AccountId, kitty_id: Dna, new_price: Option<Balance> },
    Sold { buyer: AccountId, kitty_id: Dna, price: Balance },
}

/// One request to the payment capability: move `amount` from `from` to `to`.
#[derive(Clone, Copy, Debug, PartialEq, Eq)]
pub struct Payment {
    pub from: AccountId,
    pub to: AccountId,
    pub amount: Balance,
    /// Whether the payer's account must stay above its minimum balance.
    pub preserve_existence: bool,
}

/// Where in the chain an operation runs: the entropy of a new identity.
#[derive(Clone, Copy, Debug, PartialEq, Eq)]
pub struct BlockContext {
    /// The hash of the previous block.
    pub parent_hash: [u8; 32],
    /// The number of the current block.
    pub block_number: u32,
    /// The index of the current operation within the block, where there is one.
    pub extrinsic_index: Option<u32>,
}

/// Whether two identities are the same, byte for byte.
pub fn same_dna(a: &Dna, b: &Dna) -> (same: bool)
    ensures
        same == (*a == *b),
{
    let mut i: usize = 0;
    while i < 32
        invariant
            i <= 32,
            forall|j: int| 0 <= j < i ==> a[j] == b[j],
        decreases 32 - i,
    {
        if a[i] != b[i] {
            return false;
        }
        i += 1;
    }
    assert(*a =~= *b);
    true
}

} // verus!

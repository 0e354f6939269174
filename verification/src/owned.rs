//! An account's list of kitties: a bounded vector, and what is taken on trust of it.

use crate::model::first_at;
use crate::types::{same_dna, Dna};
use frame_support::traits::ConstU32;
use frame_support::BoundedVec;
use vstd::prelude::*;

verus! {

/// The most kitties that one account can own.
pub const MAX_OWNED: u32 = 100;

/// `ConstU32` of `bounded_collections`: a number held in a type. As the bound
/// of a `BoundedVec` it is the most that the vector can hold.
#[verifier::external_type_specification]
#[verifier::external_body]
pub struct ExConstU32<const T: u32>(ConstU32<T>);

/// `BoundedVec` of `bounded_collections`: a vector that never holds more
/// than its bound. Nothing inside it is visible here; what it holds is read
/// through [`owned_ids`].
#[verifier::external_type_specification]
#[verifier::external_body]
#[verifier::reject_recursive_types(T)]
#[verifier::reject_recursive_types(S)]
pub struct ExBoundedVec<T, S>(BoundedVec<T, S>);

/// The identities that a list holds, in the order in which it holds them.
pub uninterp spec fn owned_ids(list: BoundedVec<[u8; 32], ConstU32<MAX_OWNED>>) -> Seq<[u8; 32]>;

/// `BoundedVec::new`: a list that holds nothing.
#[verifier::external_body]
pub(crate) fn list_new() -> (list: BoundedVec<Dna, ConstU32<MAX_OWNED>>)
    ensures
        owned_ids(list) == Seq::<Dna>::empty(),
{
    BoundedVec::new()
}

/// `BoundedVec::try_push`: below the bound the identity is appended; at the
/// bound the list stays as it is and the identity comes back.
#[verifier::external_body]
pub(crate) fn list_try_push(
    list: &mut BoundedVec<Dna, ConstU32<MAX_OWNED>>,
    id: Dna,
) -> (r: Result<(), Dna>)
    ensures
        r is Ok <==> owned_ids(*old(list)).len() < MAX_OWNED,
        r matches Err(back) ==> back == id,
        owned_ids(*final(list)) == if r is Ok {
            owned_ids(*old(list)).push(id)
        } else {
            owned_ids(*old(list))
        },
{
    list.try_push(id)
}

/// `Clone::clone` of a `BoundedVec`: a list of its own that holds the same
/// identities in the same order.
#[verifier::external_body]
pub(crate) fn list_clone(
    list: &BoundedVec<Dna, ConstU32<MAX_OWNED>>,
) -> (copy: BoundedVec<Dna, ConstU32<MAX_OWNED>>)
    ensures
        owned_ids(copy) == owned_ids(*list),
{
    list.clone()
}

/// `BoundedVec::swap_remove`: the identity at `index` leaves the list and the
/// last identity takes its place.
#[verifier::external_body]
pub(crate) fn list_swap_remove(
    list: &mut BoundedVec<Dna, ConstU32<MAX_OWNED>>,
    index: usize,
) -> (id: Dna)
    requires
        index < owned_ids(*old(list)).len(),
    ensures
        id == owned_ids(*old(list))[index as int],
        owned_ids(*final(list)) == owned_ids(*old(list)).update(
            index as int,
            owned_ids(*old(list)).last(),
        ).drop_last(),
{
    list.swap_remove(index)
}

/// `Deref::deref` of a `BoundedVec`: the vector inside it, to read. It holds
/// what the list holds.
#[verifier::external_body]
pub(crate) fn list_as_vec(list: &BoundedVec<Dna, ConstU32<MAX_OWNED>>) -> (ids: &Vec<Dna>)
    ensures
        ids@ == owned_ids(*list),
{
    core::ops::Deref::deref(list)
}

/// The first place at which `ids` holds `id`, if it holds it at all.
pub fn position_of(ids: &Vec<Dna>, id: &Dna) -> (at: Option<usize>)
    ensures
        match at {
            Some(i) => first_at(ids@, *id, i as int),
            None => !ids@.contains(*id),
        },
{
    let mut i: usize = 0;
    while i < ids.len()
        invariant
            i <= ids@.len(),
            forall|j: int| 0 <= j < i ==> ids@[j] != *id,
        decreases ids@.len() - i,
    {
        if same_dna(&ids[i], id) {
            return Some(i);
        }
        i += 1;
    }
    None
}

} // verus!

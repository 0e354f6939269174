//! The identity of a new kitty: a digest of where and when it is minted, and
//! what is taken on trust of that digest.

use crate::types::Dna;
use frame_support::sp_runtime::traits::BlakeTwo256;
use vstd::prelude::*;

verus! {

/// The Blake2 digest, 256 bits long, of the SCALE encoding of the four
/// values: the hash of the previous block, the number of the current block,
/// the index of the current operation within the block, and the counter of
/// kitties.
pub uninterp spec fn context_dna(
    parent_hash: [u8; 32],
    block_number: u32,
    extrinsic_index: Option<u32>,
    count: u32,
) -> [u8; 32];

/// `BlakeTwo256::hash_of`, of the trait `sp_runtime::traits::Hash`, on the
/// tuple of the four values, the first as a block hash. The digest depends on
/// the four values alone; nothing more is claimed of it.
#[verifier::external_body]
pub(crate) fn hash_of_context(
    parent_hash: Dna,
    block_number: u32,
    extrinsic_index: Option<u32>,
    count: u32,
) -> (dna: Dna)
    ensures
        dna == context_dna(parent_hash, block_number, extrinsic_index, count),
{
    let parent = <<BlakeTwo256 as frame_support::sp_runtime::traits::Hash>::Output>::from(
        parent_hash,
    );
    let input = (parent, block_number, extrinsic_index, count);
    <BlakeTwo256 as frame_support::sp_runtime::traits::Hash>::hash_of(&input).into()
}

} // verus!

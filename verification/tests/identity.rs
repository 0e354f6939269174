use frame_support::sp_runtime::testing::H256;
use frame_support::sp_runtime::traits::BlakeTwo256;
use kitties::{BlockContext, Pallet};

fn ascending() -> [u8; 32] {
    let mut bytes = [0u8; 32];
    for (i, b) in bytes.iter_mut().enumerate() {
        *b = i as u8;
    }
    bytes
}

#[test]
fn gen_dna_is_the_blake2_digest_of_the_encoded_context() {
    let pallet = Pallet::new();
    let context = BlockContext { parent_hash: [0u8; 32], block_number: 0, extrinsic_index: None };
    assert_eq!(
        pallet.gen_dna(&context),
        [
            150, 78, 116, 136, 16, 139, 206, 87, 173, 161, 39, 161, 10, 12, 178, 172, 255, 65, 95,
            132, 51, 189, 213, 52, 23, 205, 87, 242, 113, 229, 130, 144
        ]
    );
    let context =
        BlockContext { parent_hash: ascending(), block_number: 7, extrinsic_index: Some(3) };
    assert_eq!(
        pallet.gen_dna(&context),
        [
            150, 198, 141, 44, 59, 160, 46, 153, 73, 247, 213, 65, 215, 105, 154, 22, 60, 90, 30,
            53, 167, 111, 188, 29, 122, 227, 46, 31, 165, 224, 27, 73
        ]
    );
}

#[test]
fn gen_dna_takes_the_counter_in() {
    let mut pallet = Pallet::new();
    pallet.set_count_for_kitties(1);
    let context = BlockContext { parent_hash: [0u8; 32], block_number: 0, extrinsic_index: None };
    assert_eq!(
        pallet.gen_dna(&context),
        [
            45, 105, 65, 12, 32, 63, 3, 231, 220, 211, 86, 136, 155, 218, 21, 104, 47, 100, 79,
            250, 97, 121, 255, 239, 0, 79, 87, 60, 8, 243, 84, 206
        ]
    );
    let context =
        BlockContext { parent_hash: ascending(), block_number: 7, extrinsic_index: Some(3) };
    assert_eq!(
        pallet.gen_dna(&context),
        [
            94, 143, 60, 239, 162, 220, 165, 202, 45, 68, 162, 79, 186, 227, 212, 203, 206, 69,
            202, 157, 155, 71, 131, 147, 50, 207, 183, 206, 158, 205, 198, 201
        ]
    );
}

#[test]
fn gen_dna_depends_on_each_part_of_the_context() {
    let pallet = Pallet::new();
    let base = BlockContext { parent_hash: [9u8; 32], block_number: 1, extrinsic_index: Some(0) };
    let dna = pallet.gen_dna(&base);
    assert_eq!(
        dna,
        [
            234, 195, 247, 185, 54, 107, 171, 16, 55, 188, 191, 57, 82, 139, 135, 21, 155, 175, 81,
            106, 24, 134, 191, 5, 69, 225, 120, 86, 110, 182, 139, 244
        ]
    );
    assert_ne!(dna, base.parent_hash);
    assert_eq!(pallet.gen_dna(&base), dna);
    assert_ne!(pallet.gen_dna(&BlockContext { parent_hash: [8u8; 32], ..base }), dna);
    assert_ne!(pallet.gen_dna(&BlockContext { block_number: 2, ..base }), dna);
    assert_ne!(pallet.gen_dna(&BlockContext { extrinsic_index: Some(1), ..base }), dna);
    assert_ne!(pallet.gen_dna(&BlockContext { extrinsic_index: None, ..base }), dna);
}

#[test]
fn gen_dna_is_the_hash_of_the_tuple_with_a_block_hash() {
    let mut pallet = Pallet::new();
    pallet.set_count_for_kitties(41);
    let context =
        BlockContext { parent_hash: ascending(), block_number: 7, extrinsic_index: Some(3) };
    let input = (H256::from(ascending()), 7u32, Some(3u32), 41u32);
    let expected: [u8; 32] =
        <BlakeTwo256 as frame_support::sp_runtime::traits::Hash>::hash_of(&input).into();
    assert_eq!(pallet.gen_dna(&context), expected);
}

use kitties::{BlockContext, Error, Event, Kitty, Pallet, MAX_OWNED};

const ALICE: u64 = 1;
const BOB: u64 = 2;

fn id(n: u32) -> [u8; 32] {
    let mut dna = [0u8; 32];
    dna[..4].copy_from_slice(&n.to_le_bytes());
    dna
}

#[test]
fn a_new_ledger_holds_nothing() {
    let pallet = Pallet::new();
    assert_eq!(pallet.count_for_kitties(), 0);
    assert_eq!(pallet.kitties(&id(1)), None);
    assert_eq!(pallet.kitties_owned(ALICE), Vec::<[u8; 32]>::new());
    assert!(pallet.events().is_empty());
}

#[test]
fn mint_stores_a_new_kitty() {
    let mut pallet = Pallet::new();
    assert_eq!(pallet.kitties(&id(1)), None);
    assert_eq!(pallet.mint(ALICE, id(1)), Ok(()));
    assert_eq!(pallet.kitties(&id(1)), Some(Kitty { dna: id(1), owner: ALICE, price: None }));
    assert_eq!(pallet.kitties_owned(ALICE), vec![id(1)]);
    assert_eq!(pallet.kitties_owned(BOB), Vec::<[u8; 32]>::new());
    assert_eq!(pallet.events(), &vec![Event::Created { owner: ALICE }]);
}

#[test]
fn mint_counts_by_one_on_success_only() {
    let mut pallet = Pallet::new();
    assert_eq!(pallet.mint(ALICE, id(1)), Ok(()));
    assert_eq!(pallet.count_for_kitties(), 1);
    assert_eq!(pallet.mint(BOB, id(2)), Ok(()));
    assert_eq!(pallet.count_for_kitties(), 2);
    assert_eq!(pallet.mint(BOB, id(1)), Err(Error::DuplicateKitty));
    assert_eq!(pallet.count_for_kitties(), 2);
}

#[test]
fn mint_of_a_known_identity_changes_nothing() {
    let mut pallet = Pallet::new();
    assert_eq!(pallet.mint(ALICE, id(1)), Ok(()));
    assert_eq!(pallet.mint(BOB, id(1)), Err(Error::DuplicateKitty));
    assert_eq!(pallet.mint(ALICE, id(1)), Err(Error::DuplicateKitty));
    assert_eq!(pallet.kitties(&id(1)), Some(Kitty { dna: id(1), owner: ALICE, price: None }));
    assert_eq!(pallet.kitties_owned(ALICE), vec![id(1)]);
    assert_eq!(pallet.kitties_owned(BOB), Vec::<[u8; 32]>::new());
    assert_eq!(pallet.events().len(), 1);
}

#[test]
fn mint_fails_when_the_counter_is_at_its_maximum() {
    let mut pallet = Pallet::new();
    pallet.set_count_for_kitties(u32::MAX);
    assert_eq!(pallet.mint(ALICE, id(1)), Err(Error::TooManyKitties));
    assert_eq!(pallet.count_for_kitties(), u32::MAX);
    assert_eq!(pallet.kitties(&id(1)), None);
    assert_eq!(pallet.kitties_owned(ALICE), Vec::<[u8; 32]>::new());
    assert!(pallet.events().is_empty());
}

#[test]
fn mint_succeeds_just_below_the_maximum_of_the_counter() {
    let mut pallet = Pallet::new();
    pallet.set_count_for_kitties(u32::MAX - 1);
    assert_eq!(pallet.mint(ALICE, id(1)), Ok(()));
    assert_eq!(pallet.count_for_kitties(), u32::MAX);
    assert_eq!(pallet.mint(ALICE, id(2)), Err(Error::TooManyKitties));
}

#[test]
fn mint_fails_on_a_full_list() {
    let mut pallet = Pallet::new();
    for n in 0..MAX_OWNED {
        assert_eq!(pallet.mint(ALICE, id(n)), Ok(()));
    }
    assert_eq!(pallet.kitties_owned(ALICE).len(), 100);
    assert_eq!(pallet.mint(ALICE, id(MAX_OWNED)), Err(Error::TooManyOwned));
    assert_eq!(pallet.count_for_kitties(), 100);
    assert_eq!(pallet.kitties(&id(MAX_OWNED)), None);
    assert_eq!(pallet.kitties_owned(ALICE).len(), 100);
    assert_eq!(pallet.events().len(), 100);
    assert_eq!(pallet.mint(BOB, id(MAX_OWNED)), Ok(()));
    assert_eq!(pallet.count_for_kitties(), 101);
}

#[test]
fn mint_succeeds_one_below_a_full_list() {
    let mut pallet = Pallet::new();
    for n in 0..MAX_OWNED - 1 {
        assert_eq!(pallet.mint(ALICE, id(n)), Ok(()));
    }
    assert_eq!(pallet.kitties_owned(ALICE).len(), 99);
    assert_eq!(pallet.mint(ALICE, id(1000)), Ok(()));
    assert_eq!(pallet.kitties_owned(ALICE).len(), 100);
    assert_eq!(pallet.kitties_owned(ALICE)[99], id(1000));
}

#[test]
fn mint_checks_the_identity_then_the_counter_then_the_list() {
    let mut pallet = Pallet::new();
    for n in 0..MAX_OWNED {
        assert_eq!(pallet.mint(ALICE, id(n)), Ok(()));
    }
    pallet.set_count_for_kitties(u32::MAX);
    assert_eq!(pallet.mint(ALICE, id(0)), Err(Error::DuplicateKitty));
    assert_eq!(pallet.mint(ALICE, id(MAX_OWNED)), Err(Error::TooManyKitties));
    pallet.set_count_for_kitties(100);
    assert_eq!(pallet.mint(ALICE, id(0)), Err(Error::DuplicateKitty));
    assert_eq!(pallet.mint(ALICE, id(MAX_OWNED)), Err(Error::TooManyOwned));
}

#[test]
fn create_kitty_mints_under_the_generated_identity() {
    let context =
        BlockContext { parent_hash: [9u8; 32], block_number: 1, extrinsic_index: Some(0) };
    let mut pallet = Pallet::new();
    let expected = pallet.gen_dna(&context);
    assert_eq!(pallet.create_kitty(ALICE, &context), Ok(expected));
    assert_eq!(pallet.kitties(&expected), Some(Kitty { dna: expected, owner: ALICE, price: None }));
    assert_eq!(pallet.count_for_kitties(), 1);

    let next = pallet.gen_dna(&context);
    assert_ne!(next, expected);
    assert_eq!(pallet.create_kitty(BOB, &context), Ok(next));
    assert_eq!(pallet.kitties_owned(BOB), vec![next]);
}

#[test]
fn create_kitty_does_not_try_again_after_a_collision() {
    let context = BlockContext { parent_hash: [9u8; 32], block_number: 1, extrinsic_index: None };
    let mut pallet = Pallet::new();
    let taken = pallet.gen_dna(&context);
    pallet.insert_kitty(Kitty { dna: taken, owner: BOB, price: Some(5) });
    assert_eq!(pallet.create_kitty(ALICE, &context), Err(Error::DuplicateKitty));
    assert_eq!(pallet.count_for_kitties(), 0);
    assert_eq!(pallet.kitties(&taken), Some(Kitty { dna: taken, owner: BOB, price: Some(5) }));
    assert_eq!(pallet.kitties_owned(ALICE), Vec::<[u8; 32]>::new());
    assert!(pallet.events().is_empty());
}

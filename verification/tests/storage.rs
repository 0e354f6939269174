use kitties::owned::position_of;
use kitties::registry::Registry;
use kitties::types::same_dna;
use kitties::{Error, Kitty, Pallet, MAX_OWNED};

const ALICE: u64 = 1;
const BOB: u64 = 2;

fn id(n: u32) -> [u8; 32] {
    let mut dna = [0u8; 32];
    dna[28..].copy_from_slice(&n.to_le_bytes());
    dna
}

#[test]
fn same_dna_compares_all_bytes() {
    let a = [3u8; 32];
    let mut b = [3u8; 32];
    assert!(same_dna(&a, &b));
    b[31] = 4;
    assert!(!same_dna(&a, &b));
    b[31] = 3;
    b[0] = 2;
    assert!(!same_dna(&a, &b));
}

#[test]
fn position_of_gives_the_first_place() {
    let ids = vec![id(1), id(2), id(3), id(2)];
    assert_eq!(position_of(&ids, &id(1)), Some(0));
    assert_eq!(position_of(&ids, &id(2)), Some(1));
    assert_eq!(position_of(&ids, &id(3)), Some(2));
    assert_eq!(position_of(&ids, &id(4)), None);
    assert_eq!(position_of(&Vec::new(), &id(1)), None);
}

#[test]
fn registry_keeps_one_kitty_for_each_identity() {
    let mut registry = Registry::new();
    assert_eq!(registry.get(&id(1)), None);
    registry.insert(Kitty { dna: id(1), owner: ALICE, price: None });
    registry.insert(Kitty { dna: id(2), owner: BOB, price: Some(2) });
    assert_eq!(registry.get(&id(1)), Some(Kitty { dna: id(1), owner: ALICE, price: None }));
    assert_eq!(registry.get(&id(2)), Some(Kitty { dna: id(2), owner: BOB, price: Some(2) }));
    registry.insert(Kitty { dna: id(1), owner: BOB, price: Some(9) });
    assert_eq!(registry.get(&id(1)), Some(Kitty { dna: id(1), owner: BOB, price: Some(9) }));
    assert_eq!(registry.get(&id(2)), Some(Kitty { dna: id(2), owner: BOB, price: Some(2) }));
    assert_eq!(registry.get(&id(3)), None);
}

#[test]
fn insert_kitty_stores_under_the_kittys_identity() {
    let mut pallet = Pallet::new();
    pallet.insert_kitty(Kitty { dna: id(1), owner: ALICE, price: Some(1) });
    assert_eq!(pallet.kitties(&id(1)), Some(Kitty { dna: id(1), owner: ALICE, price: Some(1) }));
    pallet.insert_kitty(Kitty { dna: id(1), owner: BOB, price: None });
    assert_eq!(pallet.kitties(&id(1)), Some(Kitty { dna: id(1), owner: BOB, price: None }));
    assert_eq!(pallet.count_for_kitties(), 0);
    assert_eq!(pallet.kitties_owned(ALICE), Vec::<[u8; 32]>::new());
    assert!(pallet.events().is_empty());
}

#[test]
fn insert_kitties_owned_stores_the_list_as_given() {
    let mut pallet = Pallet::new();
    assert_eq!(pallet.insert_kitties_owned(ALICE, &vec![id(3), id(1), id(2)]), Ok(()));
    assert_eq!(pallet.kitties_owned(ALICE), vec![id(3), id(1), id(2)]);
    assert_eq!(pallet.kitties_owned(BOB), Vec::<[u8; 32]>::new());
    assert_eq!(pallet.insert_kitties_owned(ALICE, &vec![id(5)]), Ok(()));
    assert_eq!(pallet.kitties_owned(ALICE), vec![id(5)]);
    assert_eq!(pallet.insert_kitties_owned(ALICE, &Vec::new()), Ok(()));
    assert_eq!(pallet.kitties_owned(ALICE), Vec::<[u8; 32]>::new());
}

#[test]
fn insert_kitties_owned_refuses_more_than_an_account_can_own() {
    let mut pallet = Pallet::new();
    let full: Vec<[u8; 32]> = (0..MAX_OWNED).map(id).collect();
    let over: Vec<[u8; 32]> = (0..MAX_OWNED + 1).map(id).collect();
    assert_eq!(pallet.insert_kitties_owned(ALICE, &vec![id(7)]), Ok(()));
    assert_eq!(pallet.insert_kitties_owned(ALICE, &over), Err(Error::TooManyOwned));
    assert_eq!(pallet.kitties_owned(ALICE), vec![id(7)]);
    assert_eq!(pallet.insert_kitties_owned(ALICE, &full), Ok(()));
    assert_eq!(pallet.kitties_owned(ALICE), full);
}

#[test]
fn a_list_read_from_the_ledger_is_a_copy() {
    let mut pallet = Pallet::new();
    assert_eq!(pallet.mint(ALICE, id(1)), Ok(()));
    let mut read = pallet.kitties_owned(ALICE);
    read.push(id(2));
    read[0] = id(3);
    assert_eq!(pallet.kitties_owned(ALICE), vec![id(1)]);
    assert_eq!(pallet.mint(ALICE, id(2)), Ok(()));
    assert_eq!(pallet.kitties_owned(ALICE), vec![id(1), id(2)]);
}

#[test]
fn set_count_for_kitties_sets_the_counter_only() {
    let mut pallet = Pallet::new();
    assert_eq!(pallet.mint(ALICE, id(1)), Ok(()));
    pallet.set_count_for_kitties(41);
    assert_eq!(pallet.count_for_kitties(), 41);
    assert_eq!(pallet.kitties(&id(1)), Some(Kitty { dna: id(1), owner: ALICE, price: None }));
    assert_eq!(pallet.kitties_owned(ALICE), vec![id(1)]);
    assert_eq!(pallet.mint(ALICE, id(2)), Ok(()));
    assert_eq!(pallet.count_for_kitties(), 42);
}

use collectible_pallets::dispatch::{DispatchError, Origin};
use collectible_pallets::template::{Config, Error, Event, Gender, Kitty, Pallet};
use frame_support::pallet_prelude::Encode;
use sp_runtime::traits::BlakeTwo256;

const ALICE: u64 = 11;
const BOB: u64 = 12;

#[test]
fn gender_default_is_male() {
    assert_eq!(Gender::default(), Gender::Male);
}

#[test]
fn gender_follows_the_parity_of_the_first_byte() {
    let mut h = [0u8; 32];
    assert_eq!(Kitty::gender(&h), Gender::Male);
    h[0] = 7;
    assert_eq!(Kitty::gender(&h), Gender::Female);
    h[0] = 200;
    assert_eq!(Kitty::gender(&h), Gender::Male);
    assert_eq!(Pallet::generate_gender(&h), Gender::Male);
    h[0] = 201;
    assert_eq!(Pallet::generate_gender(&h), Gender::Female);
}

#[test]
fn generate_dna_hashes_the_encoded_pair() {
    let random = [3u8; 32];
    let dna = Pallet::generate_dna(&random, 9);
    assert_eq!(dna, (random, 9u32).using_encoded(sp_io::hashing::blake2_128));
    let mut manual = random.to_vec();
    manual.extend_from_slice(&9u32.to_le_bytes());
    assert_eq!(dna, sp_io::hashing::blake2_128(&manual));
    assert_ne!(dna, Pallet::generate_dna(&random, 10));
}

#[test]
fn hash_of_kitty_hashes_its_encoding() {
    let kitty = Kitty { owner: ALICE, dna: [5u8; 16], price: Some(300), gen: Gender::Female };
    let h = Pallet::hash_of_kitty(&kitty);
    let expected = <BlakeTwo256 as sp_runtime::traits::Hash>::hash_of(&(ALICE, [5u8; 16], Some(300u128), 1u8));
    assert_eq!(h, expected.0);
    let mut manual = ALICE.to_le_bytes().to_vec();
    manual.extend_from_slice(&[5u8; 16]);
    manual.push(1);
    manual.extend_from_slice(&300u128.to_le_bytes());
    manual.push(1);
    assert_eq!(h, sp_io::hashing::blake2_256(&manual));
    let male = Kitty { gen: Gender::Male, price: None, ..kitty };
    let mut manual = ALICE.to_le_bytes().to_vec();
    manual.extend_from_slice(&[5u8; 16]);
    manual.push(0);
    manual.push(0);
    assert_eq!(Pallet::hash_of_kitty(&male), sp_io::hashing::blake2_256(&manual));
}

#[test]
fn create_kitty_registers_the_kitty() {
    let mut p = Pallet::new(Config { max_kitties_owned: 5 });
    let dna_random = [1u8; 32];
    let gender_random = [2u8; 32];
    assert!(p.can_mint(&ALICE));
    assert_eq!(p.create_kitty(Origin::Signed(ALICE), dna_random, gender_random, 4), Ok(()));
    let kitty = Kitty {
        owner: ALICE,
        dna: Pallet::generate_dna(&dna_random, 4),
        price: None,
        gen: Gender::Male,
    };
    let kitty_id = Pallet::hash_of_kitty(&kitty);
    assert_eq!(p.events(), &vec![Event::Created(ALICE, kitty_id)]);
    assert_eq!(p.owner_of(&kitty_id), Some(ALICE));
    assert_eq!(p.kitty_by_index(0), Some(kitty_id));
    assert_eq!(p.kitty_by_index(1), None);
    assert_eq!(p.all_kitties_count(), 1);
    assert_eq!(p.owned_kitties_count(&ALICE), 1);
    assert_eq!(p.owned_kitties_count(&BOB), 0);
}

#[test]
fn create_kitty_needs_a_signed_origin() {
    let mut p = Pallet::new(Config { max_kitties_owned: 5 });
    assert_eq!(p.create_kitty(Origin::Root, [1u8; 32], [1u8; 32], 4), Err(DispatchError::BadOrigin));
    assert_eq!(p.all_kitties_count(), 0);
    assert!(p.events().is_empty());
}

#[test]
fn kitties_are_numbered_in_order() {
    let mut p = Pallet::new(Config { max_kitties_owned: 5 });
    p.create_kitty(Origin::Signed(ALICE), [1u8; 32], [1u8; 32], 1).unwrap();
    p.create_kitty(Origin::Signed(BOB), [1u8; 32], [1u8; 32], 1).unwrap();
    p.create_kitty(Origin::Signed(ALICE), [2u8; 32], [1u8; 32], 1).unwrap();
    assert_eq!(p.all_kitties_count(), 3);
    assert_eq!(p.owned_kitties_count(&ALICE), 2);
    assert_eq!(p.owned_kitties_count(&BOB), 1);
    let owners: Vec<_> = (0..3).map(|i| p.owner_of(&p.kitty_by_index(i).unwrap())).collect();
    assert_eq!(owners, vec![Some(ALICE), Some(BOB), Some(ALICE)]);
}

#[test]
fn mint_uses_given_gender_and_dna() {
    let mut p = Pallet::new(Config { max_kitties_owned: 5 });
    let r = p.mint(&BOB, Some(Gender::Female), Some([8u8; 16]), &[0u8; 32], &[0u8; 32], 1);
    let kitty = Kitty { owner: BOB, dna: [8u8; 16], price: None, gen: Gender::Female };
    assert_eq!(r, Ok(Pallet::hash_of_kitty(&kitty)));
    assert_eq!(p.owner_of(&r.unwrap()), Some(BOB));
    // Minting does not deposit the event; creating does.
    assert!(p.events().is_empty());
}

#[test]
fn mint_kitty_refuses_beyond_the_maximum_owned() {
    let mut p = Pallet::new(Config { max_kitties_owned: 1 });
    p.create_kitty(Origin::Signed(ALICE), [1u8; 32], [1u8; 32], 1).unwrap();
    assert!(!p.can_mint(&ALICE));
    assert!(p.can_mint(&BOB));
    let r = p.mint(&ALICE, None, None, &[9u8; 32], &[9u8; 32], 2);
    assert_eq!(r, Err(Error::ExceedMaxKittyOwned));
    assert_eq!(p.all_kitties_count(), 1);
    assert_eq!(p.owned_kitties_count(&ALICE), 1);
    assert_eq!(p.kitty_by_index(1), None);
}

use std::collections::HashMap;

use collectible_pallets::collectibles::{
    Collectible, Color, Config, Currency, Error, Event, ExistenceRequirement, Pallet, Payment,
    RequestLog,
};
use collectible_pallets::dispatch::{
    ensure_signed, AccountId, Balance, DispatchError, Origin, TokenError,
};
use frame_support::pallet_prelude::Encode;
use frame_support::Hashable;

const ALICE: AccountId = 1;
const BOB: AccountId = 2;
const CHARLIE: AccountId = 3;

/// A currency that records each payment asked of it with its answer, and
/// refuses them on demand; a refused payment moves nothing.
struct TestCurrency {
    balances: HashMap<AccountId, Balance>,
    refuse: bool,
    calls: Vec<(Payment, Result<(), DispatchError>)>,
}

impl TestCurrency {
    fn new() -> Self {
        let mut balances = HashMap::new();
        balances.insert(ALICE, 1_000);
        balances.insert(BOB, 1_000);
        balances.insert(CHARLIE, 1_000);
        TestCurrency { balances, refuse: false, calls: Vec::new() }
    }

    fn balance(&self, who: AccountId) -> Balance {
        *self.balances.get(&who).unwrap_or(&0)
    }
}

impl Currency for TestCurrency {
    // Only the verifier reads the record; `calls` holds it at run time.
    fn requests(&self) -> RequestLog {
        unreachable!()
    }

    fn transfer(
        &mut self,
        source: AccountId,
        dest: AccountId,
        value: Balance,
        existence_requirement: ExistenceRequirement,
    ) -> Result<(), DispatchError> {
        let payment = (source, dest, value, existence_requirement);
        if self.refuse || self.balance(source) < value {
            let refused = Err(DispatchError::Token(TokenError::FundsUnavailable));
            self.calls.push((payment, refused));
            return refused;
        }
        let s = self.balance(source);
        let d = self.balance(dest);
        self.balances.insert(source, s - value);
        self.balances.insert(dest, d + value);
        self.calls.push((payment, Ok(())));
        Ok(())
    }
}

fn id(b: u8) -> [u8; 16] {
    [b; 16]
}

fn pallet(max_owned: u32) -> Pallet {
    Pallet::new(Config { max_owned })
}

/// The pallet's storage is consistent: each collectible is listed by its
/// owner, each listed identifier names a collectible of the lister, lists
/// repeat nothing and respect the bound, and the count is the number of
/// collectibles.
fn assert_consistent(p: &Pallet, accounts: &[AccountId], ids: &[[u8; 16]], max_owned: u32) {
    let mut existing = 0u64;
    for i in ids {
        if let Some(c) = p.collectible(i) {
            existing += 1;
            assert_eq!(c.unique_id, *i);
            assert!(p.owned_collectibles(&c.owner).contains(i));
        }
    }
    assert_eq!(p.collectibles_count(), existing);
    for a in accounts {
        let list = p.owned_collectibles(a);
        assert!(list.len() as u32 <= max_owned);
        for (k, x) in list.iter().enumerate() {
            assert_eq!(p.collectible(x).unwrap().owner, *a);
            assert!(!list[k + 1..].contains(x));
        }
    }
}

#[test]
fn color_default_is_red() {
    assert_eq!(Color::default(), Color::Red);
}

#[test]
fn ensure_signed_gives_the_signer() {
    assert_eq!(ensure_signed(Origin::Signed(ALICE)), Ok(ALICE));
    assert_eq!(ensure_signed(Origin::Root), Err(DispatchError::BadOrigin));
    assert_eq!(ensure_signed(Origin::Unsigned), Err(DispatchError::BadOrigin));
}

#[test]
fn generate_id_hashes_the_encoded_payload() {
    let random = [7u8; 32];
    let (uid, color) = Pallet::generate_id(&random, Some(3), 42);
    let payload = (random, 3u32, 42u32).encode();
    assert_eq!(payload.len(), 40);
    assert_eq!(uid, Hashable::blake2_128(&payload));
    // The vector is hashed with its one-byte length prefix.
    let mut prefixed = vec![160u8];
    prefixed.extend_from_slice(&payload);
    assert_eq!(uid, sp_io::hashing::blake2_128(&prefixed));
    // The encoding is the random bytes and two little-endian words.
    let mut manual = random.to_vec();
    manual.extend_from_slice(&3u32.to_le_bytes());
    manual.extend_from_slice(&42u32.to_le_bytes());
    assert_eq!(payload, manual);
    let expected_color = if uid[0] % 2 == 0 { Color::Red } else { Color::Yellow };
    assert_eq!(color, expected_color);
}

#[test]
fn generate_id_without_extrinsic_index_uses_zero() {
    let random = [9u8; 32];
    assert_eq!(Pallet::generate_id(&random, None, 5), Pallet::generate_id(&random, Some(0), 5));
    assert_ne!(Pallet::generate_id(&random, None, 5).0, Pallet::generate_id(&random, Some(1), 5).0);
}

#[test]
fn create_collectible_mints_for_the_signer() {
    let mut p = pallet(10);
    let random = [1u8; 32];
    assert_eq!(p.create_collectible(Origin::Signed(ALICE), random, Some(0), 1), Ok(()));
    let (uid, color) = Pallet::generate_id(&random, Some(0), 1);
    assert_eq!(p.collectibles_count(), 1);
    assert_eq!(
        p.collectible(&uid),
        Some(Collectible { unique_id: uid, price: None, color, owner: ALICE })
    );
    assert_eq!(p.owned_collectibles(&ALICE), vec![uid]);
    assert_eq!(p.events(), &vec![Event::CollectibleCreated { collectible: uid, owner: ALICE }]);
}

#[test]
fn create_collectible_needs_a_signed_origin() {
    let mut p = pallet(10);
    assert_eq!(p.create_collectible(Origin::Root, [1u8; 32], Some(0), 1), Err(DispatchError::BadOrigin));
    assert_eq!(
        p.create_collectible(Origin::Unsigned, [1u8; 32], Some(0), 1),
        Err(DispatchError::BadOrigin)
    );
    assert_eq!(p.collectibles_count(), 0);
    assert!(p.events().is_empty());
}

#[test]
fn create_collectible_twice_in_the_same_extrinsic_is_a_duplicate() {
    let mut p = pallet(10);
    assert_eq!(p.create_collectible(Origin::Signed(ALICE), [1u8; 32], Some(0), 1), Ok(()));
    assert_eq!(
        p.create_collectible(Origin::Signed(BOB), [1u8; 32], Some(0), 1),
        Err(DispatchError::Module(Error::DuplicateCollectible))
    );
    assert_eq!(p.collectibles_count(), 1);
    assert!(p.owned_collectibles(&BOB).is_empty());
}

#[test]
fn mint_returns_the_identifier() {
    let mut p = pallet(10);
    assert_eq!(p.mint(&ALICE, id(1), Color::Blue), Ok(id(1)));
    assert_eq!(p.collectible(&id(1)).unwrap().color, Color::Blue);
    assert_eq!(p.collectible(&id(1)).unwrap().price, None);
}

#[test]
fn mint_refuses_a_duplicate() {
    let mut p = pallet(10);
    p.mint(&ALICE, id(1), Color::Red).unwrap();
    assert_eq!(
        p.mint(&BOB, id(1), Color::Green),
        Err(DispatchError::Module(Error::DuplicateCollectible))
    );
    assert_eq!(p.collectible(&id(1)).unwrap().owner, ALICE);
    assert_eq!(p.events().len(), 1);
}

#[test]
fn mint_refuses_beyond_the_maximum_owned() {
    let mut p = pallet(2);
    p.mint(&ALICE, id(1), Color::Red).unwrap();
    p.mint(&ALICE, id(2), Color::Red).unwrap();
    assert_eq!(
        p.mint(&ALICE, id(3), Color::Red),
        Err(DispatchError::Module(Error::MaximumCollectiblesOwned))
    );
    assert_eq!(p.collectibles_count(), 2);
    assert_eq!(p.collectible(&id(3)), None);
    assert_eq!(p.mint(&BOB, id(3), Color::Red), Ok(id(3)));
}

#[test]
fn mint_with_no_room_at_all() {
    let mut p = pallet(0);
    assert_eq!(
        p.mint(&ALICE, id(1), Color::Red),
        Err(DispatchError::Module(Error::MaximumCollectiblesOwned))
    );
}

#[test]
fn transfer_moves_and_takes_off_sale() {
    let mut p = pallet(10);
    p.mint(&ALICE, id(1), Color::Red).unwrap();
    p.set_price(Origin::Signed(ALICE), Some(50), id(1)).unwrap();
    let events_before = p.events().len();
    assert_eq!(p.transfer(Origin::Signed(ALICE), BOB, id(1)), Ok(()));
    let c = p.collectible(&id(1)).unwrap();
    assert_eq!(c.owner, BOB);
    assert_eq!(c.price, None);
    assert!(p.owned_collectibles(&ALICE).is_empty());
    assert_eq!(p.owned_collectibles(&BOB), vec![id(1)]);
    // A transfer deposits the transfer as an event.
    assert_eq!(p.events().len(), events_before + 1);
    assert_eq!(
        p.events().last(),
        Some(&Event::TransferSucceeded { collectible: id(1), from: ALICE, to: BOB })
    );
    assert_eq!(p.collectibles_count(), 1);
}

#[test]
fn transfer_swaps_the_last_into_the_gap() {
    let mut p = pallet(10);
    p.mint(&ALICE, id(1), Color::Red).unwrap();
    p.mint(&ALICE, id(2), Color::Red).unwrap();
    p.mint(&ALICE, id(3), Color::Red).unwrap();
    assert_eq!(p.transfer(Origin::Signed(ALICE), BOB, id(1)), Ok(()));
    assert_eq!(p.owned_collectibles(&ALICE), vec![id(3), id(2)]);
    assert_eq!(p.transfer(Origin::Signed(ALICE), BOB, id(2)), Ok(()));
    assert_eq!(p.owned_collectibles(&ALICE), vec![id(3)]);
    assert_eq!(p.owned_collectibles(&BOB), vec![id(1), id(2)]);
}

#[test]
fn transfer_errors() {
    let mut p = pallet(1);
    p.mint(&ALICE, id(1), Color::Red).unwrap();
    p.mint(&BOB, id(2), Color::Red).unwrap();
    assert_eq!(p.transfer(Origin::Root, BOB, id(1)), Err(DispatchError::BadOrigin));
    assert_eq!(
        p.transfer(Origin::Signed(ALICE), BOB, id(9)),
        Err(DispatchError::Module(Error::NoCollectible))
    );
    assert_eq!(
        p.transfer(Origin::Signed(BOB), CHARLIE, id(1)),
        Err(DispatchError::Module(Error::NotOwner))
    );
    assert_eq!(
        p.transfer(Origin::Signed(ALICE), ALICE, id(1)),
        Err(DispatchError::Module(Error::TransferToYourself))
    );
    assert_eq!(
        p.transfer(Origin::Signed(ALICE), BOB, id(1)),
        Err(DispatchError::Module(Error::MaximumCollectiblesOwned))
    );
    assert_eq!(p.collectible(&id(1)).unwrap().owner, ALICE);
    assert_eq!(p.owned_collectibles(&ALICE), vec![id(1)]);
    assert_eq!(p.owned_collectibles(&BOB), vec![id(2)]);
}

#[test]
fn do_transfer_needs_no_owner_check() {
    let mut p = pallet(10);
    p.mint(&ALICE, id(1), Color::Red).unwrap();
    assert_eq!(p.do_transfer(id(1), CHARLIE), Ok(()));
    assert_eq!(p.collectible(&id(1)).unwrap().owner, CHARLIE);
    assert_eq!(p.do_transfer(id(7), CHARLIE), Err(DispatchError::Module(Error::NoCollectible)));
    assert_eq!(
        p.do_transfer(id(1), CHARLIE),
        Err(DispatchError::Module(Error::TransferToYourself))
    );
}

#[test]
fn set_price_puts_on_and_takes_off_sale() {
    let mut p = pallet(10);
    p.mint(&ALICE, id(1), Color::Yellow).unwrap();
    assert_eq!(p.set_price(Origin::Signed(ALICE), Some(25), id(1)), Ok(()));
    assert_eq!(p.collectible(&id(1)).unwrap().price, Some(25));
    assert_eq!(p.set_price(Origin::Signed(ALICE), None, id(1)), Ok(()));
    assert_eq!(p.collectible(&id(1)).unwrap().price, None);
    assert_eq!(
        &p.events()[1..],
        &[
            Event::PriceSet { collectible: id(1), price: Some(25) },
            Event::PriceSet { collectible: id(1), price: None },
        ]
    );
}

#[test]
fn set_price_errors() {
    let mut p = pallet(10);
    p.mint(&ALICE, id(1), Color::Yellow).unwrap();
    assert_eq!(p.set_price(Origin::Unsigned, Some(1), id(1)), Err(DispatchError::BadOrigin));
    assert_eq!(
        p.set_price(Origin::Signed(ALICE), Some(1), id(2)),
        Err(DispatchError::Module(Error::NoCollectible))
    );
    assert_eq!(
        p.set_price(Origin::Signed(BOB), Some(1), id(1)),
        Err(DispatchError::Module(Error::NotOwner))
    );
    assert_eq!(p.collectible(&id(1)).unwrap().price, None);
    assert_eq!(p.events().len(), 1);
}

#[test]
fn buy_pays_and_moves() {
    let mut p = pallet(10);
    let mut currency = TestCurrency::new();
    p.mint(&ALICE, id(1), Color::Red).unwrap();
    p.set_price(Origin::Signed(ALICE), Some(100), id(1)).unwrap();
    assert_eq!(p.check_buy(150, id(1), BOB), Ok((ALICE, 100)));
    assert_eq!(p.buy_collective(Origin::Signed(BOB), id(1), 150, &mut currency), Ok(()));
    // The asked price, not the bid, moves from the buyer's account to the
    // seller's, keeping the payer alive.
    assert_eq!(currency.calls, vec![((BOB, ALICE, 100, ExistenceRequirement::KeepAlive), Ok(()))]);
    assert_eq!(currency.balance(ALICE), 1_100);
    assert_eq!(currency.balance(BOB), 900);
    let c = p.collectible(&id(1)).unwrap();
    assert_eq!(c.owner, BOB);
    assert_eq!(c.price, None);
    assert!(p.owned_collectibles(&ALICE).is_empty());
    assert_eq!(p.owned_collectibles(&BOB), vec![id(1)]);
    let n = p.events().len();
    assert_eq!(
        &p.events()[n - 2..],
        &[
            Event::CollectibleSold {
                collectible: id(1),
                seller: ALICE,
                buyer: BOB,
                price: Some(100),
            },
            Event::TransferSucceeded { collectible: id(1), from: ALICE, to: BOB },
        ]
    );
    // Sold collectibles are no longer for sale.
    assert_eq!(
        p.buy_collective(Origin::Signed(CHARLIE), id(1), 1_000, &mut currency),
        Err(DispatchError::Module(Error::NotForSale))
    );
}

#[test]
fn buy_at_exactly_the_price() {
    let mut p = pallet(10);
    let mut currency = TestCurrency::new();
    p.mint(&ALICE, id(1), Color::Red).unwrap();
    p.set_price(Origin::Signed(ALICE), Some(100), id(1)).unwrap();
    assert_eq!(p.do_buy_collectible(100, id(1), BOB, &mut currency), Ok(()));
    assert_eq!(p.collectible(&id(1)).unwrap().owner, BOB);
}

#[test]
fn buy_errors() {
    let mut p = pallet(1);
    let mut currency = TestCurrency::new();
    p.mint(&ALICE, id(1), Color::Red).unwrap();
    p.mint(&CHARLIE, id(2), Color::Red).unwrap();
    assert_eq!(
        p.buy_collective(Origin::Root, id(1), 10, &mut currency),
        Err(DispatchError::BadOrigin)
    );
    assert_eq!(
        p.buy_collective(Origin::Signed(BOB), id(5), 10, &mut currency),
        Err(DispatchError::Module(Error::NoCollectible))
    );
    assert_eq!(
        p.buy_collective(Origin::Signed(ALICE), id(1), 10, &mut currency),
        Err(DispatchError::Module(Error::TransferToYourself))
    );
    assert_eq!(
        p.buy_collective(Origin::Signed(BOB), id(1), 10, &mut currency),
        Err(DispatchError::Module(Error::NotForSale))
    );
    p.set_price(Origin::Signed(ALICE), Some(50), id(1)).unwrap();
    assert_eq!(
        p.buy_collective(Origin::Signed(BOB), id(1), 49, &mut currency),
        Err(DispatchError::Module(Error::BidPriceTooSlow))
    );
    assert_eq!(
        p.buy_collective(Origin::Signed(CHARLIE), id(1), 60, &mut currency),
        Err(DispatchError::Module(Error::MaximumCollectiblesOwned))
    );
    assert!(currency.calls.is_empty());
    assert_eq!(p.collectible(&id(1)).unwrap().owner, ALICE);
}

#[test]
fn buy_refused_by_the_currency_changes_nothing() {
    let mut p = pallet(10);
    let mut currency = TestCurrency::new();
    currency.refuse = true;
    p.mint(&ALICE, id(1), Color::Red).unwrap();
    p.set_price(Origin::Signed(ALICE), Some(50), id(1)).unwrap();
    let events_before = p.events().clone();
    assert_eq!(
        p.buy_collective(Origin::Signed(BOB), id(1), 60, &mut currency),
        Err(DispatchError::Token(TokenError::FundsUnavailable))
    );
    assert_eq!(
        currency.calls,
        vec![(
            (BOB, ALICE, 50, ExistenceRequirement::KeepAlive),
            Err(DispatchError::Token(TokenError::FundsUnavailable))
        )]
    );
    assert_eq!(currency.balance(ALICE), 1_000);
    assert_eq!(currency.balance(BOB), 1_000);
    let c = p.collectible(&id(1)).unwrap();
    assert_eq!(c.owner, ALICE);
    assert_eq!(c.price, Some(50));
    assert_eq!(p.owned_collectibles(&ALICE), vec![id(1)]);
    assert_eq!(p.events(), &events_before);
}

#[test]
fn check_buy_names_the_payment() {
    let mut p = pallet(10);
    p.mint(&ALICE, id(1), Color::Red).unwrap();
    assert_eq!(p.check_buy(10, id(1), BOB), Err(Error::NotForSale));
    p.set_price(Origin::Signed(ALICE), Some(7), id(1)).unwrap();
    assert_eq!(p.check_buy(6, id(1), BOB), Err(Error::BidPriceTooSlow));
    assert_eq!(p.check_buy(7, id(1), BOB), Ok((ALICE, 7)));
    assert_eq!(p.check_buy(7, id(1), ALICE), Err(Error::TransferToYourself));
    assert_eq!(p.check_buy(7, id(3), BOB), Err(Error::NoCollectible));
}

#[test]
fn storage_stays_consistent_through_a_session() {
    let accounts = [ALICE, BOB, CHARLIE];
    let ids: Vec<[u8; 16]> = (0u8..8).map(id).collect();
    let mut p = pallet(3);
    let mut currency = TestCurrency::new();
    assert_consistent(&p, &accounts, &ids, 3);
    for (k, i) in ids.iter().enumerate() {
        let owner = accounts[k % 3];
        let _ = p.mint(&owner, *i, Color::Green);
        assert_consistent(&p, &accounts, &ids, 3);
    }
    let _ = p.transfer(Origin::Signed(ALICE), BOB, ids[0]);
    assert_consistent(&p, &accounts, &ids, 3);
    let _ = p.transfer(Origin::Signed(BOB), CHARLIE, ids[1]);
    assert_consistent(&p, &accounts, &ids, 3);
    let _ = p.set_price(Origin::Signed(CHARLIE), Some(5), ids[2]);
    let _ = p.buy_collective(Origin::Signed(ALICE), ids[2], 5, &mut currency);
    assert_consistent(&p, &accounts, &ids, 3);
    let _ = p.transfer(Origin::Signed(ALICE), CHARLIE, ids[2]);
    assert_consistent(&p, &accounts, &ids, 3);
    let total: usize = accounts.iter().map(|a| p.owned_collectibles(a).len()).sum();
    assert_eq!(total as u64, p.collectibles_count());
}

#[test]
fn buyer_without_funds_is_refused() {
    let mut p = pallet(10);
    let mut currency = TestCurrency::new();
    p.mint(&ALICE, id(1), Color::Red).unwrap();
    p.set_price(Origin::Signed(ALICE), Some(5_000), id(1)).unwrap();
    assert_eq!(
        p.do_buy_collectible(5_000, id(1), BOB, &mut currency),
        Err(DispatchError::Token(TokenError::FundsUnavailable))
    );
    assert_eq!(p.collectible(&id(1)).unwrap().owner, ALICE);
    assert_eq!(currency.calls.len(), 1);
    assert_eq!(currency.balance(BOB), 1_000);
}

#[test]
fn complete_sale_follows_the_payment() {
    let mut p = pallet(10);
    p.mint(&ALICE, id(1), Color::Red).unwrap();
    p.set_price(Origin::Signed(ALICE), Some(30), id(1)).unwrap();
    let refused = Err(DispatchError::Token(TokenError::Frozen));
    assert_eq!(p.complete_sale(refused, id(1), ALICE, BOB, 30), refused);
    assert_eq!(p.collectible(&id(1)).unwrap().owner, ALICE);
    assert_eq!(p.events().len(), 2);
    assert_eq!(p.complete_sale(Ok(()), id(1), ALICE, BOB, 30), Ok(()));
    let c = p.collectible(&id(1)).unwrap();
    assert_eq!(c.owner, BOB);
    assert_eq!(c.price, None);
    assert_eq!(
        &p.events()[2..],
        &[
            Event::CollectibleSold {
                collectible: id(1),
                seller: ALICE,
                buyer: BOB,
                price: Some(30),
            },
            Event::TransferSucceeded { collectible: id(1), from: ALICE, to: BOB },
        ]
    );
}

#[test]
fn minted_id_stays_taken_after_other_calls() {
    let mut p = pallet(10);
    let mut currency = TestCurrency::new();
    p.mint(&ALICE, id(1), Color::Red).unwrap();
    p.transfer(Origin::Signed(ALICE), BOB, id(1)).unwrap();
    p.set_price(Origin::Signed(BOB), Some(10), id(1)).unwrap();
    p.buy_collective(Origin::Signed(CHARLIE), id(1), 10, &mut currency).unwrap();
    p.mint(&BOB, id(2), Color::Red).unwrap();
    assert_eq!(
        p.mint(&ALICE, id(1), Color::Green),
        Err(DispatchError::Module(Error::DuplicateCollectible))
    );
    assert_eq!(p.collectible(&id(1)).unwrap().owner, CHARLIE);
    assert_eq!(p.collectibles_count(), 2);
}

#[test]
fn transferred_collectible_stays_off_sale_until_priced() {
    let mut p = pallet(10);
    let mut currency = TestCurrency::new();
    p.mint(&ALICE, id(1), Color::Red).unwrap();
    p.mint(&ALICE, id(2), Color::Red).unwrap();
    p.set_price(Origin::Signed(ALICE), Some(10), id(1)).unwrap();
    p.transfer(Origin::Signed(ALICE), BOB, id(1)).unwrap();
    p.set_price(Origin::Signed(ALICE), Some(3), id(2)).unwrap();
    p.buy_collective(Origin::Signed(CHARLIE), id(2), 3, &mut currency).unwrap();
    assert_eq!(
        p.buy_collective(Origin::Signed(CHARLIE), id(1), 1_000, &mut currency),
        Err(DispatchError::Module(Error::NotForSale))
    );
    p.set_price(Origin::Signed(BOB), Some(10), id(1)).unwrap();
    assert_eq!(p.buy_collective(Origin::Signed(CHARLIE), id(1), 10, &mut currency), Ok(()));
}

//! The kitties pallet: signed accounts create kitties, each with a DNA drawn
//! from the runtime's randomness, registered by the hash of its contents.

use vstd::prelude::*;

use crate::dispatch::{ensure_signed, AccountId, Balance, BlockNumber, DispatchResult, Origin};
use crate::hashing::{
    blake2_128,
    blake_two_256,
    encode_dna_payload,
    encode_kitty_fields,
    le_bytes,
    option_u128_bytes,
    spec_blake2_128,
    spec_blake2_256,
};
use crate::keymap::KeyMap;

verus! {

/// A hash of the runtime, which identifies a kitty.
pub type KittyHash = [u8; 32];

/// The gender of a kitty.
#[derive(Clone, Copy, Debug, PartialEq, Eq, Structural)]
pub enum Gender {
    Male,
    Female,
}

impl Default for Gender {
    fn default() -> (g: Self)
        ensures
            g == Gender::Male,
    {
        Gender::Male
    }
}

/// The gender that a byte of randomness gives: male for an even byte.
pub open spec fn gender_of(b: u8) -> Gender {
    if b % 2 == 0 {
        Gender::Male
    } else {
        Gender::Female
    }
}

/// The index of a gender in its SCALE encoding: the order of the variants.
pub open spec fn gender_index(g: Gender) -> u8 {
    match g {
        Gender::Male => 0,
        Gender::Female => 1,
    }
}

/// A kitty.
#[derive(Clone, Copy, Debug, PartialEq, Eq)]
pub struct Kitty {
    pub owner: AccountId,
    pub dna: [u8; 16],
    pub price: Option<Balance>,
    pub gen: Gender,
}

/// The SCALE encoding of a kitty: its fields in order.
pub open spec fn kitty_encoding(k: Kitty) -> Seq<u8> {
    le_bytes(k.owner as nat, 8) + k.dna@ + option_u128_bytes(k.price) + seq![gender_index(k.gen)]
}

/// The hash that identifies a kitty: the Blake2 digest of its encoding.
pub open spec fn kitty_id(k: Kitty) -> KittyHash {
    spec_blake2_256(kitty_encoding(k))
}

/// The DNA that randomness gives a kitty born in `block_number`: the Blake2
/// digest of the encoded pair.
pub open spec fn generated_dna(random: KittyHash, block_number: BlockNumber) -> [u8; 16] {
    spec_blake2_128(random@ + le_bytes(block_number as nat, 4))
}

impl Kitty {
    /// The gender that a hash gives: male when its first byte is even.
    pub fn gender(dna: &KittyHash) -> (g: Gender)
        ensures
            g == gender_of(dna[0]),
            g == (if dna[0] % 2 == 0 { Gender::Male } else { Gender::Female }),
    {
        if dna[0] % 2 == 0 {
            Gender::Male
        } else {
            Gender::Female
        }
    }
}

/// The configuration of the pallet.
#[derive(Clone, Copy, Debug, PartialEq, Eq, Structural)]
pub struct Config {
    /// The most kitties that one account may own.
    pub max_kitties_owned: u32,
}

/// Events that the pallet deposits.
#[derive(Clone, Copy, Debug, PartialEq, Eq)]
pub enum Event {
    /// An account created a kitty.
    Created(AccountId, KittyHash),
}

/// Errors of the pallet.
#[derive(Clone, Copy, Debug, PartialEq, Eq, Structural)]
pub enum Error {
    NoKittyOwner,
    ExceedMaxKittyOwned,
    MaxKittiesOwned,
    KittyCountOverflow,
}

/// The pallet's storage, as mathematical values.
pub struct KittiesState {
    pub max_kitties_owned: u32,
    /// The kitties of each account.
    pub kitties_owned: Map<AccountId, Seq<KittyHash>>,
    /// How many kitties each account owns.
    pub owned_kitties_count: Map<AccountId, u64>,
    /// The position of each kitty in the list of its owner.
    pub owned_kitties_index: Map<KittyHash, u64>,
    /// How many kitties were created.
    pub all_kitties_count: u64,
    /// The kitties in the order of their creation.
    pub all_kitties_array: Map<u64, KittyHash>,
    /// The position of each kitty in the order of creation.
    pub all_kitties_index: Map<KittyHash, u64>,
    /// Each kitty, by its hash.
    pub kitty_data: Map<KittyHash, Kitty>,
    /// The owner of each kitty.
    pub kitty_owner: Map<KittyHash, AccountId>,
    /// The events deposited so far.
    pub events: Seq<Event>,
}

impl KittiesState {
    /// The storage of a new chain.
    pub open spec fn genesis(max_kitties_owned: u32) -> KittiesState {
        KittiesState {
            max_kitties_owned,
            kitties_owned: Map::empty(),
            owned_kitties_count: Map::empty(),
            owned_kitties_index: Map::empty(),
            all_kitties_count: 0,
            all_kitties_array: Map::empty(),
            all_kitties_index: Map::empty(),
            kitty_data: Map::empty(),
            kitty_owner: Map::empty(),
            events: Seq::empty(),
        }
    }

    /// The kitties of `who`; none where nothing is stored.
    pub open spec fn kitties_of(self, who: AccountId) -> Seq<KittyHash> {
        if self.kitties_owned.contains_key(who) {
            self.kitties_owned[who]
        } else {
            Seq::empty()
        }
    }

    /// How many kitties `who` owns; zero where nothing is stored.
    pub open spec fn owned_count_of(self, who: AccountId) -> u64 {
        if self.owned_kitties_count.contains_key(who) {
            self.owned_kitties_count[who]
        } else {
            0
        }
    }

    /// The kitty that `owner` gets from the given gender and DNA, or, where
    /// they are not given, from randomness and the block number.
    pub open spec fn new_kitty(
        owner: AccountId,
        gender: Option<Gender>,
        dna: Option<[u8; 16]>,
        dna_random: KittyHash,
        gender_random: KittyHash,
        block_number: BlockNumber,
    ) -> Kitty {
        Kitty {
            dna: match dna {
                Some(d) => d,
                None => generated_dna(dna_random, block_number),
            },
            price: None,
            gen: match gender {
                Some(g) => g,
                None => gender_of(gender_random[0]),
            },
            owner,
        }
    }

    /// Whether `owner` can be given another kitty.
    pub open spec fn can_mint(self, owner: AccountId) -> bool {
        &&& self.owned_count_of(owner) < u64::MAX
        &&& self.all_kitties_count < u64::MAX
        &&& self.kitties_of(owner).len() < self.max_kitties_owned
    }

    /// The storage after minting `kitty` for `owner`, and the result. When
    /// the owner has no room left, the kitty's data is stored all the same.
    pub open spec fn mint(self, owner: AccountId, kitty: Kitty) -> (KittiesState, Result<KittyHash, Error>) {
        if self.owned_count_of(owner) == u64::MAX || self.all_kitties_count == u64::MAX {
            (self, Err(Error::KittyCountOverflow))
        } else {
            let id = kitty_id(kitty);
            let owned = (self.owned_count_of(owner) + 1) as u64;
            let all = (self.all_kitties_count + 1) as u64;
            let stored = KittiesState { kitty_data: self.kitty_data.insert(id, kitty), ..self };
            if self.kitties_of(owner).len() >= self.max_kitties_owned {
                (stored, Err(Error::ExceedMaxKittyOwned))
            } else {
                (
                    KittiesState {
                        kitties_owned: self.kitties_owned.insert(owner, self.kitties_of(owner).push(id)),
                        kitty_owner: self.kitty_owner.insert(id, owner),
                        all_kitties_count: all,
                        all_kitties_array: self.all_kitties_array.insert((all - 1) as u64, id),
                        all_kitties_index: self.all_kitties_index.insert(id, (all - 1) as u64),
                        owned_kitties_count: self.owned_kitties_count.insert(owner, owned),
                        owned_kitties_index: self.owned_kitties_index.insert(id, (owned - 1) as u64),
                        ..stored
                    },
                    Ok(id),
                )
            }
        }
    }
}

impl KittiesState {
    /// The registry is consistent: the kitties are numbered from zero up to
    /// their count, each numbered kitty has data and an owner, each account's
    /// count of kitties is the length of its list, which holds no more than
    /// the most it may, the index of each kitty in the order of creation names
    /// it, and the index of each kitty in the list of its owner names it.
    pub open spec fn consistent(self) -> bool {
        &&& forall|i: u64| #[trigger]
            self.all_kitties_array.contains_key(i) <==> i < self.all_kitties_count
        &&& forall|i: u64| #[trigger]
            self.all_kitties_array.contains_key(i) ==> {
                &&& self.kitty_data.contains_key(self.all_kitties_array[i])
                &&& self.kitty_owner.contains_key(self.all_kitties_array[i])
            }
        &&& forall|who: AccountId| #[trigger]
            self.owned_count_of(who) == self.kitties_of(who).len()
        &&& forall|who: AccountId| #[trigger]
            self.kitties_of(who).len() <= self.max_kitties_owned
        &&& forall|id: KittyHash| #[trigger]
            self.all_kitties_index.contains_key(id) ==> {
                &&& self.all_kitties_array.contains_key(self.all_kitties_index[id])
                &&& self.all_kitties_array[self.all_kitties_index[id]] == id
            }
        &&& forall|id: KittyHash| #[trigger]
            self.owned_kitties_index.contains_key(id) ==> {
                &&& self.kitty_owner.contains_key(id)
                &&& self.owned_kitties_index[id] < self.kitties_of(self.kitty_owner[id]).len()
                &&& self.kitties_of(self.kitty_owner[id])[self.owned_kitties_index[id] as int] == id
            }
    }
}

/// A new chain's registry is consistent.
pub proof fn law_genesis_consistent(max_kitties_owned: u32)
    ensures
        KittiesState::genesis(max_kitties_owned).consistent(),
{
}

/// Minting keeps the registry consistent, whether it succeeds or not.
pub proof fn law_mint_keeps_consistent(s: KittiesState, owner: AccountId, kitty: Kitty)
    requires
        s.consistent(),
    ensures
        s.mint(owner, kitty).0.consistent(),
{
    let (t, r) = s.mint(owner, kitty);
    if r is Ok {
        let id = kitty_id(kitty);
        assert forall|i: u64| #[trigger]
            t.all_kitties_array.contains_key(i) <==> i < t.all_kitties_count by {
            assert(s.all_kitties_array.contains_key(i) <==> i < s.all_kitties_count);
        }
        assert forall|who: AccountId| #[trigger] t.owned_count_of(who) == t.kitties_of(who).len() by {
            assert(s.owned_count_of(who) == s.kitties_of(who).len());
        }
        assert forall|who: AccountId| #[trigger] t.kitties_of(who).len() <= t.max_kitties_owned by {
            assert(s.kitties_of(who).len() <= s.max_kitties_owned);
        }
        assert forall|i: u64| #[trigger] t.all_kitties_array.contains_key(i) implies {
            &&& t.kitty_data.contains_key(t.all_kitties_array[i])
            &&& t.kitty_owner.contains_key(t.all_kitties_array[i])
        } by {
            if i != s.all_kitties_count {
                assert(s.all_kitties_array.contains_key(i));
            }
        }
        assert forall|k: KittyHash| #[trigger] t.all_kitties_index.contains_key(k) implies {
            &&& t.all_kitties_array.contains_key(t.all_kitties_index[k])
            &&& t.all_kitties_array[t.all_kitties_index[k]] == k
        } by {
            if k != id {
                assert(s.all_kitties_index.contains_key(k));
                assert(s.all_kitties_array.contains_key(s.all_kitties_index[k]));
                assert(s.all_kitties_index[k] != s.all_kitties_count);
            }
        }
        assert forall|k: KittyHash| #[trigger] t.owned_kitties_index.contains_key(k) implies {
            &&& t.kitty_owner.contains_key(k)
            &&& t.owned_kitties_index[k] < t.kitties_of(t.kitty_owner[k]).len()
            &&& t.kitties_of(t.kitty_owner[k])[t.owned_kitties_index[k] as int] == k
        } by {
            if k != id {
                assert(s.owned_kitties_index.contains_key(k));
                let o = s.kitty_owner[k];
                assert(t.kitty_owner[k] == o);
                if o == owner {
                    assert(t.kitties_of(o) == s.kitties_of(o).push(id));
                } else {
                    assert(t.kitties_of(o) == s.kitties_of(o));
                }
            } else {
                assert(t.kitties_of(owner) == s.kitties_of(owner).push(id));
                assert(s.owned_count_of(owner) == s.kitties_of(owner).len());
            }
        }
    } else {
        assert forall|k: KittyHash| #[trigger] t.all_kitties_index.contains_key(k) implies {
            &&& t.all_kitties_array.contains_key(t.all_kitties_index[k])
            &&& t.all_kitties_array[t.all_kitties_index[k]] == k
        } by {
            assert(s.all_kitties_index.contains_key(k));
        }
        assert forall|k: KittyHash| #[trigger] t.owned_kitties_index.contains_key(k) implies {
            &&& t.kitty_owner.contains_key(k)
            &&& t.owned_kitties_index[k] < t.kitties_of(t.kitty_owner[k]).len()
            &&& t.kitties_of(t.kitty_owner[k])[t.owned_kitties_index[k] as int] == k
        } by {
            assert(s.owned_kitties_index.contains_key(k));
            assert(t.kitties_of(s.kitty_owner[k]) == s.kitties_of(s.kitty_owner[k]));
        }
        assert forall|i: u64| #[trigger]
            t.all_kitties_array.contains_key(i) <==> i < t.all_kitties_count by {
            assert(s.all_kitties_array.contains_key(i) <==> i < s.all_kitties_count);
        }
        assert forall|who: AccountId| #[trigger] t.owned_count_of(who) == t.kitties_of(who).len() by {
            assert(s.owned_count_of(who) == s.kitties_of(who).len());
        }
        assert forall|who: AccountId| #[trigger] t.kitties_of(who).len() <= t.max_kitties_owned by {
            assert(s.kitties_of(who).len() <= s.max_kitties_owned);
        }
        assert forall|i: u64| #[trigger] t.all_kitties_array.contains_key(i) implies {
            &&& t.kitty_data.contains_key(t.all_kitties_array[i])
            &&& t.kitty_owner.contains_key(t.all_kitties_array[i])
        } by {
            assert(s.all_kitties_array.contains_key(i));
        }
    }
}

/// A successful mint registers the kitty under its hash, with its owner, at
/// the next position in the order of creation, and at the end of the list of
/// its owner.
pub proof fn law_mint_effect(s: KittiesState, owner: AccountId, kitty: Kitty)
    requires
        s.mint(owner, kitty).1 is Ok,
    ensures
        ({
            let (t, r) = s.mint(owner, kitty);
            let id = r->Ok_0;
            &&& id == kitty_id(kitty)
            &&& t.kitty_data[id] == kitty
            &&& t.kitty_owner[id] == owner
            &&& t.all_kitties_count == s.all_kitties_count + 1
            &&& t.all_kitties_array[s.all_kitties_count] == id
            &&& t.kitties_of(owner) == s.kitties_of(owner).push(id)
            &&& t.owned_count_of(owner) == s.owned_count_of(owner) + 1
            &&& t.all_kitties_index[id] == s.all_kitties_count
            &&& t.owned_kitties_index[id] == s.owned_count_of(owner)
        }),
{
}

/// Creating a kitty keeps the registry consistent.
pub proof fn law_create_kitty_keeps_consistent(
    s: KittiesState,
    who: AccountId,
    dna_random: KittyHash,
    gender_random: KittyHash,
    block_number: BlockNumber,
)
    requires
        s.consistent(),
        s.can_mint(who),
    ensures
        ({
            let kitty = KittiesState::new_kitty(who, None, None, dna_random, gender_random, block_number);
            let (t, id) = s.mint(who, kitty);
            KittiesState { events: t.events.push(Event::Created(who, id->Ok_0)), ..t }.consistent()
        }),
{
    let kitty = KittiesState::new_kitty(who, None, None, dna_random, gender_random, block_number);
    law_mint_keeps_consistent(s, who, kitty);
    let (t, id) = s.mint(who, kitty);
    let u = KittiesState { events: t.events.push(Event::Created(who, id->Ok_0)), ..t };
    assert forall|w: AccountId| #[trigger] u.kitties_of(w) == t.kitties_of(w) by {}
    assert forall|w: AccountId| #[trigger] u.owned_count_of(w) == t.owned_count_of(w) by {}
}

/// A gender drawn from a byte is male exactly when the byte is even, and
/// female otherwise.
pub proof fn law_gender_parity(b: u8)
    ensures
        gender_of(b) == Gender::Male <==> b % 2 == 0,
        gender_of(b) == Gender::Female <==> b % 2 == 1,
{
}

/// A kitty made without a given gender is male exactly when the first byte
/// of the gender randomness is even; a given gender is kept. Its DNA is the
/// given one or, where none is given, the one drawn from the DNA randomness,
/// and it is not for sale.
pub proof fn law_new_kitty_gender(
    owner: AccountId,
    gender: Option<Gender>,
    dna: Option<[u8; 16]>,
    dna_random: KittyHash,
    gender_random: KittyHash,
    block_number: BlockNumber,
)
    ensures
        ({
            let k = KittiesState::new_kitty(owner, gender, dna, dna_random, gender_random, block_number);
            &&& gender is None ==> k.gen == (if gender_random[0] % 2 == 0 {
                Gender::Male
            } else {
                Gender::Female
            })
            &&& gender matches Some(g) ==> k.gen == g
            &&& dna matches Some(d) ==> k.dna == d
            &&& dna is None ==> k.dna == generated_dna(dna_random, block_number)
            &&& k.owner == owner
            &&& k.price is None
        }),
{
}

/// A kitty created by `create_kitty` is registered under its hash with the
/// gender drawn from the gender randomness: male exactly when its first byte
/// is even.
pub proof fn law_created_kitty_gender(
    s: KittiesState,
    who: AccountId,
    dna_random: KittyHash,
    gender_random: KittyHash,
    block_number: BlockNumber,
)
    requires
        s.can_mint(who),
    ensures
        ({
            let k = KittiesState::new_kitty(who, None, None, dna_random, gender_random, block_number);
            let (t, r) = s.mint(who, k);
            &&& r is Ok
            &&& t.kitty_data[r->Ok_0].gen == (if gender_random[0] % 2 == 0 {
                Gender::Male
            } else {
                Gender::Female
            })
            &&& t.kitty_data[r->Ok_0].owner == who
        }),
{
}

/// The pallet and its storage.
pub struct Pallet {
    config: Config,
    kitties_owned: KeyMap<AccountId, Vec<KittyHash>>,
    owned_kitties_count: KeyMap<AccountId, u64>,
    owned_kitties_index: KeyMap<KittyHash, u64>,
    all_kitties_count: u64,
    all_kitties_array: KeyMap<u64, KittyHash>,
    all_kitties_index: KeyMap<KittyHash, u64>,
    kitty_data: KeyMap<KittyHash, Kitty>,
    kitty_owner: KeyMap<KittyHash, AccountId>,
    events: Vec<Event>,
}

impl View for Pallet {
    type V = KittiesState;

    closed spec fn view(&self) -> KittiesState {
        KittiesState {
            max_kitties_owned: self.config.max_kitties_owned,
            kitties_owned: self.kitties_owned@.map_values(|v: Vec<KittyHash>| v@),
            owned_kitties_count: self.owned_kitties_count@,
            owned_kitties_index: self.owned_kitties_index@,
            all_kitties_count: self.all_kitties_count,
            all_kitties_array: self.all_kitties_array@,
            all_kitties_index: self.all_kitties_index@,
            kitty_data: self.kitty_data@,
            kitty_owner: self.kitty_owner@,
            events: self.events@,
        }
    }
}

impl Pallet {
    /// The representation invariant of the storage.
    pub closed spec fn wf(&self) -> bool {
        &&& self.kitties_owned.wf()
        &&& self.owned_kitties_count.wf()
        &&& self.owned_kitties_index.wf()
        &&& self.all_kitties_array.wf()
        &&& self.all_kitties_index.wf()
        &&& self.kitty_data.wf()
        &&& self.kitty_owner.wf()
    }

    /// The pallet on a new chain.
    pub fn new(config: Config) -> (p: Self)
        ensures
            p.wf(),
            p@ == KittiesState::genesis(config.max_kitties_owned),
    {
        let p = Pallet {
            config,
            kitties_owned: KeyMap::new(),
            owned_kitties_count: KeyMap::new(),
            owned_kitties_index: KeyMap::new(),
            all_kitties_count: 0,
            all_kitties_array: KeyMap::new(),
            all_kitties_index: KeyMap::new(),
            kitty_data: KeyMap::new(),
            kitty_owner: KeyMap::new(),
            events: Vec::new(),
        };
        assert(p@.kitties_owned =~= Map::<AccountId, Seq<KittyHash>>::empty());
        p
    }

    /// How many kitties `who` owns.
    pub fn owned_kitties_count(&self, who: &AccountId) -> (n: u64)
        requires
            self.wf(),
        ensures
            n == self@.owned_count_of(*who),
    {
        match self.owned_kitties_count.get(who) {
            Some(n) => *n,
            None => 0,
        }
    }

    /// How many kitties were created.
    pub fn all_kitties_count(&self) -> (n: u64)
        ensures
            n == self@.all_kitties_count,
    {
        self.all_kitties_count
    }

    /// The kitty created in position `index`.
    pub fn kitty_by_index(&self, index: u64) -> (r: Option<KittyHash>)
        requires
            self.wf(),
        ensures
            r == if self@.all_kitties_array.contains_key(index) {
                Some(self@.all_kitties_array[index])
            } else {
                None
            },
    {
        match self.all_kitties_array.get(&index) {
            Some(h) => Some(*h),
            None => None,
        }
    }

    /// The owner of kitty `id`.
    pub fn owner_of(&self, id: &KittyHash) -> (r: Option<AccountId>)
        requires
            self.wf(),
        ensures
            r == if self@.kitty_owner.contains_key(*id) {
                Some(self@.kitty_owner[*id])
            } else {
                None
            },
    {
        match self.kitty_owner.get(id) {
            Some(a) => Some(*a),
            None => None,
        }
    }

    /// The events deposited so far.
    pub fn events(&self) -> (r: &Vec<Event>)
        ensures
            r@ == self@.events,
    {
        &self.events
    }

    /// How many kitties `who` has listed.
    fn kitties_len(&self, who: AccountId) -> (n: usize)
        requires
            self.wf(),
        ensures
            n == self@.kitties_of(who).len(),
    {
        match self.kitties_owned.get(&who) {
            Some(v) => v.len(),
            None => 0,
        }
    }

    /// Whether `owner` can be given another kitty.
    pub fn can_mint(&self, owner: &AccountId) -> (r: bool)
        requires
            self.wf(),
        ensures
            r == self@.can_mint(*owner),
    {
        let owned = self.owned_kitties_count(owner);
        owned < u64::MAX && self.all_kitties_count < u64::MAX && (self.kitties_len(*owner) as u64)
            < (self.config.max_kitties_owned as u64)
    }
    /// The DNA of a kitty born in `block_number`, from the runtime's
    /// randomness.
    pub fn generate_dna(random: &KittyHash, block_number: BlockNumber) -> (r: [u8; 16])
        ensures
            r == generated_dna(*random, block_number),
    {
        let payload = encode_dna_payload(random, block_number);
        blake2_128(payload.as_slice())
    }

    /// The gender of a kitty, from the runtime's randomness.
    pub fn generate_gender(random: &KittyHash) -> (g: Gender)
        ensures
            g == gender_of(random[0]),
            g == (if random[0] % 2 == 0 { Gender::Male } else { Gender::Female }),
    {
        if random[0] % 2 == 0 {
            Gender::Male
        } else {
            Gender::Female
        }
    }

    /// The hash that identifies `kitty`.
    pub fn hash_of_kitty(kitty: &Kitty) -> (h: KittyHash)
        ensures
            h == kitty_id(*kitty),
    {
        let gender_index: u8 = match kitty.gen {
            Gender::Male => 0,
            Gender::Female => 1,
        };
        let bytes = encode_kitty_fields(kitty.owner, &kitty.dna, kitty.price, gender_index);
        blake_two_256(bytes.as_slice())
    }

    /// Creates a kitty for `owner` with the given gender and DNA, or, where
    /// they are not given, with ones drawn from randomness, and registers it
    /// under its hash.
    pub fn mint(
        &mut self,
        owner: &AccountId,
        gender: Option<Gender>,
        dna: Option<[u8; 16]>,
        dna_random: &KittyHash,
        gender_random: &KittyHash,
        block_number: BlockNumber,
    ) -> (r: Result<KittyHash, Error>)
        requires
            old(self).wf(),
        ensures
            final(self).wf(),
            (final(self)@, r) == old(self)@.mint(
                *owner,
                KittiesState::new_kitty(*owner, gender, dna, *dna_random, *gender_random, block_number),
            ),
    {
        let kitty = Kitty {
            dna: match dna {
                Some(d) => d,
                None => Self::generate_dna(dna_random, block_number),
            },
            price: None,
            gen: match gender {
                Some(g) => g,
                None => Self::generate_gender(gender_random),
            },
            owner: *owner,
        };
        let owned = self.owned_kitties_count(owner);
        if owned == u64::MAX {
            return Err(Error::KittyCountOverflow);
        }
        let owned = owned + 1;
        if self.all_kitties_count == u64::MAX {
            return Err(Error::KittyCountOverflow);
        }
        let all = self.all_kitties_count + 1;
        let kitty_id = Self::hash_of_kitty(&kitty);
        self.kitty_data.insert(kitty_id, kitty);
        if self.kitties_len(*owner) as u64 >= self.config.max_kitties_owned as u64 {
            return Err(Error::ExceedMaxKittyOwned);
        }
        let ghost before = self@;
        let mut list = match self.kitties_owned.remove(owner) {
            Some(l) => l,
            None => Vec::new(),
        };
        list.push(kitty_id);
        self.kitties_owned.insert(*owner, list);
        assert(self@.kitties_owned =~= before.kitties_owned.insert(
            *owner,
            before.kitties_of(*owner).push(kitty_id),
        ));
        self.kitty_owner.insert(kitty_id, *owner);
        self.all_kitties_count = all;
        self.all_kitties_array.insert(all - 1, kitty_id);
        self.all_kitties_index.insert(kitty_id, all - 1);
        self.owned_kitties_count.insert(*owner, owned);
        self.owned_kitties_index.insert(kitty_id, owned - 1);
        Ok(kitty_id)
    }

    /// A signed account creates a kitty whose DNA and gender come from the
    /// runtime's randomness and the block number. The account must have room
    /// for another kitty, as `can_mint` tells.
    pub fn create_kitty(
        &mut self,
        origin: Origin,
        dna_random: KittyHash,
        gender_random: KittyHash,
        block_number: BlockNumber,
    ) -> (r: DispatchResult)
        requires
            old(self).wf(),
            origin matches Origin::Signed(who) ==> old(self)@.can_mint(who),
        ensures
            final(self).wf(),
            match origin {
                Origin::Signed(who) => {
                    let kitty = KittiesState::new_kitty(
                        who,
                        None,
                        None,
                        dna_random,
                        gender_random,
                        block_number,
                    );
                    let (s, id) = old(self)@.mint(who, kitty);
                    &&& r is Ok
                    &&& id is Ok
                    &&& final(self)@ == KittiesState {
                        events: s.events.push(Event::Created(who, id->Ok_0)),
                        ..s
                    }
                },
                _ => r == Err::<(), crate::dispatch::DispatchError>(
                    crate::dispatch::DispatchError::BadOrigin,
                ) && final(self)@ == old(self)@,
            },
    {
        let sender = ensure_signed(origin)?;
        let kitty_id = self.mint(&sender, None, None, &dna_random, &gender_random, block_number);
        self.events.push(Event::Created(sender, kitty_id.unwrap()));
        Ok(())
    }
}

} // verus!

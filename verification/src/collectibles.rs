//! The collectibles pallet: accounts create unique collectibles, transfer
//! them, put a price on them and buy them from each other.

use vstd::prelude::*;

use crate::dispatch::{ensure_signed, AccountId, Balance, BlockNumber, DispatchError, DispatchResult, Origin};
use crate::hashing::{encode_id_payload, hashable_blake2_128, le_bytes, spec_blake2_128};
use crate::keymap::KeyMap;

verus! {

/// A collectible's unique identifier.
pub type CollectibleId = [u8; 16];

/// The color of a collectible.
#[derive(Clone, Copy, Debug, PartialEq, Eq, Structural)]
pub enum Color {
    Red,
    Yellow,
    Blue,
    Green,
}

impl Default for Color {
    fn default() -> (c: Self)
        ensures
            c == Color::Red,
    {
        Color::Red
    }
}

/// Errors of the pallet.
#[derive(Clone, Copy, Debug, PartialEq, Eq, Structural)]
pub enum Error {
    /// Each collectible must have a unique identifier.
    DuplicateCollectible,
    /// An account can't exceed the maximum number of collectibles it may own.
    MaximumCollectiblesOwned,
    /// The total supply of collectibles can't exceed the u64 limit.
    BoundsOverflow,
    /// The collectible doesn't exist.
    NoCollectible,
    /// You are not the owner.
    NotOwner,
    /// Trying to transfer a collectible to yourself.
    TransferToYourself,
    /// The bid is lower than the ask price.
    BidPriceTooSlow,
    /// The collectible is not for sale.
    NotForSale,
}

/// The configuration of the pallet.
#[derive(Clone, Copy, Debug, PartialEq, Eq, Structural)]
pub struct Config {
    /// The most collectibles that one account may own.
    pub max_owned: u32,
}

/// A collectible and what is known of it.
#[derive(Clone, Copy, Debug, PartialEq, Eq)]
pub struct Collectible {
    pub unique_id: CollectibleId,
    pub price: Option<Balance>,
    pub color: Color,
    pub owner: AccountId,
}

/// Events that the pallet deposits.
#[derive(Clone, Copy, Debug, PartialEq, Eq)]
pub enum Event {
    /// A new collectible was created.
    CollectibleCreated { collectible: CollectibleId, owner: AccountId },
    /// A collectible was successfully transferred.
    TransferSucceeded { collectible: CollectibleId, from: AccountId, to: AccountId },
    /// A price was set or taken away.
    PriceSet { collectible: CollectibleId, price: Option<Balance> },
    /// A collectible was sold.
    CollectibleSold {
        collectible: CollectibleId,
        seller: AccountId,
        buyer: AccountId,
        price: Option<Balance>,
    },
}

/// Whether a currency transfer may empty the paying account.
#[derive(Clone, Copy, Debug, PartialEq, Eq, Structural)]
pub enum ExistenceRequirement {
    KeepAlive,
    AllowDeath,
}

/// A payment: who pays, who is paid, how much, and whether the payer must
/// stay alive.
pub type Payment = (AccountId, AccountId, Balance, ExistenceRequirement);

/// A payment asked of a currency, with the currency's answer.
pub type Request = (Payment, DispatchResult);

/// The payments asked of a currency, each with its answer, in order.
pub type RequestLog = Seq<Request>;

/// The currency of the runtime, which the runtime provides. It keeps a record
/// of what it has been asked and what it answered; a payment it made is one
/// answered `Ok`. Its refusals are its own errors, never those of this pallet.
pub trait Currency: Sized {
    /// The payments asked so far, each with the answer given.
    spec fn requests(&self) -> RequestLog;

    /// Moves `value` from `source` to `dest`, or says why it could not.
    fn transfer(
        &mut self,
        source: AccountId,
        dest: AccountId,
        value: Balance,
        existence_requirement: ExistenceRequirement,
    ) -> (r: DispatchResult)
        ensures
            final(self).requests() == old(self).requests().push(
                ((source, dest, value, existence_requirement), r),
            ),
            r matches Err(e) ==> !(e is Module),
    ;
}

/// The first position of `id` in `s`, if it occurs there.
pub open spec fn first_position(s: Seq<CollectibleId>, id: CollectibleId) -> Option<int> {
    if s.contains(id) {
        Some(choose|i: int| 0 <= i < s.len() && s[i] == id && forall|j: int| 0 <= j < i ==> s[j] != id)
    } else {
        None
    }
}

/// `s` with its element at `i` replaced by its last element, and shortened
/// by one.
pub open spec fn swap_remove_at(s: Seq<CollectibleId>, i: int) -> Seq<CollectibleId> {
    s.update(i, s.last()).drop_last()
}

/// The color that an identifier gives a new collectible.
pub open spec fn color_of(id: CollectibleId) -> Color {
    if id[0] % 2 == 0 {
        Color::Red
    } else {
        Color::Yellow
    }
}

/// The bytes that identify a collectible created with this randomness, in
/// this extrinsic and block: the SCALE encoding of the triple.
pub open spec fn id_payload(random: [u8; 32], extrinsic_index: u32, block_number: u32) -> Seq<u8> {
    random@ + le_bytes(extrinsic_index as nat, 4) + le_bytes(block_number as nat, 4)
}

/// The identifier of a collectible created with this randomness, in this
/// extrinsic and block: the Blake2 digest of the encoded payload.
pub open spec fn generated_id(random: [u8; 32], extrinsic_index: u32, block_number: u32) -> CollectibleId {
    let p = id_payload(random, extrinsic_index, block_number);
    spec_blake2_128(seq![(p.len() * 4) as u8] + p)
}

/// The pallet's storage, as mathematical values.
pub struct PalletState {
    pub max_owned: u32,
    /// How many collectibles were created.
    pub count: u64,
    /// Each collectible, by its identifier.
    pub collectibles: Map<CollectibleId, Collectible>,
    /// The identifiers of the collectibles that each account owns.
    pub owned: Map<AccountId, Seq<CollectibleId>>,
    /// The events deposited so far.
    pub events: Seq<Event>,
}

impl PalletState {
    /// The storage of a new chain.
    pub open spec fn genesis(max_owned: u32) -> PalletState {
        PalletState {
            max_owned,
            count: 0,
            collectibles: Map::empty(),
            owned: Map::empty(),
            events: Seq::empty(),
        }
    }

    /// The collectibles that `who` owns; none where nothing is stored.
    pub open spec fn owned_by(self, who: AccountId) -> Seq<CollectibleId> {
        if self.owned.contains_key(who) {
            self.owned[who]
        } else {
            Seq::empty()
        }
    }

    /// Collectible `id` passes from `from` to `to`, at position `i` of the
    /// list of `from`, and is no longer for sale.
    pub open spec fn moved(self, id: CollectibleId, from: AccountId, to: AccountId, i: int) -> PalletState {
        let c = self.collectibles[id];
        PalletState {
            collectibles: self.collectibles.insert(
                id,
                Collectible { unique_id: c.unique_id, price: None, color: c.color, owner: to },
            ),
            owned: self.owned.insert(to, self.owned_by(to).push(id)).insert(
                from,
                swap_remove_at(self.owned_by(from), i),
            ),
            ..self
        }
    }

    /// A new collectible `id` of `color`, owned by `owner`.
    pub open spec fn mint(self, owner: AccountId, id: CollectibleId, color: Color) -> Result<
        PalletState,
        Error,
    > {
        if self.collectibles.contains_key(id) {
            Err(Error::DuplicateCollectible)
        } else if self.count == u64::MAX {
            Err(Error::BoundsOverflow)
        } else if self.owned_by(owner).len() >= self.max_owned {
            Err(Error::MaximumCollectiblesOwned)
        } else {
            Ok(
                PalletState {
                    count: (self.count + 1) as u64,
                    collectibles: self.collectibles.insert(
                        id,
                        Collectible { unique_id: id, price: None, color, owner },
                    ),
                    owned: self.owned.insert(owner, self.owned_by(owner).push(id)),
                    events: self.events.push(Event::CollectibleCreated { collectible: id, owner }),
                    ..self
                },
            )
        }
    }

    /// The storage with `event` deposited.
    pub open spec fn deposit(self, event: Event) -> PalletState {
        PalletState { events: self.events.push(event), ..self }
    }

    /// Collectible `id` passes from its owner to `to`, and the transfer is
    /// deposited as an event.
    pub open spec fn do_transfer(self, id: CollectibleId, to: AccountId) -> Result<PalletState, Error> {
        if !self.collectibles.contains_key(id) {
            Err(Error::NoCollectible)
        } else {
            let from = self.collectibles[id].owner;
            if from == to {
                Err(Error::TransferToYourself)
            } else {
                match first_position(self.owned_by(from), id) {
                    None => Err(Error::NoCollectible),
                    Some(i) => if self.owned_by(to).len() >= self.max_owned {
                        Err(Error::MaximumCollectiblesOwned)
                    } else {
                        Ok(
                            self.moved(id, from, to, i).deposit(
                                Event::TransferSucceeded { collectible: id, from, to },
                            ),
                        )
                    },
                }
            }
        }
    }

    /// `who` hands collectible `id` to `to`.
    pub open spec fn transfer(self, who: AccountId, to: AccountId, id: CollectibleId) -> Result<
        PalletState,
        Error,
    > {
        if !self.collectibles.contains_key(id) {
            Err(Error::NoCollectible)
        } else if self.collectibles[id].owner != who {
            Err(Error::NotOwner)
        } else {
            self.do_transfer(id, to)
        }
    }

    /// `who` puts `price` on collectible `id`, or takes it off sale.
    pub open spec fn set_price(self, who: AccountId, price: Option<Balance>, id: CollectibleId) -> Result<
        PalletState,
        Error,
    > {
        if !self.collectibles.contains_key(id) {
            Err(Error::NoCollectible)
        } else if self.collectibles[id].owner != who {
            Err(Error::NotOwner)
        } else {
            let c = self.collectibles[id];
            Ok(
                PalletState {
                    collectibles: self.collectibles.insert(
                        id,
                        Collectible {
                            unique_id: c.unique_id,
                            price,
                            color: c.color,
                            owner: c.owner,
                        },
                    ),
                    events: self.events.push(Event::PriceSet { collectible: id, price }),
                    ..self
                },
            )
        }
    }

    /// The payment that `buyer` owes for collectible `id` on a bid of
    /// `bid_price`: the seller and the asked price.
    pub open spec fn buy_payment(self, bid_price: Balance, id: CollectibleId, buyer: AccountId) -> Result<
        (AccountId, Balance),
        Error,
    > {
        if !self.collectibles.contains_key(id) {
            Err(Error::NoCollectible)
        } else {
            let c = self.collectibles[id];
            let seller = c.owner;
            if seller == buyer {
                Err(Error::TransferToYourself)
            } else if first_position(self.owned_by(seller), id) is None {
                Err(Error::NoCollectible)
            } else if self.owned_by(buyer).len() >= self.max_owned {
                Err(Error::MaximumCollectiblesOwned)
            } else {
                match c.price {
                    None => Err(Error::NotForSale),
                    Some(price) => if bid_price < price {
                        Err(Error::BidPriceTooSlow)
                    } else {
                        Ok((seller, price))
                    },
                }
            }
        }
    }

    /// The storage after a sale at `price`: collectible `id` passes from
    /// `seller` to `buyer`, no longer for sale, and the sale and the transfer
    /// are deposited as events.
    pub open spec fn sold(self, id: CollectibleId, seller: AccountId, buyer: AccountId, price: Balance) -> PalletState {
        let moved = self.moved(id, seller, buyer, first_position(self.owned_by(seller), id)->0);
        PalletState {
            events: self.events.push(
                Event::CollectibleSold { collectible: id, seller, buyer, price: Some(price) },
            ).push(Event::TransferSucceeded { collectible: id, from: seller, to: buyer }),
            ..moved
        }
    }
}

/// Where an identifier occurs in a list that repeats none, its first
/// position is where it stands.
proof fn lemma_first_position(s: Seq<CollectibleId>, id: CollectibleId)
    requires
        s.contains(id),
        s.no_duplicates(),
    ensures
        first_position(s, id) is Some,
        0 <= first_position(s, id)->0 < s.len(),
        s[first_position(s, id)->0] == id,
{
    let k = choose|k: int| 0 <= k < s.len() && s[k] == id;
    assert(exists|c: int| 0 <= c < s.len() && s[c] == id && forall|j: int| 0 <= j < c ==> s[j] != id) by {
        assert forall|j: int| 0 <= j < k implies s[j] != id by {}
    }
}

/// Facts about removing the element at `i` by moving the last one into its
/// place.
proof fn lemma_swap_remove_at(s: Seq<CollectibleId>, i: int)
    requires
        0 <= i < s.len(),
    ensures
        swap_remove_at(s, i).len() == s.len() - 1,
        forall|x: CollectibleId| #[trigger] swap_remove_at(s, i).contains(x) ==> s.contains(x),
        forall|x: CollectibleId| s.contains(x) && x != s[i] ==> #[trigger] swap_remove_at(s, i).contains(x),
        s.no_duplicates() ==> swap_remove_at(s, i).no_duplicates() && !swap_remove_at(s, i).contains(s[i]),
{
    let r = swap_remove_at(s, i);
    let n = s.len();
    assert forall|k: int| 0 <= k < r.len() implies r[k] == (if k == i { s[n - 1] } else { s[k] }) by {}
    assert forall|x: CollectibleId| #[trigger] r.contains(x) implies s.contains(x) by {
        let k = choose|k: int| 0 <= k < r.len() && r[k] == x;
        if k == i {
            assert(s[n - 1] == x);
        } else {
            assert(s[k] == x);
        }
    }
    assert forall|x: CollectibleId| s.contains(x) && x != s[i] implies #[trigger] r.contains(x) by {
        let k = choose|k: int| 0 <= k < s.len() && s[k] == x;
        if k == n - 1 {
            assert(r[i] == x);
        } else {
            assert(k != i);
            assert(r[k] == x);
        }
    }
    if s.no_duplicates() {
        assert forall|a: int, b: int| 0 <= a < r.len() && 0 <= b < r.len() && a != b implies r[a]
            != r[b] by {
            let a2 = if a == i { n - 1 } else { a };
            let b2 = if b == i { n - 1 } else { b };
            assert(r[a] == s[a2]);
            assert(r[b] == s[b2]);
        }
        assert forall|k: int| 0 <= k < r.len() implies r[k] != s[i] by {
            let k2 = if k == i { n - 1 } else { k };
            assert(r[k] == s[k2]);
        }
    }
}

impl PalletState {
    /// The storage is consistent: the count is the number of collectibles;
    /// each collectible is stored under its own identifier and listed by its
    /// owner; each listed identifier names a collectible of the account that
    /// lists it; no list repeats an identifier; no account owns more than the
    /// most it may.
    pub open spec fn consistent(self) -> bool {
        &&& self.collectibles.dom().finite()
        &&& self.count == self.collectibles.dom().len()
        &&& forall|id: CollectibleId| #[trigger]
            self.collectibles.contains_key(id) ==> {
                &&& self.collectibles[id].unique_id == id
                &&& self.owned_by(self.collectibles[id].owner).contains(id)
            }
        &&& forall|who: AccountId, i: int|
            0 <= i < self.owned_by(who).len() ==> {
                &&& self.collectibles.contains_key(#[trigger] self.owned_by(who)[i])
                &&& self.collectibles[self.owned_by(who)[i]].owner == who
            }
        &&& forall|who: AccountId| #[trigger] self.owned_by(who).no_duplicates()
        &&& forall|who: AccountId| #[trigger] self.owned_by(who).len() <= self.max_owned
    }

    /// In a consistent storage, an account lists a collectible exactly when
    /// it owns it.
    pub proof fn lemma_listed_iff_owned(self, who: AccountId, id: CollectibleId)
        requires
            self.consistent(),
        ensures
            self.owned_by(who).contains(id) <==> (self.collectibles.contains_key(id)
                && self.collectibles[id].owner == who),
    {
        if self.owned_by(who).contains(id) {
            let k = choose|k: int| 0 <= k < self.owned_by(who).len() && self.owned_by(who)[k] == id;
            assert(self.collectibles.contains_key(self.owned_by(who)[k]));
        }
        if self.collectibles.contains_key(id) {
            assert(self.collectibles[id].unique_id == id);
        }
    }
}

/// A new chain's storage is consistent.
pub proof fn law_genesis_consistent(max_owned: u32)
    ensures
        PalletState::genesis(max_owned).consistent(),
{
    let g = PalletState::genesis(max_owned);
    assert(g.collectibles.dom() =~= Set::<CollectibleId>::empty());
}

/// Moving a collectible that its owner lists, to another account with room
/// for it, keeps the storage consistent.
proof fn lemma_moved_consistent(s: PalletState, id: CollectibleId, to: AccountId)
    requires
        s.consistent(),
        s.collectibles.contains_key(id),
        s.collectibles[id].owner != to,
        s.owned_by(to).len() < s.max_owned,
    ensures
        first_position(s.owned_by(s.collectibles[id].owner), id) is Some,
        s.moved(id, s.collectibles[id].owner, to, first_position(s.owned_by(s.collectibles[id].owner), id)->0).consistent(),
        s.moved(id, s.collectibles[id].owner, to, first_position(s.owned_by(s.collectibles[id].owner), id)->0).collectibles.dom() == s.collectibles.dom(),
{
    let from = s.collectibles[id].owner;
    let lf = s.owned_by(from);
    let lt = s.owned_by(to);
    assert(lf.contains(id));
    let i = first_position(lf, id)->0;
    lemma_first_position(lf, id);
    let t = s.moved(id, from, to, i);
    lemma_swap_remove_at(lf, i);
    assert(!lt.contains(id)) by {
        s.lemma_listed_iff_owned(to, id);
    }
    assert(t.owned_by(to) == lt.push(id));
    assert(t.owned_by(from) == swap_remove_at(lf, i));
    assert forall|w: AccountId| w != from && w != to implies #[trigger] t.owned_by(w) == s.owned_by(w) by {}
    assert(t.collectibles.dom() =~= s.collectibles.dom());
    assert forall|k: CollectibleId| #[trigger] t.collectibles.contains_key(k) implies {
        &&& t.collectibles[k].unique_id == k
        &&& t.owned_by(t.collectibles[k].owner).contains(k)
    } by {
        if k == id {
            assert(t.owned_by(to)[lt.len() as int] == id);
        } else {
            let o = s.collectibles[k].owner;
            assert(s.owned_by(o).contains(k));
            if o == from {
            } else if o == to {
                let j = choose|j: int| 0 <= j < lt.len() && lt[j] == k;
                assert(t.owned_by(to)[j] == k);
            } else {
            }
        }
    }
    assert forall|w: AccountId, j: int| 0 <= j < t.owned_by(w).len() implies {
        &&& t.collectibles.contains_key(#[trigger] t.owned_by(w)[j])
        &&& t.collectibles[t.owned_by(w)[j]].owner == w
    } by {
        let x = t.owned_by(w)[j];
        if w == to {
            if j < lt.len() {
                assert(x == lt[j]);
                assert(s.collectibles.contains_key(lt[j]));
                assert(x != id);
            }
        } else if w == from {
            assert(swap_remove_at(lf, i).contains(x));
            assert(lf.contains(x));
            s.lemma_listed_iff_owned(from, x);
            assert(x != id);
        } else {
            assert(s.collectibles.contains_key(s.owned_by(w)[j]));
            assert(x != id);
        }
    }
    assert forall|w: AccountId| #[trigger] t.owned_by(w).no_duplicates() by {
        if w == to {
            assert(lt.no_duplicates());
            assert forall|a: int, b: int| 0 <= a < lt.len() + 1 && 0 <= b < lt.len() + 1 && a != b implies
                t.owned_by(to)[a] != t.owned_by(to)[b] by {
                if a == lt.len() {
                    assert(lt[b] != id);
                } else if b == lt.len() {
                    assert(lt[a] != id);
                }
            }
        } else if w == from {
            assert(lf.no_duplicates());
        } else {
            assert(s.owned_by(w).no_duplicates());
        }
    }
    assert forall|w: AccountId| #[trigger] t.owned_by(w).len() <= t.max_owned by {
        assert(s.owned_by(w).len() <= s.max_owned);
    }
}

/// Creating a collectible keeps the storage consistent.
pub proof fn law_mint_keeps_consistent(s: PalletState, owner: AccountId, id: CollectibleId, color: Color)
    requires
        s.consistent(),
        s.mint(owner, id, color) is Ok,
    ensures
        s.mint(owner, id, color)->Ok_0.consistent(),
{
    let t = s.mint(owner, id, color)->Ok_0;
    let lo = s.owned_by(owner);
    assert(!lo.contains(id)) by {
        s.lemma_listed_iff_owned(owner, id);
    }
    assert(t.owned_by(owner) == lo.push(id));
    assert forall|w: AccountId| w != owner implies #[trigger] t.owned_by(w) == s.owned_by(w) by {}
    assert(t.collectibles.dom() =~= s.collectibles.dom().insert(id));
    assert forall|k: CollectibleId| #[trigger] t.collectibles.contains_key(k) implies {
        &&& t.collectibles[k].unique_id == k
        &&& t.owned_by(t.collectibles[k].owner).contains(k)
    } by {
        if k == id {
            assert(t.owned_by(owner)[lo.len() as int] == id);
        } else {
            let o = s.collectibles[k].owner;
            assert(s.owned_by(o).contains(k));
            if o == owner {
                let j = choose|j: int| 0 <= j < lo.len() && lo[j] == k;
                assert(t.owned_by(owner)[j] == k);
            }
        }
    }
    assert forall|w: AccountId, j: int| 0 <= j < t.owned_by(w).len() implies {
        &&& t.collectibles.contains_key(#[trigger] t.owned_by(w)[j])
        &&& t.collectibles[t.owned_by(w)[j]].owner == w
    } by {
        let x = t.owned_by(w)[j];
        if w == owner && j == lo.len() {
        } else {
            assert(x == s.owned_by(w)[j]);
            assert(s.collectibles.contains_key(s.owned_by(w)[j]));
            assert(x != id);
        }
    }
    assert forall|w: AccountId| #[trigger] t.owned_by(w).no_duplicates() by {
        if w == owner {
            assert(lo.no_duplicates());
            assert forall|a: int, b: int| 0 <= a < lo.len() + 1 && 0 <= b < lo.len() + 1 && a != b implies
                t.owned_by(owner)[a] != t.owned_by(owner)[b] by {
                if a == lo.len() {
                    assert(lo[b] != id);
                } else if b == lo.len() {
                    assert(lo[a] != id);
                }
            }
        } else {
            assert(s.owned_by(w).no_duplicates());
        }
    }
    assert forall|w: AccountId| #[trigger] t.owned_by(w).len() <= t.max_owned by {
        assert(s.owned_by(w).len() <= s.max_owned);
    }
}

/// Depositing an event keeps the storage consistent.
proof fn lemma_deposit_consistent(s: PalletState, event: Event)
    requires
        s.consistent(),
    ensures
        s.deposit(event).consistent(),
{
    let t = s.deposit(event);
    assert forall|w: AccountId| #[trigger] t.owned_by(w) == s.owned_by(w) by {}
}

/// Transferring a collectible keeps the storage consistent.
pub proof fn law_do_transfer_keeps_consistent(s: PalletState, id: CollectibleId, to: AccountId)
    requires
        s.consistent(),
        s.do_transfer(id, to) is Ok,
    ensures
        s.do_transfer(id, to)->Ok_0.consistent(),
{
    lemma_moved_consistent(s, id, to);
    let from = s.collectibles[id].owner;
    let m = s.moved(id, from, to, first_position(s.owned_by(from), id)->0);
    lemma_deposit_consistent(m, Event::TransferSucceeded { collectible: id, from, to });
}

/// Setting a price keeps the storage consistent.
pub proof fn law_set_price_keeps_consistent(
    s: PalletState,
    who: AccountId,
    price: Option<Balance>,
    id: CollectibleId,
)
    requires
        s.consistent(),
        s.set_price(who, price, id) is Ok,
    ensures
        s.set_price(who, price, id)->Ok_0.consistent(),
{
    let t = s.set_price(who, price, id)->Ok_0;
    assert(t.collectibles.dom() =~= s.collectibles.dom());
    assert forall|w: AccountId| #[trigger] t.owned_by(w) == s.owned_by(w) by {}
    assert forall|w: AccountId, j: int| 0 <= j < t.owned_by(w).len() implies {
        &&& t.collectibles.contains_key(#[trigger] t.owned_by(w)[j])
        &&& t.collectibles[t.owned_by(w)[j]].owner == w
    } by {
        assert(s.collectibles.contains_key(s.owned_by(w)[j]));
    }
}

/// A sale keeps the storage consistent.
pub proof fn law_sale_keeps_consistent(s: PalletState, bid_price: Balance, id: CollectibleId, buyer: AccountId)
    requires
        s.consistent(),
        s.buy_payment(bid_price, id, buyer) is Ok,
    ensures
        ({
            let (seller, price) = s.buy_payment(bid_price, id, buyer)->Ok_0;
            s.sold(id, seller, buyer, price).consistent()
        }),
{
    lemma_moved_consistent(s, id, buyer);
    let (seller, price) = s.buy_payment(bid_price, id, buyer)->Ok_0;
    let m = s.moved(id, seller, buyer, first_position(s.owned_by(seller), id)->0);
    let t = s.sold(id, seller, buyer, price);
    assert(t.collectibles == m.collectibles && t.owned == m.owned && t.count == m.count
        && t.max_owned == m.max_owned);
    assert forall|w: AccountId| #[trigger] t.owned_by(w) == m.owned_by(w) by {}
}

/// A transfer by the owner keeps the storage consistent.
pub proof fn law_transfer_keeps_consistent(s: PalletState, who: AccountId, to: AccountId, id: CollectibleId)
    requires
        s.consistent(),
        s.transfer(who, to, id) is Ok,
    ensures
        s.transfer(who, to, id)->Ok_0.consistent(),
{
    law_do_transfer_keeps_consistent(s, id, to);
}

/// In a consistent storage a transfer fails only when the collectible does
/// not exist, goes to its own owner, or goes to an account that owns as many
/// collectibles as it may.
pub proof fn law_do_transfer_outcome(s: PalletState, id: CollectibleId, to: AccountId)
    requires
        s.consistent(),
    ensures
        s.do_transfer(id, to) == if !s.collectibles.contains_key(id) {
            Err(Error::NoCollectible)
        } else if s.collectibles[id].owner == to {
            Err(Error::TransferToYourself)
        } else if s.owned_by(to).len() >= s.max_owned {
            Err(Error::MaximumCollectiblesOwned)
        } else {
            Ok(
                s.moved(
                    id,
                    s.collectibles[id].owner,
                    to,
                    first_position(s.owned_by(s.collectibles[id].owner), id)->0,
                ).deposit(
                    Event::TransferSucceeded { collectible: id, from: s.collectibles[id].owner, to },
                ),
            )
        },
{
    if s.collectibles.contains_key(id) {
        let from = s.collectibles[id].owner;
        s.lemma_listed_iff_owned(from, id);
    }
}

/// A successful transfer leaves the collectible with the receiver, not for
/// sale, listed by the receiver and no longer by the giver, deposits the
/// transfer as an event, and changes neither the number of collectibles nor
/// which exist.
pub proof fn law_transfer_effect(s: PalletState, id: CollectibleId, to: AccountId)
    requires
        s.consistent(),
        s.do_transfer(id, to) is Ok,
    ensures
        ({
            let t = s.do_transfer(id, to)->Ok_0;
            &&& t.collectibles[id].owner == to
            &&& t.collectibles[id].price is None
            &&& t.collectibles[id].color == s.collectibles[id].color
            &&& t.owned_by(to).contains(id)
            &&& !t.owned_by(s.collectibles[id].owner).contains(id)
            &&& t.count == s.count
            &&& t.collectibles.dom() == s.collectibles.dom()
            &&& t.events == s.events.push(
                Event::TransferSucceeded { collectible: id, from: s.collectibles[id].owner, to },
            )
        }),
{
    let t = s.do_transfer(id, to)->Ok_0;
    lemma_moved_consistent(s, id, to);
    law_do_transfer_keeps_consistent(s, id, to);
    t.lemma_listed_iff_owned(to, id);
    t.lemma_listed_iff_owned(s.collectibles[id].owner, id);
}

/// In a consistent storage a purchase is refused only for a missing
/// collectible, a buyer who already owns it or owns as many collectibles as
/// it may, a collectible that is not for sale, or a bid below the price.
pub proof fn law_buy_payment_outcome(s: PalletState, bid_price: Balance, id: CollectibleId, buyer: AccountId)
    requires
        s.consistent(),
    ensures
        s.buy_payment(bid_price, id, buyer) == if !s.collectibles.contains_key(id) {
            Err(Error::NoCollectible)
        } else if s.collectibles[id].owner == buyer {
            Err(Error::TransferToYourself)
        } else if s.owned_by(buyer).len() >= s.max_owned {
            Err(Error::MaximumCollectiblesOwned)
        } else {
            match s.collectibles[id].price {
                None => Err(Error::NotForSale),
                Some(price) => if bid_price < price {
                    Err(Error::BidPriceTooSlow)
                } else {
                    Ok((s.collectibles[id].owner, price))
                },
            }
        },
{
    if s.collectibles.contains_key(id) {
        let seller = s.collectibles[id].owner;
        s.lemma_listed_iff_owned(seller, id);
        lemma_first_position(s.owned_by(seller), id);
    }
}

/// After a sale the buyer owns the collectible, which is no longer for sale,
/// and the sale and the transfer are the last two events.
pub proof fn law_sale_effect(s: PalletState, bid_price: Balance, id: CollectibleId, buyer: AccountId)
    requires
        s.consistent(),
        s.buy_payment(bid_price, id, buyer) is Ok,
    ensures
        ({
            let (seller, price) = s.buy_payment(bid_price, id, buyer)->Ok_0;
            let t = s.sold(id, seller, buyer, price);
            &&& seller == s.collectibles[id].owner
            &&& s.collectibles[id].price == Some(price)
            &&& price <= bid_price
            &&& t.collectibles[id].owner == buyer
            &&& t.collectibles[id].price is None
            &&& t.owned_by(buyer).contains(id)
            &&& !t.owned_by(seller).contains(id)
            &&& t.count == s.count
            &&& t.events == s.events.push(
                Event::CollectibleSold { collectible: id, seller, buyer, price: Some(price) },
            ).push(Event::TransferSucceeded { collectible: id, from: seller, to: buyer })
        }),
{
    let (seller, price) = s.buy_payment(bid_price, id, buyer)->Ok_0;
    law_sale_keeps_consistent(s, bid_price, id, buyer);
    let t = s.sold(id, seller, buyer, price);
    t.lemma_listed_iff_owned(buyer, id);
    t.lemma_listed_iff_owned(seller, id);
}

/// A call to the pallet, by the change it makes to the storage. A purchase
/// carries whether the currency paid.
pub enum Call {
    Mint { owner: AccountId, id: CollectibleId, color: Color },
    Transfer { who: AccountId, to: AccountId, id: CollectibleId },
    DoTransfer { id: CollectibleId, to: AccountId },
    SetPrice { who: AccountId, price: Option<Balance>, id: CollectibleId },
    Buy { bid_price: Balance, id: CollectibleId, buyer: AccountId, paid: bool },
}

/// Whether `call` sets the price of collectible `id`.
pub open spec fn sets_price_of(call: Call, id: CollectibleId) -> bool {
    call matches Call::SetPrice { id: i, .. } && i == id
}

impl PalletState {
    /// The storage after `call`: the new storage where the call succeeds, the
    /// same storage where it fails, as the contract of each call states.
    pub open spec fn apply(self, call: Call) -> PalletState {
        match call {
            Call::Mint { owner, id, color } => match self.mint(owner, id, color) {
                Ok(t) => t,
                Err(_) => self,
            },
            Call::Transfer { who, to, id } => match self.transfer(who, to, id) {
                Ok(t) => t,
                Err(_) => self,
            },
            Call::DoTransfer { id, to } => match self.do_transfer(id, to) {
                Ok(t) => t,
                Err(_) => self,
            },
            Call::SetPrice { who, price, id } => match self.set_price(who, price, id) {
                Ok(t) => t,
                Err(_) => self,
            },
            Call::Buy { bid_price, id, buyer, paid } => match self.buy_payment(bid_price, id, buyer) {
                Ok((seller, price)) => if paid {
                    self.sold(id, seller, buyer, price)
                } else {
                    self
                },
                Err(_) => self,
            },
        }
    }

    /// The storage after `calls`, one after the other.
    pub open spec fn apply_all(self, calls: Seq<Call>) -> PalletState
        decreases calls.len(),
    {
        if calls.len() == 0 {
            self
        } else {
            self.apply(calls[0]).apply_all(calls.drop_first())
        }
    }
}

/// Every call keeps the storage consistent, keeps every collectible and the
/// bound on ownership, and leaves an unpriced collectible unpriced unless the
/// call sets its price.
pub proof fn law_apply(s: PalletState, call: Call, id: CollectibleId)
    requires
        s.consistent(),
    ensures
        s.apply(call).consistent(),
        s.apply(call).max_owned == s.max_owned,
        s.collectibles.contains_key(id) ==> s.apply(call).collectibles.contains_key(id),
        s.collectibles.contains_key(id) && s.collectibles[id].price is None && !sets_price_of(
            call,
            id,
        ) ==> s.apply(call).collectibles[id].price is None,
{
    match call {
        Call::Mint { owner, id: i, color } => {
            if s.mint(owner, i, color) is Ok {
                law_mint_keeps_consistent(s, owner, i, color);
            }
        },
        Call::Transfer { who, to, id: i } => {
            if s.transfer(who, to, i) is Ok {
                law_transfer_keeps_consistent(s, who, to, i);
                lemma_moved_consistent(s, i, to);
            }
        },
        Call::DoTransfer { id: i, to } => {
            if s.do_transfer(i, to) is Ok {
                law_do_transfer_keeps_consistent(s, i, to);
                lemma_moved_consistent(s, i, to);
            }
        },
        Call::SetPrice { who, price, id: i } => {
            if s.set_price(who, price, i) is Ok {
                law_set_price_keeps_consistent(s, who, price, i);
            }
        },
        Call::Buy { bid_price, id: i, buyer, paid } => {
            if s.buy_payment(bid_price, i, buyer) is Ok && paid {
                law_sale_keeps_consistent(s, bid_price, i, buyer);
                lemma_moved_consistent(s, i, buyer);
            }
        },
    }
}

/// Over any sequence of calls the storage stays consistent, no collectible
/// disappears, and an unpriced collectible stays unpriced unless one of the
/// calls sets its price.
pub proof fn law_apply_all(s: PalletState, calls: Seq<Call>, id: CollectibleId)
    requires
        s.consistent(),
    ensures
        s.apply_all(calls).consistent(),
        s.apply_all(calls).max_owned == s.max_owned,
        s.collectibles.contains_key(id) ==> s.apply_all(calls).collectibles.contains_key(id),
        s.collectibles.contains_key(id) && s.collectibles[id].price is None && (forall|k: int|
            0 <= k < calls.len() ==> !sets_price_of(#[trigger] calls[k], id))
            ==> s.apply_all(calls).collectibles[id].price is None,
    decreases calls.len(),
{
    if calls.len() > 0 {
        law_apply(s, calls[0], id);
        let rest = calls.drop_first();
        assert forall|k: int| 0 <= k < rest.len() implies rest[k] == calls[k + 1] by {}
        law_apply_all(s.apply(calls[0]), rest, id);
        if s.collectibles.contains_key(id) && s.collectibles[id].price is None && (forall|k: int|
            0 <= k < calls.len() ==> !sets_price_of(#[trigger] calls[k], id)) {
            assert(!sets_price_of(calls[0], id));
            assert forall|k: int| 0 <= k < rest.len() implies !sets_price_of(#[trigger] rest[k], id) by {
                assert(!sets_price_of(calls[k + 1], id));
            }
        }
    }
}

/// Two successful mints never share an identifier: once `id` is minted, a
/// later mint of `id`, after any calls, is refused as a duplicate.
pub proof fn law_minted_ids_stay_taken(
    s: PalletState,
    owner: AccountId,
    id: CollectibleId,
    color: Color,
    calls: Seq<Call>,
    later_owner: AccountId,
    later_color: Color,
)
    requires
        s.consistent(),
        s.mint(owner, id, color) is Ok,
    ensures
        s.mint(owner, id, color)->Ok_0.apply_all(calls).mint(later_owner, id, later_color) == Err::<
            PalletState,
            Error,
        >(Error::DuplicateCollectible),
{
    law_mint_keeps_consistent(s, owner, id, color);
    law_apply_all(s.mint(owner, id, color)->Ok_0, calls, id);
}

/// A collectible just transferred is not for sale until it is priced again:
/// after any calls that do not set its price, a purchase of it by anyone but
/// its owner, with room for it, is refused as not for sale.
pub proof fn law_transferred_not_for_sale(
    s: PalletState,
    who: AccountId,
    to: AccountId,
    id: CollectibleId,
    calls: Seq<Call>,
    bid_price: Balance,
    buyer: AccountId,
)
    requires
        s.consistent(),
        s.transfer(who, to, id) is Ok,
        forall|k: int| 0 <= k < calls.len() ==> !sets_price_of(#[trigger] calls[k], id),
        s.transfer(who, to, id)->Ok_0.apply_all(calls).collectibles[id].owner != buyer,
        s.transfer(who, to, id)->Ok_0.apply_all(calls).owned_by(buyer).len() < s.max_owned,
    ensures
        s.transfer(who, to, id)->Ok_0.apply_all(calls).buy_payment(bid_price, id, buyer) == Err::<
            (AccountId, Balance),
            Error,
        >(Error::NotForSale),
{
    let t = s.transfer(who, to, id)->Ok_0;
    law_transfer_keeps_consistent(s, who, to, id);
    law_transfer_effect(s, id, to);
    law_apply_all(t, calls, id);
    let u = t.apply_all(calls);
    law_buy_payment_outcome(u, bid_price, id, buyer);
}

/// A new collectible is red exactly when the first byte of its identifier is
/// even, and yellow otherwise.
pub proof fn law_color_parity(id: CollectibleId)
    ensures
        color_of(id) == Color::Red <==> id[0] % 2 == 0,
        color_of(id) == Color::Yellow <==> id[0] % 2 == 1,
{
}

/// A collectible created by a successful mint has the color of its
/// identifier: red exactly when the identifier's first byte is even, yellow
/// otherwise; and it belongs to the minter, not for sale.
pub proof fn law_minted_color(s: PalletState, owner: AccountId, id: CollectibleId)
    requires
        s.mint(owner, id, color_of(id)) is Ok,
    ensures
        ({
            let t = s.mint(owner, id, color_of(id))->Ok_0;
            &&& t.collectibles[id].color == (if id[0] % 2 == 0 {
                Color::Red
            } else {
                Color::Yellow
            })
            &&& t.collectibles[id].owner == owner
            &&& t.collectibles[id].price is None
        }),
{
}

/// Only the owner may transfer a collectible: a transfer of an existing
/// collectible by anyone else is refused with `NotOwner`, whoever the
/// receiver is (the caller included), and changes nothing.
pub proof fn law_transfer_by_non_owner_refused(
    s: PalletState,
    who: AccountId,
    to: AccountId,
    id: CollectibleId,
)
    requires
        s.collectibles.contains_key(id),
        s.collectibles[id].owner != who,
    ensures
        s.transfer(who, to, id) == Err::<PalletState, Error>(Error::NotOwner),
        s.apply(Call::Transfer { who, to, id }) == s,
{
}

/// Only the owner may price a collectible: setting or removing the price of
/// an existing collectible by anyone else is refused with `NotOwner`, for
/// every price, and changes nothing.
pub proof fn law_set_price_by_non_owner_refused(
    s: PalletState,
    who: AccountId,
    price: Option<Balance>,
    id: CollectibleId,
)
    requires
        s.collectibles.contains_key(id),
        s.collectibles[id].owner != who,
    ensures
        s.set_price(who, price, id) == Err::<PalletState, Error>(Error::NotOwner),
        s.apply(Call::SetPrice { who, price, id }) == s,
{
}

/// Only a transfer by the owner succeeds: a successful transfer was asked by
/// the collectible's owner, and a successful price change was asked by it too.
pub proof fn law_only_owner_succeeds(
    s: PalletState,
    who: AccountId,
    to: AccountId,
    price: Option<Balance>,
    id: CollectibleId,
)
    ensures
        s.transfer(who, to, id) is Ok ==> s.collectibles.contains_key(id) && s.collectibles[id].owner
            == who,
        s.set_price(who, price, id) is Ok ==> s.collectibles.contains_key(id)
            && s.collectibles[id].owner == who,
{
}

/// The pallet and its storage.
pub struct Pallet {
    config: Config,
    collectibles_count: u64,
    collectibles_map: KeyMap<CollectibleId, Collectible>,
    owner_of_collectibles: KeyMap<AccountId, Vec<CollectibleId>>,
    events: Vec<Event>,
}

impl View for Pallet {
    type V = PalletState;

    closed spec fn view(&self) -> PalletState {
        PalletState {
            max_owned: self.config.max_owned,
            count: self.collectibles_count,
            collectibles: self.collectibles_map@,
            owned: self.owner_of_collectibles@.map_values(|v: Vec<CollectibleId>| v@),
            events: self.events@,
        }
    }
}

impl Pallet {
    /// The representation invariant of the storage.
    pub closed spec fn wf(&self) -> bool {
        &&& self.collectibles_map.wf()
        &&& self.owner_of_collectibles.wf()
    }

    /// The pallet on a new chain.
    pub fn new(config: Config) -> (p: Self)
        ensures
            p.wf(),
            p@ == PalletState::genesis(config.max_owned),
    {
        let p = Pallet {
            config,
            collectibles_count: 0,
            collectibles_map: KeyMap::new(),
            owner_of_collectibles: KeyMap::new(),
            events: Vec::new(),
        };
        assert(p@.owned =~= Map::<AccountId, Seq<CollectibleId>>::empty());
        p
    }

    /// How many collectibles were created.
    pub fn collectibles_count(&self) -> (n: u64)
        ensures
            n == self@.count,
    {
        self.collectibles_count
    }

    /// Collectible `unique_id`, if it exists.
    pub fn collectible(&self, unique_id: &CollectibleId) -> (r: Option<Collectible>)
        requires
            self.wf(),
        ensures
            r == if self@.collectibles.contains_key(*unique_id) {
                Some(self@.collectibles[*unique_id])
            } else {
                None
            },
    {
        match self.collectibles_map.get(unique_id) {
            Some(c) => Some(*c),
            None => None,
        }
    }

    /// The identifiers of the collectibles that `who` owns, in the order of
    /// its list.
    pub fn owned_collectibles(&self, who: &AccountId) -> (r: Vec<CollectibleId>)
        requires
            self.wf(),
        ensures
            r@ == self@.owned_by(*who),
    {
        let mut r: Vec<CollectibleId> = Vec::new();
        match self.owner_of_collectibles.get(who) {
            None => {},
            Some(v) => {
                let mut i: usize = 0;
                while i < v.len()
                    invariant
                        i <= v@.len(),
                        r@ == v@.subrange(0, i as int),
                    decreases v@.len() - i,
                {
                    r.push(v[i]);
                    i = i + 1;
                }
            },
        }
        r
    }

    /// The events deposited so far.
    pub fn events(&self) -> (r: &Vec<Event>)
        ensures
            r@ == self@.events,
    {
        &self.events
    }

    /// How many collectibles `who` owns.
    fn owned_len(&self, who: AccountId) -> (n: usize)
        requires
            self.wf(),
        ensures
            n == self@.owned_by(who).len(),
    {
        match self.owner_of_collectibles.get(&who) {
            Some(v) => v.len(),
            None => 0,
        }
    }

    /// Whether `who` owns as many collectibles as an account may.
    fn owned_full(&self, who: AccountId) -> (r: bool)
        requires
            self.wf(),
        ensures
            r == (self@.owned_by(who).len() >= self@.max_owned),
    {
        let n = self.owned_len(who);
        n as u64 >= self.config.max_owned as u64
    }

    /// Where `id` first occurs in the list of `who`.
    fn owned_position(&self, who: AccountId, id: &CollectibleId) -> (r: Option<usize>)
        requires
            self.wf(),
        ensures
            match r {
                Some(j) => first_position(self@.owned_by(who), *id) == Some(j as int) && j
                    < self@.owned_by(who).len(),
                None => first_position(self@.owned_by(who), *id) is None,
            },
    {
        match self.owner_of_collectibles.get(&who) {
            None => {
                assert(!self@.owned_by(who).contains(*id));
                None
            },
            Some(v) => {
                let ghost s = self@.owned_by(who);
                assert(s == v@);
                let mut i: usize = 0;
                while i < v.len()
                    invariant
                        s == v@,
                        s == self@.owned_by(who),
                        i <= v@.len(),
                        forall|j: int| 0 <= j < i ==> s[j] != *id,
                    decreases v@.len() - i,
                {
                    if crate::keymap::bytes_eq(&v[i], id) {
                        proof {
                            let k = i as int;
                            assert(s[k] == *id);
                            assert(s.contains(*id));
                            assert(0 <= k < s.len() && s[k] == *id && forall|j: int|
                                0 <= j < k ==> s[j] != *id);
                            let c = first_position(s, *id)->0;
                            assert(0 <= c < s.len() && s[c] == *id && forall|j: int|
                                0 <= j < c ==> s[j] != *id);
                            if c < k {
                                assert(s[c] != *id);
                            }
                            if c > k {
                                assert(s[k] != *id);
                            }
                        }
                        return Some(i);
                    }
                    i = i + 1;
                }
                assert(!s.contains(*id));
                None
            },
        }
    }

    /// Appends `id` to the list of `who`.
    fn push_owned(&mut self, who: AccountId, id: CollectibleId)
        requires
            old(self).wf(),
        ensures
            final(self).wf(),
            final(self)@ == (PalletState {
                owned: old(self)@.owned.insert(who, old(self)@.owned_by(who).push(id)),
                ..old(self)@
            }),
    {
        let mut list = match self.owner_of_collectibles.remove(&who) {
            Some(l) => l,
            None => Vec::new(),
        };
        list.push(id);
        self.owner_of_collectibles.insert(who, list);
        assert(self@.owned =~= old(self)@.owned.insert(who, old(self)@.owned_by(who).push(id)));
    }

    /// Removes the element at `i` of the list of `who`, moving the last
    /// element into its place.
    fn swap_remove_owned(&mut self, who: AccountId, i: usize)
        requires
            old(self).wf(),
            i < old(self)@.owned_by(who).len(),
        ensures
            final(self).wf(),
            final(self)@ == (PalletState {
                owned: old(self)@.owned.insert(
                    who,
                    swap_remove_at(old(self)@.owned_by(who), i as int),
                ),
                ..old(self)@
            }),
    {
        let mut list = match self.owner_of_collectibles.remove(&who) {
            Some(l) => l,
            None => Vec::new(),
        };
        let _ = list.swap_remove(i);
        self.owner_of_collectibles.insert(who, list);
        assert(self@.owned =~= old(self)@.owned.insert(
            who,
            swap_remove_at(old(self)@.owned_by(who), i as int),
        ));
    }

    /// Moves collectible `c`, stored at `id`, from `from` to `to`, where it
    /// stands at position `i` of the list of `from`.
    fn move_collectible(&mut self, id: CollectibleId, c: Collectible, from: AccountId, to: AccountId, i: usize)
        requires
            old(self).wf(),
            old(self)@.collectibles.contains_key(id),
            old(self)@.collectibles[id] == c,
            from != to,
            i < old(self)@.owned_by(from).len(),
        ensures
            final(self).wf(),
            final(self)@ == old(self)@.moved(id, from, to, i as int),
    {
        let updated = Collectible { unique_id: c.unique_id, price: None, color: c.color, owner: to };
        self.collectibles_map.insert(id, updated);
        self.push_owned(to, id);
        let ghost mid = self@;
        assert(mid.owned_by(from) == old(self)@.owned_by(from));
        self.swap_remove_owned(from, i);
        assert(self@.owned =~= old(self)@.moved(id, from, to, i as int).owned);
    }

    /// Creates collectible `unique_id` of `color` for `owner`.
    pub fn mint(&mut self, owner: &AccountId, unique_id: CollectibleId, color: Color) -> (r: Result<
        CollectibleId,
        DispatchError,
    >)
        requires
            old(self).wf(),
        ensures
            final(self).wf(),
            match old(self)@.mint(*owner, unique_id, color) {
                Ok(s) => r == Ok::<CollectibleId, DispatchError>(unique_id) && final(self)@ == s,
                Err(e) => r == Err::<CollectibleId, DispatchError>(DispatchError::Module(e))
                    && final(self)@ == old(self)@,
            },
    {
        let owner = *owner;
        if self.collectibles_map.contains_key(&unique_id) {
            return Err(DispatchError::Module(Error::DuplicateCollectible));
        }
        let count = self.collectibles_count;
        if count == u64::MAX {
            return Err(DispatchError::Module(Error::BoundsOverflow));
        }
        let new_count = count + 1;
        if self.owned_full(owner) {
            return Err(DispatchError::Module(Error::MaximumCollectiblesOwned));
        }
        self.push_owned(owner, unique_id);
        let collectible = Collectible { unique_id, price: None, color, owner };
        self.collectibles_map.insert(unique_id, collectible);
        self.collectibles_count = new_count;
        self.events.push(Event::CollectibleCreated { collectible: unique_id, owner });
        Ok(unique_id)
    }

    /// The identifier and color of a new collectible, from the randomness of
    /// the runtime, the index of the extrinsic in its block (`0` where there is
    /// none) and the block number.
    pub fn generate_id(random_seed: &[u8; 32], extrinsic_index: Option<u32>, block_number: BlockNumber) -> (r: (
        CollectibleId,
        Color,
    ))
        ensures
            r.0 == generated_id(*random_seed, extrinsic_index.unwrap_or(0), block_number),
            r.1 == color_of(r.0),
            r.1 == (if r.0[0] % 2 == 0 { Color::Red } else { Color::Yellow }),
    {
        let index = match extrinsic_index {
            Some(i) => i,
            None => 0,
        };
        let payload = encode_id_payload(random_seed, index, block_number);
        proof {
            crate::hashing::lemma_le_bytes_len(index as nat, 4);
            crate::hashing::lemma_le_bytes_len(block_number as nat, 4);
        }
        let hash = hashable_blake2_128(&payload);
        if hash[0] % 2 == 0 {
            (hash, Color::Red)
        } else {
            (hash, Color::Yellow)
        }
    }

    /// A signed account creates a collectible whose identifier and color come
    /// from the runtime's randomness, the extrinsic index and the block number.
    pub fn create_collectible(
        &mut self,
        origin: Origin,
        random_seed: [u8; 32],
        extrinsic_index: Option<u32>,
        block_number: BlockNumber,
    ) -> (r: DispatchResult)
        requires
            old(self).wf(),
        ensures
            final(self).wf(),
            match origin {
                Origin::Signed(who) => {
                    let id = generated_id(random_seed, extrinsic_index.unwrap_or(0), block_number);
                    match old(self)@.mint(who, id, color_of(id)) {
                        Ok(s) => r is Ok && final(self)@ == s,
                        Err(e) => r == Err::<(), DispatchError>(DispatchError::Module(e))
                            && final(self)@ == old(self)@,
                    }
                },
                _ => r == Err::<(), DispatchError>(DispatchError::BadOrigin) && final(self)@
                    == old(self)@,
            },
    {
        let sender = ensure_signed(origin)?;
        let (collectible_id, color) = Self::generate_id(&random_seed, extrinsic_index, block_number);
        let r = self.mint(&sender, collectible_id, color);
        match r {
            Ok(_) => Ok(()),
            Err(e) => Err(e),
        }
    }

    /// Collectible `unique_id` passes from its owner to `to`, and is no longer
    /// for sale.
    pub fn do_transfer(&mut self, unique_id: CollectibleId, to: AccountId) -> (r: DispatchResult)
        requires
            old(self).wf(),
        ensures
            final(self).wf(),
            match old(self)@.do_transfer(unique_id, to) {
                Ok(s) => r is Ok && final(self)@ == s,
                Err(e) => r == Err::<(), DispatchError>(DispatchError::Module(e)) && final(self)@
                    == old(self)@,
            },
    {
        let collectible = match self.collectibles_map.get(&unique_id) {
            Some(c) => *c,
            None => return Err(DispatchError::Module(Error::NoCollectible)),
        };
        let from = collectible.owner;
        if from == to {
            return Err(DispatchError::Module(Error::TransferToYourself));
        }
        let ind = match self.owned_position(from, &unique_id) {
            Some(i) => i,
            None => return Err(DispatchError::Module(Error::NoCollectible)),
        };
        if self.owned_full(to) {
            return Err(DispatchError::Module(Error::MaximumCollectiblesOwned));
        }
        self.move_collectible(unique_id, collectible, from, to, ind);
        self.events.push(Event::TransferSucceeded { collectible: unique_id, from, to });
        Ok(())
    }

    /// The owner of collectible `unique_id` transfers it to `to`. Transfer
    /// resets the price of the collectible, making it not for sale.
    pub fn transfer(&mut self, origin: Origin, to: AccountId, unique_id: CollectibleId) -> (r:
        DispatchResult)
        requires
            old(self).wf(),
        ensures
            final(self).wf(),
            match origin {
                Origin::Signed(who) => match old(self)@.transfer(who, to, unique_id) {
                    Ok(s) => r is Ok && final(self)@ == s,
                    Err(e) => r == Err::<(), DispatchError>(DispatchError::Module(e))
                        && final(self)@ == old(self)@,
                },
                _ => r == Err::<(), DispatchError>(DispatchError::BadOrigin) && final(self)@
                    == old(self)@,
            },
    {
        let from = ensure_signed(origin)?;
        let collectible = match self.collectibles_map.get(&unique_id) {
            Some(c) => *c,
            None => return Err(DispatchError::Module(Error::NoCollectible)),
        };
        if collectible.owner != from {
            return Err(DispatchError::Module(Error::NotOwner));
        }
        self.do_transfer(unique_id, to)
    }

    /// The owner of collectible `unique_id` puts `price` on it, or takes it
    /// off sale with `None`.
    pub fn set_price(&mut self, origin: Origin, price: Option<Balance>, unique_id: CollectibleId) -> (r:
        DispatchResult)
        requires
            old(self).wf(),
        ensures
            final(self).wf(),
            match origin {
                Origin::Signed(who) => match old(self)@.set_price(who, price, unique_id) {
                    Ok(s) => r is Ok && final(self)@ == s,
                    Err(e) => r == Err::<(), DispatchError>(DispatchError::Module(e))
                        && final(self)@ == old(self)@,
                },
                _ => r == Err::<(), DispatchError>(DispatchError::BadOrigin) && final(self)@
                    == old(self)@,
            },
    {
        let sender = ensure_signed(origin)?;
        let mut collectible = match self.collectibles_map.get(&unique_id) {
            Some(c) => *c,
            None => return Err(DispatchError::Module(Error::NoCollectible)),
        };
        if collectible.owner != sender {
            return Err(DispatchError::Module(Error::NotOwner));
        }
        collectible.price = price;
        self.collectibles_map.insert(unique_id, collectible);
        self.events.push(Event::PriceSet { collectible: unique_id, price });
        Ok(())
    }

    /// The payment that `buyer` owes for collectible `unique_id` on a bid of
    /// `bid_price`: the seller, who receives it, and the asked price.
    pub fn check_buy(&self, bid_price: Balance, unique_id: CollectibleId, buyer: AccountId) -> (r:
        Result<(AccountId, Balance), Error>)
        requires
            self.wf(),
        ensures
            r == self@.buy_payment(bid_price, unique_id, buyer),
    {
        let collectible = match self.collectibles_map.get(&unique_id) {
            Some(c) => *c,
            None => return Err(Error::NoCollectible),
        };
        let seller = collectible.owner;
        if seller == buyer {
            return Err(Error::TransferToYourself);
        }
        if self.owned_position(seller, &unique_id).is_none() {
            return Err(Error::NoCollectible);
        }
        if self.owned_full(buyer) {
            return Err(Error::MaximumCollectiblesOwned);
        }
        match collectible.price {
            Some(price) => {
                if bid_price < price {
                    Err(Error::BidPriceTooSlow)
                } else {
                    Ok((seller, price))
                }
            },
            None => Err(Error::NotForSale),
        }
    }

    /// Completes the sale of collectible `unique_id` from `seller` to `buyer`
    /// at `price`, once the currency has answered the payment with `paid`:
    /// a made payment passes the collectible to the buyer and deposits the
    /// sale and the transfer; a refused one is returned and changes nothing.
    pub fn complete_sale(
        &mut self,
        paid: DispatchResult,
        unique_id: CollectibleId,
        seller: AccountId,
        buyer: AccountId,
        price: Balance,
    ) -> (r: DispatchResult)
        requires
            old(self).wf(),
            old(self)@.collectibles.contains_key(unique_id),
            old(self)@.collectibles[unique_id].owner == seller,
            seller != buyer,
            first_position(old(self)@.owned_by(seller), unique_id) is Some,
            old(self)@.owned_by(buyer).len() < old(self)@.max_owned,
        ensures
            final(self).wf(),
            paid is Ok ==> r == paid && final(self)@ == old(self)@.sold(unique_id, seller, buyer, price),
            paid is Err ==> r == paid && final(self)@ == old(self)@,
    {
        if paid.is_err() {
            return paid;
        }
        let collectible = match self.collectibles_map.get(&unique_id) {
            Some(c) => *c,
            None => return Err(DispatchError::Module(Error::NoCollectible)),
        };
        let ind = match self.owned_position(seller, &unique_id) {
            Some(i) => i,
            None => return Err(DispatchError::Module(Error::NoCollectible)),
        };
        self.events.push(
            Event::CollectibleSold {
                seller,
                buyer,
                price: Some(price),
                collectible: unique_id,
            },
        );
        self.move_collectible(unique_id, collectible, seller, buyer, ind);
        self.events.push(
            Event::TransferSucceeded { collectible: unique_id, from: seller, to: buyer },
        );
        paid
    }

    /// `buyer` buys collectible `unique_id` on a bid of `bid_price`: once the
    /// checks of `check_buy` pass, `currency` is asked once to move the asked
    /// price from the buyer to the seller, keeping the buyer's account alive,
    /// and its answer is the result; when it pays, the collectible changes
    /// hands. Nothing is changed, and the currency is not asked, when a check
    /// fails; the storage is not changed when the currency refuses.
    pub fn do_buy_collectible<C: Currency>(
        &mut self,
        bid_price: Balance,
        unique_id: CollectibleId,
        buyer: AccountId,
        currency: &mut C,
    ) -> (r: DispatchResult)
        requires
            old(self).wf(),
        ensures
            final(self).wf(),
            match old(self)@.buy_payment(bid_price, unique_id, buyer) {
                Err(e) => {
                    &&& r == Err::<(), DispatchError>(DispatchError::Module(e))
                    &&& final(self)@ == old(self)@
                    &&& *final(currency) == *old(currency)
                },
                Ok((seller, price)) => {
                    let payment = (buyer, seller, price, ExistenceRequirement::KeepAlive);
                    &&& final(currency).requests() == old(currency).requests().push((payment, r))
                    &&& r matches Err(e) ==> !(e is Module)
                    &&& r is Ok ==> final(self)@ == old(self)@.sold(unique_id, seller, buyer, price)
                    &&& r is Err ==> final(self)@ == old(self)@
                },
            },
    {
        let (seller, price) = match self.check_buy(bid_price, unique_id, buyer) {
            Ok(p) => p,
            Err(e) => return Err(DispatchError::Module(e)),
        };
        let paid = currency.transfer(buyer, seller, price, ExistenceRequirement::KeepAlive);
        self.complete_sale(paid, unique_id, seller, buyer, price)
    }

    /// A signed account buys collectible `unique_id` on a bid of `bid_price`.
    pub fn buy_collective<C: Currency>(
        &mut self,
        origin: Origin,
        unique_id: CollectibleId,
        bid_price: Balance,
        currency: &mut C,
    ) -> (r: DispatchResult)
        requires
            old(self).wf(),
        ensures
            final(self).wf(),
            match origin {
                Origin::Signed(buyer) => match old(self)@.buy_payment(bid_price, unique_id, buyer) {
                    Err(e) => {
                        &&& r == Err::<(), DispatchError>(DispatchError::Module(e))
                        &&& final(self)@ == old(self)@
                        &&& *final(currency) == *old(currency)
                    },
                    Ok((seller, price)) => {
                        let payment = (buyer, seller, price, ExistenceRequirement::KeepAlive);
                        &&& final(currency).requests() == old(currency).requests().push(
                            (payment, r),
                        )
                        &&& r matches Err(e) ==> !(e is Module)
                        &&& r is Ok ==> final(self)@ == old(self)@.sold(
                            unique_id,
                            seller,
                            buyer,
                            price,
                        )
                        &&& r is Err ==> final(self)@ == old(self)@
                    },
                },
                _ => {
                    &&& r == Err::<(), DispatchError>(DispatchError::BadOrigin)
                    &&& final(self)@ == old(self)@
                    &&& *final(currency) == *old(currency)
                },
            },
    {
        let buyer = ensure_signed(origin)?;
        self.do_buy_collectible(bid_price, unique_id, buyer, currency)
    }
}

} // verus!

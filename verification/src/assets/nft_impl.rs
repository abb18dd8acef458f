//! The NFT registry: collections of items identified by fingerprints, items
//! split into fungible fractions, and holds placed on fractions.
use vstd::prelude::*;
use std::collections::BTreeMap;

use crate::assets::nft_laws::{
    same_collections_except, same_fractions_except, same_holds_except, same_items_except,
    touches_only_item,
};
use crate::assets::services::{
    AccountId, CollectionId, DispatchError, FTImplT, FTokenId, Fingerprint, FractionAmount,
    FractionHoldGuard, FractionHolderId, InternalCollectionId, ItemId, Nonfungibles,
};

verus! {

broadcast use vstd::laws_cmp::group_laws_cmp, vstd::std_specs::btree::group_btree_axioms;

/// The fractional part of an item: the fungible token that stands for its
/// fractions, and how many of them were issued.
#[derive(Clone, Copy, Debug, PartialEq, Eq, Structural)]
pub struct Fractional {
    pub ft_id: FTokenId,
    pub total: FractionAmount,
}

impl Fractional {
    /// The fungible token of the fractions.
    pub fn ft_id(&self) -> (r: FTokenId)
        ensures
            r == self.ft_id,
    {
        self.ft_id
    }

    /// How many fractions were issued.
    pub fn total(&self) -> (r: FractionAmount)
        ensures
            r == self.total,
    {
        self.total
    }

    pub fn new(ft_id: FTokenId, total: FractionAmount) -> (r: Self)
        ensures
            r == (Fractional { ft_id, total }),
    {
        Fractional { ft_id, total }
    }
}

/// A collection: its owner, its identifiers, how many items it may hold and
/// how many it has handed out.
#[derive(Clone, Copy, Debug, PartialEq, Eq, Structural)]
pub struct NFTokenCollectionRecord {
    pub account: AccountId,
    pub collection_id: CollectionId,
    pub internal_id: InternalCollectionId,
    pub max_items: ItemId,
    pub items: ItemId,
}

impl NFTokenCollectionRecord {
    pub fn account(&self) -> (r: AccountId)
        ensures
            r == self.account,
    {
        self.account
    }

    pub fn collection_id(&self) -> (r: CollectionId)
        ensures
            r == self.collection_id,
    {
        self.collection_id
    }

    pub fn internal_id(&self) -> (r: InternalCollectionId)
        ensures
            r == self.internal_id,
    {
        self.internal_id
    }

    pub fn max_items(&self) -> (r: ItemId)
        ensures
            r == self.max_items,
    {
        self.max_items
    }

    pub fn items(&self) -> (r: ItemId)
        ensures
            r == self.items,
    {
        self.items
    }

    pub fn new(
        account: &AccountId,
        collection_id: CollectionId,
        internal_id: InternalCollectionId,
        max_items: ItemId,
        items: ItemId,
    ) -> (r: Self)
        ensures
            r == (NFTokenCollectionRecord {
                account: *account,
                collection_id,
                internal_id,
                max_items,
                items,
            }),
    {
        NFTokenCollectionRecord { account: *account, collection_id, internal_id, max_items, items }
    }

    /// Counts one more item, staying at the largest count once there.
    pub fn _inc_items(&mut self)
        ensures
            *final(self) == (NFTokenCollectionRecord {
                items: if old(self).items < ItemId::MAX {
                    (old(self).items + 1) as ItemId
                } else {
                    old(self).items
                },
                ..*old(self)
            }),
    {
        self.items = self.items.saturating_add(1);
    }

    /// What `obtain_item_id` gives back and leaves behind.
    pub open spec fn spec_obtain_item_id(self) -> (Option<ItemId>, Self) {
        if self.items < self.max_items {
            (Some(self.items), NFTokenCollectionRecord { items: (self.items + 1) as ItemId, ..self })
        } else {
            (None, self)
        }
    }

    /// Hands out the next item index while the collection has room for it.
    pub fn obtain_item_id(&mut self) -> (r: Option<ItemId>)
        ensures
            (r, *final(self)) == old(self).spec_obtain_item_id(),
    {
        if self.items() < self.max_items() {
            let id = self.items();
            self._inc_items();
            return Some(id);
        }
        None
    }

    /// The owner, to be replaced in place.
    pub fn _mut_account(&mut self) -> (r: &mut AccountId)
        ensures
            *r == old(self).account,
            *final(self) == (NFTokenCollectionRecord { account: *final(r), ..*old(self) }),
    {
        &mut self.account
    }

    /// Makes `to` the owner of the collection.
    pub fn transfer_collection(&mut self, to: &AccountId)
        ensures
            *final(self) == (NFTokenCollectionRecord { account: *to, ..*old(self) }),
    {
        *self._mut_account() = *to;
    }
}

/// An item: its owner, fingerprint, index and collection, and its fractional
/// part once it has been split.
#[derive(Clone, Copy, Debug, PartialEq, Eq, Structural)]
pub struct NFTokenItemRecord {
    pub account: AccountId,
    pub fingerprint: Fingerprint,
    pub item_id: ItemId,
    pub collection_id: InternalCollectionId,
    pub fractional: Option<Fractional>,
}

impl NFTokenItemRecord {
    pub fn account(&self) -> (r: AccountId)
        ensures
            r == self.account,
    {
        self.account
    }

    pub fn fingerprint(&self) -> (r: Fingerprint)
        ensures
            r == self.fingerprint,
    {
        self.fingerprint
    }

    pub fn item_id(&self) -> (r: ItemId)
        ensures
            r == self.item_id,
    {
        self.item_id
    }

    pub fn collection_id(&self) -> (r: InternalCollectionId)
        ensures
            r == self.collection_id,
    {
        self.collection_id
    }

    pub fn fractional(&self) -> (r: Option<Fractional>)
        ensures
            r == self.fractional,
    {
        self.fractional
    }

    pub fn new(
        account: &AccountId,
        fingerprint: Fingerprint,
        item_id: ItemId,
        collection_id: InternalCollectionId,
        fractional: Option<Fractional>,
    ) -> (r: Self)
        ensures
            r == (NFTokenItemRecord {
                account: *account,
                fingerprint,
                item_id,
                collection_id,
                fractional,
            }),
    {
        NFTokenItemRecord { account: *account, fingerprint, item_id, collection_id, fractional }
    }

    /// Whether the item has been split into fractions.
    pub fn is_fractional(&self) -> (r: bool)
        ensures
            r == self.fractional.is_some(),
    {
        self.fractional.is_some()
    }

    /// The owner, to be replaced in place.
    pub fn _mut_account(&mut self) -> (r: &mut AccountId)
        ensures
            *r == old(self).account,
            *final(self) == (NFTokenItemRecord { account: *final(r), ..*old(self) }),
    {
        &mut self.account
    }

    /// The fractional part, to be replaced in place.
    pub fn _mut_fractional(&mut self) -> (r: &mut Option<Fractional>)
        ensures
            *r == old(self).fractional,
            *final(self) == (NFTokenItemRecord { fractional: *final(r), ..*old(self) }),
    {
        &mut self.fractional
    }

    /// Makes `to` the owner of the item.
    pub fn transfer_item(&mut self, to: &AccountId)
        ensures
            *final(self) == (NFTokenItemRecord { account: *to, ..*old(self) }),
    {
        *self._mut_account() = *to;
    }

    /// Records the fractional part of the item.
    pub fn set_fractional(&mut self, fractional: Fractional)
        ensures
            *final(self) == (NFTokenItemRecord { fractional: Some(fractional), ..*old(self) }),
    {
        *self._mut_fractional() = Some(fractional);
    }

    /// Joins the fractions back into the whole item.
    pub fn fuse(&mut self)
        ensures
            *final(self) == (NFTokenItemRecord { fractional: None, ..*old(self) }),
    {
        *self._mut_fractional() = None;
    }
}

/// The fractions of an item that one account holds, and how many holds are
/// placed on them.
#[derive(Clone, Copy, Debug, PartialEq, Eq, Structural)]
pub struct NFTokenFractionRecord {
    account: AccountId,
    fingerprint: Fingerprint,
    fractional: Fractional,
    amount: FractionAmount,
    holds: FractionHoldGuard,
}

impl NFTokenFractionRecord {
    pub closed spec fn spec_account(self) -> AccountId {
        self.account
    }

    pub closed spec fn spec_fingerprint(self) -> Fingerprint {
        self.fingerprint
    }

    pub closed spec fn spec_fractional(self) -> Fractional {
        self.fractional
    }

    pub closed spec fn spec_amount(self) -> FractionAmount {
        self.amount
    }

    pub closed spec fn spec_holds(self) -> FractionHoldGuard {
        self.holds
    }

    /// The record with the given fields.
    pub closed spec fn spec_new(
        account: AccountId,
        fingerprint: Fingerprint,
        fractional: Fractional,
        amount: FractionAmount,
        holds: FractionHoldGuard,
    ) -> Self {
        NFTokenFractionRecord { account, fingerprint, fractional, amount, holds }
    }

    /// The record with its amount replaced.
    pub closed spec fn spec_with_amount(self, amount: FractionAmount) -> Self {
        NFTokenFractionRecord { amount, ..self }
    }

    /// The record with its count of holds replaced.
    pub closed spec fn spec_with_holds(self, holds: FractionHoldGuard) -> Self {
        NFTokenFractionRecord { holds, ..self }
    }

    /// What the accessors give back of a record built from its fields.
    pub broadcast proof fn lemma_fields(
        account: AccountId,
        fingerprint: Fingerprint,
        fractional: Fractional,
        amount: FractionAmount,
        holds: FractionHoldGuard,
    )
        ensures
            #![trigger Self::spec_new(account, fingerprint, fractional, amount, holds)]
            Self::spec_new(account, fingerprint, fractional, amount, holds).spec_account() == account,
            Self::spec_new(account, fingerprint, fractional, amount, holds).spec_fingerprint()
                == fingerprint,
            Self::spec_new(account, fingerprint, fractional, amount, holds).spec_fractional()
                == fractional,
            Self::spec_new(account, fingerprint, fractional, amount, holds).spec_amount() == amount,
            Self::spec_new(account, fingerprint, fractional, amount, holds).spec_holds() == holds,
    {
    }

    /// A record whose amount was replaced keeps its other fields.
    pub broadcast proof fn lemma_with_amount(self, amount: FractionAmount)
        ensures
            #[trigger] self.spec_with_amount(amount) == Self::spec_new(
                self.spec_account(),
                self.spec_fingerprint(),
                self.spec_fractional(),
                amount,
                self.spec_holds(),
            ),
    {
    }

    /// A record whose count of holds was replaced keeps its other fields.
    pub broadcast proof fn lemma_with_holds(self, holds: FractionHoldGuard)
        ensures
            #[trigger] self.spec_with_holds(holds) == Self::spec_new(
                self.spec_account(),
                self.spec_fingerprint(),
                self.spec_fractional(),
                self.spec_amount(),
                holds,
            ),
    {
    }

    pub fn account(&self) -> (r: AccountId)
        ensures
            r == self.spec_account(),
    {
        self.account
    }

    pub fn fingerprint(&self) -> (r: Fingerprint)
        ensures
            r == self.spec_fingerprint(),
    {
        self.fingerprint
    }

    pub fn fractional(&self) -> (r: Fractional)
        ensures
            r == self.spec_fractional(),
    {
        self.fractional
    }

    pub fn amount(&self) -> (r: FractionAmount)
        ensures
            r == self.spec_amount(),
    {
        self.amount
    }

    pub fn holds(&self) -> (r: FractionHoldGuard)
        ensures
            r == self.spec_holds(),
    {
        self.holds
    }

    pub fn new(
        account: &AccountId,
        fingerprint: Fingerprint,
        fractional: Fractional,
        amount: FractionAmount,
        holds: FractionHoldGuard,
    ) -> (r: Self)
        ensures
            r == Self::spec_new(*account, fingerprint, fractional, amount, holds),
    {
        NFTokenFractionRecord { account: *account, fingerprint, fractional, amount, holds }
    }

    /// The amount, to be replaced in place.
    pub fn _mut_amount(&mut self) -> (r: &mut FractionAmount)
        ensures
            *r == old(self).spec_amount(),
            *final(self) == old(self).spec_with_amount(*final(r)),
    {
        &mut self.amount
    }

    /// The count of holds, to be replaced in place.
    pub fn _mut_holds(&mut self) -> (r: &mut FractionHoldGuard)
        ensures
            *r == old(self).spec_holds(),
            *final(self) == old(self).spec_with_holds(*final(r)),
    {
        &mut self.holds
    }

    /// Whether this account holds every fraction that was issued.
    pub fn can_fuse(&self) -> (r: bool)
        ensures
            r == (self.spec_amount() == self.spec_fractional().total),
    {
        self.amount == self.fractional.total
    }

    /// Whether some hold is placed on the fractions.
    pub fn on_hold(&self) -> (r: bool)
        ensures
            r == (self.spec_holds() != 0),
    {
        self.holds != 0
    }

    /// Adds `by` to the amount; fails, changing nothing, where the sum leaves
    /// the range of amounts.
    pub fn increase_amount(&mut self, by: FractionAmount) -> (r: Result<(), ()>)
        ensures
            old(self).spec_amount() + by <= FractionAmount::MAX ==> r is Ok && *final(self)
                == old(self).spec_with_amount((old(self).spec_amount() + by) as FractionAmount),
            old(self).spec_amount() + by > FractionAmount::MAX ==> r is Err && *final(self)
                == *old(self),
    {
        match self.amount.checked_add(by) {
            Some(a) => {
                *self._mut_amount() = a;
                Ok(())
            },
            None => Err(()),
        }
    }

    /// Takes `by` from the amount; fails, changing nothing, where `by` exceeds it.
    pub fn decrease_amount(&mut self, by: FractionAmount) -> (r: Result<(), ()>)
        ensures
            by <= old(self).spec_amount() ==> r is Ok && *final(self)
                == old(self).spec_with_amount((old(self).spec_amount() - by) as FractionAmount),
            by > old(self).spec_amount() ==> r is Err && *final(self) == *old(self),
    {
        match self.amount.checked_sub(by) {
            Some(a) => {
                *self._mut_amount() = a;
                Ok(())
            },
            None => Err(()),
        }
    }

    /// Counts one more hold; fails, changing nothing, at the largest count.
    pub fn inc_holds(&mut self) -> (r: Result<(), ()>)
        ensures
            old(self).spec_holds() < FractionHoldGuard::MAX ==> r is Ok && *final(self)
                == old(self).spec_with_holds((old(self).spec_holds() + 1) as FractionHoldGuard),
            old(self).spec_holds() == FractionHoldGuard::MAX ==> r is Err && *final(self)
                == *old(self),
    {
        match self.holds.checked_add(1) {
            Some(h) => {
                *self._mut_holds() = h;
                Ok(())
            },
            None => Err(()),
        }
    }

    /// Counts one hold less; fails, changing nothing, where none is placed.
    pub fn dec_holds(&mut self) -> (r: Result<(), ()>)
        ensures
            old(self).spec_holds() > 0 ==> r is Ok && *final(self)
                == old(self).spec_with_holds((old(self).spec_holds() - 1) as FractionHoldGuard),
            old(self).spec_holds() == 0 ==> r is Err && *final(self) == *old(self),
    {
        match self.holds.checked_sub(1) {
            Some(h) => {
                *self._mut_holds() = h;
                Ok(())
            },
            None => Err(()),
        }
    }
}

} // verus!

verus! {

/// The facts about building and changing fraction records, for use together.
pub broadcast group group_fraction_record {
    NFTokenFractionRecord::lemma_fields,
    NFTokenFractionRecord::lemma_with_amount,
    NFTokenFractionRecord::lemma_with_holds,
}

/// The abstract contents of the registry's storage.
pub struct NFTState {
    pub collections: Map<CollectionId, NFTokenCollectionRecord>,
    pub items: Map<Fingerprint, NFTokenItemRecord>,
    pub fingerprint_by_ft: Map<FTokenId, Fingerprint>,
    pub fractions: Map<(Fingerprint, AccountId), NFTokenFractionRecord>,
    pub fractionals: Map<Fingerprint, Fractional>,
    pub holds: Map<
        (Fingerprint, AccountId, FractionHolderId, FractionHoldGuard),
        (FractionHolderId, FractionHoldGuard),
    >,
    pub next_collection_id: Option<InternalCollectionId>,
}

/// The key under which a hold on `fraction` by `holder_id` with `guard` is kept.
pub open spec fn spec_hold_key(
    fraction: NFTokenFractionRecord,
    holder_id: FractionHolderId,
    guard: FractionHoldGuard,
) -> (Fingerprint, AccountId, FractionHolderId, FractionHoldGuard) {
    (fraction.spec_fingerprint(), fraction.spec_account(), holder_id, guard)
}

impl NFTState {
    /// Every record is kept under the key that its own fields give.
    pub open spec fn wf(self) -> bool {
        &&& forall|k: CollectionId| #[trigger]
            self.collections.contains_key(k) ==> self.collections[k].collection_id == k
        &&& forall|k: Fingerprint| #[trigger]
            self.items.contains_key(k) ==> self.items[k].fingerprint == k
        &&& forall|k: (Fingerprint, AccountId)| #[trigger]
            self.fractions.contains_key(k) ==> self.fractions[k].spec_fingerprint() == k.0
                && self.fractions[k].spec_account() == k.1
        &&& forall|k: (Fingerprint, AccountId, FractionHolderId, FractionHoldGuard)| #[trigger]
            self.holds.contains_key(k) ==> self.holds[k] == (k.2, k.3)
    }

    /// The collection identifier that is handed out next.
    pub open spec fn next_id(self) -> InternalCollectionId {
        match self.next_collection_id {
            Some(id) => id,
            None => 0,
        }
    }

    pub open spec fn with_collection(self, c: NFTokenCollectionRecord) -> Self {
        NFTState { collections: self.collections.insert(c.collection_id, c), ..self }
    }

    pub open spec fn with_item(self, i: NFTokenItemRecord) -> Self {
        NFTState { items: self.items.insert(i.fingerprint, i), ..self }
    }

    pub open spec fn with_fraction(self, f: NFTokenFractionRecord) -> Self {
        NFTState {
            fractions: self.fractions.insert((f.spec_fingerprint(), f.spec_account()), f),
            ..self
        }
    }

    pub open spec fn without_fraction(self, f: NFTokenFractionRecord) -> Self {
        NFTState {
            fractions: self.fractions.remove((f.spec_fingerprint(), f.spec_account())),
            ..self
        }
    }

    pub open spec fn with_fractional(self, fp: Fingerprint, fr: Fractional) -> Self {
        NFTState { fractionals: self.fractionals.insert(fp, fr), ..self }
    }

    pub open spec fn without_fractional(self, fp: Fingerprint) -> Self {
        NFTState { fractionals: self.fractionals.remove(fp), ..self }
    }
}

} // verus!

verus! {

/// The record of `item`'s owner after the fractions of `item` were set to
/// `amount` of `ft_id`, and the state after that update.
pub open spec fn spec_update_fractions_amount(
    s: NFTState,
    item: NFTokenItemRecord,
    ft_id: FTokenId,
    new_amount: FractionAmount,
) -> NFTState {
    let fr = Fractional { ft_id, total: new_amount };
    let fraction = NFTokenFractionRecord::spec_new(item.account, item.fingerprint, fr, new_amount, 0);
    s.with_fractional(item.fingerprint, fr).with_fraction(fraction).with_item(
        NFTokenItemRecord { fractional: Some(fr), ..item },
    )
}

/// The registry's storage: collections, items, fractions, the fractional parts
/// of items, the item of each fungible token, the holds on fractions, and the
/// next collection identifier.
pub struct NFTImplT {
    collections: BTreeMap<CollectionId, NFTokenCollectionRecord>,
    items: BTreeMap<Fingerprint, NFTokenItemRecord>,
    fingerprint_by_ft: BTreeMap<FTokenId, Fingerprint>,
    fractions: BTreeMap<(Fingerprint, AccountId), NFTokenFractionRecord>,
    fractionals: BTreeMap<Fingerprint, Fractional>,
    holds: BTreeMap<
        (Fingerprint, AccountId, FractionHolderId, FractionHoldGuard),
        (FractionHolderId, FractionHoldGuard),
    >,
    next_collection_id: Option<InternalCollectionId>,
}

impl View for NFTImplT {
    type V = NFTState;

    closed spec fn view(&self) -> NFTState {
        NFTState {
            collections: self.collections@,
            items: self.items@,
            fingerprint_by_ft: self.fingerprint_by_ft@,
            fractions: self.fractions@,
            fractionals: self.fractionals@,
            holds: self.holds@,
            next_collection_id: self.next_collection_id,
        }
    }
}

impl NFTImplT {
    /// Every record is kept under the key that its own fields give. It holds
    /// of every registry, and `use_type_invariant` gives it to any caller.
    #[verifier::type_invariant]
    pub open spec fn keyed_by_own_fields(self) -> bool {
        self@.wf()
    }

    /// An empty registry.
    pub fn new() -> (r: Self)
        ensures
            r@ == (NFTState {
                collections: Map::empty(),
                items: Map::empty(),
                fingerprint_by_ft: Map::empty(),
                fractions: Map::empty(),
                fractionals: Map::empty(),
                holds: Map::empty(),
                next_collection_id: None,
            }),
            r@.wf(),
    {
        NFTImplT {
            collections: BTreeMap::new(),
            items: BTreeMap::new(),
            fingerprint_by_ft: BTreeMap::new(),
            fractions: BTreeMap::new(),
            fractionals: BTreeMap::new(),
            holds: BTreeMap::new(),
            next_collection_id: None,
        }
    }

    /// The item whose fractions are the fungible token `ft_id`.
    pub fn get_fingerprint_by_fraction_token_id(&self, ft_id: &FTokenId) -> (r: Result<
        Fingerprint,
        DispatchError,
    >)
        ensures
            r == if self@.fingerprint_by_ft.contains_key(*ft_id) {
                Ok::<Fingerprint, DispatchError>(self@.fingerprint_by_ft[*ft_id])
            } else {
                Err(DispatchError::UnknownItem)
            },
    {
        match self.fingerprint_by_ft.get(ft_id) {
            Some(fp) => Ok(*fp),
            None => Err(DispatchError::UnknownItem),
        }
    }

    /// The collection stored under `id`.
    pub fn find_collection(&self, id: CollectionId) -> (r: Option<NFTokenCollectionRecord>)
        ensures
            r == if self@.collections.contains_key(id) {
                Some(self@.collections[id])
            } else {
                None
            },
    {
        match self.collections.get(&id) {
            Some(c) => Some(*c),
            None => None,
        }
    }

    /// The item stored under `fingerprint`.
    pub fn find_item(&self, fingerprint: Fingerprint) -> (r: Option<NFTokenItemRecord>)
        ensures
            r == if self@.items.contains_key(fingerprint) {
                Some(self@.items[fingerprint])
            } else {
                None
            },
    {
        match self.items.get(&fingerprint) {
            Some(i) => Some(*i),
            None => None,
        }
    }

    /// The fractions of the item `fingerprint` that `account` holds.
    pub fn find_fraction(&self, fingerprint: Fingerprint, account: &AccountId) -> (r: Option<
        NFTokenFractionRecord,
    >)
        ensures
            r == if self@.fractions.contains_key((fingerprint, *account)) {
                Some(self@.fractions[(fingerprint, *account)])
            } else {
                None
            },
    {
        match self.fractions.get(&(fingerprint, *account)) {
            Some(f) => Some(*f),
            None => None,
        }
    }

    /// The fractional part recorded for the item `fingerprint`.
    pub fn find_fractional(&self, fingerprint: Fingerprint) -> (r: Option<Fractional>)
        ensures
            r == if self@.fractionals.contains_key(fingerprint) {
                Some(self@.fractionals[fingerprint])
            } else {
                None
            },
    {
        match self.fractionals.get(&fingerprint) {
            Some(f) => Some(*f),
            None => None,
        }
    }

    /// Whether a hold is kept under `key`.
    pub fn has_hold(&self, key: &(Fingerprint, AccountId, FractionHolderId, FractionHoldGuard)) -> (r: bool)
        ensures
            r == self@.holds.contains_key(*key),
    {
        self.holds.contains_key(key)
    }

    /// Hands out the next collection identifier, or `None` once every one
    /// was handed out; the counter is left unchanged then.
    pub fn _obtain_collection_id(&mut self) -> (r: Option<InternalCollectionId>)
        ensures
            old(self)@.next_id() < InternalCollectionId::MAX ==> r == Some(old(self)@.next_id())
                && final(self)@ == (NFTState {
                next_collection_id: Some((old(self)@.next_id() + 1) as InternalCollectionId),
                ..old(self)@
            }),
            old(self)@.next_id() == InternalCollectionId::MAX ==> r is None && final(self)@
                == old(self)@,
    {
        proof {
            use_type_invariant(&*self);
        }
        let id = match self.next_collection_id {
            Some(id) => id,
            None => 0,
        };
        let next = id.checked_add(1)?;
        self.next_collection_id = Some(next);
        Some(id)
    }

    /// Stores `collection` under its own identifier.
    pub fn _insert_collection(&mut self, collection: NFTokenCollectionRecord)
        ensures
            final(self)@ == old(self)@.with_collection(collection),
    {
        proof {
            use_type_invariant(&*self);
        }
        let mut collections = BTreeMap::new();
        std::mem::swap(&mut collections, &mut self.collections);
        collections.insert(collection.collection_id(), collection);
        self.collections = collections;
    }

    /// Stores `item` under its own fingerprint.
    pub fn _insert_item(&mut self, item: NFTokenItemRecord)
        ensures
            final(self)@ == old(self)@.with_item(item),
    {
        proof {
            use_type_invariant(&*self);
        }
        let mut items = BTreeMap::new();
        std::mem::swap(&mut items, &mut self.items);
        items.insert(item.fingerprint(), item);
        self.items = items;
    }

    /// Stores `fraction` under its own fingerprint and account.
    pub fn _insert_fraction(&mut self, fraction: NFTokenFractionRecord)
        ensures
            final(self)@ == old(self)@.with_fraction(fraction),
    {
        proof {
            use_type_invariant(&*self);
        }
        let mut fractions = BTreeMap::new();
        std::mem::swap(&mut fractions, &mut self.fractions);
        fractions.insert((fraction.fingerprint(), fraction.account()), fraction);
        self.fractions = fractions;
    }

    /// Stores the fractional part of the item `fingerprint`.
    pub fn _insert_fractional(&mut self, fingerprint: &Fingerprint, fractional: &Fractional)
        ensures
            final(self)@ == old(self)@.with_fractional(*fingerprint, *fractional),
    {
        proof {
            use_type_invariant(&*self);
        }
        let mut fractionals = BTreeMap::new();
        std::mem::swap(&mut fractionals, &mut self.fractionals);
        fractionals.insert(*fingerprint, *fractional);
        self.fractionals = fractionals;
    }

    /// Removes the record kept under the fingerprint and account of `fraction`.
    pub fn _remove_fraction(&mut self, fraction: &NFTokenFractionRecord)
        ensures
            final(self)@ == old(self)@.without_fraction(*fraction),
    {
        proof {
            use_type_invariant(&*self);
        }
        let mut fractions = BTreeMap::new();
        std::mem::swap(&mut fractions, &mut self.fractions);
        fractions.remove(&(fraction.fingerprint(), fraction.account()));
        self.fractions = fractions;
    }

    /// Removes the fractional part kept under the fingerprint of `fraction`.
    pub fn _remove_fractional(&mut self, fraction: &NFTokenFractionRecord)
        ensures
            final(self)@ == old(self)@.without_fractional(fraction.spec_fingerprint()),
    {
        proof {
            use_type_invariant(&*self);
        }
        let mut fractionals = BTreeMap::new();
        std::mem::swap(&mut fractionals, &mut self.fractionals);
        fractionals.remove(&fraction.fingerprint());
        self.fractionals = fractionals;
    }

    /// The key under which a hold on `fraction` by `holder_id` with `guard` is kept.
    pub fn _fraction_hold_key(
        fraction: &NFTokenFractionRecord,
        holder_id: FractionHolderId,
        guard: FractionHoldGuard,
    ) -> (r: (Fingerprint, AccountId, FractionHolderId, FractionHoldGuard))
        ensures
            r == spec_hold_key(*fraction, holder_id, guard),
    {
        (fraction.fingerprint(), fraction.account(), holder_id, guard)
    }

    /// Sets the fractional part of `item` to `new_amount` of `ft_id`: records it
    /// for the item, stores it in the item, and stores the record of the item's
    /// owner with the whole amount and no holds.
    pub fn _update_fractions_amount(
        &mut self,
        item: NFTokenItemRecord,
        ft_id: FTokenId,
        new_amount: FractionAmount,
    )
        ensures
            touches_only_item(old(self)@, final(self)@, item.fingerprint, item.account),
            final(self)@.fingerprint_by_ft == old(self)@.fingerprint_by_ft,
            final(self)@ == spec_update_fractions_amount(old(self)@, item, ft_id, new_amount),
    {
        proof {
            use_type_invariant(&*self);
        }
        let mut item = item;
        let fingerprint = item.fingerprint();
        let admin = item.account();
        let new_item_fractional_part = Fractional::new(ft_id, new_amount);
        let fraction = NFTokenFractionRecord::new(
            &admin,
            fingerprint,
            new_item_fractional_part,
            new_amount,
            0,
        );
        self._insert_fractional(&fingerprint, &new_item_fractional_part);
        self._insert_fraction(fraction);
        item.set_fractional(new_item_fractional_part);
        self._insert_item(item);
    }
}

} // verus!

verus! {

/// The collection that `create_collection` stores.
pub open spec fn spec_new_collection(
    s: NFTState,
    account: AccountId,
    id: CollectionId,
    max_items: ItemId,
) -> NFTokenCollectionRecord {
    NFTokenCollectionRecord {
        account,
        collection_id: id,
        internal_id: s.next_id(),
        max_items,
        items: 0,
    }
}

/// The state once the next collection identifier was handed out.
pub open spec fn spec_bump_collection_id(s: NFTState) -> NFTState {
    NFTState { next_collection_id: Some((s.next_id() + 1) as InternalCollectionId), ..s }
}

/// The item that `mint_item` creates in `collection`.
pub open spec fn spec_minted_item(
    collection: NFTokenCollectionRecord,
    fingerprint: Fingerprint,
) -> NFTokenItemRecord {
    NFTokenItemRecord {
        account: collection.account,
        fingerprint,
        item_id: collection.items,
        collection_id: collection.internal_id,
        fractional: None,
    }
}

/// The state after `item` was split into `total` fractions of the new token `ft_id`.
pub open spec fn spec_fractionalized(
    s: NFTState,
    item: NFTokenItemRecord,
    total: FractionAmount,
    ft_id: FTokenId,
) -> NFTState {
    let u = spec_update_fractions_amount(s, item, ft_id, total);
    NFTState { fingerprint_by_ft: u.fingerprint_by_ft.insert(ft_id, item.fingerprint), ..u }
}

/// The record that receives fractions of `donor`'s item for `to`: the stored
/// one, or an empty one.
pub open spec fn spec_recipient(
    s: NFTState,
    donor: NFTokenFractionRecord,
    to: AccountId,
) -> NFTokenFractionRecord {
    let key = (donor.spec_fingerprint(), to);
    if s.fractions.contains_key(key) {
        s.fractions[key]
    } else {
        NFTokenFractionRecord::spec_new(to, donor.spec_fingerprint(), donor.spec_fractional(), 0, 0)
    }
}

/// The state after `amount` fractions moved from `donor` to `to`: the
/// recipient's record grows by `amount`, the donor's shrinks by it and is
/// removed once empty.
pub open spec fn spec_transfer_fraction(
    s: NFTState,
    donor: NFTokenFractionRecord,
    to: AccountId,
    amount: FractionAmount,
) -> NFTState {
    let recipient = spec_recipient(s, donor, to);
    let s1 = s.with_fraction(
        recipient.spec_with_amount((recipient.spec_amount() + amount) as FractionAmount),
    );
    let donor2 = donor.spec_with_amount((donor.spec_amount() - amount) as FractionAmount);
    if donor2.spec_amount() == 0 {
        s1.without_fraction(donor2)
    } else {
        s1.with_fraction(donor2)
    }
}

/// The state after a hold by `holder_id` with `guard` was placed on `fraction`:
/// the hold is kept, and the record is stored with one more hold unless its
/// count is at its largest.
pub open spec fn spec_hold_fraction(
    s: NFTState,
    fraction: NFTokenFractionRecord,
    holder_id: FractionHolderId,
    guard: FractionHoldGuard,
) -> NFTState {
    let s1 = NFTState {
        holds: s.holds.insert(spec_hold_key(fraction, holder_id, guard), (holder_id, guard)),
        ..s
    };
    if fraction.spec_holds() < FractionHoldGuard::MAX {
        s1.with_fraction(
            fraction.spec_with_holds((fraction.spec_holds() + 1) as FractionHoldGuard),
        )
    } else {
        s1
    }
}

/// The state after the hold by `holder_id` with `guard` was lifted from
/// `fraction`: the hold is dropped, and the record is stored with one hold
/// less unless it counts none.
pub open spec fn spec_unhold_fraction(
    s: NFTState,
    fraction: NFTokenFractionRecord,
    holder_id: FractionHolderId,
    guard: FractionHoldGuard,
) -> NFTState {
    let s1 = NFTState { holds: s.holds.remove(spec_hold_key(fraction, holder_id, guard)), ..s };
    if fraction.spec_holds() > 0 {
        s1.with_fraction(
            fraction.spec_with_holds((fraction.spec_holds() - 1) as FractionHoldGuard),
        )
    } else {
        s1
    }
}

/// What minting `amount` fractions of `item` for `who` answers, with the
/// storage and the fungible ledger after it: the total grows by `amount`
/// where the ledger lets `who` mint and mints; else nothing changes.
pub open spec fn spec_mint_fraction<F: FTImplT>(
    s: NFTState,
    fungibles: F,
    item: NFTokenItemRecord,
    who: AccountId,
    amount: FractionAmount,
) -> (Result<(), DispatchError>, NFTState, F) {
    if amount == 0 {
        (Err(DispatchError::BadValue), s, fungibles)
    } else if item.fractional is None {
        (Err(DispatchError::NotFractionalized), s, fungibles)
    } else {
        let fr = item.fractional->0;
        if !fungibles.spec_can_mint(fr.ft_id, who) {
            (Err(DispatchError::NoPermission), s, fungibles)
        } else {
            match fungibles.spec_mint_ft(fr.ft_id, who, amount) {
                Err(e) => (Err(e), s, fungibles),
                Ok(_) => (
                    Ok(()),
                    spec_update_fractions_amount(
                        s,
                        item,
                        fr.ft_id,
                        (fr.total + amount) as FractionAmount,
                    ),
                    fungibles.spec_after_mint_ft(fr.ft_id, who, amount),
                ),
            }
        }
    }
}

/// What burning up to `amount` fractions of `item` held by `who` answers,
/// with the storage and the fungible ledger after it: the total shrinks by
/// what the ledger burnt, where the owner asks for no more than the total,
/// the ledger lets `who` burn and burns no more than the total.
pub open spec fn spec_burn_fraction<F: FTImplT>(
    s: NFTState,
    fungibles: F,
    item: NFTokenItemRecord,
    who: AccountId,
    amount: FractionAmount,
) -> (Result<FractionAmount, DispatchError>, NFTState, F) {
    if item.account != who {
        (Err(DispatchError::WrongOwner), s, fungibles)
    } else if amount == 0 {
        (Err(DispatchError::BadValue), s, fungibles)
    } else if item.fractional is None {
        (Err(DispatchError::NotFractionalized), s, fungibles)
    } else if amount > item.fractional->0.total {
        (Err(DispatchError::InsufficientBalance), s, fungibles)
    } else {
        let fr = item.fractional->0;
        if !fungibles.spec_can_burn(fr.ft_id, who) {
            (Err(DispatchError::NoPermission), s, fungibles)
        } else {
            match fungibles.spec_burn_ft(fr.ft_id, who, amount) {
                Err(e) => (Err(e), s, fungibles),
                Ok(burnt) => {
                    let after = fungibles.spec_after_burn_ft(fr.ft_id, who, amount);
                    if burnt <= fr.total {
                        (
                            Ok(burnt),
                            spec_update_fractions_amount(
                                s,
                                item,
                                fr.ft_id,
                                (fr.total - burnt) as FractionAmount,
                            ),
                            after,
                        )
                    } else {
                        (Err(DispatchError::Overflow), s, after)
                    }
                },
            }
        }
    }
}

impl NFTImplT {
    /// Creates a collection of at most `max_items` items owned by `account`
    /// under `id`: hands out the next internal identifier, creates its class
    /// in the non-fungible ledger, and stores the empty collection.
    /// The class is created with `account` as owner and as administrator;
    /// where the ledger refuses it, its error is returned and only the
    /// identifier counter has moved.
    pub fn create_collection<N: Nonfungibles>(
        &mut self,
        nonfungibles: &mut N,
        account: &AccountId,
        id: CollectionId,
        max_items: ItemId,
    ) -> (r: Result<(), DispatchError>)
        ensures
            final(self)@.items == old(self)@.items,
            final(self)@.fractions == old(self)@.fractions,
            final(self)@.fractionals == old(self)@.fractionals,
            final(self)@.holds == old(self)@.holds,
            final(self)@.fingerprint_by_ft == old(self)@.fingerprint_by_ft,
            forall|c: CollectionId|
                c != id ==> #[trigger] final(self)@.collections.contains_key(c)
                    == old(self)@.collections.contains_key(c) && final(self)@.collections[c]
                    == old(self)@.collections[c],
            max_items == 0 ==> r == Err::<(), DispatchError>(DispatchError::BadValue)
                && final(self)@ == old(self)@ && *final(nonfungibles) == *old(nonfungibles),
            max_items != 0 && old(self)@.next_id() == InternalCollectionId::MAX ==> r == Err::<
                (),
                DispatchError,
            >(DispatchError::UnknownCollection) && final(self)@ == old(self)@
                && *final(nonfungibles) == *old(nonfungibles),
            max_items != 0 && old(self)@.next_id() < InternalCollectionId::MAX ==> {
                let class = old(self)@.next_id();
                let answer = old(nonfungibles).spec_create_class(class, *account, *account);
                &&& r == answer
                &&& *final(nonfungibles) == if answer is Ok {
                    old(nonfungibles).spec_after_create_class(class, *account, *account)
                } else {
                    *old(nonfungibles)
                }
                &&& answer is Ok ==> final(self)@ == spec_bump_collection_id(old(self)@).with_collection(
                    spec_new_collection(old(self)@, *account, id, max_items),
                )
                &&& answer is Err ==> final(self)@ == spec_bump_collection_id(old(self)@)
            },
    {
        proof {
            use_type_invariant(&*self);
        }
        if max_items == 0 {
            return Err(DispatchError::BadValue);
        }
        let internal_id = match self._obtain_collection_id() {
            Some(i) => i,
            None => {
                return Err(DispatchError::UnknownCollection);
            },
        };
        nonfungibles.create_class(&internal_id, account, account)?;
        let collection = NFTokenCollectionRecord::new(account, id, internal_id, max_items, 0);
        self._insert_collection(collection);
        Ok(())
    }

    /// Mints the item `fingerprint` in `collection`: takes the collection's
    /// next item index, stores the collection with its count raised, mints the
    /// instance in the non-fungible ledger for the collection's owner, and
    /// stores the item. Refused where the fingerprint is taken or the
    /// collection is full; where the ledger refuses, the collection stays
    /// stored with its count raised and no item is stored.
    pub fn mint_item<N: Nonfungibles>(
        &mut self,
        nonfungibles: &mut N,
        collection: NFTokenCollectionRecord,
        fingerprint: Fingerprint,
    ) -> (r: Result<(), ()>)
        ensures
            same_collections_except(old(self)@, final(self)@, collection.collection_id),
            same_items_except(old(self)@, final(self)@, fingerprint),
            final(self)@.fractions == old(self)@.fractions,
            final(self)@.fractionals == old(self)@.fractionals,
            final(self)@.holds == old(self)@.holds,
            final(self)@.fingerprint_by_ft == old(self)@.fingerprint_by_ft,
            final(self)@.next_collection_id == old(self)@.next_collection_id,
            old(self)@.items.contains_key(fingerprint) ==> r == Err::<(), ()>(()) && final(self)@
                == old(self)@ && *final(nonfungibles) == *old(nonfungibles),
            collection.items >= collection.max_items ==> r == Err::<(), ()>(()) && final(self)@
                == old(self)@ && *final(nonfungibles) == *old(nonfungibles),
            !old(self)@.items.contains_key(fingerprint) && collection.items < collection.max_items
                ==> {
                let stored = old(self)@.with_collection(collection.spec_obtain_item_id().1);
                let answer = old(nonfungibles).spec_mint_into(
                    collection.internal_id,
                    collection.items,
                    collection.account,
                );
                &&& (r is Ok) == (answer is Ok)
                &&& *final(nonfungibles) == if answer is Ok {
                    old(nonfungibles).spec_after_mint_into(
                        collection.internal_id,
                        collection.items,
                        collection.account,
                    )
                } else {
                    *old(nonfungibles)
                }
                &&& answer is Ok ==> final(self)@ == stored.with_item(
                    spec_minted_item(collection, fingerprint),
                )
                &&& answer is Err ==> final(self)@ == stored
            },
    {
        proof {
            use_type_invariant(&*self);
        }
        if self.items.contains_key(&fingerprint) {
            return Err(());
        }
        let mut collection = collection;
        let id = match collection.obtain_item_id() {
            Some(id) => id,
            None => {
                return Err(());
            },
        };
        let item = NFTokenItemRecord::new(
            &collection.account(),
            fingerprint,
            id,
            collection.internal_id(),
            None,
        );
        self._insert_collection(collection);
        match nonfungibles.mint_into(&item.collection_id(), &item.item_id(), &item.account()) {
            Ok(()) => {},
            Err(_) => {
                return Err(());
            },
        }
        self._insert_item(item);
        Ok(())
    }

    /// Mints `amount` fractions of `item` for `who`, where the fungible ledger
    /// lets `who` mint, and records the raised total as the fractional part
    /// of the item held by its owner. Where the ledger mints, the raised
    /// total must fit its type.
    pub fn mint_fraction<F: FTImplT>(
        &mut self,
        fungibles: &mut F,
        item: NFTokenItemRecord,
        who: &AccountId,
        amount: FractionAmount,
    ) -> (r: Result<(), DispatchError>)
        requires
            ({
                let ft_id = item.fractional->0.ft_id;
                amount != 0 && item.fractional is Some && old(fungibles).spec_can_mint(ft_id, *who)
                    && old(fungibles).spec_mint_ft(ft_id, *who, amount) is Ok
                    ==> item.fractional->0.total + amount <= FractionAmount::MAX
            }),
        ensures
            touches_only_item(old(self)@, final(self)@, item.fingerprint, item.account),
            final(self)@.fingerprint_by_ft == old(self)@.fingerprint_by_ft,
            (r, final(self)@, *final(fungibles)) == spec_mint_fraction(
                old(self)@,
                *old(fungibles),
                item,
                *who,
                amount,
            ),
    {
        proof {
            use_type_invariant(&*self);
        }
        if amount == 0 {
            return Err(DispatchError::BadValue);
        }
        let fractional = match item.fractional() {
            Some(f) => f,
            None => {
                return Err(DispatchError::NotFractionalized);
            },
        };
        let ft_id = fractional.ft_id();
        if !fungibles.can_mint(ft_id, who) {
            return Err(DispatchError::NoPermission);
        }
        fungibles.mint_ft(ft_id, who, amount)?;
        let total_amount = fractional.total() + amount;
        self._update_fractions_amount(item, ft_id, total_amount);
        Ok(())
    }

    /// Splits `item` into `total` fractions: creates a fungible token owned
    /// by the item's owner, mints `total` of it for the owner, locks further
    /// minting where `limited`, and records the item of the new token.
    /// Where the ledger refuses the lock, the fractions stay recorded but the
    /// item of the token does not.
    pub fn fractionalize<F: FTImplT>(
        &mut self,
        fungibles: &mut F,
        item: NFTokenItemRecord,
        total: FractionAmount,
        limited: bool,
    ) -> (r: Result<(), DispatchError>)
        ensures
            touches_only_item(old(self)@, final(self)@, item.fingerprint, item.account),
            forall|t: FTokenId|
                old(fungibles).spec_create_ft(item.account, 1) != Ok::<FTokenId, DispatchError>(t)
                    ==> #[trigger] final(self)@.fingerprint_by_ft.contains_key(t)
                    == old(self)@.fingerprint_by_ft.contains_key(t)
                    && final(self)@.fingerprint_by_ft[t] == old(self)@.fingerprint_by_ft[t],
            r is Ok ==> ({
                let created = old(fungibles).spec_create_ft(item.account, 1);
                &&& created is Ok
                &&& final(self)@.fingerprint_by_ft.contains_key(created->Ok_0)
                &&& final(self)@.fingerprint_by_ft[created->Ok_0] == item.fingerprint
            }),
            total == 0 ==> r == Err::<(), DispatchError>(DispatchError::BadValue) && final(self)@
                == old(self)@ && *final(fungibles) == *old(fungibles),
            total != 0 && item.fractional is Some ==> r == Err::<(), DispatchError>(
                DispatchError::NoPermission,
            ) && final(self)@ == old(self)@ && *final(fungibles) == *old(fungibles),
            total != 0 && item.fractional is None ==> {
                let owner = item.account;
                let created = old(fungibles).spec_create_ft(owner, 1);
                match created {
                    Err(e) => r == Err::<(), DispatchError>(e) && final(self)@ == old(self)@
                        && *final(fungibles) == *old(fungibles),
                    Ok(ft_id) => {
                        let f1 = old(fungibles).spec_after_create_ft(owner, 1);
                        let minted = f1.spec_mint_ft(ft_id, owner, total);
                        let f2 = f1.spec_after_mint_ft(ft_id, owner, total);
                        let locked = f2.spec_lock_minting(ft_id, owner);
                        if !f1.spec_can_mint(ft_id, owner) {
                            r == Err::<(), DispatchError>(DispatchError::NoPermission)
                                && final(self)@ == old(self)@ && *final(fungibles) == f1
                        } else if minted is Err {
                            r == minted && final(self)@ == old(self)@ && *final(fungibles) == f1
                        } else if limited && locked is Err {
                            r == locked && final(self)@ == spec_update_fractions_amount(
                                old(self)@,
                                item,
                                ft_id,
                                total,
                            ) && *final(fungibles) == f2
                        } else {
                            r == Ok::<(), DispatchError>(()) && final(self)@ == spec_fractionalized(
                                old(self)@,
                                item,
                                total,
                                ft_id,
                            ) && *final(fungibles) == if limited {
                                f2.spec_after_lock_minting(ft_id, owner)
                            } else {
                                f2
                            }
                        }
                    },
                }
            },
    {
        proof {
            use_type_invariant(&*self);
        }
        if total == 0 {
            return Err(DispatchError::BadValue);
        }
        if item.is_fractional() {
            return Err(DispatchError::NoPermission);
        }
        let ghost orig = item;
        let account = item.account();
        let fingerprint = item.fingerprint();
        let ft_id = fungibles.create_ft(account, 1)?;
        let mut item = item;
        item.set_fractional(Fractional::new(ft_id, 0));
        let ghost marked = item;
        self.mint_fraction(fungibles, item, &account, total)?;
        assert(spec_update_fractions_amount(old(self)@, marked, ft_id, total)
            == spec_update_fractions_amount(old(self)@, orig, ft_id, total)) by {
            assert(NFTokenItemRecord { fractional: Some(Fractional { ft_id, total }), ..marked }
                == NFTokenItemRecord { fractional: Some(Fractional { ft_id, total }), ..orig });
        }
        if limited {
            fungibles.lock_minting(ft_id, &account)?;
        }
        let mut fingerprint_by_ft = BTreeMap::new();
        std::mem::swap(&mut fingerprint_by_ft, &mut self.fingerprint_by_ft);
        fingerprint_by_ft.insert(ft_id, fingerprint);
        self.fingerprint_by_ft = fingerprint_by_ft;
        assert(self@ == spec_fractionalized(old(self)@, orig, total, ft_id));
        Ok(())
    }
}

} // verus!

verus! {

impl NFTImplT {
    /// Burns up to `amount` fractions of `item` held by its owner `who`, where
    /// the fungible ledger lets `who` burn, records the lowered total as the
    /// fractional part of the item held by its owner, and returns what the
    /// ledger burnt.
    pub fn burn_fraction<F: FTImplT>(
        &mut self,
        fungibles: &mut F,
        item: NFTokenItemRecord,
        who: &AccountId,
        amount: FractionAmount,
    ) -> (r: Result<FractionAmount, DispatchError>)
        ensures
            touches_only_item(old(self)@, final(self)@, item.fingerprint, item.account),
            final(self)@.fingerprint_by_ft == old(self)@.fingerprint_by_ft,
            (r, final(self)@, *final(fungibles)) == spec_burn_fraction(
                old(self)@,
                *old(fungibles),
                item,
                *who,
                amount,
            ),
    {
        proof {
            use_type_invariant(&*self);
        }
        if item.account() != *who {
            return Err(DispatchError::WrongOwner);
        }
        if amount == 0 {
            return Err(DispatchError::BadValue);
        }
        let item_fractional_part = match item.fractional() {
            Some(f) => f,
            None => {
                return Err(DispatchError::NotFractionalized);
            },
        };
        let total_amount = item_fractional_part.total();
        if amount > total_amount {
            return Err(DispatchError::InsufficientBalance);
        }
        let ft_id = item_fractional_part.ft_id();
        if !fungibles.can_burn(ft_id, who) {
            return Err(DispatchError::NoPermission);
        }
        let withdrawn_amount = fungibles.burn_ft(ft_id, who, amount)?;
        let after_burn_amount = match total_amount.checked_sub(withdrawn_amount) {
            Some(a) => a,
            None => {
                return Err(DispatchError::Overflow);
            },
        };
        self._update_fractions_amount(item, ft_id, after_burn_amount);
        Ok(withdrawn_amount)
    }

    /// Makes `to` the owner of `collection` and stores it.
    pub fn transfer_collection(&mut self, collection: NFTokenCollectionRecord, to: &AccountId) -> (r:
        Result<(), ()>)
        ensures
            same_collections_except(old(self)@, final(self)@, collection.collection_id),
            final(self)@.items == old(self)@.items,
            final(self)@.fractions == old(self)@.fractions,
            final(self)@.fractionals == old(self)@.fractionals,
            final(self)@.holds == old(self)@.holds,
            final(self)@.fingerprint_by_ft == old(self)@.fingerprint_by_ft,
            final(self)@.next_collection_id == old(self)@.next_collection_id,
            r == Ok::<(), ()>(()),
            final(self)@ == old(self)@.with_collection(
                NFTokenCollectionRecord { account: *to, ..collection },
            ),
    {
        proof {
            use_type_invariant(&*self);
        }
        let mut collection = collection;
        collection.transfer_collection(to);
        self._insert_collection(collection);
        Ok(())
    }

    /// Moves the whole `item` to `to`: refused while it is split into
    /// fractions; otherwise the non-fungible ledger moves the instance and the
    /// item is stored with its new owner. Where the ledger refuses, its error
    /// is returned and nothing is stored.
    pub fn transfer_item<N: Nonfungibles>(
        &mut self,
        nonfungibles: &mut N,
        item: NFTokenItemRecord,
        to: &AccountId,
    ) -> (r: Result<(), DispatchError>)
        ensures
            same_items_except(old(self)@, final(self)@, item.fingerprint),
            final(self)@.collections == old(self)@.collections,
            final(self)@.fractions == old(self)@.fractions,
            final(self)@.fractionals == old(self)@.fractionals,
            final(self)@.holds == old(self)@.holds,
            final(self)@.fingerprint_by_ft == old(self)@.fingerprint_by_ft,
            final(self)@.next_collection_id == old(self)@.next_collection_id,
            item.fractional is Some ==> r == Err::<(), DispatchError>(DispatchError::NoPermission)
                && final(self)@ == old(self)@ && *final(nonfungibles) == *old(nonfungibles),
            item.fractional is None ==> {
                let answer = old(nonfungibles).spec_transfer(item.collection_id, item.item_id, *to);
                &&& r == answer
                &&& *final(nonfungibles) == if answer is Ok {
                    old(nonfungibles).spec_after_transfer(item.collection_id, item.item_id, *to)
                } else {
                    *old(nonfungibles)
                }
                &&& answer is Ok ==> final(self)@ == old(self)@.with_item(
                    NFTokenItemRecord { account: *to, ..item },
                )
                &&& answer is Err ==> final(self)@ == old(self)@
            },
    {
        proof {
            use_type_invariant(&*self);
        }
        if item.is_fractional() {
            return Err(DispatchError::NoPermission);
        }
        nonfungibles.transfer(&item.collection_id(), &item.item_id(), to)?;
        let mut item = item;
        item.transfer_item(to);
        self._insert_item(item);
        Ok(())
    }

    /// Moves `amount` fractions from `donor` to `to`. Refused for a transfer to
    /// the donor itself, a zero amount, fractions on hold on either side, or
    /// more than the donor has. Otherwise the fungible ledger moves the
    /// tokens, the recipient's record grows by `amount` and the donor's
    /// shrinks by it; an emptied donor record is removed. Where the ledger
    /// refuses or the recipient's amount would leave its range, an error is
    /// returned and nothing is stored.
    pub fn transfer_fraction<F: FTImplT>(
        &mut self,
        fungibles: &mut F,
        donor: NFTokenFractionRecord,
        to: &AccountId,
        amount: FractionAmount,
    ) -> (r: Result<(), DispatchError>)
        ensures
            same_fractions_except(
                old(self)@,
                final(self)@,
                set![(donor.spec_fingerprint(), donor.spec_account()), (donor.spec_fingerprint(), *to)],
            ),
            final(self)@.items == old(self)@.items,
            final(self)@.fractionals == old(self)@.fractionals,
            final(self)@.collections == old(self)@.collections,
            final(self)@.holds == old(self)@.holds,
            final(self)@.fingerprint_by_ft == old(self)@.fingerprint_by_ft,
            final(self)@.next_collection_id == old(self)@.next_collection_id,
            donor.spec_account() == *to ==> r == Err::<(), DispatchError>(DispatchError::BadTarget)
                && final(self)@ == old(self)@ && *final(fungibles) == *old(fungibles),
            donor.spec_account() != *to && amount == 0 ==> r == Err::<(), DispatchError>(
                DispatchError::BadValue,
            ) && final(self)@ == old(self)@ && *final(fungibles) == *old(fungibles),
            donor.spec_account() != *to && amount != 0 && donor.spec_holds() != 0 ==> r == Err::<
                (),
                DispatchError,
            >(DispatchError::NoPermission) && final(self)@ == old(self)@ && *final(fungibles)
                == *old(fungibles),
            donor.spec_account() != *to && amount != 0 && donor.spec_holds() == 0 && amount
                > donor.spec_amount() ==> r == Err::<(), DispatchError>(
                DispatchError::InsufficientBalance,
            ) && final(self)@ == old(self)@ && *final(fungibles) == *old(fungibles),
            donor.spec_account() != *to && amount != 0 && donor.spec_holds() == 0 && amount
                <= donor.spec_amount() && spec_recipient(old(self)@, donor, *to).spec_holds() != 0
                ==> r == Err::<(), DispatchError>(DispatchError::NoPermission) && final(self)@
                == old(self)@ && *final(fungibles) == *old(fungibles),
            donor.spec_account() != *to && amount != 0 && donor.spec_holds() == 0 && amount
                <= donor.spec_amount() && spec_recipient(old(self)@, donor, *to).spec_holds() == 0
                ==> {
                let ft_id = donor.spec_fractional().ft_id;
                let answer = old(fungibles).spec_transfer(ft_id, donor.spec_account(), *to, amount);
                let fits = spec_recipient(old(self)@, donor, *to).spec_amount() + amount
                    <= FractionAmount::MAX;
                &&& answer is Err ==> r == answer && final(self)@ == old(self)@ && *final(fungibles)
                    == *old(fungibles)
                &&& answer is Ok ==> *final(fungibles) == old(fungibles).spec_after_transfer(
                    ft_id,
                    donor.spec_account(),
                    *to,
                    amount,
                )
                &&& answer is Ok && fits ==> r == Ok::<(), DispatchError>(()) && final(self)@
                    == spec_transfer_fraction(old(self)@, donor, *to, amount)
                &&& answer is Ok && !fits ==> r == Err::<(), DispatchError>(DispatchError::Overflow)
                    && final(self)@ == old(self)@
            },
    {
        proof {
            use_type_invariant(&*self);
        }
        broadcast use group_fraction_record;

        if donor.account() == *to {
            return Err(DispatchError::BadTarget);
        }
        if amount == 0 {
            return Err(DispatchError::BadValue);
        }
        if donor.on_hold() {
            return Err(DispatchError::NoPermission);
        }
        if amount > donor.amount() {
            return Err(DispatchError::InsufficientBalance);
        }
        let maybe_fraction = self.find_fraction(donor.fingerprint(), to);
        let mut fraction = match maybe_fraction {
            Some(f) => f,
            None => NFTokenFractionRecord::new(to, donor.fingerprint(), donor.fractional(), 0, 0),
        };
        if fraction.on_hold() {
            return Err(DispatchError::NoPermission);
        }
        fungibles.transfer(donor.fractional().ft_id(), &donor.account(), to, amount)?;
        match fraction.increase_amount(amount) {
            Ok(()) => {},
            Err(()) => {
                return Err(DispatchError::Overflow);
            },
        }
        self._insert_fraction(fraction);
        let mut donor = donor;
        match donor.decrease_amount(amount) {
            Ok(()) => {},
            Err(()) => {
                return Err(DispatchError::Overflow);
            },
        }
        if donor.amount() == 0 {
            self._remove_fraction(&donor);
        } else {
            self._insert_fraction(donor);
        }
        Ok(())
    }

    /// Places a hold by `holder_id` with `guard` on `fraction`: refused where
    /// that hold is already kept; otherwise the hold is kept and the record is
    /// stored with one more hold. At the largest count of holds the hold stays
    /// kept, the record is not stored, and `Overflow` is returned.
    pub fn hold_fraction(
        &mut self,
        fraction: NFTokenFractionRecord,
        holder_id: FractionHolderId,
        guard: FractionHoldGuard,
    ) -> (r: Result<(), DispatchError>)
        ensures
            same_holds_except(old(self)@, final(self)@, spec_hold_key(fraction, holder_id, guard)),
            same_fractions_except(
                old(self)@,
                final(self)@,
                set![(fraction.spec_fingerprint(), fraction.spec_account())],
            ),
            final(self)@.items == old(self)@.items,
            final(self)@.fractionals == old(self)@.fractionals,
            final(self)@.collections == old(self)@.collections,
            final(self)@.fingerprint_by_ft == old(self)@.fingerprint_by_ft,
            final(self)@.next_collection_id == old(self)@.next_collection_id,
            old(self)@.holds.contains_key(spec_hold_key(fraction, holder_id, guard)) ==> r == Err::<
                (),
                DispatchError,
            >(DispatchError::NoPermission) && final(self)@ == old(self)@,
            !old(self)@.holds.contains_key(spec_hold_key(fraction, holder_id, guard)) ==> {
                &&& final(self)@ == spec_hold_fraction(old(self)@, fraction, holder_id, guard)
                &&& r == if fraction.spec_holds() < FractionHoldGuard::MAX {
                    Ok::<(), DispatchError>(())
                } else {
                    Err(DispatchError::Overflow)
                }
            },
    {
        proof {
            use_type_invariant(&*self);
        }
        broadcast use group_fraction_record;

        let key = Self::_fraction_hold_key(&fraction, holder_id, guard);
        if self.holds.contains_key(&key) {
            return Err(DispatchError::NoPermission);
        }
        let mut holds = BTreeMap::new();
        std::mem::swap(&mut holds, &mut self.holds);
        holds.insert(key, (holder_id, guard));
        self.holds = holds;
        let mut fraction = fraction;
        match fraction.inc_holds() {
            Ok(()) => {},
            Err(()) => {
                return Err(DispatchError::Overflow);
            },
        }
        self._insert_fraction(fraction);
        Ok(())
    }

    /// Lifts the hold by `holder_id` with `guard` from `fraction`: refused
    /// where that hold is not kept; otherwise the hold is dropped and the
    /// record is stored with one hold less. Where the record counts no hold,
    /// the hold stays dropped, the record is not stored, and `Overflow` is
    /// returned.
    pub fn unhold_fraction(
        &mut self,
        fraction: NFTokenFractionRecord,
        holder_id: FractionHolderId,
        guard: FractionHoldGuard,
    ) -> (r: Result<(), DispatchError>)
        ensures
            same_holds_except(old(self)@, final(self)@, spec_hold_key(fraction, holder_id, guard)),
            same_fractions_except(
                old(self)@,
                final(self)@,
                set![(fraction.spec_fingerprint(), fraction.spec_account())],
            ),
            final(self)@.items == old(self)@.items,
            final(self)@.fractionals == old(self)@.fractionals,
            final(self)@.collections == old(self)@.collections,
            final(self)@.fingerprint_by_ft == old(self)@.fingerprint_by_ft,
            final(self)@.next_collection_id == old(self)@.next_collection_id,
            !old(self)@.holds.contains_key(spec_hold_key(fraction, holder_id, guard)) ==> r == Err::<
                (),
                DispatchError,
            >(DispatchError::NoPermission) && final(self)@ == old(self)@,
            old(self)@.holds.contains_key(spec_hold_key(fraction, holder_id, guard)) ==> {
                &&& final(self)@ == spec_unhold_fraction(old(self)@, fraction, holder_id, guard)
                &&& r == if fraction.spec_holds() > 0 {
                    Ok::<(), DispatchError>(())
                } else {
                    Err(DispatchError::Overflow)
                }
            },
    {
        proof {
            use_type_invariant(&*self);
        }
        broadcast use group_fraction_record;

        let key = Self::_fraction_hold_key(&fraction, holder_id, guard);
        if !self.holds.contains_key(&key) {
            return Err(DispatchError::NoPermission);
        }
        let mut holds = BTreeMap::new();
        std::mem::swap(&mut holds, &mut self.holds);
        holds.remove(&key);
        self.holds = holds;
        let mut fraction = fraction;
        match fraction.dec_holds() {
            Ok(()) => {},
            Err(()) => {
                return Err(DispatchError::Overflow);
            },
        }
        self._insert_fraction(fraction);
        Ok(())
    }
}

} // verus!

verus! {

/// How many fractions of the item `fingerprint` the account `account` holds
/// in `s`: the amount of its record, or none without a record.
pub open spec fn spec_amount_held(s: NFTState, fingerprint: Fingerprint, account: AccountId) -> int {
    if s.fractions.contains_key((fingerprint, account)) {
        s.fractions[(fingerprint, account)].spec_amount() as int
    } else {
        0
    }
}

/// A transfer of fractions conserves them: what the donor gives up the
/// recipient gains, and the records of every other item and account stay as
/// they were.
pub proof fn lemma_transfer_fraction_conserves(
    s: NFTState,
    donor: NFTokenFractionRecord,
    to: AccountId,
    amount: FractionAmount,
)
    requires
        s.wf(),
        donor.spec_account() != to,
        amount <= donor.spec_amount(),
        spec_recipient(s, donor, to).spec_amount() + amount <= FractionAmount::MAX,
    ensures
        ({
            let s2 = spec_transfer_fraction(s, donor, to, amount);
            let fp = donor.spec_fingerprint();
            &&& s2.wf()
            &&& spec_amount_held(s2, fp, donor.spec_account()) + spec_amount_held(s2, fp, to)
                == donor.spec_amount() + spec_amount_held(s, fp, to)
            &&& spec_amount_held(s2, fp, to) == spec_amount_held(s, fp, to) + amount
            &&& forall|k: (Fingerprint, AccountId)|
                k != (fp, donor.spec_account()) && k != (fp, to) ==> (#[trigger] s2.fractions.contains_key(k)
                    == s.fractions.contains_key(k) && (s.fractions.contains_key(k)
                    ==> s2.fractions[k] == s.fractions[k]))
            &&& s2.items == s.items && s2.collections == s.collections && s2.holds == s.holds
                && s2.fractionals == s.fractionals
        }),
{
    broadcast use group_fraction_record;

    let fp = donor.spec_fingerprint();
    let recipient = spec_recipient(s, donor, to);
    if s.fractions.contains_key((fp, to)) {
        assert(recipient.spec_account() == to && recipient.spec_fingerprint() == fp);
    }
}

/// Placing a hold on a stored fraction and lifting it again restores the
/// storage: both calls succeed, and the hold and the record are as before.
pub proof fn lemma_hold_unhold_round_trip(
    s: NFTState,
    fraction: NFTokenFractionRecord,
    holder_id: FractionHolderId,
    guard: FractionHoldGuard,
)
    requires
        s.wf(),
        s.fractions.contains_key((fraction.spec_fingerprint(), fraction.spec_account())),
        s.fractions[(fraction.spec_fingerprint(), fraction.spec_account())] == fraction,
        !s.holds.contains_key(spec_hold_key(fraction, holder_id, guard)),
        fraction.spec_holds() < FractionHoldGuard::MAX,
    ensures
        ({
            let key = (fraction.spec_fingerprint(), fraction.spec_account());
            let s1 = spec_hold_fraction(s, fraction, holder_id, guard);
            let held = s1.fractions[key];
            &&& s1.holds.contains_key(spec_hold_key(held, holder_id, guard))
            &&& held.spec_holds() > 0
            &&& spec_unhold_fraction(s1, held, holder_id, guard) == s
        }),
{
    broadcast use group_fraction_record;

    let key = (fraction.spec_fingerprint(), fraction.spec_account());
    let hk = spec_hold_key(fraction, holder_id, guard);
    let s1 = spec_hold_fraction(s, fraction, holder_id, guard);
    let held = s1.fractions[key];
    let s2 = spec_unhold_fraction(s1, held, holder_id, guard);
    assert(s2.holds =~= s.holds);
    assert(s2.fractions =~= s.fractions);
}

/// The item indices that a collection hands out increase, and a collection
/// never counts more items than its limit.
pub proof fn lemma_item_ids_increase(c: NFTokenCollectionRecord)
    requires
        c.items <= c.max_items,
    ensures
        ({
            let (first, c1) = c.spec_obtain_item_id();
            let (second, c2) = c1.spec_obtain_item_id();
            &&& c1.items <= c1.max_items && c2.items <= c2.max_items
            &&& first is Some && second is Some ==> first->0 < second->0
            &&& first is None ==> second is None
        }),
{
}

/// Two collections created one after the other get different internal
/// identifiers, the second one above the first.
pub proof fn lemma_collection_ids_increase(
    s: NFTState,
    account1: AccountId,
    id1: CollectionId,
    max_items1: ItemId,
    account2: AccountId,
    id2: CollectionId,
    max_items2: ItemId,
)
    requires
        s.next_id() < InternalCollectionId::MAX,
    ensures
        ({
            let first = spec_new_collection(s, account1, id1, max_items1);
            let s1 = spec_bump_collection_id(s).with_collection(first);
            let second = spec_new_collection(s1, account2, id2, max_items2);
            second.internal_id > first.internal_id
        }),
{
}

/// Recording the fractions of an item twice leaves what the second time
/// recorded: the earlier total does not survive.
pub proof fn lemma_update_fractions_last_wins(
    s: NFTState,
    item: NFTokenItemRecord,
    ft_id: FTokenId,
    first: FractionAmount,
    second: FractionAmount,
)
    ensures
        ({
            let s1 = spec_update_fractions_amount(s, item, ft_id, first);
            spec_update_fractions_amount(s1, s1.items[item.fingerprint], ft_id, second)
                == spec_update_fractions_amount(s, item, ft_id, second)
        }),
{
    broadcast use group_fraction_record;

    let s1 = spec_update_fractions_amount(s, item, ft_id, first);
    let s2 = spec_update_fractions_amount(s1, s1.items[item.fingerprint], ft_id, second);
    let s3 = spec_update_fractions_amount(s, item, ft_id, second);
    assert(s2.items =~= s3.items);
    assert(s2.fractions =~= s3.fractions);
    assert(s2.fractionals =~= s3.fractionals);
}

/// Minting fractions of an item and burning as many again returns the
/// storage to what recording the earlier total gives.
pub proof fn lemma_mint_then_burn(
    s: NFTState,
    item: NFTokenItemRecord,
    amount: FractionAmount,
)
    requires
        item.fractional is Some,
        item.fractional->0.total + amount <= FractionAmount::MAX,
    ensures
        ({
            let fr = item.fractional->0;
            let minted = spec_update_fractions_amount(
                s,
                item,
                fr.ft_id,
                (fr.total + amount) as FractionAmount,
            );
            let stored = minted.items[item.fingerprint];
            let new_total = stored.fractional->0.total;
            &&& stored.fractional is Some && amount <= new_total
            &&& spec_update_fractions_amount(
                minted,
                stored,
                fr.ft_id,
                (new_total - amount) as FractionAmount,
            ) == spec_update_fractions_amount(s, item, fr.ft_id, fr.total)
        }),
{
    let fr = item.fractional->0;
    lemma_update_fractions_last_wins(
        s,
        item,
        fr.ft_id,
        (fr.total + amount) as FractionAmount,
        fr.total,
    );
}

/// Minting `amount` fractions of an item and then burning as many of the
/// item stored by the mint, where the fungible ledger lets both happen and
/// burns all that was asked, succeeds with `amount` and leaves the storage
/// as recording the item's earlier total gives.
pub proof fn lemma_mint_fraction_then_burn_fraction<F: FTImplT>(
    s: NFTState,
    fungibles: F,
    item: NFTokenItemRecord,
    who: AccountId,
    amount: FractionAmount,
)
    requires
        item.account == who,
        item.fractional is Some,
        item.fractional->0.total + amount <= FractionAmount::MAX,
        spec_mint_fraction(s, fungibles, item, who, amount).0 is Ok,
        ({
            let ft_id = item.fractional->0.ft_id;
            let minted = spec_mint_fraction(s, fungibles, item, who, amount).2;
            &&& minted.spec_can_burn(ft_id, who)
            &&& minted.spec_burn_ft(ft_id, who, amount) == Ok::<FractionAmount, DispatchError>(
                amount,
            )
        }),
    ensures
        ({
            let fr = item.fractional->0;
            let (_, s1, f1) = spec_mint_fraction(s, fungibles, item, who, amount);
            let (r2, s2, f2) = spec_burn_fraction(s1, f1, s1.items[item.fingerprint], who, amount);
            &&& r2 == Ok::<FractionAmount, DispatchError>(amount)
            &&& s2 == spec_update_fractions_amount(s, item, fr.ft_id, fr.total)
            &&& f2 == f1.spec_after_burn_ft(fr.ft_id, who, amount)
        }),
{
    broadcast use group_fraction_record;

    lemma_mint_then_burn(s, item, amount);
}

/// Adding to the amount of a record and taking as much again gives the
/// record back; so does counting a hold and uncounting it.
pub proof fn lemma_fraction_counters_round_trip(
    f: NFTokenFractionRecord,
    by: FractionAmount,
)
    requires
        f.spec_amount() + by <= FractionAmount::MAX,
        f.spec_holds() < FractionHoldGuard::MAX,
    ensures
        ({
            let grown = f.spec_with_amount((f.spec_amount() + by) as FractionAmount);
            grown.spec_with_amount((grown.spec_amount() - by) as FractionAmount) == f
        }),
        ({
            let held = f.spec_with_holds((f.spec_holds() + 1) as FractionHoldGuard);
            held.spec_with_holds((held.spec_holds() - 1) as FractionHoldGuard) == f
        }),
{
    broadcast use group_fraction_record;

}

/// Moving an item to another owner and back gives the item back.
pub proof fn lemma_transfer_item_round_trip(item: NFTokenItemRecord, to: AccountId)
    ensures
        (NFTokenItemRecord {
            account: item.account,
            ..NFTokenItemRecord { account: to, ..item }
        }) == item,
{
}

/// What is stored can be read back: a record stored under its own key is
/// found there, and every other key keeps what it held.
pub proof fn lemma_read_after_write(
    s: NFTState,
    c: NFTokenCollectionRecord,
    i: NFTokenItemRecord,
    f: NFTokenFractionRecord,
    other_collection: CollectionId,
    other_item: Fingerprint,
    other_fraction: (Fingerprint, AccountId),
)
    requires
        other_collection != c.collection_id,
        other_item != i.fingerprint,
        other_fraction != (f.spec_fingerprint(), f.spec_account()),
    ensures
        s.with_collection(c).collections[c.collection_id] == c,
        s.with_item(i).items[i.fingerprint] == i,
        s.with_fraction(f).fractions[(f.spec_fingerprint(), f.spec_account())] == f,
        !s.without_fraction(f).fractions.contains_key((f.spec_fingerprint(), f.spec_account())),
        s.with_collection(c).collections.contains_key(other_collection)
            == s.collections.contains_key(other_collection),
        s.with_collection(c).collections[other_collection] == s.collections[other_collection],
        s.with_item(i).items.contains_key(other_item) == s.items.contains_key(other_item),
        s.with_item(i).items[other_item] == s.items[other_item],
        s.with_fraction(f).fractions.contains_key(other_fraction) == s.fractions.contains_key(
            other_fraction,
        ),
        s.with_fraction(f).fractions[other_fraction] == s.fractions[other_fraction],
{
}

/// After an item was split, each lookup gives what the split recorded: the
/// item of the new token, the fractional part of the item, and the owner's
/// record holding every fraction with no hold.
pub proof fn lemma_fractionalized_lookups(
    s: NFTState,
    item: NFTokenItemRecord,
    total: FractionAmount,
    ft_id: FTokenId,
)
    ensures
        ({
            let s2 = spec_fractionalized(s, item, total, ft_id);
            let fr = Fractional { ft_id, total };
            let key = (item.fingerprint, item.account);
            &&& s2.fingerprint_by_ft.contains_key(ft_id)
            &&& s2.fingerprint_by_ft[ft_id] == item.fingerprint
            &&& s2.fractionals[item.fingerprint] == fr
            &&& s2.items[item.fingerprint] == (NFTokenItemRecord { fractional: Some(fr), ..item })
            &&& s2.fractions.contains_key(key)
            &&& s2.fractions[key].spec_amount() == total
            &&& s2.fractions[key].spec_holds() == 0
            &&& s2.fractions[key].spec_fractional() == fr
            &&& s2.fractions[key].spec_fractional().total == s2.fractions[key].spec_amount()
        }),
{
    broadcast use group_fraction_record;

}

} // verus!

//! What each change of the registry touches, and what it leaves alone: laws
//! over the storage maps that the operations' contracts speak of.
use vstd::prelude::*;

use crate::assets::nft_impl::{
    group_fraction_record, spec_bump_collection_id, spec_burn_fraction, spec_fractionalized,
    spec_hold_fraction, spec_hold_key, spec_mint_fraction, spec_new_collection,
    spec_transfer_fraction, spec_unhold_fraction, spec_update_fractions_amount, Fractional,
    NFTState, NFTokenCollectionRecord, NFTokenFractionRecord, NFTokenItemRecord,
};
use crate::assets::services::{
    FractionHoldGuard, FractionHolderId, AccountId, CollectionId, FTImplT, FTokenId, Fingerprint, FractionAmount, InternalCollectionId,
    ItemId,
};

verus! {

/// The key of a hold: the fraction's item and account, the holder and the guard.
pub type HoldKey = (Fingerprint, AccountId, FractionHolderId, FractionHoldGuard);

/// Everything outside the item `fp` and its owner's fractions is as in `s`:
/// the other fraction records, the other items, the other fractional parts,
/// and all collections, holds, token items and the identifier counter.
pub open spec fn touches_only_item(s: NFTState, t: NFTState, fp: Fingerprint, owner: AccountId) -> bool {
    &&& forall|k: (Fingerprint, AccountId)|
        k != (fp, owner) ==> #[trigger] t.fractions.contains_key(k) == s.fractions.contains_key(k)
            && t.fractions[k] == s.fractions[k]
    &&& forall|f: Fingerprint|
        f != fp ==> #[trigger] t.items.contains_key(f) == s.items.contains_key(f) && t.items[f]
            == s.items[f]
    &&& forall|f: Fingerprint|
        f != fp ==> #[trigger] t.fractionals.contains_key(f) == s.fractionals.contains_key(f)
            && t.fractionals[f] == s.fractionals[f]
    &&& t.collections == s.collections
    &&& t.holds == s.holds
    &&& t.next_collection_id == s.next_collection_id
}

/// `t` keeps every collection of `s` other than `id`.
pub open spec fn same_collections_except(s: NFTState, t: NFTState, id: CollectionId) -> bool {
    forall|c: CollectionId|
        c != id ==> #[trigger] t.collections.contains_key(c) == s.collections.contains_key(c)
            && t.collections[c] == s.collections[c]
}

/// `t` keeps every item of `s` other than `fp`.
pub open spec fn same_items_except(s: NFTState, t: NFTState, fp: Fingerprint) -> bool {
    forall|f: Fingerprint|
        f != fp ==> #[trigger] t.items.contains_key(f) == s.items.contains_key(f) && t.items[f]
            == s.items[f]
}

/// `t` keeps every fraction record of `s` whose key is not in `keys`.
pub open spec fn same_fractions_except(
    s: NFTState,
    t: NFTState,
    keys: Set<(Fingerprint, AccountId)>,
) -> bool {
    forall|k: (Fingerprint, AccountId)|
        !keys.contains(k) ==> #[trigger] t.fractions.contains_key(k) == s.fractions.contains_key(k)
            && t.fractions[k] == s.fractions[k]
}

/// `t` keeps every hold of `s` other than the one under `key`.
pub open spec fn same_holds_except(s: NFTState, t: NFTState, key: HoldKey) -> bool {
    forall|h: HoldKey|
        h != key ==> #[trigger] t.holds.contains_key(h) == s.holds.contains_key(h) && t.holds[h]
            == s.holds[h]
}

/// Setting the fractions of `item` to `new_amount` of `ft_id` rewrites only
/// the item, its fractional part and its owner's record: the owner then
/// holds every fraction with no hold, the item carries the new fractional
/// part, and every other record, item, fractional part, collection, hold and
/// token item stays as it was.
pub proof fn lemma_update_fractions_amount_frame(
    s: NFTState,
    item: NFTokenItemRecord,
    ft_id: FTokenId,
    new_amount: FractionAmount,
)
    ensures
        ({
            let t = spec_update_fractions_amount(s, item, ft_id, new_amount);
            let key = (item.fingerprint, item.account);
            let fr = Fractional { ft_id, total: new_amount };
            &&& touches_only_item(s, t, item.fingerprint, item.account)
            &&& t.fingerprint_by_ft == s.fingerprint_by_ft
            &&& t.fractions.contains_key(key)
            &&& t.fractions[key].spec_account() == item.account
            &&& t.fractions[key].spec_fingerprint() == item.fingerprint
            &&& t.fractions[key].spec_amount() == new_amount
            &&& t.fractions[key].spec_holds() == 0
            &&& t.fractions[key].spec_fractional() == fr
            &&& t.items.contains_key(item.fingerprint)
            &&& t.items[item.fingerprint].fractional == Some(fr)
            &&& t.items[item.fingerprint].account == item.account
            &&& t.items[item.fingerprint].item_id == item.item_id
            &&& t.items[item.fingerprint].collection_id == item.collection_id
            &&& t.fractionals.contains_key(item.fingerprint)
            &&& t.fractionals[item.fingerprint] == fr
        }),
{
    broadcast use group_fraction_record;

}

/// Minting fractions of `item`, whatever the ledger answers, leaves every
/// record but the owner's, every item but `item`, and all collections,
/// holds and token items as they were.
pub proof fn lemma_mint_fraction_frame<F: FTImplT>(
    s: NFTState,
    fungibles: F,
    item: NFTokenItemRecord,
    who: AccountId,
    amount: FractionAmount,
)
    ensures
        ({
            let t = spec_mint_fraction(s, fungibles, item, who, amount).1;
            &&& touches_only_item(s, t, item.fingerprint, item.account)
            &&& t.fingerprint_by_ft == s.fingerprint_by_ft
        }),
{
    if amount != 0 && item.fractional is Some {
        let fr = item.fractional->0;
        lemma_update_fractions_amount_frame(
            s,
            item,
            fr.ft_id,
            (fr.total + amount) as FractionAmount,
        );
    }
}

/// Burning fractions of `item`, whatever the ledger answers, leaves every
/// record but the owner's, every item but `item`, and all collections,
/// holds and token items as they were.
pub proof fn lemma_burn_fraction_frame<F: FTImplT>(
    s: NFTState,
    fungibles: F,
    item: NFTokenItemRecord,
    who: AccountId,
    amount: FractionAmount,
)
    ensures
        ({
            let t = spec_burn_fraction(s, fungibles, item, who, amount).1;
            &&& touches_only_item(s, t, item.fingerprint, item.account)
            &&& t.fingerprint_by_ft == s.fingerprint_by_ft
        }),
{
    if item.fractional is Some {
        let fr = item.fractional->0;
        match fungibles.spec_burn_ft(fr.ft_id, who, amount) {
            Ok(burnt) => {
                lemma_update_fractions_amount_frame(
                    s,
                    item,
                    fr.ft_id,
                    (fr.total - burnt) as FractionAmount,
                );
            },
            Err(_) => {},
        }
    }
}

/// Splitting `item` into fractions of the new token `ft_id` records `item`
/// as the item of `ft_id` and keeps the item of every other token; beyond
/// the item, its fractional part and its owner's record, nothing changes.
pub proof fn lemma_fractionalize_keeps_other_tokens(
    s: NFTState,
    item: NFTokenItemRecord,
    total: FractionAmount,
    ft_id: FTokenId,
)
    ensures
        ({
            let t = spec_fractionalized(s, item, total, ft_id);
            &&& t.fingerprint_by_ft.contains_key(ft_id)
            &&& t.fingerprint_by_ft[ft_id] == item.fingerprint
            &&& forall|other: FTokenId|
                other != ft_id ==> #[trigger] t.fingerprint_by_ft.contains_key(other)
                    == s.fingerprint_by_ft.contains_key(other) && t.fingerprint_by_ft[other]
                    == s.fingerprint_by_ft[other]
            &&& touches_only_item(s, t, item.fingerprint, item.account)
        }),
{
    lemma_update_fractions_amount_frame(s, item, ft_id, total);
}

/// Creating a collection hands out the next identifier and stores only the
/// new collection, under `id`, owned by `account`, with `max_items` places
/// and no item: every item, fraction record, fractional part, hold, token
/// item and other collection stays as it was. Where the ledger refuses the
/// class, only the counter moves.
pub proof fn lemma_create_collection_frame(
    s: NFTState,
    account: AccountId,
    id: CollectionId,
    max_items: ItemId,
)
    requires
        s.next_id() < InternalCollectionId::MAX,
    ensures
        ({
            let bumped = spec_bump_collection_id(s);
            let created = bumped.with_collection(spec_new_collection(s, account, id, max_items));
            &&& bumped.next_id() == s.next_id() + 1
            &&& bumped.collections == s.collections
            &&& created.next_id() == s.next_id() + 1
            &&& created.collections.contains_key(id)
            &&& created.collections[id].account == account
            &&& created.collections[id].collection_id == id
            &&& created.collections[id].internal_id == s.next_id()
            &&& created.collections[id].max_items == max_items
            &&& created.collections[id].items == 0
            &&& forall|c: CollectionId|
                c != id ==> #[trigger] created.collections.contains_key(c)
                    == s.collections.contains_key(c) && created.collections[c] == s.collections[c]
            &&& bumped.items == s.items && created.items == s.items
            &&& bumped.fractions == s.fractions && created.fractions == s.fractions
            &&& bumped.fractionals == s.fractionals && created.fractionals == s.fractionals
            &&& bumped.holds == s.holds && created.holds == s.holds
            &&& bumped.fingerprint_by_ft == s.fingerprint_by_ft && created.fingerprint_by_ft
                == s.fingerprint_by_ft
        }),
{
}

/// In a registry whose records sit under their own keys, moving fractions
/// from `donor` to `to` rewrites only the two records of the item under
/// `donor`'s account and `to`: every other record, and all
/// items, fractional parts, collections, holds and token items, stay as they
/// were.
pub proof fn lemma_transfer_fraction_frame(
    s: NFTState,
    donor: NFTokenFractionRecord,
    to: AccountId,
    amount: FractionAmount,
)
    requires
        s.wf(),
    ensures
        ({
            let t = spec_transfer_fraction(s, donor, to, amount);
            &&& same_fractions_except(
                s,
                t,
                set![(donor.spec_fingerprint(), donor.spec_account()), (donor.spec_fingerprint(), to)],
            )
            &&& t.items == s.items
            &&& t.fractionals == s.fractionals
            &&& t.collections == s.collections
            &&& t.holds == s.holds
            &&& t.fingerprint_by_ft == s.fingerprint_by_ft
            &&& t.next_collection_id == s.next_collection_id
        }),
{
    broadcast use group_fraction_record;

}

/// Placing a hold keeps that hold and rewrites at most the held record:
/// every other hold and record, and all items, fractional parts,
/// collections and token items, stay as they were.
pub proof fn lemma_hold_fraction_frame(
    s: NFTState,
    fraction: NFTokenFractionRecord,
    holder_id: FractionHolderId,
    guard: FractionHoldGuard,
)
    ensures
        ({
            let t = spec_hold_fraction(s, fraction, holder_id, guard);
            let key = spec_hold_key(fraction, holder_id, guard);
            &&& t.holds.contains_key(key) && t.holds[key] == (holder_id, guard)
            &&& same_holds_except(s, t, key)
            &&& same_fractions_except(
                s,
                t,
                set![(fraction.spec_fingerprint(), fraction.spec_account())],
            )
            &&& t.items == s.items
            &&& t.fractionals == s.fractionals
            &&& t.collections == s.collections
            &&& t.fingerprint_by_ft == s.fingerprint_by_ft
            &&& t.next_collection_id == s.next_collection_id
        }),
{
    broadcast use group_fraction_record;

}

/// Lifting a hold drops that hold and rewrites at most the held record:
/// every other hold and record, and all items, fractional parts,
/// collections and token items, stay as they were.
pub proof fn lemma_unhold_fraction_frame(
    s: NFTState,
    fraction: NFTokenFractionRecord,
    holder_id: FractionHolderId,
    guard: FractionHoldGuard,
)
    ensures
        ({
            let t = spec_unhold_fraction(s, fraction, holder_id, guard);
            let key = spec_hold_key(fraction, holder_id, guard);
            &&& !t.holds.contains_key(key)
            &&& same_holds_except(s, t, key)
            &&& same_fractions_except(
                s,
                t,
                set![(fraction.spec_fingerprint(), fraction.spec_account())],
            )
            &&& t.items == s.items
            &&& t.fractionals == s.fractionals
            &&& t.collections == s.collections
            &&& t.fingerprint_by_ft == s.fingerprint_by_ft
            &&& t.next_collection_id == s.next_collection_id
        }),
{
    broadcast use group_fraction_record;

}

/// Storing one collection, item or fraction record changes the storage
/// under its own key only.
pub proof fn lemma_store_one_record(
    s: NFTState,
    c: NFTokenCollectionRecord,
    i: NFTokenItemRecord,
    f: NFTokenFractionRecord,
)
    ensures
        same_collections_except(s, s.with_collection(c), c.collection_id),
        s.with_collection(c).items == s.items && s.with_collection(c).fractions == s.fractions,
        same_items_except(s, s.with_item(i), i.fingerprint),
        s.with_item(i).collections == s.collections && s.with_item(i).fractions == s.fractions,
        same_fractions_except(s, s.with_fraction(f), set![(f.spec_fingerprint(), f.spec_account())]),
        s.with_fraction(f).items == s.items && s.with_fraction(f).collections == s.collections,
        same_fractions_except(
            s,
            s.without_fraction(f),
            set![(f.spec_fingerprint(), f.spec_account())],
        ),
{
}

} // verus!

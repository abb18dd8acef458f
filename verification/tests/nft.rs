use syncy::assets::nft_impl::{
    Fractional, NFTImplT, NFTokenCollectionRecord, NFTokenFractionRecord, NFTokenItemRecord,
};
use syncy::assets::services::{
    AccountId, DispatchError, FTImplT, FTokenId, FractionAmount, InternalCollectionId, ItemId,
    Nonfungibles,
};

/// A ledger that does what it is asked, unless told to fail, and remembers
/// the calls it got. Each call answers as its description says, and changes
/// the ledger only where it succeeds.
#[derive(Default, Clone)]
struct Ledger {
    fail_create_class: bool,
    fail_mint_into: bool,
    fail_transfer: bool,
    fail_lock: bool,
    deny_mint: bool,
    deny_burn: bool,
    burn_short_by: FractionAmount,
    next_ft: FTokenId,
    classes: Vec<(InternalCollectionId, AccountId, AccountId)>,
    minted: Vec<(InternalCollectionId, ItemId, AccountId)>,
    moved_items: Vec<(InternalCollectionId, ItemId, AccountId)>,
    ft_created: Vec<(AccountId, FractionAmount)>,
    ft_minted: Vec<(FTokenId, AccountId, FractionAmount)>,
    ft_burnt: Vec<(FTokenId, AccountId, FractionAmount)>,
    ft_moved: Vec<(FTokenId, AccountId, AccountId, FractionAmount)>,
    locked: Vec<FTokenId>,
}

impl Nonfungibles for Ledger {
    fn spec_create_class(&self, _class: InternalCollectionId, _who: AccountId, _admin: AccountId) -> Result<(), DispatchError> {
        if self.fail_create_class { Err(DispatchError::Other(7)) } else { Ok(()) }
    }

    fn spec_after_create_class(&self, class: InternalCollectionId, who: AccountId, admin: AccountId) -> Self {
        let mut l = self.clone();
        l.classes.push((class, who, admin));
        l
    }

    fn spec_mint_into(&self, _class: InternalCollectionId, _instance: ItemId, _who: AccountId) -> Result<(), DispatchError> {
        if self.fail_mint_into { Err(DispatchError::Other(8)) } else { Ok(()) }
    }

    fn spec_after_mint_into(&self, class: InternalCollectionId, instance: ItemId, who: AccountId) -> Self {
        let mut l = self.clone();
        l.minted.push((class, instance, who));
        l
    }

    fn spec_transfer(&self, _class: InternalCollectionId, _instance: ItemId, _destination: AccountId) -> Result<(), DispatchError> {
        if self.fail_transfer { Err(DispatchError::Other(9)) } else { Ok(()) }
    }

    fn spec_after_transfer(&self, class: InternalCollectionId, instance: ItemId, destination: AccountId) -> Self {
        let mut l = self.clone();
        l.moved_items.push((class, instance, destination));
        l
    }

    fn create_class(&mut self, class: &InternalCollectionId, who: &AccountId, admin: &AccountId) -> Result<(), DispatchError> {
        let r = Nonfungibles::spec_create_class(self, *class, *who, *admin);
        if r.is_ok() {
            *self = Nonfungibles::spec_after_create_class(self, *class, *who, *admin);
        }
        r
    }

    fn mint_into(&mut self, class: &InternalCollectionId, instance: &ItemId, who: &AccountId) -> Result<(), DispatchError> {
        let r = self.spec_mint_into(*class, *instance, *who);
        if r.is_ok() {
            *self = self.spec_after_mint_into(*class, *instance, *who);
        }
        r
    }

    fn transfer(&mut self, class: &InternalCollectionId, instance: &ItemId, destination: &AccountId) -> Result<(), DispatchError> {
        let r = Nonfungibles::spec_transfer(self, *class, *instance, *destination);
        if r.is_ok() {
            *self = Nonfungibles::spec_after_transfer(self, *class, *instance, *destination);
        }
        r
    }
}

impl FTImplT for Ledger {
    fn spec_create_ft(&self, _owner: AccountId, _minimum_balance: FractionAmount) -> Result<FTokenId, DispatchError> {
        Ok(self.next_ft + 1)
    }

    fn spec_after_create_ft(&self, owner: AccountId, minimum_balance: FractionAmount) -> Self {
        let mut l = self.clone();
        l.ft_created.push((owner, minimum_balance));
        l.next_ft += 1;
        l
    }

    fn spec_can_mint(&self, _ft_id: FTokenId, _who: AccountId) -> bool {
        !self.deny_mint
    }

    fn spec_mint_ft(&self, _ft_id: FTokenId, _who: AccountId, _amount: FractionAmount) -> Result<(), DispatchError> {
        Ok(())
    }

    fn spec_after_mint_ft(&self, ft_id: FTokenId, who: AccountId, amount: FractionAmount) -> Self {
        let mut l = self.clone();
        l.ft_minted.push((ft_id, who, amount));
        l
    }

    fn spec_lock_minting(&self, _ft_id: FTokenId, _who: AccountId) -> Result<(), DispatchError> {
        if self.fail_lock { Err(DispatchError::Other(10)) } else { Ok(()) }
    }

    fn spec_after_lock_minting(&self, ft_id: FTokenId, _who: AccountId) -> Self {
        let mut l = self.clone();
        l.locked.push(ft_id);
        l
    }

    fn spec_can_burn(&self, _ft_id: FTokenId, _who: AccountId) -> bool {
        !self.deny_burn
    }

    fn spec_burn_ft(&self, _ft_id: FTokenId, _who: AccountId, amount: FractionAmount) -> Result<FractionAmount, DispatchError> {
        Ok(amount - self.burn_short_by)
    }

    fn spec_after_burn_ft(&self, ft_id: FTokenId, who: AccountId, amount: FractionAmount) -> Self {
        let mut l = self.clone();
        l.ft_burnt.push((ft_id, who, amount - self.burn_short_by));
        l
    }

    fn spec_transfer(&self, _ft_id: FTokenId, _from: AccountId, _to: AccountId, _amount: FractionAmount) -> Result<(), DispatchError> {
        if self.fail_transfer { Err(DispatchError::Other(11)) } else { Ok(()) }
    }

    fn spec_after_transfer(&self, ft_id: FTokenId, from: AccountId, to: AccountId, amount: FractionAmount) -> Self {
        let mut l = self.clone();
        l.ft_moved.push((ft_id, from, to, amount));
        l
    }

    fn create_ft(&mut self, owner: AccountId, minimum_balance: FractionAmount) -> Result<FTokenId, DispatchError> {
        let r = self.spec_create_ft(owner, minimum_balance);
        if r.is_ok() {
            *self = self.spec_after_create_ft(owner, minimum_balance);
        }
        r
    }

    fn can_mint(&self, ft_id: FTokenId, who: &AccountId) -> bool {
        self.spec_can_mint(ft_id, *who)
    }

    fn mint_ft(&mut self, ft_id: FTokenId, who: &AccountId, amount: FractionAmount) -> Result<(), DispatchError> {
        let r = self.spec_mint_ft(ft_id, *who, amount);
        if r.is_ok() {
            *self = self.spec_after_mint_ft(ft_id, *who, amount);
        }
        r
    }

    fn lock_minting(&mut self, ft_id: FTokenId, who: &AccountId) -> Result<(), DispatchError> {
        let r = self.spec_lock_minting(ft_id, *who);
        if r.is_ok() {
            *self = self.spec_after_lock_minting(ft_id, *who);
        }
        r
    }

    fn can_burn(&self, ft_id: FTokenId, who: &AccountId) -> bool {
        self.spec_can_burn(ft_id, *who)
    }

    fn burn_ft(&mut self, ft_id: FTokenId, who: &AccountId, amount: FractionAmount) -> Result<FractionAmount, DispatchError> {
        let r = self.spec_burn_ft(ft_id, *who, amount);
        if r.is_ok() {
            *self = self.spec_after_burn_ft(ft_id, *who, amount);
        }
        r
    }

    fn transfer(&mut self, ft_id: FTokenId, from: &AccountId, to: &AccountId, amount: FractionAmount) -> Result<(), DispatchError> {
        let r = FTImplT::spec_transfer(self, ft_id, *from, *to, amount);
        if r.is_ok() {
            *self = FTImplT::spec_after_transfer(self, ft_id, *from, *to, amount);
        }
        r
    }
}

const OWNER: AccountId = 1;
const OTHER: AccountId = 2;
const FP: u64 = 99;

/// A registry with collection 7 of owner 1, holding item 99.
fn with_item(ledger: &mut Ledger) -> (NFTImplT, NFTokenItemRecord) {
    let mut nft = NFTImplT::new();
    nft.create_collection(ledger, &OWNER, 7, 5).unwrap();
    let c = nft.find_collection(7).unwrap();
    nft.mint_item(ledger, c, FP).unwrap();
    let item = nft.find_item(FP).unwrap();
    (nft, item)
}

/// As `with_item`, with the item split into 100 fractions of token 1.
fn with_fractions(ledger: &mut Ledger) -> (NFTImplT, NFTokenItemRecord) {
    let (mut nft, item) = with_item(ledger);
    nft.fractionalize(ledger, item, 100, false).unwrap();
    let item = nft.find_item(FP).unwrap();
    (nft, item)
}

#[test]
fn create_collection_rejects_zero_limit() {
    let mut ledger = Ledger::default();
    let mut nft = NFTImplT::new();
    assert_eq!(nft.create_collection(&mut ledger, &OWNER, 7, 0), Err(DispatchError::BadValue));
    assert_eq!(nft.find_collection(7), None);
    assert!(ledger.classes.is_empty());
}

#[test]
fn create_collection_stores_empty_collection() {
    let mut ledger = Ledger::default();
    let mut nft = NFTImplT::new();
    assert_eq!(nft.create_collection(&mut ledger, &OWNER, 7, 5), Ok(()));
    assert_eq!(
        nft.find_collection(7),
        Some(NFTokenCollectionRecord {
            account: OWNER,
            collection_id: 7,
            internal_id: 0,
            max_items: 5,
            items: 0,
        })
    );
    assert_eq!(ledger.classes, vec![(0, OWNER, OWNER)]);
}

#[test]
fn collection_ids_increase() {
    let mut ledger = Ledger::default();
    let mut nft = NFTImplT::new();
    nft.create_collection(&mut ledger, &OWNER, 7, 5).unwrap();
    nft.create_collection(&mut ledger, &OTHER, 8, 1).unwrap();
    assert_eq!(nft.find_collection(7).unwrap().internal_id, 0);
    assert_eq!(nft.find_collection(8).unwrap().internal_id, 1);
    assert_eq!(nft._obtain_collection_id(), Some(2));
    assert_eq!(nft._obtain_collection_id(), Some(3));
}

#[test]
fn create_collection_keeps_counter_when_ledger_refuses() {
    let mut ledger = Ledger { fail_create_class: true, ..Ledger::default() };
    let mut nft = NFTImplT::new();
    assert_eq!(nft.create_collection(&mut ledger, &OWNER, 7, 5), Err(DispatchError::Other(7)));
    assert_eq!(nft.find_collection(7), None);
    ledger.fail_create_class = false;
    nft.create_collection(&mut ledger, &OWNER, 7, 5).unwrap();
    assert_eq!(nft.find_collection(7).unwrap().internal_id, 1);
}

#[test]
fn mint_item_hands_out_indices_in_order() {
    let mut ledger = Ledger::default();
    let mut nft = NFTImplT::new();
    nft.create_collection(&mut ledger, &OWNER, 7, 2).unwrap();
    let c = nft.find_collection(7).unwrap();
    assert_eq!(nft.mint_item(&mut ledger, c, 10), Ok(()));
    let c = nft.find_collection(7).unwrap();
    assert_eq!(c.items, 1);
    assert_eq!(nft.mint_item(&mut ledger, c, 11), Ok(()));
    assert_eq!(
        nft.find_item(10),
        Some(NFTokenItemRecord {
            account: OWNER,
            fingerprint: 10,
            item_id: 0,
            collection_id: 0,
            fractional: None,
        })
    );
    assert_eq!(nft.find_item(11).unwrap().item_id, 1);
    assert_eq!(ledger.minted, vec![(0, 0, OWNER), (0, 1, OWNER)]);
    let c = nft.find_collection(7).unwrap();
    assert_eq!(nft.mint_item(&mut ledger, c, 12), Err(()));
    assert_eq!(nft.find_item(12), None);
    assert_eq!(nft.find_collection(7).unwrap().items, 2);
}

#[test]
fn mint_item_rejects_taken_fingerprint() {
    let mut ledger = Ledger::default();
    let (mut nft, _) = with_item(&mut ledger);
    let c = nft.find_collection(7).unwrap();
    assert_eq!(nft.mint_item(&mut ledger, c, FP), Err(()));
    assert_eq!(nft.find_collection(7).unwrap().items, 1);
}

#[test]
fn mint_item_refused_by_ledger_keeps_raised_count() {
    let mut ledger = Ledger::default();
    let mut nft = NFTImplT::new();
    nft.create_collection(&mut ledger, &OWNER, 7, 2).unwrap();
    ledger.fail_mint_into = true;
    let c = nft.find_collection(7).unwrap();
    assert_eq!(nft.mint_item(&mut ledger, c, 10), Err(()));
    assert_eq!(nft.find_item(10), None);
    assert_eq!(nft.find_collection(7).unwrap().items, 1);
}

#[test]
fn fractionalize_rejects_zero_and_split_items() {
    let mut ledger = Ledger::default();
    let (mut nft, item) = with_item(&mut ledger);
    assert_eq!(nft.fractionalize(&mut ledger, item, 0, false), Err(DispatchError::BadValue));
    nft.fractionalize(&mut ledger, item, 10, false).unwrap();
    let split = nft.find_item(FP).unwrap();
    assert_eq!(nft.fractionalize(&mut ledger, split, 10, false), Err(DispatchError::NoPermission));
}

#[test]
fn fractionalize_records_fractions() {
    let mut ledger = Ledger::default();
    let (nft, item) = with_fractions(&mut ledger);
    let fr = Fractional { ft_id: 1, total: 100 };
    assert_eq!(item.fractional, Some(fr));
    assert_eq!(nft.find_fractional(FP), Some(fr));
    let f = nft.find_fraction(FP, &OWNER).unwrap();
    assert_eq!(f, NFTokenFractionRecord::new(&OWNER, FP, fr, 100, 0));
    assert!(f.can_fuse());
    assert_eq!(nft.get_fingerprint_by_fraction_token_id(&1), Ok(FP));
    assert_eq!(nft.get_fingerprint_by_fraction_token_id(&2), Err(DispatchError::UnknownItem));
    assert_eq!(ledger.ft_created, vec![(OWNER, 1)]);
    assert_eq!(ledger.ft_minted, vec![(1, OWNER, 100)]);
    assert!(ledger.locked.is_empty());
}

#[test]
fn fractionalize_limited_locks_minting() {
    let mut ledger = Ledger::default();
    let (mut nft, item) = with_item(&mut ledger);
    assert_eq!(nft.fractionalize(&mut ledger, item, 50, true), Ok(()));
    assert_eq!(ledger.locked, vec![1]);
}

#[test]
fn fractionalize_lock_refused_keeps_fractions() {
    let mut ledger = Ledger { fail_lock: true, ..Ledger::default() };
    let (mut nft, item) = with_item(&mut ledger);
    assert_eq!(nft.fractionalize(&mut ledger, item, 50, true), Err(DispatchError::Other(10)));
    assert_eq!(nft.find_fraction(FP, &OWNER).unwrap().amount(), 50);
    assert_eq!(nft.get_fingerprint_by_fraction_token_id(&1), Err(DispatchError::UnknownItem));
}

#[test]
fn fractionalize_denied_mint_changes_nothing() {
    let mut ledger = Ledger { deny_mint: true, ..Ledger::default() };
    let (mut nft, item) = with_item(&mut ledger);
    assert_eq!(nft.fractionalize(&mut ledger, item, 50, false), Err(DispatchError::NoPermission));
    assert_eq!(nft.find_item(FP).unwrap().fractional, None);
    assert_eq!(nft.find_fraction(FP, &OWNER), None);
}

#[test]
fn mint_fraction_raises_total() {
    let mut ledger = Ledger::default();
    let (mut nft, item) = with_fractions(&mut ledger);
    assert_eq!(nft.mint_fraction(&mut ledger, item, &OTHER, 0), Err(DispatchError::BadValue));
    assert_eq!(nft.mint_fraction(&mut ledger, item, &OTHER, 20), Ok(()));
    assert_eq!(nft.find_fractional(FP), Some(Fractional { ft_id: 1, total: 120 }));
    assert_eq!(nft.find_fraction(FP, &OWNER).unwrap().amount(), 120);
    assert_eq!(ledger.ft_minted.last(), Some(&(1, OTHER, 20)));
}

#[test]
fn mint_fraction_needs_fractional_item() {
    let mut ledger = Ledger::default();
    let (mut nft, item) = with_item(&mut ledger);
    assert_eq!(
        nft.mint_fraction(&mut ledger, item, &OWNER, 5),
        Err(DispatchError::NotFractionalized)
    );
}

#[test]
fn burn_fraction_checks_owner_and_balance() {
    let mut ledger = Ledger::default();
    let (mut nft, item) = with_fractions(&mut ledger);
    assert_eq!(nft.burn_fraction(&mut ledger, item, &OTHER, 5), Err(DispatchError::WrongOwner));
    assert_eq!(nft.burn_fraction(&mut ledger, item, &OWNER, 0), Err(DispatchError::BadValue));
    assert_eq!(
        nft.burn_fraction(&mut ledger, item, &OWNER, 101),
        Err(DispatchError::InsufficientBalance)
    );
    ledger.deny_burn = true;
    assert_eq!(nft.burn_fraction(&mut ledger, item, &OWNER, 5), Err(DispatchError::NoPermission));
    assert_eq!(nft.find_fractional(FP), Some(Fractional { ft_id: 1, total: 100 }));
}

#[test]
fn burn_fraction_lowers_total_by_what_was_burnt() {
    let mut ledger = Ledger { burn_short_by: 2, ..Ledger::default() };
    let (mut nft, item) = with_fractions(&mut ledger);
    assert_eq!(nft.burn_fraction(&mut ledger, item, &OWNER, 30), Ok(28));
    assert_eq!(nft.find_fractional(FP), Some(Fractional { ft_id: 1, total: 72 }));
    assert_eq!(nft.find_fraction(FP, &OWNER).unwrap().amount(), 72);
}

#[test]
fn mint_then_burn_restores_total() {
    let mut ledger = Ledger::default();
    let (mut nft, item) = with_fractions(&mut ledger);
    nft.mint_fraction(&mut ledger, item, &OWNER, 40).unwrap();
    let item = nft.find_item(FP).unwrap();
    assert_eq!(nft.burn_fraction(&mut ledger, item, &OWNER, 40), Ok(40));
    let (fresh, _) = with_fractions(&mut Ledger::default());
    assert_eq!(nft.find_fractional(FP), fresh.find_fractional(FP));
    assert_eq!(nft.find_fraction(FP, &OWNER), fresh.find_fraction(FP, &OWNER));
    assert_eq!(nft.find_item(FP), fresh.find_item(FP));
}

#[test]
fn transfer_fraction_moves_amounts() {
    let mut ledger = Ledger::default();
    let (mut nft, _) = with_fractions(&mut ledger);
    let donor = nft.find_fraction(FP, &OWNER).unwrap();
    assert_eq!(nft.transfer_fraction(&mut ledger, donor, &OTHER, 30), Ok(()));
    assert_eq!(nft.find_fraction(FP, &OWNER).unwrap().amount(), 70);
    let got = nft.find_fraction(FP, &OTHER).unwrap();
    assert_eq!(got.amount(), 30);
    assert_eq!(got.account(), OTHER);
    assert_eq!(got.fractional(), Fractional { ft_id: 1, total: 100 });
    assert_eq!(ledger.ft_moved, vec![(1, OWNER, OTHER, 30)]);
    let donor = nft.find_fraction(FP, &OWNER).unwrap();
    assert_eq!(nft.transfer_fraction(&mut ledger, donor, &OTHER, 70), Ok(()));
    assert_eq!(nft.find_fraction(FP, &OWNER), None);
    assert_eq!(nft.find_fraction(FP, &OTHER).unwrap().amount(), 100);
}

#[test]
fn transfer_fraction_conserves_amounts() {
    let mut ledger = Ledger::default();
    let (mut nft, _) = with_fractions(&mut ledger);
    let donor = nft.find_fraction(FP, &OWNER).unwrap();
    nft.transfer_fraction(&mut ledger, donor, &OTHER, 45).unwrap();
    let back = nft.find_fraction(FP, &OTHER).unwrap();
    nft.transfer_fraction(&mut ledger, back, &OWNER, 5).unwrap();
    let a = nft.find_fraction(FP, &OWNER).unwrap().amount();
    let b = nft.find_fraction(FP, &OTHER).unwrap().amount();
    assert_eq!((a, b), (60, 40));
    assert_eq!(a + b, 100);
}

#[test]
fn transfer_fraction_refusals() {
    let mut ledger = Ledger::default();
    let (mut nft, _) = with_fractions(&mut ledger);
    let donor = nft.find_fraction(FP, &OWNER).unwrap();
    assert_eq!(nft.transfer_fraction(&mut ledger, donor, &OWNER, 1), Err(DispatchError::BadTarget));
    assert_eq!(nft.transfer_fraction(&mut ledger, donor, &OTHER, 0), Err(DispatchError::BadValue));
    assert_eq!(
        nft.transfer_fraction(&mut ledger, donor, &OTHER, 101),
        Err(DispatchError::InsufficientBalance)
    );
    ledger.fail_transfer = true;
    assert_eq!(
        nft.transfer_fraction(&mut ledger, donor, &OTHER, 10),
        Err(DispatchError::Other(11))
    );
    assert_eq!(nft.find_fraction(FP, &OWNER).unwrap().amount(), 100);
    assert_eq!(nft.find_fraction(FP, &OTHER), None);
}

#[test]
fn transfer_fraction_blocked_by_holds() {
    let mut ledger = Ledger::default();
    let (mut nft, _) = with_fractions(&mut ledger);
    let donor = nft.find_fraction(FP, &OWNER).unwrap();
    nft.hold_fraction(donor, 5, 6).unwrap();
    let held = nft.find_fraction(FP, &OWNER).unwrap();
    assert!(held.on_hold());
    assert_eq!(nft.transfer_fraction(&mut ledger, held, &OTHER, 10), Err(DispatchError::NoPermission));
    nft.unhold_fraction(held, 5, 6).unwrap();
    let donor = nft.find_fraction(FP, &OWNER).unwrap();
    nft.transfer_fraction(&mut ledger, donor, &OTHER, 10).unwrap();
    let recipient = nft.find_fraction(FP, &OTHER).unwrap();
    nft.hold_fraction(recipient, 1, 1).unwrap();
    let donor = nft.find_fraction(FP, &OWNER).unwrap();
    assert_eq!(nft.transfer_fraction(&mut ledger, donor, &OTHER, 10), Err(DispatchError::NoPermission));
    assert_eq!(nft.find_fraction(FP, &OWNER).unwrap().amount(), 90);
}

#[test]
fn transfer_fraction_recipient_overflow() {
    let mut ledger = Ledger::default();
    let (mut nft, _) = with_fractions(&mut ledger);
    let fr = Fractional { ft_id: 1, total: 100 };
    nft._insert_fraction(NFTokenFractionRecord::new(&OTHER, FP, fr, FractionAmount::MAX, 0));
    let donor = nft.find_fraction(FP, &OWNER).unwrap();
    assert_eq!(nft.transfer_fraction(&mut ledger, donor, &OTHER, 1), Err(DispatchError::Overflow));
    assert_eq!(nft.find_fraction(FP, &OWNER).unwrap().amount(), 100);
    assert_eq!(nft.find_fraction(FP, &OTHER).unwrap().amount(), FractionAmount::MAX);
}

#[test]
fn hold_unhold_round_trip() {
    let mut ledger = Ledger::default();
    let (mut nft, _) = with_fractions(&mut ledger);
    let f = nft.find_fraction(FP, &OWNER).unwrap();
    let key = NFTImplT::_fraction_hold_key(&f, 5, 6);
    assert_eq!(key, (FP, OWNER, 5, 6));
    assert_eq!(nft.hold_fraction(f, 5, 6), Ok(()));
    assert!(nft.has_hold(&key));
    let held = nft.find_fraction(FP, &OWNER).unwrap();
    assert_eq!(held.holds(), 1);
    assert_eq!(nft.hold_fraction(held, 5, 6), Err(DispatchError::NoPermission));
    assert_eq!(nft.unhold_fraction(held, 5, 6), Ok(()));
    assert!(!nft.has_hold(&key));
    assert_eq!(nft.find_fraction(FP, &OWNER), Some(f));
    assert_eq!(nft.unhold_fraction(f, 5, 6), Err(DispatchError::NoPermission));
}

#[test]
fn unhold_without_counted_hold_overflows() {
    let mut ledger = Ledger::default();
    let (mut nft, _) = with_fractions(&mut ledger);
    let f = nft.find_fraction(FP, &OWNER).unwrap();
    nft.hold_fraction(f, 5, 6).unwrap();
    // `f` still counts no hold.
    assert_eq!(nft.unhold_fraction(f, 5, 6), Err(DispatchError::Overflow));
    assert!(!nft.has_hold(&(FP, OWNER, 5, 6)));
    assert_eq!(nft.find_fraction(FP, &OWNER).unwrap().holds(), 1);
}

#[test]
fn hold_at_largest_count_overflows() {
    let mut nft = NFTImplT::new();
    let fr = Fractional { ft_id: 1, total: 1 };
    let f = NFTokenFractionRecord::new(&OWNER, FP, fr, 1, u32::MAX);
    assert_eq!(nft.hold_fraction(f, 5, 6), Err(DispatchError::Overflow));
    assert!(nft.has_hold(&(FP, OWNER, 5, 6)));
    assert_eq!(nft.find_fraction(FP, &OWNER), None);
}

#[test]
fn transfer_item_moves_whole_items_only() {
    let mut ledger = Ledger::default();
    let (mut nft, item) = with_item(&mut ledger);
    assert_eq!(nft.transfer_item(&mut ledger, item, &OTHER), Ok(()));
    assert_eq!(nft.find_item(FP).unwrap().account, OTHER);
    assert_eq!(ledger.moved_items, vec![(0, 0, OTHER)]);
    let moved = nft.find_item(FP).unwrap();
    nft.transfer_item(&mut ledger, moved, &OWNER).unwrap();
    assert_eq!(nft.find_item(FP), Some(item));
    nft.fractionalize(&mut ledger, item, 10, false).unwrap();
    let split = nft.find_item(FP).unwrap();
    assert_eq!(nft.transfer_item(&mut ledger, split, &OTHER), Err(DispatchError::NoPermission));
}

#[test]
fn transfer_item_refused_by_ledger() {
    let mut ledger = Ledger::default();
    let (mut nft, item) = with_item(&mut ledger);
    ledger.fail_transfer = true;
    assert_eq!(nft.transfer_item(&mut ledger, item, &OTHER), Err(DispatchError::Other(9)));
    assert_eq!(nft.find_item(FP).unwrap().account, OWNER);
}

#[test]
fn transfer_collection_changes_owner() {
    let mut ledger = Ledger::default();
    let (mut nft, _) = with_item(&mut ledger);
    let c = nft.find_collection(7).unwrap();
    assert_eq!(nft.transfer_collection(c, &OTHER), Ok(()));
    assert_eq!(nft.find_collection(7), Some(NFTokenCollectionRecord { account: OTHER, ..c }));
}

#[test]
fn storage_inserts_and_removals() {
    let mut nft = NFTImplT::new();
    let fr = Fractional::new(3, 9);
    assert_eq!((fr.ft_id(), fr.total()), (3, 9));
    nft._insert_fractional(&FP, &fr);
    assert_eq!(nft.find_fractional(FP), Some(fr));
    let f = NFTokenFractionRecord::new(&OWNER, FP, fr, 9, 0);
    nft._insert_fraction(f);
    assert_eq!(nft.find_fraction(FP, &OWNER), Some(f));
    nft._remove_fractional(&f);
    assert_eq!(nft.find_fractional(FP), None);
    nft._remove_fraction(&f);
    assert_eq!(nft.find_fraction(FP, &OWNER), None);
    let item = NFTokenItemRecord::new(&OWNER, FP, 0, 0, None);
    nft._update_fractions_amount(item, 4, 12);
    let stored = nft.find_item(FP).unwrap();
    assert_eq!(stored.fractional(), Some(Fractional { ft_id: 4, total: 12 }));
    assert_eq!(nft.find_fraction(FP, &OWNER).unwrap().amount(), 12);
    assert_eq!(nft.find_fraction(FP, &OWNER).unwrap().holds(), 0);
}

#[test]
fn collection_record_obtains_ids_until_full() {
    let mut c = NFTokenCollectionRecord::new(&OWNER, 7, 3, 2, 0);
    assert_eq!((c.account(), c.collection_id(), c.internal_id(), c.max_items()), (OWNER, 7, 3, 2));
    assert_eq!(c.obtain_item_id(), Some(0));
    assert_eq!(c.obtain_item_id(), Some(1));
    assert_eq!(c.obtain_item_id(), None);
    assert_eq!(c.items(), 2);
    c.transfer_collection(&OTHER);
    assert_eq!(c.account, OTHER);
    let mut full = NFTokenCollectionRecord::new(&OWNER, 7, 3, ItemId::MAX, ItemId::MAX);
    full._inc_items();
    assert_eq!(full.items, ItemId::MAX);
}

#[test]
fn item_record_fractional_part() {
    let mut item = NFTokenItemRecord::new(&OWNER, FP, 2, 3, None);
    assert!(!item.is_fractional());
    assert_eq!((item.account(), item.fingerprint(), item.item_id(), item.collection_id()), (OWNER, FP, 2, 3));
    item.set_fractional(Fractional::new(1, 10));
    assert!(item.is_fractional());
    item.fuse();
    assert_eq!(item.fractional(), None);
    item.transfer_item(&OTHER);
    item.transfer_item(&OWNER);
    assert_eq!(item, NFTokenItemRecord::new(&OWNER, FP, 2, 3, None));
}

#[test]
fn fraction_record_counters() {
    let fr = Fractional::new(1, 10);
    let mut f = NFTokenFractionRecord::new(&OWNER, FP, fr, 4, 0);
    let orig = f;
    assert!(!f.can_fuse());
    assert_eq!(f.increase_amount(6), Ok(()));
    assert!(f.can_fuse());
    assert_eq!(f.decrease_amount(6), Ok(()));
    assert_eq!(f, orig);
    assert_eq!(f.decrease_amount(5), Err(()));
    assert_eq!(f, orig);
    assert_eq!(f.increase_amount(FractionAmount::MAX), Err(()));
    assert_eq!(f, orig);
    assert_eq!(f.dec_holds(), Err(()));
    assert_eq!(f.inc_holds(), Ok(()));
    assert!(f.on_hold());
    assert_eq!(f.dec_holds(), Ok(()));
    assert_eq!(f, orig);
    let mut g = NFTokenFractionRecord::new(&OWNER, FP, fr, 4, u32::MAX);
    assert_eq!(g.inc_holds(), Err(()));
    assert_eq!(g.holds(), u32::MAX);
    assert_eq!((f.account(), f.fingerprint(), f.fractional(), f.amount()), (OWNER, FP, fr, 4));
}

#[test]
fn refusals_leave_the_ledgers_alone() {
    let mut ledger = Ledger::default();
    let (mut nft, item) = with_fractions(&mut ledger);
    let before = (ledger.classes.len(), ledger.minted.len(), ledger.ft_minted.len(), ledger.ft_moved.len());
    assert_eq!(nft.create_collection(&mut ledger, &OWNER, 8, 0), Err(DispatchError::BadValue));
    let c = nft.find_collection(7).unwrap();
    assert_eq!(nft.mint_item(&mut ledger, c, FP), Err(()));
    assert_eq!(nft.fractionalize(&mut ledger, item, 10, false), Err(DispatchError::NoPermission));
    let donor = nft.find_fraction(FP, &OWNER).unwrap();
    assert_eq!(nft.transfer_fraction(&mut ledger, donor, &OWNER, 1), Err(DispatchError::BadTarget));
    ledger.deny_mint = true;
    assert_eq!(nft.mint_fraction(&mut ledger, item, &OWNER, 5), Err(DispatchError::NoPermission));
    let after = (ledger.classes.len(), ledger.minted.len(), ledger.ft_minted.len(), ledger.ft_moved.len());
    assert_eq!(before, after);
}

#[test]
fn ledger_calls_get_the_registry_values() {
    let mut ledger = Ledger::default();
    let (mut nft, item) = with_fractions(&mut ledger);
    assert_eq!(ledger.classes, vec![(0, OWNER, OWNER)]);
    assert_eq!(ledger.minted, vec![(0, 0, OWNER)]);
    assert_eq!(ledger.ft_minted, vec![(1, OWNER, 100)]);
    let donor = nft.find_fraction(FP, &OWNER).unwrap();
    nft.transfer_fraction(&mut ledger, donor, &OTHER, 30).unwrap();
    assert_eq!(ledger.ft_moved, vec![(1, OWNER, OTHER, 30)]);
    nft.burn_fraction(&mut ledger, nft.find_item(FP).unwrap(), &OWNER, 5).unwrap();
    assert_eq!(ledger.ft_burnt, vec![(1, OWNER, 5)]);
    let _ = item;
}

//! Identifiers, errors and the interfaces of the token ledgers that the NFT
//! registry works with.
use vstd::prelude::*;

verus! {

/// Owner of collections, items and fractions.
pub type AccountId = u64;

/// Public identifier of a collection.
pub type CollectionId = u64;

/// Identifier of a collection in the non-fungible ledger, handed out in order.
pub type InternalCollectionId = u32;

/// Index of an item inside its collection.
pub type ItemId = u32;

/// Identifier of the fungible token that stands for the fractions of an item.
pub type FTokenId = u64;

/// Amount of fractions.
pub type FractionAmount = u128;

/// Content fingerprint that identifies an item.
pub type Fingerprint = u64;

/// Identifier of a party that places a hold on a fraction.
pub type FractionHolderId = u64;

/// Guard of a hold, and the counter of holds on a fraction.
pub type FractionHoldGuard = u32;

/// Errors of the registry, and those that the ledgers answer with.
#[derive(Clone, Copy, Debug, PartialEq, Eq, Structural)]
pub enum DispatchError {
    /// A zero amount or limit where a positive one is needed.
    BadValue,
    /// No collection identifier is left to hand out.
    UnknownCollection,
    /// No item is known for a fungible token.
    UnknownItem,
    /// The operation is not allowed in the current state.
    NoPermission,
    /// The item has not been fractionalized.
    NotFractionalized,
    /// The caller does not own the item.
    WrongOwner,
    /// The amount exceeds what is available.
    InsufficientBalance,
    /// A counter or an amount would leave its range.
    Overflow,
    /// A transfer to the sender itself.
    BadTarget,
    /// An error of a ledger, by its code.
    Other(u32),
}

/// The non-fungible ledger in which every collection is a class and every item
/// an instance. The registry tells it of new classes, of minted instances and
/// of transfers, in the middle of its own bookkeeping.
///
/// An implementation describes each call by two spec functions of the ledger
/// before the call: the answer, and the ledger after a call that succeeded. A
/// call that fails leaves the ledger as it was.
pub trait Nonfungibles: Sized {
    /// The answer to creating `class`.
    spec fn spec_create_class(
        &self,
        class: InternalCollectionId,
        who: AccountId,
        admin: AccountId,
    ) -> Result<(), DispatchError>;

    /// The ledger once `class` was created.
    spec fn spec_after_create_class(
        &self,
        class: InternalCollectionId,
        who: AccountId,
        admin: AccountId,
    ) -> Self;

    /// The answer to minting `instance` of `class` into `who`.
    spec fn spec_mint_into(
        &self,
        class: InternalCollectionId,
        instance: ItemId,
        who: AccountId,
    ) -> Result<(), DispatchError>;

    /// The ledger once `instance` of `class` was minted into `who`.
    spec fn spec_after_mint_into(
        &self,
        class: InternalCollectionId,
        instance: ItemId,
        who: AccountId,
    ) -> Self;

    /// The answer to moving `instance` of `class` to `destination`.
    spec fn spec_transfer(
        &self,
        class: InternalCollectionId,
        instance: ItemId,
        destination: AccountId,
    ) -> Result<(), DispatchError>;

    /// The ledger once `instance` of `class` was moved to `destination`.
    spec fn spec_after_transfer(
        &self,
        class: InternalCollectionId,
        instance: ItemId,
        destination: AccountId,
    ) -> Self;

    /// Creates the class `class` owned by `who` with administrator `admin`.
    fn create_class(
        &mut self,
        class: &InternalCollectionId,
        who: &AccountId,
        admin: &AccountId,
    ) -> (r: Result<(), DispatchError>)
        ensures
            r == old(self).spec_create_class(*class, *who, *admin),
            *final(self) == if r is Ok {
                old(self).spec_after_create_class(*class, *who, *admin)
            } else {
                *old(self)
            },
    ;

    /// Mints the instance `instance` of `class` into the account `who`.
    fn mint_into(
        &mut self,
        class: &InternalCollectionId,
        instance: &ItemId,
        who: &AccountId,
    ) -> (r: Result<(), DispatchError>)
        ensures
            r == old(self).spec_mint_into(*class, *instance, *who),
            *final(self) == if r is Ok {
                old(self).spec_after_mint_into(*class, *instance, *who)
            } else {
                *old(self)
            },
    ;

    /// Moves the instance `instance` of `class` to `destination`.
    fn transfer(
        &mut self,
        class: &InternalCollectionId,
        instance: &ItemId,
        destination: &AccountId,
    ) -> (r: Result<(), DispatchError>)
        ensures
            r == old(self).spec_transfer(*class, *instance, *destination),
            *final(self) == if r is Ok {
                old(self).spec_after_transfer(*class, *instance, *destination)
            } else {
                *old(self)
            },
    ;
}

/// The fungible ledger that holds the balances of fractions.
///
/// An implementation describes each call by spec functions of the ledger
/// before the call: the answer, and the ledger after a call that succeeded. A
/// call that fails, and every question, leaves the ledger as it was.
pub trait FTImplT: Sized {
    /// The answer to creating a token owned by `owner`: its identifier.
    spec fn spec_create_ft(&self, owner: AccountId, minimum_balance: FractionAmount) -> Result<
        FTokenId,
        DispatchError,
    >;

    /// The ledger once a token owned by `owner` was created.
    spec fn spec_after_create_ft(&self, owner: AccountId, minimum_balance: FractionAmount) -> Self;

    /// Whether `who` may mint `ft_id`.
    spec fn spec_can_mint(&self, ft_id: FTokenId, who: AccountId) -> bool;

    /// The answer to minting `amount` of `ft_id` into `who`.
    spec fn spec_mint_ft(&self, ft_id: FTokenId, who: AccountId, amount: FractionAmount) -> Result<
        (),
        DispatchError,
    >;

    /// The ledger once `amount` of `ft_id` was minted into `who`.
    spec fn spec_after_mint_ft(&self, ft_id: FTokenId, who: AccountId, amount: FractionAmount) -> Self;

    /// The answer to locking the minting of `ft_id`.
    spec fn spec_lock_minting(&self, ft_id: FTokenId, who: AccountId) -> Result<(), DispatchError>;

    /// The ledger once the minting of `ft_id` was locked.
    spec fn spec_after_lock_minting(&self, ft_id: FTokenId, who: AccountId) -> Self;

    /// Whether `who` may burn `ft_id`.
    spec fn spec_can_burn(&self, ft_id: FTokenId, who: AccountId) -> bool;

    /// The answer to burning up to `amount` of `ft_id` held by `who`: what was burnt.
    spec fn spec_burn_ft(&self, ft_id: FTokenId, who: AccountId, amount: FractionAmount) -> Result<
        FractionAmount,
        DispatchError,
    >;

    /// The ledger once up to `amount` of `ft_id` held by `who` was burnt.
    spec fn spec_after_burn_ft(&self, ft_id: FTokenId, who: AccountId, amount: FractionAmount) -> Self;

    /// The answer to moving `amount` of `ft_id` from `from` to `to`.
    spec fn spec_transfer(
        &self,
        ft_id: FTokenId,
        from: AccountId,
        to: AccountId,
        amount: FractionAmount,
    ) -> Result<(), DispatchError>;

    /// The ledger once `amount` of `ft_id` moved from `from` to `to`.
    spec fn spec_after_transfer(
        &self,
        ft_id: FTokenId,
        from: AccountId,
        to: AccountId,
        amount: FractionAmount,
    ) -> Self;

    /// Creates a fungible token owned by `owner`, and returns its identifier.
    fn create_ft(&mut self, owner: AccountId, minimum_balance: FractionAmount) -> (r: Result<
        FTokenId,
        DispatchError,
    >)
        ensures
            r == old(self).spec_create_ft(owner, minimum_balance),
            *final(self) == if r is Ok {
                old(self).spec_after_create_ft(owner, minimum_balance)
            } else {
                *old(self)
            },
    ;

    /// Whether `who` may mint the token `ft_id`.
    fn can_mint(&self, ft_id: FTokenId, who: &AccountId) -> (r: bool)
        ensures
            r == self.spec_can_mint(ft_id, *who),
    ;

    /// Mints `amount` of `ft_id` into `who`.
    fn mint_ft(&mut self, ft_id: FTokenId, who: &AccountId, amount: FractionAmount) -> (r: Result<
        (),
        DispatchError,
    >)
        ensures
            r == old(self).spec_mint_ft(ft_id, *who, amount),
            *final(self) == if r is Ok {
                old(self).spec_after_mint_ft(ft_id, *who, amount)
            } else {
                *old(self)
            },
    ;

    /// Forbids any further minting of `ft_id`.
    fn lock_minting(&mut self, ft_id: FTokenId, who: &AccountId) -> (r: Result<(), DispatchError>)
        ensures
            r == old(self).spec_lock_minting(ft_id, *who),
            *final(self) == if r is Ok {
                old(self).spec_after_lock_minting(ft_id, *who)
            } else {
                *old(self)
            },
    ;

    /// Whether `who` may burn the token `ft_id`.
    fn can_burn(&self, ft_id: FTokenId, who: &AccountId) -> (r: bool)
        ensures
            r == self.spec_can_burn(ft_id, *who),
    ;

    /// Burns up to `amount` of `ft_id` held by `who`, and returns what was burnt.
    fn burn_ft(&mut self, ft_id: FTokenId, who: &AccountId, amount: FractionAmount) -> (r: Result<
        FractionAmount,
        DispatchError,
    >)
        ensures
            r == old(self).spec_burn_ft(ft_id, *who, amount),
            *final(self) == if r is Ok {
                old(self).spec_after_burn_ft(ft_id, *who, amount)
            } else {
                *old(self)
            },
    ;

    /// Moves `amount` of `ft_id` from `from` to `to`.
    fn transfer(
        &mut self,
        ft_id: FTokenId,
        from: &AccountId,
        to: &AccountId,
        amount: FractionAmount,
    ) -> (r: Result<(), DispatchError>)
        ensures
            r == old(self).spec_transfer(ft_id, *from, *to, amount),
            *final(self) == if r is Ok {
                old(self).spec_after_transfer(ft_id, *from, *to, amount)
            } else {
                *old(self)
            },
    ;
}

} // verus!

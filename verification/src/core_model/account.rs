//! Accounts.
use vstd::prelude::*;

verus! {

/// An account number.
#[derive(Debug, Clone, Copy, PartialEq, Eq)]
pub struct Id(u64);

/// A 256-bit address, by its bytes.
#[derive(Debug, Clone, Copy, PartialEq, Eq)]
pub struct Address([u8; 32]);

/// An account: its owner and address.
#[derive(Debug, Clone, Copy, PartialEq, Eq)]
pub struct Account {
    owner: Id,
    address: Address,
}

/// The description of an account.
#[derive(Debug, PartialEq, Eq)]
pub struct Info {
    name: String,
    desc: String,
}

} // verus!

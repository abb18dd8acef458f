//! Spaces shared by accounts.
use vstd::prelude::*;

use crate::core_model::account;

verus! {

/// A space number.
#[derive(Debug, Clone, Copy, PartialEq, Eq)]
pub struct Id(u128);

/// A space: its owner and the keys of its authorities.
#[derive(Debug, PartialEq, Eq)]
pub struct Space {
    owner: account::Id,
    keys: Vec<Vec<u8>>,
}

/// The description of a space.
#[derive(Debug, PartialEq, Eq)]
pub struct Info {
    name: String,
    desc: String,
}

} // verus!

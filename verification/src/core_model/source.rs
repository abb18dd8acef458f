//! Sources of assets.
use vstd::prelude::*;

verus! {

/// A source number.
#[derive(Debug, Clone, Copy, PartialEq, Eq)]
pub struct Id(u32);

/// A network that assets come from.
#[derive(Debug, PartialEq, Eq)]
pub struct Network {
    name: String,
    desc: String,
}

/// Where assets come from: a description, the network by its number and the
/// account on it by its address.
#[derive(Debug, PartialEq, Eq)]
pub struct Source {
    desc: String,
    network: u64,
    account: [u8; 32],
}

} // verus!

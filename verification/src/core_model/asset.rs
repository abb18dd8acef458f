//! Assets.
use vstd::prelude::*;

use crate::core_model::source;

verus! {

/// An asset number.
#[derive(Debug, Clone, Copy, PartialEq, Eq)]
pub struct Id(u128);

/// The unique content of an asset: links to its metadata and data, and the
/// hash of its content.
#[derive(Debug, PartialEq, Eq)]
pub struct Unique {
    meta: String,
    data: String,
    hash: [u8; 32],
}

/// A token: its content, its source, and the asset it derives from.
#[derive(Debug, PartialEq, Eq)]
pub struct Token {
    unique: Unique,
    source: source::Id,
    parent: Option<Id>,
}

/// The description of an asset.
#[derive(Debug, PartialEq, Eq)]
pub struct Info {
    name: String,
    desc: String,
}

} // verus!

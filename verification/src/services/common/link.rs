//! Links to content.
use vstd::prelude::*;

verus! {

/// A link on the web or in IPFS.
#[derive(Debug, PartialEq, Eq)]
pub enum Link {
    Url(Url),
    Ipfs(Ipfs),
}

/// A web address.
#[derive(Debug, PartialEq, Eq)]
pub struct Url(String);

/// An IPFS path.
#[derive(Debug, PartialEq, Eq)]
pub struct Ipfs(String);

} // verus!

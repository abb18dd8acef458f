//! Users.
use vstd::prelude::*;

verus! {

/// A user number.
#[derive(Debug, Clone, Copy, PartialEq, Eq)]
pub struct Id(u64);

/// A user: a name and public keys.
#[derive(Debug, PartialEq, Eq)]
pub struct User {
    name: String,
    keys: Vec<Vec<u8>>,
}

/// The links of a user's icon and page.
#[derive(Debug, PartialEq, Eq)]
pub struct Profile {
    icon: String,
    page: String,
}

} // verus!

//! How users log in.
use vstd::prelude::*;

verus! {

/// What a user logs in with.
#[derive(Debug, PartialEq, Eq)]
pub enum Login {
    Name(String),
    Phone(String),
    Email(String),
    Pubkey(Vec<u8>),
}

/// A password.
#[derive(Debug, PartialEq, Eq)]
pub struct Password {
    inner: String,
}

} // verus!

//! Key pairs.
use vstd::prelude::*;

verus! {

/// A public key, in its text form.
#[derive(Debug, PartialEq, Eq)]
pub struct Public(String);

/// A private key, in its text form.
#[derive(Debug, PartialEq, Eq)]
pub struct Private(String);

/// A public key with its private key.
#[derive(Debug, PartialEq, Eq)]
pub struct Pair((Public, Private));

} // verus!

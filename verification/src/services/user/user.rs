//! Users.
use vstd::prelude::*;

use crate::services::common::link::Link;

verus! {

/// A user identifier.
#[derive(Debug, Clone, Copy, PartialEq, Eq)]
pub struct Id([u8; 32]);

/// A user: identifier, icon and name.
#[derive(Debug, PartialEq, Eq)]
pub struct User {
    id: Id,
    icon: Link,
    name: String,
}

} // verus!

//! Accounts of users.
use vstd::prelude::*;

use crate::services::user::user;

verus! {

/// An account identifier.
#[derive(Debug, Clone, Copy, PartialEq, Eq)]
pub struct Id([u8; 32]);

/// An account and the user that owns it.
#[derive(Debug, Clone, Copy, PartialEq, Eq)]
pub struct Account {
    owner: user::Id,
}

} // verus!

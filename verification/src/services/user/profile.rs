//! Profiles of users.
use vstd::prelude::*;

use crate::services::user::user::Id;

verus! {

/// What a user tells about themselves.
#[derive(Debug, PartialEq, Eq)]
pub struct Profile {
    id: Id,
    name: Option<String>,
    midname: Option<String>,
    surname: Option<String>,
    email: Option<String>,
    phone: Option<String>,
    photo: Option<String>,
    address: Option<String>,
}

} // verus!

//! Commands of the storage service.
use vstd::prelude::*;
use vstd::string::StringExecFns;

use crate::cli::config::Config;
use crate::cli::error::{spec_unimplemented, Error};

verus! {

#[derive(Debug, PartialEq, Eq)]
pub struct Opts {}

/// Runs a storage command; none is implemented, so every one fails.
pub fn handle(conf: Config, opts: Opts) -> (r: Result<(), Error>)
    ensures
        r matches Err(Error::Custom(m)) && m@ == spec_unimplemented(),
{
    Err(Error::from(String::from_str("Unimplemented yet")))
}

} // verus!

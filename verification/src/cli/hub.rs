//! Commands of the network hubs.
use vstd::prelude::*;
use vstd::string::StringExecFns;

use crate::cli::config::Config;
use crate::cli::error::{spec_unimplemented, Error};

verus! {

#[derive(Debug, PartialEq, Eq)]
pub struct Opts {
    pub command: Cmd,
}

#[derive(Debug, PartialEq, Eq)]
pub enum Cmd {
    /// Status of the default or a given hub.
    Status(StatusOpts),
    /// The hubs of the profile or configuration.
    List(ListOpts),
    /// Details of a given hub.
    Inspect(InspectOpts),
}

#[derive(Debug, PartialEq, Eq)]
pub struct StatusOpts {}

#[derive(Debug, PartialEq, Eq)]
pub struct ListOpts {}

#[derive(Debug, PartialEq, Eq)]
pub struct InspectOpts {}

/// Runs a hub command; none is implemented, so every one fails.
pub fn handle(conf: Config, opts: Opts) -> (r: Result<(), Error>)
    ensures
        r matches Err(Error::Custom(m)) && m@ == spec_unimplemented(),
{
    Err(Error::from(String::from_str("Unimplemented yet")))
}

} // verus!

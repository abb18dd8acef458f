//! Commands of the network cluster.
use vstd::prelude::*;
use vstd::string::StringExecFns;

use crate::cli::config::Config;
use crate::cli::error::{spec_unimplemented, Error};

verus! {

#[derive(Debug, PartialEq, Eq)]
pub struct Opts {
    pub command: Cmd,
}

#[derive(Debug, PartialEq, Eq)]
pub enum Cmd {
    /// Look a service or node up.
    Lookup(LookupOpts),
}

#[derive(Debug, PartialEq, Eq)]
pub struct LookupOpts {
    /// Filters of the search.
    pub filter: Vec<String>,
    /// Name or link of a service or node.
    pub name: String,
}

/// Runs a network command; none is implemented, so every one fails.
pub fn handle(conf: Config, opts: Opts) -> (r: Result<(), Error>)
    ensures
        r matches Err(Error::Custom(m)) && m@ == spec_unimplemented(),
{
    Err(Error::from(String::from_str("Unimplemented yet")))
}

} // verus!

//! The configuration of the command line.
use vstd::prelude::*;

verus! {

/// The hubs to contact and the credentials to use.
#[derive(Debug, PartialEq, Eq)]
pub struct Config {
    pub hubs: Vec<String>,
    pub creds: Credentials,
}

/// Credentials; none are defined yet.
#[derive(Debug, PartialEq, Eq)]
pub struct Credentials {}

impl Default for Credentials {
    fn default() -> (r: Self) {
        Credentials {}
    }
}

impl Default for Config {
    fn default() -> (r: Self)
        ensures
            r.hubs@.len() == 0,
    {
        Config { hubs: Vec::new(), creds: Credentials {} }
    }
}

} // verus!

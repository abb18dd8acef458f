//! Errors of the node.
use vstd::prelude::*;

verus! {

/// Errors of the node.
#[derive(Debug)]
pub enum Error {
    /// Input or output failed.
    Io(std::io::Error),
}

/// The result of the node, failing with its errors by default.
pub type Result<T, E = Error> = core::result::Result<T, E>;

} // verus!

//! Errors of the command line.
use vstd::prelude::*;
use vstd::std_specs::convert::FromSpecImpl;

verus! {

/// Declares `std::io::Error` so that errors can carry one; nothing is claimed
/// of its contents, which stay opaque.
#[verifier::external_type_specification]
#[verifier::external_body]
pub struct ExIoError(std::io::Error);

/// Errors of the command line.
#[derive(Debug)]
pub enum Error {
    /// Input or output failed.
    Io(std::io::Error),
    /// A message.
    Custom(String),
}

/// The answer of every command that does nothing yet.
pub open spec fn spec_unimplemented() -> Seq<char> {
    "Unimplemented yet"@
}

impl From<String> for Error {
    fn from(s: String) -> (r: Self) {
        Error::Custom(s)
    }
}

impl FromSpecImpl<String> for Error {
    open spec fn obeys_from_spec() -> bool {
        true
    }

    open spec fn from_spec(v: String) -> Error {
        Error::Custom(v)
    }
}

impl<'a> From<&'a str> for Error {
    fn from(s: &'a str) -> (r: Self)
        ensures
            r matches Error::Custom(m) && m@ == s@,
    {
        Error::Custom(s.to_owned())
    }
}

impl<'a> FromSpecImpl<&'a str> for Error {
    /// No value is named here: `from` itself states that the message keeps
    /// the text it was given.
    open spec fn obeys_from_spec() -> bool {
        false
    }

    open spec fn from_spec(v: &'a str) -> Error {
        Error::Custom(arbitrary())
    }
}

/// The result of the command line, failing with its errors by default.
pub type Result<T, E = Error> = core::result::Result<T, E>;

} // verus!

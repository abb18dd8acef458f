//! Authentication.
pub mod user;

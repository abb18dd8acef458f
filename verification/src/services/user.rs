//! The user service.
pub mod account;
pub mod profile;
pub mod user;

//! The network's services: authentication, shared values and users.
pub mod auth;
pub mod common;
pub mod user;

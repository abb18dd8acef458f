//! The data model of the network: accounts, assets, sources, spaces and users.
pub mod account;
pub mod asset;
pub mod source;
pub mod space;
pub mod user;

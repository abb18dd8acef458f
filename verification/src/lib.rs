//! Verified core of the syncy network tools.
pub mod assets;
pub mod cli;
pub mod core_model;
pub mod node;
pub mod services;

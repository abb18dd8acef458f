//! The peer-to-peer node: its configuration, the commands it reads from its
//! console, and what it does with the events of the network.
pub mod behavior;
pub mod config;
pub mod console;
pub mod error;
pub mod event;

//! Values shared by the services.
pub mod key;
pub mod link;

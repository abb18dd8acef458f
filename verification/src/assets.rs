//! Non-fungible tokens, their collections and their fractions.
pub mod nft_impl;
pub mod nft_laws;
pub mod services;

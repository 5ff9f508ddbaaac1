//! A fungible ledger for tokenized invoice value with a single minting authority.
//!
//! The balance ledger keeps per-holder balances and the total supply in step;
//! authority control holds the one identity that may issue new supply and
//! hands that right over through a propose/accept handshake.

pub mod error;
pub mod identity;
pub mod entries;
pub mod fungible;
pub mod ledger;
pub mod sums;
pub mod authority;
pub mod token;

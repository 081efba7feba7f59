//! Pricing, fee-distribution and liquidity-escrow accounting core of an NFT
//! liquidity-pool market maker.
//!
//! Given a pool's bonding curve the library computes the price of a trade of
//! `n` assets, splits the payment among liquidity-provider, referral and
//! creator-royalty fees, matches assets against a pool's allowlist, and
//! decides when pool, escrow and per-seller accounts may be reclaimed.
//! Ledger primitives (transfers, rent queries, account decoding, address
//! derivation) are collaborators: callers decode accounts into the plain
//! data types of this crate and execute the transfers the library computes.

pub mod allowlist;
pub mod curve;
pub mod errors;
pub mod fees;
pub mod lifecycle;
pub mod royalty;
pub mod state;

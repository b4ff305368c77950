//! Verified core of a transaction load generator for a Concordium-style
//! ledger node.
//!
//! The crate covers the rate-controlled generation pipeline and its
//! pluggable transaction-generation strategies: plain transfers, NFT
//! minting and fungible-asset transfers, together with the one-time
//! bootstrap protocol (deploy a module, initialize it, optionally
//! pre-mint a supply) that the two contract-based strategies require.
//!
//! All network I/O is left to the embedding application; the functions
//! here compute from plain values: they select receivers, keep the
//! per-account sequence number strictly increasing, encode entry-point
//! parameters byte for byte, and decide how each bootstrap outcome is
//! interpreted. Signing and other calls into the node SDK stand behind
//! a small set of trusted wrappers.

pub mod bootstrap;
pub mod encode;
pub mod error;
pub mod generator;
pub mod laws;
pub mod names;
pub mod pipeline;
pub mod sdk;
pub mod select;
pub mod tx;
pub mod types;

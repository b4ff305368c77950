//! Plain data types shared by the whole library.

use vstd::prelude::*;

verus! {

/// An account address: 32 raw bytes, as the chain represents it.
#[derive(Clone, Copy, PartialEq, Eq, Debug, Hash)]
pub struct AccountAddr(pub [u8; 32]);

/// The address of a deployed contract instance on the chain.
#[derive(Clone, Copy, PartialEq, Eq, Debug, Hash)]
pub struct ContractAddr {
    pub index: u64,
    pub subindex: u64,
}

/// The node's answer to a next-sequence-number query: the sequence
/// number to use next, and whether every earlier transaction from the
/// account has already been finalized.
#[derive(Clone, Copy, Debug)]
pub struct NonceInfo {
    pub nonce: u64,
    pub all_final: bool,
}

/// What the node reports about its own role in consensus.  Partitioned
/// account selection needs the validator index to pick its chunk.
#[derive(Clone, Copy, Debug)]
pub enum NodeRole {
    /// The node runs consensus and is configured with a validator id.
    Validator { index: u64 },
    /// The node runs consensus but has no validator id.
    Regular,
    /// The node does not run consensus at all.
    NotANode,
}

} // verus!

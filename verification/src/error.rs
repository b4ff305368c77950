//! The error taxonomy of the library.
//!
//! Configuration and setup errors abort strategy construction before any
//! steady-state transaction is generated; they carry enough context to
//! correlate with node-side diagnostics.

use vstd::prelude::*;

verus! {

/// Everything that can go wrong while configuring or setting up a
/// generation strategy.  All of these are fatal by design: the pipeline
/// has no retry policy.
#[derive(Debug, PartialEq, Eq)]
pub enum Error {
    /// The list of receiver accounts was empty.
    EmptyAccountList,
    /// Partitioned selection was configured with zero chunks.
    ZeroPartitionCount,
    /// Partitioned selection needs the node's validator index, but the
    /// node reported that it is not a validator.
    NotAValidator,
    /// Partitioned selection needs the node's validator index, but the
    /// node does not run consensus at all.
    NotANode,
    /// The chunk assigned to this instance holds no account (fewer
    /// accounts than chunks).
    EmptySelection { accounts: usize, chunks: usize },
    /// The node reported that transactions from the sending account are
    /// still pending, so the starting sequence number is unreliable.
    UnfinalizedTransactions { nonce: u64 },
    /// The module-initialization transaction was finalized but rejected
    /// by the chain.
    InitRejected { energy: u64 },
    /// The finalized initialization outcome was not a contract
    /// initialization result.
    NotAContractInit,
    /// The supply-minting transaction was finalized but rejected.
    SupplyMintRejected { energy: u64 },
    /// An entry-point name meant as an initialization name does not
    /// follow the chain's naming rules.
    InvalidInitName { name: String },
    /// The embedded module's bytes do not form a versioned module.
    MalformedModule,
}

} // verus!

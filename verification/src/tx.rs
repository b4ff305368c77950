//! The transaction envelope: what one produced transaction says, as
//! plain data, next to the signed item the node SDK built from it.

use vstd::prelude::*;
use concordium_rust_sdk::types::transactions::{AccountTransaction, EncodedPayload};
use crate::types::{AccountAddr, ContractAddr};

verus! {

/// What a transaction does, as plain data.
pub enum Payload {
    /// A native-coin transfer of an amount in micro units.
    Transfer { to: AccountAddr, amount_micro: u64 },
    /// Deployment of a binary module of the given byte size.
    DeployModule { module_size: usize },
    /// Initialization of a deployed module through a named entry
    /// point, with the given execution energy budget.
    Init { init_name: String, energy: u64 },
    /// An update call to a contract's named entry point, carrying the
    /// encoded parameter bytes and an execution energy budget.
    Update { contract: ContractAddr, receive_name: String, message: Vec<u8>, energy: u64 },
}

/// The envelope of one produced transaction: sender, sequence number,
/// expiry and payload.  It is built exactly once per generated
/// transaction and never mutated afterwards.
pub struct Envelope {
    pub sender: AccountAddr,
    pub nonce: u64,
    pub expiry: u64,
    pub payload: Payload,
}

/// A produced transaction: the envelope this library built and proved
/// things about, together with the signed item that the node SDK
/// produced from the same data and that the submitter sends out.
pub struct SignedTransaction {
    pub envelope: Envelope,
    pub item: AccountTransaction<EncodedPayload>,
}

} // verus!

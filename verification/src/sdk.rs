//! The trusted boundary to the node SDK and to the random-number
//! generator: type declarations and thin wrappers whose contracts
//! Verus believes.  Everything else in the library is verified against
//! these contracts.

use vstd::prelude::*;
use concordium_rust_sdk::types::transactions::{send, AccountTransaction, EncodedPayload};
use concordium_rust_sdk::types::smart_contracts::{
    ModuleReference, OwnedContractName, OwnedParameter, OwnedReceiveName, WasmModule,
};
use concordium_rust_sdk::types::WalletAccount;
use concordium_rust_sdk::common::types::TransactionTime;
use concordium_rust_sdk::common::Deserial;
use rand::rngs::StdRng;
use rand::Rng;
use crate::names::{valid_init_name, valid_receive_name};
use crate::types::{AccountAddr, ContractAddr};

verus! {

#[verifier::external_type_specification]
#[verifier::external_body]
pub struct ExWalletAccount(WalletAccount);

#[verifier::external_type_specification]
#[verifier::external_body]
#[verifier::reject_recursive_types(PayloadType)]
pub struct ExAccountTransaction<PayloadType>(AccountTransaction<PayloadType>);

#[verifier::external_type_specification]
#[verifier::external_body]
pub struct ExEncodedPayload(EncodedPayload);

#[verifier::external_type_specification]
#[verifier::external_body]
pub struct ExWasmModule(WasmModule);

#[verifier::external_type_specification]
#[verifier::external_body]
#[verifier::reject_recursive_types(Purpose)]
pub struct ExHashBytes<Purpose>(
    concordium_rust_sdk::types::smart_contracts::concordium_contracts_common::hashes::HashBytes<Purpose>,
);

#[verifier::external_type_specification]
#[verifier::external_body]
pub struct ExModuleReferenceMarker(
    concordium_rust_sdk::types::smart_contracts::concordium_contracts_common::hashes::ModuleReferenceMarker,
);

#[verifier::external_type_specification]
#[verifier::external_body]
pub struct ExOwnedContractName(OwnedContractName);

#[verifier::external_type_specification]
#[verifier::external_body]
pub struct ExOwnedReceiveName(OwnedReceiveName);

#[verifier::external_type_specification]
#[verifier::external_body]
pub struct ExStdRng(StdRng);

// ------------------------------------------------------------------
// Randomness.
// ------------------------------------------------------------------

/// Relies on rand's `Rng::gen_range` over `0..len`: a uniform pick
/// from a non-empty range, always below its upper bound.  The range
/// must not be empty, or the call panics.
#[verifier::external_body]
pub(crate) fn gen_index(rng: &mut StdRng, len: usize) -> (r: usize)
    requires
        len >= 1,
    ensures
        r < len,
{
    rng.gen_range(0..len)
}

// ------------------------------------------------------------------
// Time.
// ------------------------------------------------------------------

/// Relies on the SDK's `TransactionTime::seconds_after`, which reads
/// the wall clock; nothing can be promised about the value beyond its
/// being some expiry timestamp in seconds.
#[verifier::external_body]
pub(crate) fn expiry_after(seconds: u32) -> (r: u64)
{
    TransactionTime::seconds_after(seconds).seconds
}

// ------------------------------------------------------------------
// The signing credential.
// ------------------------------------------------------------------

/// Relies on the SDK's `WalletAccount`, whose `address` field holds
/// the 32 raw bytes of the account the credential signs for.
#[verifier::external_body]
pub(crate) fn signer_address(keys: &WalletAccount) -> (r: AccountAddr)
{
    AccountAddr(keys.address.0)
}

// ------------------------------------------------------------------
// Entry-point names.
// ------------------------------------------------------------------

/// Relies on the SDK's `OwnedContractName::new`, which accepts a name
/// if and only if it is at most 100 bytes, starts with `init_`, has no
/// dot, and holds only ASCII alphanumerics and punctuation — exactly
/// the condition `valid_init_name` states (such a name is all ASCII,
/// so its byte and character counts agree); under that condition the
/// call cannot fail.
#[verifier::external_body]
pub(crate) fn make_contract_name(s: &str) -> (r: OwnedContractName)
    requires
        valid_init_name(s@),
{
    OwnedContractName::new(s.to_string()).unwrap()
}

/// Relies on the SDK's `OwnedReceiveName::new`, which accepts a name
/// if and only if it is at most 100 bytes, has a dot, and holds only
/// ASCII alphanumerics and punctuation — exactly the condition
/// `valid_receive_name` states (such a name is all ASCII, so its byte
/// and character counts agree); under that condition the call cannot
/// fail.
#[verifier::external_body]
pub(crate) fn make_receive_name(s: &str) -> (r: OwnedReceiveName)
    requires
        valid_receive_name(s@),
{
    OwnedReceiveName::new(s.to_string()).unwrap()
}

// ------------------------------------------------------------------
// The binary module.
// ------------------------------------------------------------------

/// A big-endian 32-bit value at an offset of a byte sequence.
pub open spec fn be32_at(b: Seq<u8>, o: int) -> nat {
    (b[o] as nat) * 0x1000000 + (b[o + 1] as nat) * 0x10000 + (b[o + 2] as nat) * 0x100 + (b[o
        + 3] as nat)
}

/// The byte shape a versioned module must have: a 32-bit big-endian
/// version that is 0 or 1, a 32-bit big-endian source length of at
/// most eight times 65536, and at least that many source bytes after
/// the header.  Trailing bytes are ignored.
pub open spec fn wellformed_wasm_module(b: Seq<u8>) -> bool {
    b.len() >= 8 && be32_at(b, 0) <= 1 && be32_at(b, 4) <= 0x80000 && b.len() >= 8 + be32_at(
        b,
        4,
    )
}

/// Relies on the SDK's `WasmModule::deserial` reading from a cursor:
/// it succeeds if and only if the bytes start with a supported version
/// number and a source of the declared, bounded length; what follows
/// the source is not read.
#[verifier::external_body]
pub(crate) fn parse_module(bytes: &[u8]) -> (r: Option<WasmModule>)
    ensures
        r is Some <==> wellformed_wasm_module(bytes@),
{
    WasmModule::deserial(&mut std::io::Cursor::new(bytes)).ok()
}

/// Relies on the SDK's `WasmModule::get_module_ref`: the digest under
/// which the chain will know the deployed module.
#[verifier::external_body]
pub(crate) fn module_reference(module: &WasmModule) -> (r: ModuleReference)
{
    module.get_module_ref()
}

// ------------------------------------------------------------------
// Building and signing transactions.
// ------------------------------------------------------------------

/// Relies on the SDK's `send::transfer`: a signed native-coin transfer
/// with the given header data, sent by the credential's own account.
#[verifier::external_body]
pub(crate) fn sign_transfer(
    keys: &WalletAccount,
    nonce: u64,
    expiry: u64,
    to: &AccountAddr,
    amount_micro: u64,
) -> (r: AccountTransaction<EncodedPayload>)
{
    send::transfer(
        keys,
        keys.address,
        nonce.into(),
        expiry.into(),
        concordium_rust_sdk::id::types::AccountAddress(to.0),
        concordium_rust_sdk::common::types::Amount::from_micro_ccd(amount_micro),
    )
}

/// Relies on the SDK's `send::deploy_module`: a signed deployment of
/// the module, sent by the credential's own account.
#[verifier::external_body]
pub(crate) fn sign_deploy(
    keys: &WalletAccount,
    nonce: u64,
    expiry: u64,
    module: WasmModule,
) -> (r: AccountTransaction<EncodedPayload>)
{
    send::deploy_module(keys, keys.address, nonce.into(), expiry.into(), module)
}

/// Relies on the SDK's `send::init_contract`: a signed initialization
/// of the referenced module through the named entry point, with no
/// deposit and no parameter, as the bootstrap protocol sends it.
#[verifier::external_body]
pub(crate) fn sign_init(
    keys: &WalletAccount,
    nonce: u64,
    expiry: u64,
    mod_ref: &ModuleReference,
    init_name: OwnedContractName,
    energy: u64,
) -> (r: AccountTransaction<EncodedPayload>)
{
    let payload = concordium_rust_sdk::types::transactions::InitContractPayload {
        amount: concordium_rust_sdk::common::types::Amount::from_micro_ccd(0),
        mod_ref: *mod_ref,
        init_name,
        param: OwnedParameter::empty(),
    };
    send::init_contract(keys, keys.address, nonce.into(), expiry.into(), payload, energy.into())
}

/// Relies on the SDK's `send::update_contract`: a signed update call
/// to the contract's named entry point with the given message bytes
/// and energy budget, and no deposit.  The message must fit the
/// chain's parameter cap of 65535 bytes, or building the parameter
/// fails.
#[verifier::external_body]
pub(crate) fn sign_update(
    keys: &WalletAccount,
    nonce: u64,
    expiry: u64,
    contract: &ContractAddr,
    receive_name: OwnedReceiveName,
    message: &Vec<u8>,
    energy: u64,
) -> (r: AccountTransaction<EncodedPayload>)
    requires
        message@.len() <= 65535,
{
    let payload = concordium_rust_sdk::types::transactions::UpdateContractPayload {
        amount: concordium_rust_sdk::common::types::Amount::from_micro_ccd(0),
        address: concordium_rust_sdk::types::ContractAddress::new(contract.index,
            contract.subindex),
        receive_name,
        message: OwnedParameter::try_from(message.clone()).unwrap(),
    };
    send::update_contract(keys, keys.address, nonce.into(), expiry.into(), payload, energy.into())
}

} // verus!

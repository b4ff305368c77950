//! The one-time bootstrap protocol shared by the contract-based
//! strategies: deploy a binary module on one sequence number, submit
//! its initialization on the next, await only the initialization's
//! finalization, and bind the resulting program address.  Any failure
//! aborts strategy construction; nothing is retried.

use vstd::prelude::*;
use crate::error::Error;
use crate::generator::CommonArgs;
use crate::names::{check_init_name, valid_init_name};
use crate::sdk;
use crate::sdk::wellformed_wasm_module;
use crate::tx::{Envelope, Payload, SignedTransaction};
use crate::types::ContractAddr;

verus! {

/// Energy budget for initializing the NFT module.
pub const MINT_NFT_INIT_ENERGY: u64 = 2397;

/// Energy budget for initializing the multi-token module.
pub const TRANSFER_CIS2_INIT_ENERGY: u64 = 2353;

/// What a strategy needs deployed: the binary module's bytes, the
/// name of its initialization entry point, and the energy budget of
/// the initialization call.
pub struct ContractDeploymentInfo {
    /// The versioned binary module, as loaded from its resource.
    pub module: Vec<u8>,
    /// The initialization entry point, `init_<contract>`.
    pub name: String,
    /// Energy budget of the initialization call.
    pub init_energy: u64,
}

/// The deployment description of the NFT-minting strategy.
pub fn mint_nft_deployment(module: Vec<u8>) -> (r: ContractDeploymentInfo)
    ensures
        r.module@ == module@,
        r.name@ == "init_cis2_nft"@,
        r.init_energy == MINT_NFT_INIT_ENERGY,
{
    ContractDeploymentInfo {
        module,
        name: "init_cis2_nft".to_owned(),
        init_energy: MINT_NFT_INIT_ENERGY,
    }
}

/// The deployment description of the asset-transfer strategy.
pub fn transfer_cis2_deployment(module: Vec<u8>) -> (r: ContractDeploymentInfo)
    ensures
        r.module@ == module@,
        r.name@ == "init_cis2_multi"@,
        r.init_energy == TRANSFER_CIS2_INIT_ENERGY,
{
    ContractDeploymentInfo {
        module,
        name: "init_cis2_multi".to_owned(),
        init_energy: TRANSFER_CIS2_INIT_ENERGY,
    }
}

/// The first two bootstrap transactions, built and signed together on
/// consecutive sequence numbers.  The submitter sends the deployment
/// without awaiting its finalization, sends the initialization right
/// after, and then blocks on the initialization alone: a rejected
/// deployment surfaces through the initialization's failure.
pub struct BootstrapPlan {
    /// The module-deployment transaction, on the first number.
    pub deploy: SignedTransaction,
    /// The initialization transaction, on the second number.
    pub init: SignedTransaction,
    /// The next unused sequence number after the two.
    pub next_nonce: u64,
}

impl CommonArgs {
    /// Build the deployment and initialization transactions of the
    /// bootstrap protocol.  Construction fails fast — before anything
    /// is submitted — on a malformed module or a bad entry-point
    /// name; these are defects, not transient faults.
    pub fn deploy_and_init_contract(&self, info: &ContractDeploymentInfo, nonce: u64) -> (r:
        Result<BootstrapPlan, Error>)
        requires
            nonce + 2 <= u64::MAX,
        ensures
            !wellformed_wasm_module(info.module@) ==> (r matches Err(e) && e
                == Error::MalformedModule),
            wellformed_wasm_module(info.module@) && !valid_init_name(info.name@) ==> (r matches Err(
                e,
            ) && e matches Error::InvalidInitName { name } && name@ == info.name@),
            wellformed_wasm_module(info.module@) && valid_init_name(info.name@) ==> (r matches Ok(p)
                && p.deploy.envelope.sender == self.sender && p.deploy.envelope.nonce == nonce && (
            p.deploy.envelope.payload matches Payload::DeployModule { module_size } && module_size
                == info.module@.len()) && p.init.envelope.sender == self.sender
                && p.init.envelope.nonce == nonce + 1 && (
            p.init.envelope.payload matches Payload::Init { init_name, energy } && init_name@
                == info.name@ && energy == info.init_energy) && p.next_nonce == nonce + 2),
    {
        let module = match sdk::parse_module(info.module.as_slice()) {
            Option::Some(m) => m,
            Option::None => {
                return Err(Error::MalformedModule);
            },
        };
        if !check_init_name(info.name.as_str()) {
            return Err(Error::InvalidInitName { name: info.name.as_str().to_owned() });
        }
        let cname = sdk::make_contract_name(info.name.as_str());
        let mod_ref = sdk::module_reference(&module);
        let expiry = sdk::expiry_after(self.expiry);
        let module_size = info.module.len();
        let deploy_item = sdk::sign_deploy(&self.keys, nonce, expiry, module);
        let init_item = sdk::sign_init(
            &self.keys,
            nonce + 1,
            expiry,
            &mod_ref,
            cname,
            info.init_energy,
        );
        Ok(
            BootstrapPlan {
                deploy: SignedTransaction {
                    envelope: Envelope {
                        sender: self.sender,
                        nonce,
                        expiry,
                        payload: Payload::DeployModule { module_size },
                    },
                    item: deploy_item,
                },
                init: SignedTransaction {
                    envelope: Envelope {
                        sender: self.sender,
                        nonce: nonce + 1,
                        expiry,
                        payload: Payload::Init {
                            init_name: info.name.as_str().to_owned(),
                            energy: info.init_energy,
                        },
                    },
                    item: init_item,
                },
                next_nonce: nonce + 2,
            },
        )
    }
}

/// What the node reported once the initialization transaction was
/// finalized: whether its effect took place, the energy it cost, and
/// the program address if it was indeed a module initialization.
#[derive(Clone, Copy, Debug)]
pub struct InitOutcome {
    pub success: bool,
    pub energy: u64,
    pub contract: Option<ContractAddr>,
}

/// The decision that ends the bootstrap protocol: the program address
/// is bound exactly when the finalized initialization succeeded and
/// was a module-initialization result.  On any failure the strategy
/// is never constructed, so no steady-state transaction is ever
/// generated beyond the bootstrap submissions themselves.
pub fn bind_contract(outcome: &InitOutcome) -> (r: Result<ContractAddr, Error>)
    ensures
        !outcome.success ==> (r matches Err(e) && e == Error::InitRejected {
            energy: outcome.energy,
        }),
        outcome.success ==> match outcome.contract {
            Option::Some(a) => r matches Ok(b) && b == a,
            Option::None => r matches Err(e) && e == Error::NotAContractInit,
        },
{
    if !outcome.success {
        return Err(Error::InitRejected { energy: outcome.energy });
    }
    match outcome.contract {
        Option::Some(a) => Ok(a),
        Option::None => Err(Error::NotAContractInit),
    }
}

/// The asset-transfer strategy's extra bootstrap decision: generation
/// may only proceed once the supply-minting transaction has finalized
/// successfully.
pub fn confirm_supply_minted(success: bool, energy: u64) -> (r: Result<(), Error>)
    ensures
        success <==> r is Ok,
        !success ==> (r matches Err(e) && e == Error::SupplyMintRejected { energy }),
{
    if success {
        Ok(())
    } else {
        Err(Error::SupplyMintRejected { energy })
    }
}

} // verus!

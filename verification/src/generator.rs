//! The generation strategies: stateful units that build and sign one
//! transaction per call, advancing their own counters.
//!
//! Three strategies exist: plain native-coin transfers, NFT minting,
//! and fungible-asset transfers.  Each call consumes exactly one
//! sequence number; no number is ever reused or skipped.

use vstd::prelude::*;
use vstd::string::StringSliceAdditionalSpecFns;
use vstd::arithmetic::div_mod::lemma_small_mod;
use concordium_rust_sdk::types::WalletAccount;
use rand::rngs::StdRng;
use crate::encode::{
    cis2_transfer_params, encode_cis2_transfer_params, encode_mint_nft_params,
    encode_mint_supply_params, mint_nft_params, mint_supply_params,
};
use crate::error::Error;
use crate::laws::{step, Counters};
use crate::names::valid_receive_name;
use crate::sdk;
use crate::select::{chunk_of, partition_chunk, Mode};
use crate::tx::{Envelope, Payload, SignedTransaction};
use crate::types::{AccountAddr, ContractAddr, NodeRole, NonceInfo};

verus! {

/// Energy budget for one NFT mint call.
pub const MINT_NFT_ENERGY: u64 = 3500;

/// Energy budget for one asset transfer call.
pub const TRANSFER_CIS2_ENERGY: u64 = 3500;

/// Energy budget for minting the whole asset supply at bootstrap.
pub const MINT_SUPPLY_ENERGY: u64 = 2740;

/// The id space of NFT item identifiers: one beyond the largest
/// 32-bit identifier.
pub const TOKEN_ID_SPACE: u64 = 0x100000000;

/// The shared configuration every strategy consumes: the signing
/// credential, the account it signs for, the target rate and the
/// expiry horizon of produced transactions.
pub struct CommonArgs {
    /// The signing credential.
    pub keys: WalletAccount,
    /// The address the credential signs for; every produced
    /// transaction is sent from it.
    pub sender: AccountAddr,
    /// Target rate in transactions per second.
    pub tps: u16,
    /// How many seconds from now produced transactions expire.
    pub expiry: u32,
}

impl CommonArgs {
    /// Bundle the configuration, reading the sender address off the
    /// credential.
    pub fn new(keys: WalletAccount, tps: u16, expiry: u32) -> (r: CommonArgs)
        ensures
            r.tps == tps,
            r.expiry == expiry,
    {
        let sender = sdk::signer_address(&keys);
        CommonArgs { keys, sender, tps, expiry }
    }
}

/// Configuration of the plain-transfer strategy: the fixed amount each
/// transaction carries, and how receivers are selected.
pub struct CcdArgs {
    /// Micro-units of native coin sent by each transaction.
    pub amount: u64,
    /// The selection policy; walking the whole list round-robin when
    /// none is given.
    pub mode: Option<Mode>,
}

/// The capability every strategy offers: produce the next signed
/// transaction from mutable internal state.
///
/// The contract ties each call to the counter model of `crate::laws`:
/// a call emits the current sequence number and advances the counters
/// by one `step`, so after `n` calls the state is `run(counters, n)`
/// and the laws there describe every run.
pub trait Generate: Sized {
    /// The internal invariant of the strategy.
    spec fn inv(&self) -> bool;

    /// The counters the strategy has reached.
    spec fn counters(&self) -> Counters;

    /// Whether the internal counters can take one more call.
    spec fn can_generate(&self) -> bool;

    /// What the produced transaction and the rest of the state say,
    /// strategy by strategy.
    spec fn generated(pre: Self, post: Self, tx: SignedTransaction) -> bool;

    /// Whether the counters are exhausted, decided at run time, so
    /// that a caller can stop before violating the contract of
    /// `generate`.
    fn exhausted(&self) -> (r: bool)
        ensures
            r == !self.can_generate(),
    ;

    /// Build and sign exactly one transaction, advancing the
    /// counters.  No network traffic happens here.
    fn generate(&mut self) -> (r: Result<SignedTransaction, Error>)
        requires
            old(self).inv(),
            old(self).can_generate(),
        ensures
            final(self).inv(),
            r matches Ok(tx) && tx.envelope.nonce == old(self).counters().nonce
                && final(self).counters() == step(old(self).counters())
                && Self::generated(*old(self), *final(self), tx),
    ;
}

// ------------------------------------------------------------------
// Plain native-coin transfers.
// ------------------------------------------------------------------

/// The setup decision of the plain-transfer strategy, from the inputs
/// the node and the configuration supply: either the selection (random
/// or not, and the list to select from), or the error that aborts
/// construction.
pub open spec fn spec_ccd_setup(
    accounts: Seq<AccountAddr>,
    mode: Option<Mode>,
    role: NodeRole,
    nonce: NonceInfo,
) -> Result<(bool, Seq<AccountAddr>), Error> {
    if accounts.len() == 0 {
        Err(Error::EmptyAccountList)
    } else {
        match mode {
            Option::Some(Mode::Random) => spec_finish_setup(true, accounts, nonce),
            Option::Some(Mode::Every(n)) => {
                if n == 0 {
                    Err(Error::ZeroPartitionCount)
                } else {
                    match role {
                        NodeRole::Validator { index } => {
                            let chunk = chunk_of(accounts, n as nat, index as nat);
                            if chunk.len() == 0 {
                                Err(
                                    Error::EmptySelection {
                                        accounts: accounts.len() as usize,
                                        chunks: n,
                                    },
                                )
                            } else {
                                spec_finish_setup(false, chunk, nonce)
                            }
                        },
                        NodeRole::Regular => Err(Error::NotAValidator),
                        NodeRole::NotANode => Err(Error::NotANode),
                    }
                }
            },
            Option::None => spec_finish_setup(false, accounts, nonce),
        }
    }
}

/// The last setup check: the starting sequence number is trustworthy
/// only once all earlier transactions are finalized.
pub open spec fn spec_finish_setup(
    random: bool,
    sel: Seq<AccountAddr>,
    nonce: NonceInfo,
) -> Result<(bool, Seq<AccountAddr>), Error> {
    if !nonce.all_final {
        Err(Error::UnfinalizedTransactions { nonce: nonce.nonce })
    } else {
        Ok((random, sel))
    }
}

/// Sends a fixed amount of native coin to the next selected receiver
/// on each call.
pub struct CcdGenerator {
    /// The shared configuration.
    pub args: CommonArgs,
    /// Micro-units sent per transaction.
    pub amount: u64,
    /// The fixed, ordered receiver list; never mutated after setup.
    pub accounts: Vec<AccountAddr>,
    /// Whether receivers are picked at random instead of round-robin.
    pub random: bool,
    /// The random source for random selection.
    pub rng: StdRng,
    /// The round-robin cursor, always below the list length.
    pub count: usize,
    /// The sequence number of the next produced transaction.
    pub nonce: u64,
}

impl CcdGenerator {
    /// Build the strategy from the loaded account list, the node's
    /// role and next-sequence-number answer, and a random source.
    /// Fails exactly on the configuration and setup errors that
    /// `spec_ccd_setup` lists, before any transaction is generated.
    pub fn instantiate(
        args: CommonArgs,
        ccd_args: CcdArgs,
        accounts: Vec<AccountAddr>,
        role: NodeRole,
        nonce: NonceInfo,
        rng: StdRng,
    ) -> (r: Result<CcdGenerator, Error>)
        ensures
            match spec_ccd_setup(accounts@, ccd_args.mode, role, nonce) {
                Result::Ok(sel) => r matches Ok(g) && g.inv() && g.random == sel.0 && g.accounts@
                    == sel.1 && g.nonce == nonce.nonce && g.count == 0 && g.amount
                    == ccd_args.amount && g.args == args,
                Result::Err(e) => r matches Err(e2) && e2 == e,
            },
    {
        if accounts.len() == 0 {
            return Err(Error::EmptyAccountList);
        }
        let (random, selected): (bool, Vec<AccountAddr>) = match ccd_args.mode {
            Option::Some(Mode::Random) => (true, accounts),
            Option::Some(Mode::Every(n)) => {
                if n == 0 {
                    return Err(Error::ZeroPartitionCount);
                }
                match role {
                    NodeRole::Validator { index } => {
                        let chunk = match partition_chunk(&accounts, n, index) {
                            Result::Ok(c) => c,
                            Result::Err(e) => {
                                return Err(e);
                            },
                        };
                        if chunk.len() == 0 {
                            return Err(
                                Error::EmptySelection { accounts: accounts.len(), chunks: n },
                            );
                        }
                        (false, chunk)
                    },
                    NodeRole::Regular => {
                        return Err(Error::NotAValidator);
                    },
                    NodeRole::NotANode => {
                        return Err(Error::NotANode);
                    },
                }
            },
            Option::None => (false, accounts),
        };
        if !nonce.all_final {
            return Err(Error::UnfinalizedTransactions { nonce: nonce.nonce });
        }
        Ok(
            CcdGenerator {
                args,
                amount: ccd_args.amount,
                accounts: selected,
                random,
                rng,
                count: 0,
                nonce: nonce.nonce,
            },
        )
    }
}

impl Generate for CcdGenerator {
    open spec fn inv(&self) -> bool {
        self.counters().wf()
    }

    open spec fn counters(&self) -> Counters {
        Counters { nonce: self.nonce, cursor: self.count as nat, len: self.accounts@.len() }
    }

    open spec fn can_generate(&self) -> bool {
        self.nonce < u64::MAX
    }

    fn exhausted(&self) -> (r: bool) {
        self.nonce == u64::MAX
    }

    open spec fn generated(pre: Self, post: Self, tx: SignedTransaction) -> bool {
        &&& post.args == pre.args
        &&& post.amount == pre.amount
        &&& post.accounts@ == pre.accounts@
        &&& post.random == pre.random
        &&& tx.envelope.sender == pre.args.sender
        &&& (tx.envelope.payload matches Payload::Transfer { to, amount_micro } && amount_micro
            == pre.amount && (pre.random ==> (exists|i: int|
            0 <= i < pre.accounts@.len() && to == pre.accounts@[i])) && (!pre.random ==> to
            == pre.accounts@[pre.count as int]))
    }

    fn generate(&mut self) -> (r: Result<SignedTransaction, Error>) {
        let len = self.accounts.len();
        let idx: usize = if self.random {
            sdk::gen_index(&mut self.rng, len)
        } else {
            self.count % len
        };
        let next_account = self.accounts[idx];
        let expiry = sdk::expiry_after(self.args.expiry);
        let item = sdk::sign_transfer(
            &self.args.keys,
            self.nonce,
            expiry,
            &next_account,
            self.amount,
        );
        let envelope = Envelope {
            sender: self.args.sender,
            nonce: self.nonce,
            expiry,
            payload: Payload::Transfer { to: next_account, amount_micro: self.amount },
        };
        self.nonce = self.nonce + 1;
        self.count = (self.count + 1) % len;
        proof {
            let pre = *old(self);
            if pre.random {
                assert(next_account == pre.accounts@[idx as int]);
            } else {
                lemma_small_mod(pre.count as nat, pre.accounts@.len());
                assert(idx == pre.count);
            }
        }
        Ok(SignedTransaction { envelope, item })
    }
}

// ------------------------------------------------------------------
// NFT minting.
// ------------------------------------------------------------------

/// Mints one freshly numbered NFT item to the sender on each call.
/// Item identifiers start at zero and grow by one per call; when the
/// 32-bit identifier space is exhausted the strategy refuses further
/// calls rather than wrapping around.
pub struct MintCis2Generator {
    /// The shared configuration.
    pub args: CommonArgs,
    /// The program address bound by the bootstrap protocol.
    pub contract_address: ContractAddr,
    /// The sequence number of the next produced transaction.
    pub nonce: u64,
    /// The identifier the next minted item will carry.
    pub next_id: u32,
}

impl MintCis2Generator {
    /// Build the strategy once the bootstrap protocol has bound the
    /// program address and left `start_nonce` as the next unused
    /// sequence number.
    pub fn instantiate(args: CommonArgs, start_nonce: u64, contract_address: ContractAddr) -> (r:
        MintCis2Generator)
        ensures
            r.args == args,
            r.contract_address == contract_address,
            r.nonce == start_nonce,
            r.next_id == 0,
            r.inv(),
    {
        MintCis2Generator { args, contract_address, nonce: start_nonce, next_id: 0 }
    }
}

impl Generate for MintCis2Generator {
    open spec fn inv(&self) -> bool {
        self.counters().wf()
    }

    open spec fn counters(&self) -> Counters {
        Counters {
            nonce: self.nonce,
            cursor: self.next_id as nat,
            len: TOKEN_ID_SPACE as nat,
        }
    }

    open spec fn can_generate(&self) -> bool {
        self.nonce < u64::MAX && self.next_id < u32::MAX
    }

    fn exhausted(&self) -> (r: bool) {
        self.nonce == u64::MAX || self.next_id == u32::MAX
    }

    open spec fn generated(pre: Self, post: Self, tx: SignedTransaction) -> bool {
        &&& post.args == pre.args
        &&& post.contract_address == pre.contract_address
        &&& tx.envelope.sender == pre.args.sender
        &&& (tx.envelope.payload matches Payload::Update { contract, receive_name, message, energy }
            && contract == pre.contract_address && receive_name@ == "cis2_nft.mint"@ && message@
            == mint_nft_params(pre.args.sender, pre.next_id) && energy == MINT_NFT_ENERGY)
    }

    fn generate(&mut self) -> (r: Result<SignedTransaction, Error>) {
        let message = encode_mint_nft_params(&self.args.sender, self.next_id);
        proof {
            reveal_strlit("cis2_nft.mint");
            assert(("cis2_nft.mint"@).len() == 13);
            assert(("cis2_nft.mint"@)[8] == '.');
            assert(valid_receive_name("cis2_nft.mint"@));
        }
        let receive_name = sdk::make_receive_name("cis2_nft.mint");
        let expiry = sdk::expiry_after(self.args.expiry);
        let item = sdk::sign_update(
            &self.args.keys,
            self.nonce,
            expiry,
            &self.contract_address,
            receive_name,
            &message,
            MINT_NFT_ENERGY,
        );
        let envelope = Envelope {
            sender: self.args.sender,
            nonce: self.nonce,
            expiry,
            payload: Payload::Update {
                contract: self.contract_address,
                receive_name: "cis2_nft.mint".to_owned(),
                message,
                energy: MINT_NFT_ENERGY,
            },
        };
        self.nonce = self.nonce + 1;
        self.next_id = self.next_id + 1;
        proof {
            lemma_small_mod(self.next_id as nat, TOKEN_ID_SPACE as nat);
        }
        Ok(SignedTransaction { envelope, item })
    }
}

// ------------------------------------------------------------------
// Fungible-asset transfers.
// ------------------------------------------------------------------

/// Transfers one unit of asset id zero from the sender to the next
/// receiver, round-robin over the fixed account list.
pub struct TransferCis2Generator {
    /// The shared configuration.
    pub args: CommonArgs,
    /// The program address bound by the bootstrap protocol.
    pub contract_address: ContractAddr,
    /// The fixed, ordered receiver list; never mutated after setup.
    pub accounts: Vec<AccountAddr>,
    /// The sequence number of the next produced transaction.
    pub nonce: u64,
    /// The round-robin cursor, always below the list length.
    pub count: usize,
}

impl TransferCis2Generator {
    /// Build the strategy once the bootstrap protocol has bound the
    /// program address, minted the supply, and left `start_nonce` as
    /// the next unused sequence number.  An empty receiver list is a
    /// setup error.
    pub fn instantiate(
        args: CommonArgs,
        accounts: Vec<AccountAddr>,
        start_nonce: u64,
        contract_address: ContractAddr,
    ) -> (r: Result<TransferCis2Generator, Error>)
        ensures
            accounts@.len() == 0 ==> (r matches Err(e) && e == Error::EmptyAccountList),
            accounts@.len() > 0 ==> (r matches Ok(g) && g.inv() && g.args == args && g.accounts@
                == accounts@ && g.nonce == start_nonce && g.count == 0 && g.contract_address
                == contract_address),
    {
        if accounts.len() == 0 {
            return Err(Error::EmptyAccountList);
        }
        Ok(TransferCis2Generator { args, contract_address, accounts, nonce: start_nonce, count: 0 })
    }
}

impl Generate for TransferCis2Generator {
    open spec fn inv(&self) -> bool {
        self.counters().wf()
    }

    open spec fn counters(&self) -> Counters {
        Counters { nonce: self.nonce, cursor: self.count as nat, len: self.accounts@.len() }
    }

    open spec fn can_generate(&self) -> bool {
        self.nonce < u64::MAX
    }

    fn exhausted(&self) -> (r: bool) {
        self.nonce == u64::MAX
    }

    open spec fn generated(pre: Self, post: Self, tx: SignedTransaction) -> bool {
        &&& post.args == pre.args
        &&& post.contract_address == pre.contract_address
        &&& post.accounts@ == pre.accounts@
        &&& tx.envelope.sender == pre.args.sender
        &&& (tx.envelope.payload matches Payload::Update { contract, receive_name, message, energy }
            && contract == pre.contract_address && receive_name@ == "cis2_multi.transfer"@
            && message@ == cis2_transfer_params(
            pre.args.sender,
            pre.accounts@[pre.count as int],
            1,
        ) && energy == TRANSFER_CIS2_ENERGY)
    }

    fn generate(&mut self) -> (r: Result<SignedTransaction, Error>) {
        let len = self.accounts.len();
        proof {
            lemma_small_mod(self.count as nat, self.accounts@.len());
        }
        let next_account = self.accounts[self.count % len];
        let message = encode_cis2_transfer_params(&self.args.sender, &next_account, 1);
        proof {
            reveal_strlit("cis2_multi.transfer");
            assert(("cis2_multi.transfer"@).len() == 19);
            assert(("cis2_multi.transfer"@)[10] == '.');
            assert(valid_receive_name("cis2_multi.transfer"@));
        }
        let receive_name = sdk::make_receive_name("cis2_multi.transfer");
        let expiry = sdk::expiry_after(self.args.expiry);
        let item = sdk::sign_update(
            &self.args.keys,
            self.nonce,
            expiry,
            &self.contract_address,
            receive_name,
            &message,
            TRANSFER_CIS2_ENERGY,
        );
        let envelope = Envelope {
            sender: self.args.sender,
            nonce: self.nonce,
            expiry,
            payload: Payload::Update {
                contract: self.contract_address,
                receive_name: "cis2_multi.transfer".to_owned(),
                message,
                energy: TRANSFER_CIS2_ENERGY,
            },
        };
        self.nonce = self.nonce + 1;
        self.count = (self.count + 1) % len;
        Ok(SignedTransaction { envelope, item })
    }
}

/// Build the one-time supply-minting transaction of the asset-transfer
/// strategy: the whole 64-bit supply of asset id zero, minted to the
/// sender, under a fixed example metadata locator.
pub fn mint_supply_transaction(args: &CommonArgs, contract_address: ContractAddr, nonce: u64) -> (r:
    SignedTransaction)
    ensures
        r.envelope.sender == args.sender,
        r.envelope.nonce == nonce,
        r.envelope.payload matches Payload::Update { contract, receive_name, message, energy }
            && contract == contract_address && receive_name@ == "cis2_multi.mint"@ && message@
            == mint_supply_params(args.sender, u64::MAX as nat, "https://example.com".spec_bytes())
            && energy == MINT_SUPPLY_ENERGY,
{
    let url: &str = "https://example.com";
    proof {
        reveal_strlit("https://example.com");
        assert(vstd::string::is_ascii("https://example.com"));
        vstd::string::is_ascii_spec_bytes(url);
        assert(url.spec_bytes().len() == 19);
        reveal_strlit("cis2_multi.mint");
        assert(("cis2_multi.mint"@).len() == 15);
        assert(("cis2_multi.mint"@)[10] == '.');
        assert(valid_receive_name("cis2_multi.mint"@));
    }
    let message = encode_mint_supply_params(&args.sender, u64::MAX, url.as_bytes());
    let receive_name = sdk::make_receive_name("cis2_multi.mint");
    let expiry = sdk::expiry_after(args.expiry);
    let item = sdk::sign_update(
        &args.keys,
        nonce,
        expiry,
        &contract_address,
        receive_name,
        &message,
        MINT_SUPPLY_ENERGY,
    );
    let envelope = Envelope {
        sender: args.sender,
        nonce,
        expiry,
        payload: Payload::Update {
            contract: contract_address,
            receive_name: "cis2_multi.mint".to_owned(),
            message,
            energy: MINT_SUPPLY_ENERGY,
        },
    };
    SignedTransaction { envelope, item }
}

} // verus!

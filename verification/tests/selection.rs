//! Selection policy: mode parsing, partitioning, and the setup errors.

use concordium_rust_sdk::id::types::{AccountAddress, AccountKeys};
use concordium_rust_sdk::types::WalletAccount;
use rand::rngs::StdRng;
use rand::SeedableRng;
use txgen::error::Error;
use txgen::generator::Generate;
use txgen::tx::Payload;
use txgen::generator::{CcdArgs, CcdGenerator, CommonArgs};
use txgen::select::{parse_mode, partition_chunk, Mode};
use txgen::types::{AccountAddr, NodeRole, NonceInfo};

fn wallet() -> WalletAccount {
    let mut rng = StdRng::seed_from_u64(7);
    WalletAccount {
        address: AccountAddress([9u8; 32]),
        keys: AccountKeys::singleton(&mut rng),
    }
}

fn args() -> CommonArgs {
    CommonArgs::new(wallet(), 2, 7200)
}

fn addr(b: u8) -> AccountAddr {
    AccountAddr([b; 32])
}

fn ten() -> Vec<AccountAddr> {
    (0..10).map(|i| addr(i)).collect()
}

#[test]
fn parse_mode_accepts_random_and_counts() {
    assert_eq!(parse_mode("random"), Some(Mode::Random));
    assert_eq!(parse_mode("7"), Some(Mode::Every(7)));
    assert_eq!(parse_mode("+12"), Some(Mode::Every(12)));
    assert_eq!(parse_mode("0"), Some(Mode::Every(0)));
    assert_eq!(parse_mode(""), None);
    assert_eq!(parse_mode("+"), None);
    assert_eq!(parse_mode("abc"), None);
    assert_eq!(parse_mode("12x"), None);
    assert_eq!(parse_mode("999999999999999999999999999"), None);
}

/// Ten accounts in three chunks: chunk size three, instance k gets
/// `[3k, 3k + 3)`, and index 9 is never assigned.
#[test]
fn partition_assigns_contiguous_chunks() {
    let accounts = ten();
    let chunk0 = partition_chunk(&accounts, 3, 0).unwrap();
    let chunk1 = partition_chunk(&accounts, 3, 1).unwrap();
    let chunk2 = partition_chunk(&accounts, 3, 2).unwrap();
    assert_eq!(chunk0, &accounts[0..3]);
    assert_eq!(chunk1, &accounts[3..6]);
    assert_eq!(chunk2, &accounts[6..9]);
    let all: Vec<AccountAddr> =
        chunk0.iter().chain(&chunk1).chain(&chunk2).cloned().collect();
    assert!(!all.contains(&accounts[9]));
    assert_eq!(all.len(), 9);
}

/// The validator index is taken modulo the chunk count.
#[test]
fn partition_reduces_validator_index() {
    let accounts = ten();
    assert_eq!(
        partition_chunk(&accounts, 3, 5).unwrap(),
        partition_chunk(&accounts, 3, 2).unwrap()
    );
}

#[test]
fn partition_of_zero_chunks_is_refused() {
    assert_eq!(partition_chunk(&ten(), 0, 0), Err(Error::ZeroPartitionCount));
}

#[test]
fn setup_rejects_empty_account_list() {
    let r = CcdGenerator::instantiate(
        args(),
        CcdArgs { amount: 1, mode: None },
        Vec::new(),
        NodeRole::Regular,
        NonceInfo { nonce: 0, all_final: true },
        StdRng::seed_from_u64(0),
    );
    assert_eq!(r.err(), Some(Error::EmptyAccountList));
}

#[test]
fn setup_rejects_unfinalized_transactions() {
    let r = CcdGenerator::instantiate(
        args(),
        CcdArgs { amount: 1, mode: None },
        ten(),
        NodeRole::Regular,
        NonceInfo { nonce: 3, all_final: false },
        StdRng::seed_from_u64(0),
    );
    assert_eq!(r.err(), Some(Error::UnfinalizedTransactions { nonce: 3 }));
}

#[test]
fn setup_rejects_zero_partition_count() {
    let r = CcdGenerator::instantiate(
        args(),
        CcdArgs { amount: 1, mode: Some(Mode::Every(0)) },
        ten(),
        NodeRole::Validator { index: 0 },
        NonceInfo { nonce: 0, all_final: true },
        StdRng::seed_from_u64(0),
    );
    assert_eq!(r.err(), Some(Error::ZeroPartitionCount));
}

#[test]
fn setup_requires_a_validator_for_partitioning() {
    let r = CcdGenerator::instantiate(
        args(),
        CcdArgs { amount: 1, mode: Some(Mode::Every(2)) },
        ten(),
        NodeRole::Regular,
        NonceInfo { nonce: 0, all_final: true },
        StdRng::seed_from_u64(0),
    );
    assert_eq!(r.err(), Some(Error::NotAValidator));
    let r2 = CcdGenerator::instantiate(
        args(),
        CcdArgs { amount: 1, mode: Some(Mode::Every(2)) },
        ten(),
        NodeRole::NotANode,
        NonceInfo { nonce: 0, all_final: true },
        StdRng::seed_from_u64(0),
    );
    assert_eq!(r2.err(), Some(Error::NotANode));
}

/// More chunks than accounts leaves this instance with nothing to
/// send to: a setup error rather than a later panic.
#[test]
fn setup_rejects_empty_chunk() {
    let accounts = vec![addr(1), addr(2)];
    let r = CcdGenerator::instantiate(
        args(),
        CcdArgs { amount: 1, mode: Some(Mode::Every(5)) },
        accounts,
        NodeRole::Validator { index: 1 },
        NonceInfo { nonce: 0, all_final: true },
        StdRng::seed_from_u64(0),
    );
    assert_eq!(r.err(), Some(Error::EmptySelection { accounts: 2, chunks: 5 }));
}

/// A partitioned instance generates only within its own chunk.
#[test]
fn partitioned_setup_selects_its_chunk() {
    let accounts = ten();
    let mut g = CcdGenerator::instantiate(
        args(),
        CcdArgs { amount: 1, mode: Some(Mode::Every(3)) },
        accounts.clone(),
        NodeRole::Validator { index: 1 },
        NonceInfo { nonce: 0, all_final: true },
        StdRng::seed_from_u64(0),
    )
    .expect("setup succeeds");
    for i in 0..6u64 {
        let tx = g.generate().expect("generation succeeds");
        match &tx.envelope.payload {
            Payload::Transfer { to, .. } => {
                assert_eq!(*to, accounts[3 + (i % 3) as usize]);
            }
            _ => panic!("expected a transfer payload"),
        }
    }
}

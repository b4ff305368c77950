//! End-to-end runs of the three generation strategies.

use concordium_rust_sdk::id::types::{AccountAddress, AccountKeys};
use concordium_rust_sdk::types::WalletAccount;
use rand::rngs::StdRng;
use rand::SeedableRng;
use txgen::generator::{
    CcdArgs, CcdGenerator, CommonArgs, Generate, MintCis2Generator, TransferCis2Generator,
    mint_supply_transaction, MINT_NFT_ENERGY, MINT_SUPPLY_ENERGY, TRANSFER_CIS2_ENERGY,
};
use txgen::pipeline::pacing_interval_micros;
use txgen::select::Mode;
use txgen::tx::Payload;
use txgen::types::{AccountAddr, ContractAddr, NodeRole, NonceInfo};

fn wallet() -> WalletAccount {
    let mut rng = StdRng::seed_from_u64(7);
    WalletAccount {
        address: AccountAddress([9u8; 32]),
        keys: AccountKeys::singleton(&mut rng),
    }
}

fn args() -> CommonArgs {
    CommonArgs::new(wallet(), 2, 7200)
}

fn addr(b: u8) -> AccountAddr {
    AccountAddr([b; 32])
}

fn transfer_to(tx: &txgen::tx::SignedTransaction) -> (AccountAddr, u64) {
    match &tx.envelope.payload {
        Payload::Transfer { to, amount_micro } => (*to, *amount_micro),
        _ => panic!("expected a transfer payload"),
    }
}

/// Account list [A,B,C,D], amount 5, rate 2/s, starting number 100:
/// the produced run is (A,100),(B,101),(C,102),(D,103),(A,104),…
/// at one submission every half second.
#[test]
fn end_to_end_transfer_scenario() {
    let accounts = vec![addr(1), addr(2), addr(3), addr(4)];
    let mut g = CcdGenerator::instantiate(
        args(),
        CcdArgs { amount: 5, mode: None },
        accounts.clone(),
        NodeRole::Regular,
        NonceInfo { nonce: 100, all_final: true },
        StdRng::seed_from_u64(1),
    )
    .expect("setup succeeds");
    for i in 0..8u64 {
        let tx = g.generate().expect("generation succeeds");
        assert_eq!(tx.envelope.nonce, 100 + i);
        assert_eq!(tx.envelope.sender, AccountAddr([9u8; 32]));
        let (to, amount) = transfer_to(&tx);
        assert_eq!(amount, 5);
        assert_eq!(to, accounts[(i % 4) as usize]);
    }
    assert_eq!(pacing_interval_micros(2), 500_000);
}

/// Sequence numbers of any strategy form a strictly increasing,
/// gapless run starting at the setup value.
#[test]
fn sequence_numbers_have_no_gaps() {
    let mut g = CcdGenerator::instantiate(
        args(),
        CcdArgs { amount: 1, mode: Some(Mode::Random) },
        vec![addr(1), addr(2)],
        NodeRole::Regular,
        NonceInfo { nonce: 55, all_final: true },
        StdRng::seed_from_u64(3),
    )
    .expect("setup succeeds");
    let mut previous = None;
    for _ in 0..20 {
        let tx = g.generate().expect("generation succeeds");
        if let Some(p) = previous {
            assert_eq!(tx.envelope.nonce, p + 1);
        } else {
            assert_eq!(tx.envelope.nonce, 55);
        }
        previous = Some(tx.envelope.nonce);
    }
}

/// Round-robin over K accounts: calls i and i + K select the same
/// address, and the first K calls visit all K addresses in order.
#[test]
fn round_robin_repeats_with_period() {
    let accounts = vec![addr(10), addr(20), addr(30)];
    let mut g = CcdGenerator::instantiate(
        args(),
        CcdArgs { amount: 1, mode: None },
        accounts.clone(),
        NodeRole::Regular,
        NonceInfo { nonce: 0, all_final: true },
        StdRng::seed_from_u64(4),
    )
    .expect("setup succeeds");
    let selected: Vec<AccountAddr> =
        (0..6).map(|_| transfer_to(&g.generate().unwrap()).0).collect();
    assert_eq!(&selected[0..3], &accounts[..]);
    for i in 0..3 {
        assert_eq!(selected[i], selected[i + 3]);
    }
}

/// Random selection with a fixed seed is reproducible across runs,
/// and only ever picks addresses from the list.
#[test]
fn random_selection_reproducible_with_seed() {
    let accounts = vec![addr(1), addr(2), addr(3), addr(4), addr(5)];
    let run = |seed: u64| -> Vec<AccountAddr> {
        let mut g = CcdGenerator::instantiate(
            args(),
            CcdArgs { amount: 1, mode: Some(Mode::Random) },
            accounts.clone(),
            NodeRole::Regular,
            NonceInfo { nonce: 0, all_final: true },
            StdRng::seed_from_u64(seed),
        )
        .expect("setup succeeds");
        (0..16).map(|_| transfer_to(&g.generate().unwrap()).0).collect()
    };
    let first = run(42);
    let second = run(42);
    assert_eq!(first, second);
    for picked in &first {
        assert!(accounts.contains(picked));
    }
}

/// The NFT strategy numbers its items 0, 1, 2, … and encodes each
/// mint parameter byte for byte.
#[test]
fn mint_strategy_numbers_items_from_zero() {
    let contract = ContractAddr { index: 11, subindex: 0 };
    let mut g = MintCis2Generator::instantiate(args(), 7, contract);
    for i in 0..3u32 {
        let tx = g.generate().expect("generation succeeds");
        assert_eq!(tx.envelope.nonce, 7 + u64::from(i));
        match &tx.envelope.payload {
            Payload::Update { contract: c, receive_name, message, energy } => {
                assert_eq!(*c, contract);
                assert_eq!(receive_name.as_str(), "cis2_nft.mint");
                assert_eq!(*energy, MINT_NFT_ENERGY);
                let mut expected = vec![0u8];
                expected.extend_from_slice(&[9u8; 32]);
                expected.push(1);
                expected.push(4);
                expected.extend_from_slice(&i.to_le_bytes());
                assert_eq!(message, &expected);
            }
            _ => panic!("expected an update payload"),
        }
    }
}

/// The asset-transfer strategy walks its list round-robin and encodes
/// one single-unit transfer of asset id zero per call.
#[test]
fn asset_transfer_strategy_encodes_transfers() {
    let accounts = vec![addr(1), addr(2)];
    let contract = ContractAddr { index: 5, subindex: 1 };
    let mut g = TransferCis2Generator::instantiate(args(), accounts.clone(), 40, contract)
        .expect("setup succeeds");
    for i in 0..4u64 {
        let tx = g.generate().expect("generation succeeds");
        assert_eq!(tx.envelope.nonce, 40 + i);
        match &tx.envelope.payload {
            Payload::Update { contract: c, receive_name, message, energy } => {
                assert_eq!(*c, contract);
                assert_eq!(receive_name.as_str(), "cis2_multi.transfer");
                assert_eq!(*energy, TRANSFER_CIS2_ENERGY);
                let mut expected = vec![1u8, 0];
                expected.extend_from_slice(&[1, 0]);
                expected.push(1);
                expected.push(0);
                expected.extend_from_slice(&[9u8; 32]);
                expected.push(0);
                expected.extend_from_slice(&accounts[(i % 2) as usize].0);
                expected.extend_from_slice(&[0, 0]);
                assert_eq!(message, &expected);
            }
            _ => panic!("expected an update payload"),
        }
    }
}

/// The asset-transfer strategy refuses an empty receiver list.
#[test]
fn asset_transfer_strategy_rejects_empty_list() {
    let r = TransferCis2Generator::instantiate(
        args(),
        Vec::new(),
        0,
        ContractAddr { index: 1, subindex: 0 },
    );
    assert_eq!(r.err(), Some(txgen::error::Error::EmptyAccountList));
}

/// The supply-minting bootstrap transaction mints the whole 64-bit
/// supply of asset id zero to the sender.
#[test]
fn supply_mint_transaction_bytes() {
    let contract = ContractAddr { index: 3, subindex: 0 };
    let tx = mint_supply_transaction(&args(), contract, 12);
    assert_eq!(tx.envelope.nonce, 12);
    match &tx.envelope.payload {
        Payload::Update { contract: c, receive_name, message, energy } => {
            assert_eq!(*c, contract);
            assert_eq!(receive_name.as_str(), "cis2_multi.mint");
            assert_eq!(*energy, MINT_SUPPLY_ENERGY);
            let mut expected = vec![0u8];
            expected.extend_from_slice(&[9u8; 32]);
            expected.extend_from_slice(&[1, 0, 0, 0]);
            expected.extend_from_slice(&[1, 0]);
            expected.extend_from_slice(&[0xFF; 9]);
            expected.push(0x01);
            expected.extend_from_slice(&[19, 0]);
            expected.extend_from_slice(b"https://example.com");
            expected.push(0);
            assert_eq!(message, &expected);
        }
        _ => panic!("expected an update payload"),
    }
}

//! Parameter encodings and entry-point name validity.

use txgen::encode::{
    encode_cis2_transfer_params, encode_mint_nft_params, encode_mint_supply_params,
};
use txgen::names::{check_init_name, check_receive_name};
use txgen::types::AccountAddr;

fn addr(b: u8) -> AccountAddr {
    AccountAddr([b; 32])
}

/// The NFT mint parameter: tagged owner address, a one-element set of
/// one four-byte token id.
#[test]
fn mint_nft_parameter_bytes() {
    let owner = addr(7);
    let bytes = encode_mint_nft_params(&owner, 0x01020304);
    let mut expected = vec![0u8];
    expected.extend_from_slice(&[7u8; 32]);
    expected.push(1);
    expected.push(4);
    expected.extend_from_slice(&[0x04, 0x03, 0x02, 0x01]);
    assert_eq!(bytes, expected);
    assert_eq!(bytes.len(), 39);
}

/// The supply-mint parameter: tagged owner, a one-entry map behind a
/// 32-bit count, token id zero, varint amount, and the metadata url
/// behind a 16-bit length with no checksum.
#[test]
fn mint_supply_parameter_bytes() {
    let owner = addr(3);
    let url = b"https://example.com";
    let bytes = encode_mint_supply_params(&owner, u64::MAX, url);
    let mut expected = vec![0u8];
    expected.extend_from_slice(&[3u8; 32]);
    expected.extend_from_slice(&[1, 0, 0, 0]);
    expected.extend_from_slice(&[1, 0]);
    expected.extend_from_slice(&[0xFF; 9]);
    expected.push(0x01);
    expected.extend_from_slice(&[19, 0]);
    expected.extend_from_slice(url);
    expected.push(0);
    assert_eq!(bytes, expected);
}

/// Small amounts take a single varint byte.
#[test]
fn mint_supply_small_amount() {
    let bytes = encode_mint_supply_params(&addr(0), 1, b"u");
    let tail = &bytes[33 + 4 + 2..];
    assert_eq!(tail, &[1u8, 1, 0, b'u', 0]);
}

/// A varint boundary: 128 takes two bytes, the low group first with
/// its continuation bit set.
#[test]
fn varint_boundary_amount() {
    let bytes = encode_cis2_transfer_params(&addr(1), &addr(2), 128);
    assert_eq!(&bytes[4..6], &[0x80, 0x01]);
}

/// The transfer parameter: a one-element list behind a 16-bit count;
/// token id zero, the amount, the tagged source and receiver, and an
/// empty auxiliary blob.
#[test]
fn cis2_transfer_parameter_bytes() {
    let from = addr(1);
    let to = addr(2);
    let bytes = encode_cis2_transfer_params(&from, &to, 1);
    let mut expected = vec![1u8, 0];
    expected.extend_from_slice(&[1, 0]);
    expected.push(1);
    expected.push(0);
    expected.extend_from_slice(&[1u8; 32]);
    expected.push(0);
    expected.extend_from_slice(&[2u8; 32]);
    expected.extend_from_slice(&[0, 0]);
    assert_eq!(bytes, expected);
    assert_eq!(bytes.len(), 73);
}

#[test]
fn receive_names_need_a_dot() {
    assert!(check_receive_name("cis2_nft.mint"));
    assert!(check_receive_name("a.b"));
    assert!(!check_receive_name("nodot"));
    assert!(!check_receive_name("has space.x"));
    assert!(!check_receive_name(""));
    let long = "a.".to_string() + &"b".repeat(99);
    assert!(!check_receive_name(&long));
}

#[test]
fn init_names_need_the_prefix_and_no_dot() {
    assert!(check_init_name("init_cis2_nft"));
    assert!(check_init_name("init_x"));
    assert!(!check_init_name("cis2_nft"));
    assert!(!check_init_name("init_x.y"));
    assert!(check_init_name("init_"));
    assert!(check_init_name("init_a"));
    assert!(!check_init_name("init_a b"));
}

//! Byte encodings of the deployed module's entry-point parameters.
//!
//! Each strategy hands the chain an update transaction whose message is
//! a parameter blob that must match, byte for byte, what the deployed
//! module decodes: little-endian length prefixes, a one-byte tag for an
//! account address, token identifiers as length-prefixed bytes, and
//! token amounts in base-128 varint form.

use vstd::prelude::*;
use vstd::arithmetic::div_mod::lemma_multiply_divide_lt;
use crate::types::AccountAddr;

verus! {

/// A 16-bit value, little endian.
pub open spec fn u16_le(x: u16) -> Seq<u8> {
    seq![(x as nat % 256) as u8, (x as nat / 256) as u8]
}

/// A 32-bit value, little endian.
pub open spec fn u32_le(x: u32) -> Seq<u8> {
    seq![
        (x as nat % 256) as u8,
        (x as nat / 256 % 256) as u8,
        (x as nat / 65536 % 256) as u8,
        (x as nat / 16777216) as u8,
    ]
}

/// A token amount: base-128 groups, least significant first, the high
/// bit of a byte marking that more groups follow.
pub open spec fn leb128(x: nat) -> Seq<u8>
    decreases x,
{
    if x < 128 {
        seq![x as u8]
    } else {
        seq![(x % 128 + 128) as u8] + leb128(x / 128)
    }
}

/// An address that is an account: tag byte zero, then the 32 raw bytes.
pub open spec fn account_address(a: AccountAddr) -> Seq<u8> {
    seq![0u8] + a.0@
}

/// A token identifier from a 32-bit number: one length byte (4), then
/// the number little endian.
pub open spec fn token_id_u32(id: u32) -> Seq<u8> {
    seq![4u8] + u32_le(id)
}

/// A token identifier from an 8-bit number: one length byte (1), then
/// the number itself.
pub open spec fn token_id_u8(id: u8) -> Seq<u8> {
    seq![1u8, id]
}

/// A metadata locator without a checksum: the url bytes behind a
/// 16-bit length, then the tag for an absent checksum.
pub open spec fn metadata_url(url: Seq<u8>) -> Seq<u8> {
    u16_le(url.len() as u16) + url + seq![0u8]
}

/// The `mint` parameter of the NFT module: the owner address, then a
/// set of one token identifier behind a one-byte count.
pub open spec fn mint_nft_params(owner: AccountAddr, id: u32) -> Seq<u8> {
    account_address(owner) + seq![1u8] + token_id_u32(id)
}

/// The `mint` parameter of the multi-token module: the owner address,
/// then a map of one entry behind a 32-bit count, from token id zero to
/// the amount and its metadata locator.
pub open spec fn mint_supply_params(owner: AccountAddr, amount: nat, url: Seq<u8>) -> Seq<u8> {
    account_address(owner) + u32_le(1) + token_id_u8(0) + leb128(amount) + metadata_url(url)
}

/// The `transfer` parameter of the multi-token module: a list of one
/// transfer behind a 16-bit count; the transfer holds token id zero,
/// the amount, the owning address, the receiving account, and an empty
/// auxiliary blob behind a 16-bit length.
pub open spec fn cis2_transfer_params(from: AccountAddr, to: AccountAddr, amount: nat) -> Seq<
    u8,
> {
    u16_le(1) + token_id_u8(0) + leb128(amount) + account_address(from) + account_address(to)
        + u16_le(0)
}

// ------------------------------------------------------------------
// Sizes: every parameter the strategies build stays far below the
// chain's 65535-byte parameter cap.
// ------------------------------------------------------------------

/// Powers of 128, the varint radix.
pub open spec fn pow128(k: nat) -> nat
    decreases k,
{
    if k == 0 {
        1
    } else {
        128 * pow128((k - 1) as nat)
    }
}

/// A value below `pow128(k)` takes at most `k` varint bytes.
proof fn lemma_leb128_len(x: nat, k: nat)
    requires
        k >= 1,
        x < pow128(k),
    ensures
        leb128(x).len() <= k,
    decreases k,
{
    if x < 128 {
    } else {
        assert(pow128(k) == 128 * pow128((k - 1) as nat));
        assert(k >= 2) by {
            if k == 1 {
                assert(pow128(1) == 128);
            }
        }
        lemma_multiply_divide_lt(x as int, 128, pow128((k - 1) as nat) as int);
        lemma_leb128_len(x / 128, (k - 1) as nat);
    }
}

/// A 64-bit amount takes at most ten varint bytes.
pub proof fn lemma_leb128_u64_len(x: u64)
    ensures
        leb128(x as nat).len() <= 10,
{
    assert(pow128(0) == 1);
    assert(pow128(1) == 128);
    assert(pow128(2) == 0x4000);
    assert(pow128(3) == 0x200000);
    assert(pow128(4) == 0x10000000);
    assert(pow128(5) == 0x800000000);
    assert(pow128(6) == 0x40000000000);
    assert(pow128(7) == 0x2000000000000);
    assert(pow128(8) == 0x100000000000000);
    assert(pow128(9) == 0x8000000000000000);
    assert(pow128(10) == 0x400000000000000000);
    lemma_leb128_len(x as nat, 10);
}

// ------------------------------------------------------------------
// Executable encoders.
// ------------------------------------------------------------------

fn push_u16_le(out: &mut Vec<u8>, x: u16)
    ensures
        final(out)@ == old(out)@ + u16_le(x),
{
    out.push((x % 256) as u8);
    out.push((x / 256) as u8);
    proof {
        assert(out@ =~= old(out)@ + u16_le(x));
    }
}

fn push_u32_le(out: &mut Vec<u8>, x: u32)
    ensures
        final(out)@ == old(out)@ + u32_le(x),
{
    out.push((x % 256) as u8);
    out.push((x / 256 % 256) as u8);
    out.push((x / 65536 % 256) as u8);
    out.push((x / 16777216) as u8);
    proof {
        assert(out@ =~= old(out)@ + u32_le(x));
    }
}

fn push_leb128_u64(out: &mut Vec<u8>, x: u64)
    ensures
        final(out)@ == old(out)@ + leb128(x as nat),
{
    let ghost start = out@;
    let mut v: u64 = x;
    while v >= 128
        invariant
            start + leb128(x as nat) =~= out@ + leb128(v as nat),
        decreases v,
    {
        out.push((v % 128 + 128) as u8);
        v = v / 128;
    }
    out.push(v as u8);
    proof {
        assert(out@ =~= start + leb128(x as nat));
    }
}

fn push_account_address(out: &mut Vec<u8>, a: &AccountAddr)
    ensures
        final(out)@ == old(out)@ + account_address(*a),
{
    out.push(0u8);
    let mut i: usize = 0;
    while i < 32
        invariant
            i <= 32,
            out@ =~= old(out)@ + seq![0u8] + a.0@.take(i as int),
        decreases 32 - i,
    {
        out.push(a.0[i]);
        i += 1;
    }
    proof {
        assert(out@ =~= old(out)@ + account_address(*a));
    }
}

/// Build the NFT `mint` parameter bytes for one freshly numbered token.
pub fn encode_mint_nft_params(owner: &AccountAddr, id: u32) -> (r: Vec<u8>)
    ensures
        r@ == mint_nft_params(*owner, id),
        r@.len() == 39,
{
    let mut out: Vec<u8> = Vec::new();
    push_account_address(&mut out, owner);
    out.push(1u8);
    out.push(4u8);
    push_u32_le(&mut out, id);
    proof {
        assert(out@ =~= mint_nft_params(*owner, id));
    }
    out
}

/// Build the multi-token `mint` parameter bytes: the whole supply of
/// token id zero for the owner, under the given metadata url.
pub fn encode_mint_supply_params(owner: &AccountAddr, amount: u64, url: &[u8]) -> (r: Vec<u8>)
    requires
        url@.len() <= 65535,
    ensures
        r@ == mint_supply_params(*owner, amount as nat, url@),
        r@.len() <= 52 + url@.len(),
{
    let mut out: Vec<u8> = Vec::new();
    push_account_address(&mut out, owner);
    push_u32_le(&mut out, 1);
    out.push(1u8);
    out.push(0u8);
    push_leb128_u64(&mut out, amount);
    push_u16_le(&mut out, url.len() as u16);
    let mut i: usize = 0;
    let ghost mid = out@;
    while i < url.len()
        invariant
            i <= url@.len(),
            out@ =~= mid + url@.take(i as int),
        decreases url@.len() - i,
    {
        out.push(url[i]);
        i += 1;
    }
    out.push(0u8);
    proof {
        lemma_leb128_u64_len(amount);
        assert(out@ =~= mint_supply_params(*owner, amount as nat, url@));
    }
    out
}

/// Build the multi-token `transfer` parameter bytes: one transfer of
/// the given amount of token id zero from `from` to the account `to`.
pub fn encode_cis2_transfer_params(from: &AccountAddr, to: &AccountAddr, amount: u64) -> (r: Vec<
    u8,
>)
    ensures
        r@ == cis2_transfer_params(*from, *to, amount as nat),
        r@.len() <= 82,
{
    let mut out: Vec<u8> = Vec::new();
    push_u16_le(&mut out, 1);
    out.push(1u8);
    out.push(0u8);
    push_leb128_u64(&mut out, amount);
    push_account_address(&mut out, from);
    push_account_address(&mut out, to);
    push_u16_le(&mut out, 0);
    proof {
        lemma_leb128_u64_len(amount);
        assert(out@ =~= cis2_transfer_params(*from, *to, amount as nat));
    }
    out
}

} // verus!

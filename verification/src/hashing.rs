//! SCALE encoding and Blake2 hashing, done by the Substrate crates.
//!
//! The encodings are stated byte for byte, as the SCALE codec documents them:
//! fixed-size integers are little-endian, byte arrays are copied as they are,
//! an `Option` is a tag byte `0` or `1` followed by the value, and a tuple is
//! the concatenation of its fields. The hashes are named, not stated.

use vstd::prelude::*;

use frame_support::pallet_prelude::Encode;
use frame_support::Hashable;
use sp_runtime::traits::BlakeTwo256;

verus! {

/// The `n` least significant bytes of `x`, least significant first.
pub open spec fn le_bytes(x: nat, n: nat) -> Seq<u8>
    decreases n,
{
    if n == 0 {
        Seq::empty()
    } else {
        seq![(x % 256) as u8] + le_bytes(x / 256, (n - 1) as nat)
    }
}

pub proof fn lemma_le_bytes_len(x: nat, n: nat)
    ensures
        le_bytes(x, n).len() == n,
    decreases n,
{
    if n > 0 {
        lemma_le_bytes_len(x / 256, (n - 1) as nat);
    }
}

/// The SCALE encoding of an optional 128-bit balance.
pub open spec fn option_u128_bytes(v: Option<u128>) -> Seq<u8> {
    match v {
        None => seq![0u8],
        Some(x) => seq![1u8] + le_bytes(x as nat, 16),
    }
}

/// The 16-byte Blake2b digest of `data`.
pub uninterp spec fn spec_blake2_128(data: Seq<u8>) -> [u8; 16];

/// The 32-byte Blake2b digest of `data`.
pub uninterp spec fn spec_blake2_256(data: Seq<u8>) -> [u8; 32];

/// Calls `Encode::encode` of `parity-scale-codec` on the tuple
/// `(random, extrinsic_index, block_number)`: 32 raw bytes, then two
/// little-endian `u32`s.
#[verifier::external_body]
pub(crate) fn encode_id_payload(random: &[u8; 32], extrinsic_index: u32, block_number: u32) -> (r:
    Vec<u8>)
    ensures
        r@ == random@ + le_bytes(extrinsic_index as nat, 4) + le_bytes(block_number as nat, 4),
{
    (*random, extrinsic_index, block_number).encode()
}

/// Calls `Encode::encode` of `parity-scale-codec` on the tuple
/// `(random, block_number)`: 32 raw bytes, then a little-endian `u32`.
#[verifier::external_body]
pub(crate) fn encode_dna_payload(random: &[u8; 32], block_number: u32) -> (r: Vec<u8>)
    ensures
        r@ == random@ + le_bytes(block_number as nat, 4),
{
    (*random, block_number).encode()
}

/// Calls `Encode::encode` of `parity-scale-codec` on the tuple
/// `(owner, dna, price, gender_index)`: a little-endian `u64`, 16 raw bytes,
/// the optional price, and one byte.
#[verifier::external_body]
pub(crate) fn encode_kitty_fields(
    owner: u64,
    dna: &[u8; 16],
    price: Option<u128>,
    gender_index: u8,
) -> (r: Vec<u8>)
    ensures
        r@ == le_bytes(owner as nat, 8) + dna@ + option_u128_bytes(price) + seq![gender_index],
{
    (owner, *dna, price, gender_index).encode()
}

/// Calls `frame_support::Hashable::blake2_128` on a byte vector of fewer than
/// 64 bytes. frame-support hashes the vector's SCALE encoding with
/// `sp_io::hashing::blake2_128`; for such a vector that encoding is one length
/// byte (the length times four) followed by the bytes.
#[verifier::external_body]
pub(crate) fn hashable_blake2_128(data: &Vec<u8>) -> (r: [u8; 16])
    requires
        data@.len() < 64,
    ensures
        r == spec_blake2_128(seq![(data@.len() * 4) as u8] + data@),
{
    Hashable::blake2_128(data)
}

/// Calls `sp_io::hashing::blake2_128`: the 16-byte Blake2b digest.
#[verifier::external_body]
pub(crate) fn blake2_128(data: &[u8]) -> (r: [u8; 16])
    ensures
        r == spec_blake2_128(data@),
{
    sp_io::hashing::blake2_128(data)
}

/// Calls `Hash::hash` of `sp_runtime::traits::BlakeTwo256`, which sp-runtime
/// computes as `sp_io::hashing::blake2_256`: the 32-byte Blake2b digest.
#[verifier::external_body]
pub(crate) fn blake_two_256(data: &[u8]) -> (r: [u8; 32])
    ensures
        r == spec_blake2_256(data@),
{
    <BlakeTwo256 as sp_runtime::traits::Hash>::hash(data).0
}

} // verus!

use parity_scale_codec::Encode;
use vstd::prelude::*;

verus! {

/// The BLAKE2b-128 digest of a byte string.
pub uninterp spec fn blake2_128_of(data: Seq<u8>) -> Seq<u8>;

/// A `u64` as its eight bytes, least significant first.
pub open spec fn u64_le(x: u64) -> Seq<u8> {
    seq![
        x as u8,
        (x >> 8u64) as u8,
        (x >> 16u64) as u8,
        (x >> 24u64) as u8,
        (x >> 32u64) as u8,
        (x >> 40u64) as u8,
        (x >> 48u64) as u8,
        (x >> 56u64) as u8,
    ]
}

/// A `u32` as its four bytes, least significant first.
pub open spec fn u32_le(x: u32) -> Seq<u8> {
    seq![x as u8, (x >> 8u32) as u8, (x >> 16u32) as u8, (x >> 24u32) as u8]
}

/// An optional `u32` in the SCALE codec: a 0 byte for none, else a 1 byte
/// and the value.
pub open spec fn option_u32_encoding(x: Option<u32>) -> Seq<u8> {
    match x {
        None => seq![0u8],
        Some(v) => seq![1u8] + u32_le(v),
    }
}

/// The bytes that are hashed into a fresh genome: the random seed, the
/// caller, and the index of the transition within its block, each in the
/// SCALE codec, one after another.
pub open spec fn seed_payload(seed: Seq<u8>, who: u64, index: Option<u32>) -> Seq<u8> {
    seed + u64_le(who) + option_u32_encoding(index)
}

/// The genome that a seed, a caller and a transition index give.
pub open spec fn dna_of(seed: Seq<u8>, who: u64, index: Option<u32>) -> Seq<u8> {
    blake2_128_of(seed_payload(seed, who, index))
}

/// Relies on parity_scale_codec's `Encode` for a tuple of a byte array, a
/// `u64` and an `Option<u32>`: the fields' encodings in order, an array as its
/// bytes, an integer little-endian, an option as a tag byte before the value.
#[verifier::external_body]
fn encode_payload(seed: &[u8; 32], who: u64, index: Option<u32>) -> (r: Vec<u8>)
    ensures
        r@ == seed_payload(seed@, who, index),
{
    (seed, &who, index).encode()
}

/// Relies on sp_io::hashing::blake2_128: the 16-byte BLAKE2b digest of the
/// data, which depends on the bytes alone.
#[verifier::external_body]
fn blake2_128(data: &Vec<u8>) -> (r: [u8; 16])
    ensures
        r@ == blake2_128_of(data@),
{
    sp_io::hashing::blake2_128(data.as_slice())
}

/// A fresh genome: the BLAKE2b-128 digest of the encoded seed, caller and
/// transition index.
pub fn generate_dna(seed: &[u8; 32], who: u64, index: Option<u32>) -> (r: [u8; 16])
    ensures
        r@ == dna_of(seed@, who, index),
{
    let payload = encode_payload(seed, who, index);
    blake2_128(&payload)
}

} // verus!

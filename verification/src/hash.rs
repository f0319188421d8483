//! Digests computed by the hash crates, under names for their results.

use vstd::prelude::*;
use sha2::Digest;
use tiny_keccak::Hasher;

verus! {

/// SHA-256 of a byte string.
pub uninterp spec fn sha256_digest(data: Seq<u8>) -> Seq<u8>;

/// SHA3-256 of a byte string.
pub uninterp spec fn sha3_256_digest(data: Seq<u8>) -> Seq<u8>;

/// RIPEMD-160 of a byte string.
pub uninterp spec fn ripemd160_digest(data: Seq<u8>) -> Seq<u8>;

/// Keccak-256 (the pre-standard padding) of a byte string.
pub uninterp spec fn keccak256_digest(data: Seq<u8>) -> Seq<u8>;

/// BLAKE2s with a 32-byte output of a byte string.
pub uninterp spec fn blake2s256_digest(data: Seq<u8>) -> Seq<u8>;

/// BLAKE2b with a 32-byte output of a byte string.
pub uninterp spec fn blake2b256_digest(data: Seq<u8>) -> Seq<u8>;

/// Calls `sha2::Sha256::digest`; trusted to return the 32-byte SHA-256 of
/// `data`, the same for the same bytes.
#[verifier::external_body]
pub(crate) fn sha256(data: &[u8]) -> (r: Vec<u8>)
    ensures
        r@ == sha256_digest(data@),
        r@.len() == 32,
{
    sha2::Sha256::digest(data).to_vec()
}

/// Calls `sha3::Sha3_256::digest`; trusted to return the 32-byte SHA3-256 of
/// `data`, the same for the same bytes.
#[verifier::external_body]
pub(crate) fn sha3_256(data: &[u8]) -> (r: Vec<u8>)
    ensures
        r@ == sha3_256_digest(data@),
        r@.len() == 32,
{
    sha3::Sha3_256::digest(data).to_vec()
}

/// Calls `ripemd::Ripemd160::digest`; trusted to return the 20-byte
/// RIPEMD-160 of `data`, the same for the same bytes.
#[verifier::external_body]
pub(crate) fn ripemd160(data: &[u8]) -> (r: Vec<u8>)
    ensures
        r@ == ripemd160_digest(data@),
        r@.len() == 20,
{
    ripemd::Ripemd160::digest(data).to_vec()
}

/// Feeds `data` to a `tiny_keccak::Keccak::v256` hasher and finalizes it into
/// 32 bytes; trusted to return Keccak-256 of `data`, the same for the same bytes.
#[verifier::external_body]
pub(crate) fn keccak256(data: &[u8]) -> (r: Vec<u8>)
    ensures
        r@ == keccak256_digest(data@),
        r@.len() == 32,
{
    let mut keccak = tiny_keccak::Keccak::v256();
    let mut out = [0u8; 32];
    keccak.update(data);
    keccak.finalize(&mut out);
    out.to_vec()
}

/// Calls `blake2::Blake2s256::digest`; trusted to return the 32-byte BLAKE2s
/// of `data`, the same for the same bytes.
#[verifier::external_body]
pub(crate) fn blake2s256(data: &[u8]) -> (r: Vec<u8>)
    ensures
        r@ == blake2s256_digest(data@),
        r@.len() == 32,
{
    blake2::Blake2s256::digest(data).to_vec()
}

/// Calls `blake2::Blake2b::<U32>::digest`; trusted to return the 32-byte
/// BLAKE2b of `data`, the same for the same bytes.
#[verifier::external_body]
pub(crate) fn blake2b256(data: &[u8]) -> (r: Vec<u8>)
    ensures
        r@ == blake2b256_digest(data@),
        r@.len() == 32,
{
    blake2::Blake2b::<blake2::digest::consts::U32>::digest(data).to_vec()
}

} // verus!

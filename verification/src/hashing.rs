//! The hash functions a contract can ask of its host.
//!
//! Each digest is named by a spec function without a body: the engine does not
//! say what a hash is, only that the same input gives the same digest.

use vstd::prelude::*;
use blake2::digest::Digest;

verus! {

/// The BLAKE2b digest of 32 bytes of `input`.
pub uninterp spec fn blake2b_256_digest(input: Seq<u8>) -> Seq<u8>;

/// The BLAKE2b digest of 16 bytes of `input`.
pub uninterp spec fn blake2b_128_digest(input: Seq<u8>) -> Seq<u8>;

/// The SHA-256 digest of `input`.
pub uninterp spec fn sha2_256_digest(input: Seq<u8>) -> Seq<u8>;

/// The Keccak-256 digest of `input`.
pub uninterp spec fn keccak_256_digest(input: Seq<u8>) -> Seq<u8>;

/// `Digest::digest` of `blake2::Blake2b` with an output of 32 bytes: the
/// digest of the whole input, which depends on the input alone.
#[verifier::external_body]
pub(crate) fn blake2b_256(input: &[u8]) -> (digest: [u8; 32])
    ensures
        digest@ == blake2b_256_digest(input@),
{
    blake2::Blake2b::<blake2::digest::consts::U32>::digest(input).into()
}

/// `Digest::digest` of `blake2::Blake2b` with an output of 16 bytes: the
/// digest of the whole input, which depends on the input alone.
#[verifier::external_body]
pub(crate) fn blake2b_128(input: &[u8]) -> (digest: [u8; 16])
    ensures
        digest@ == blake2b_128_digest(input@),
{
    blake2::Blake2b::<blake2::digest::consts::U16>::digest(input).into()
}

/// `Digest::digest` of `sha2::Sha256`: the digest of the whole input, which
/// depends on the input alone.
#[verifier::external_body]
pub(crate) fn sha2_256(input: &[u8]) -> (digest: [u8; 32])
    ensures
        digest@ == sha2_256_digest(input@),
{
    sha2::Sha256::digest(input).into()
}

/// `Digest::digest` of `sha3::Keccak256`: the digest of the whole input,
/// which depends on the input alone.
#[verifier::external_body]
pub(crate) fn keccak_256(input: &[u8]) -> (digest: [u8; 32])
    ensures
        digest@ == keccak_256_digest(input@),
{
    sha3::Keccak256::digest(input).into()
}

} // verus!

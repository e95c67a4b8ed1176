//! The two digest functions the registry relies on.

use vstd::prelude::*;

verus! {

/// The 32-byte Blake2b digest of `data`.
pub uninterp spec fn blake2_256_of(data: Seq<u8>) -> [u8; 32];

/// The 32-byte Keccak digest of `data`.
pub uninterp spec fn keccak_256_of(data: Seq<u8>) -> [u8; 32];

/// Calls `sp_io::hashing::blake2_256`. Nothing is proved of the digest; the
/// contract only gives it a name, so that two calls on equal input are known
/// to agree.
#[verifier::external_body]
pub(crate) fn blake2_256(data: &[u8]) -> (digest: [u8; 32])
    ensures
        digest == blake2_256_of(data@),
{
    sp_io::hashing::blake2_256(data)
}

/// Calls `sp_io::hashing::keccak_256`. Nothing is proved of the digest; the
/// contract only gives it a name, so that two calls on equal input are known
/// to agree.
#[verifier::external_body]
pub(crate) fn keccak_256(data: &[u8]) -> (digest: [u8; 32])
    ensures
        digest == keccak_256_of(data@),
{
    sp_io::hashing::keccak_256(data)
}

} // verus!

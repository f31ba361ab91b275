//! The cryptographic digest that gives a header its identity.

use crate::primitives::H256;
use sha3::Digest;
use vstd::prelude::*;

verus! {

/// The Keccak-256 digest of `data`: 32 bytes that depend on `data` alone.
pub uninterp spec fn keccak256(data: Seq<u8>) -> Seq<u8>;

/// `sha3::Keccak256::digest`: hashes `data` in one call. The digest is the
/// named function of the input bytes.
#[verifier::external_body]
pub(crate) fn keccak256_digest(data: &[u8]) -> (digest: H256)
    ensures
        digest@ == keccak256(data@),
{
    H256(sha3::Keccak256::digest(data).into())
}

} // verus!

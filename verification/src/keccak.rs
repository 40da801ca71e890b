//! The Keccak-256 digest, named at the spec level and computed by an outside
//! crate.

use vstd::prelude::*;

verus! {

/// The Keccak-256 digest of a byte string. The digest itself is far too long
/// to state; it is pinned down only as a function of the input bytes.
pub uninterp spec fn keccak256_of(data: Seq<u8>) -> Seq<u8>;

/// Relies on ethers::utils::keccak256: the 32-byte Keccak-256 digest of the
/// input, a function of the input bytes alone.
#[verifier::external_body]
pub(crate) fn keccak256_digest(data: &[u8]) -> (r: [u8; 32])
    ensures
        r@ == keccak256_of(data@),
{
    ethers::utils::keccak256(data)
}

} // verus!

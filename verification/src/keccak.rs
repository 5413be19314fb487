//! The 256-bit cryptographic hash at the bottom of both signature protocols.

use vstd::prelude::*;

verus! {

/// What Keccak-256 returns on a byte string. The digest is a pure function of
/// the input bytes; nothing more is assumed of it.
pub uninterp spec fn keccak(bytes: Seq<u8>) -> Seq<u8>;

/// Relies on `alloy_primitives::keccak256`: the Keccak-256 digest of the
/// input, always 32 bytes, depending on the input bytes alone.
#[verifier::external_body]
pub fn keccak256(bytes: &[u8]) -> (r: [u8; 32])
    ensures
        r@ == keccak(bytes@),
{
    alloy_primitives::keccak256(bytes).0
}

} // verus!

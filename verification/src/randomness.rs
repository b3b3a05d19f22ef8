//! The randomness of a round: the digest of the beacon's signature.

use vstd::prelude::*;

verus! {

/// The SHA-256 digest of a byte string, as the `sha2` crate computes it.
pub uninterp spec fn sha256(data: Seq<u8>) -> Seq<u8>;

/// Calls `drand_verify::derive_randomness`, which feeds the whole input to a
/// fresh SHA-256 hasher and returns the 32-byte digest.
#[verifier::external_body]
fn signature_digest(signature: &[u8]) -> (digest: [u8; 32])
    ensures
        digest@ == sha256(signature@),
{
    drand_verify::derive_randomness(signature)
}

/// Derives the beacon's randomness from the raw bytes of its signature: their
/// SHA-256 digest, the same for the same bytes on every call.
///
/// Nothing is asked of the bytes. Whether they are a signature at all, and
/// whose, is for the caller to have settled.
pub fn derive_randomness(signature: &[u8]) -> (digest: [u8; 32])
    ensures
        digest@ == sha256(signature@),
        digest@.len() == 32,
{
    signature_digest(signature)
}

} // verus!

//! What the contract keeps between requests.

use vstd::prelude::*;

verus! {

/// The configuration of the contract: the public key of the beacon whose
/// rounds it verifies, as 48 bytes of a compressed point of the first group.
#[derive(Debug, Clone, PartialEq, Eq)]
pub struct Config {
    pub drand_public_key: Vec<u8>,
}

} // verus!

//! Short identities of signing keys.

use vstd::prelude::*;
use crate::bytes::array16;
use crate::crypto::primitives::{blake3_digest, blake3_of};

verus! {

/// The first 16 bytes of the BLAKE3 digest of a public key.
pub open spec fn key_id_of(public_key: Seq<u8>) -> Seq<u8> {
    blake3_digest(public_key).subrange(0, 16)
}

/// Derives the identity of a public key.
pub fn derive_key_id(public_key: &[u8; 32]) -> (id: [u8; 16])
    ensures
        id@ == key_id_of(public_key@),
{
    let digest: [u8; 32] = blake3_of(public_key);
    array16(&digest, 0)
}

} // verus!

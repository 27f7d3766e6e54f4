//! Collision-resistant hash functions usable by primitive bundles.

use blake2::Digest;
use vstd::prelude::*;

verus! {

use crate::codec::clone_bytes;

/// The 32-byte Blake2s digest of a byte string.
pub uninterp spec fn blake2s_digest(input: Seq<u8>) -> Seq<u8>;

/// Blake2s with 256-bit output.
pub struct Blake2s256;

impl Blake2s256 {
    /// This hash needs no parameters; its setup yields an empty blob.
    pub fn setup() -> (r: Vec<u8>)
        ensures
            r@ == Seq::<u8>::empty(),
    {
        Vec::new()
    }

    /// Relies on blake2's Blake2s256: a 32-byte digest that depends on the
    /// input bytes alone.
    #[verifier::external_body]
    pub fn evaluate(input: &Vec<u8>) -> (r: Vec<u8>)
        ensures
            r@ == blake2s_digest(input@),
            r@.len() == 32,
    {
        let mut h = blake2::Blake2s256::new();
        h.update(input.as_slice());
        h.finalize().to_vec()
    }
}

/// The identity hash: a Merkle leaf hash for trees whose leaves are
/// already commitments.
pub struct IdentityHash;

impl IdentityHash {
    /// This hash needs no parameters; its setup yields an empty blob.
    pub fn setup() -> (r: Vec<u8>)
        ensures
            r@ == Seq::<u8>::empty(),
    {
        Vec::new()
    }

    /// The input itself.
    pub fn evaluate(input: &Vec<u8>) -> (r: Vec<u8>)
        ensures
            r@ == input@,
    {
        clone_bytes(input)
    }
}

} // verus!

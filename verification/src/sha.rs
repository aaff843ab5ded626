//! SHA-256 hashing, delegated to an outside implementation, and the
//! [`Digestible`] interface for values that have a canonical digest.

use vstd::prelude::*;

use crate::digest::Digest;

verus! {

/// The SHA-256 digest of a byte sequence, as eight 32-bit words in the byte
/// order the hashing backend uses.  The result depends on the bytes alone.
pub uninterp spec fn sha256_of(bytes: Seq<u8>) -> Seq<u32>;

/// Relies on risc0_zkp's CPU SHA-256 implementation (`Sha256::hash_bytes`):
/// the digest is a pure function of the input bytes, returned as eight
/// words.
#[verifier::external_body]
pub fn sha256_digest(bytes: &[u8]) -> (r: Digest)
    ensures
        r@ == sha256_of(bytes@),
{
    let d = <risc0_zkp::core::hash::sha::cpu::Impl as risc0_zkp::core::hash::sha::Sha256>::hash_bytes(
        bytes,
    );
    let w = d.as_words();
    Digest {
        w0: w[0],
        w1: w[1],
        w2: w[2],
        w3: w[3],
        w4: w[4],
        w5: w[5],
        w6: w[6],
        w7: w[7],
    }
}

/// A value with a canonical digest that is a function of its mathematical
/// model alone.
pub trait Digestible: View + Sized {
    /// The digest, as words, of a value whose model is `v`.
    spec fn digest_of(v: Self::V) -> Seq<u32>;

    /// Compute the canonical digest of this value.
    fn digest(&self) -> (r: Digest)
        ensures
            r@ == Self::digest_of(self@);

    /// Produce an owned value with the same model.
    fn dup(&self) -> (r: Self)
        ensures
            r@ == self@;
}

} // verus!

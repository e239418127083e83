//! The fixed-output hash behind commitments and key derivation.

use sha2::Digest;
use vstd::prelude::*;

verus! {

/// The SHA-256 digest of a byte sequence: a function of the input bytes
/// alone, always 32 bytes long. Its value is left abstract; everything the
/// library states about commitments and key-derivation input is relative to
/// this digest.
pub uninterp spec fn sha256_of(input: Seq<u8>) -> Seq<u8>;

/// Hashes arbitrary byte input into a 32-byte array using SHA-256.
///
/// Relies on sha2's `Sha256::digest`: a pure function of the input bytes,
/// total over all inputs (the empty string included), with a 32-byte output.
#[verifier::external_body]
pub fn sha256(input: &[u8]) -> (r: [u8; 32])
    ensures
        r@ == sha256_of(input@),
{
    sha2::Sha256::digest(input).into()
}

} // verus!

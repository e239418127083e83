//! Commit/reveal over the seed: pledge a hash now, disclose the seed later.

use crate::hash::sha256;
use crate::hash::sha256_of;
use vstd::prelude::*;

verus! {

/// The commitment a seed pledges: its SHA-256 digest.
pub open spec fn commitment_of(seed: Seq<u8>) -> Seq<u8> {
    sha256_of(seed)
}

/// When a revealed seed matches a pledged commitment: recomputing the seed's
/// commitment yields the pledged value. Recomputation is the only
/// verification path; no commitment is stored apart from its inputs.
pub open spec fn commit_matches(seed: Seq<u8>, commitment: Seq<u8>) -> bool {
    commitment_of(seed) == commitment
}

/// Generate a commit hash from the seed: the SHA-256 digest of the seed.
pub fn commit(seed: &[u8]) -> (r: [u8; 32])
    ensures
        r@ == commitment_of(seed@),
{
    sha256(seed)
}

/// Compare two byte buffers for equality, byte by byte.
pub fn bytes_eq(a: &[u8], b: &[u8]) -> (r: bool)
    ensures
        r == (a@ == b@),
{
    if a.len() != b.len() {
        return false;
    }
    let mut i: usize = 0;
    while i < a.len()
        invariant
            i <= a@.len(),
            a@.len() == b@.len(),
            forall|j: int| 0 <= j < i ==> a@[j] == b@[j],
        decreases a@.len() - i,
    {
        if a[i] != b[i] {
            return false;
        }
        i = i + 1;
    }
    proof {
        assert(a@ =~= b@);
    }
    true
}

/// Verify that the given seed matches the commit hash: true exactly when the
/// seed's digest equals the commitment.
pub fn verify_commit(seed: &[u8], commitment: &[u8; 32]) -> (r: bool)
    ensures
        r == commit_matches(seed@, commitment@),
{
    let c = commit(seed);
    bytes_eq(c.as_slice(), commitment.as_slice())
}

} // verus!

//! Laws relating the library's operations, stated and proved once and for
//! all seeds.
//!
//! The remaining properties the library is built around live in the
//! operations' own contracts: `generate_random` pins its output and public
//! key to functions of the seed alone (determinism), promises the scheme's
//! fixed sizes, and promises that the bundle it returns is accepted by
//! `verify_proof` over the same seed (the round trip), whose contract in turn
//! says exactly when each verdict is reached.

use crate::commit::commit_matches;
use crate::commit::commitment_of;
use vstd::prelude::*;

verus! {

/// Commit-reveal correctness: for every seed, the commitment computed from
/// that seed verifies against the same seed.
pub proof fn lemma_commit_reveal(seed: Seq<u8>)
    ensures
        commit_matches(seed, commitment_of(seed)),
{
}

} // verus!

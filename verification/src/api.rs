//! The request and response shapes of the HTTP surface, and the logic each
//! route runs between decoding its input and encoding its reply.
//!
//! The transport layer itself (routing, JSON envelopes, the listener) stays
//! outside the library; it hands these functions the request values and sends
//! back the responses. Malformed hex in a request decodes to empty bytes, not
//! an error: verification then fails as a non-matching bundle rather than
//! surfacing a decode failure.

use crate::bls::generate_random;
use crate::bls::proof_accepted;
use crate::bls::verify_proof;
use crate::bls::vrf_output;
use crate::bls::vrf_public_key;
use crate::commit::bytes_eq;
use crate::commit::commit;
use crate::commit::commit_matches;
use crate::commit::commitment_of;
use crate::encode::decode_hex;
use crate::encode::encode_hex;
use crate::encode::hex_decodable;
use crate::encode::hex_decoded;
use crate::encode::hex_of;
use rand::RngCore;
use vstd::prelude::*;

verus! {

/// Query parameters of the random-value route: whether to include the public
/// key (the proof) and the seed's commitment in the response.
#[derive(Debug)]
pub struct RandomRequest {
    /// Include the public key in the response.
    pub with_proof: Option<bool>,
    /// Include the seed's commitment in the response.
    pub commit: Option<bool>,
}

/// Reply of the random-value route, every field hex-encoded.
#[derive(Debug)]
pub struct RandomResponse {
    /// The freshly drawn seed.
    pub seed: String,
    /// The VRF output for that seed.
    pub randomness: String,
    /// The VRF public key, when asked for.
    pub public_key: Option<String>,
    /// The seed's commitment, when asked for.
    pub commitment: Option<String>,
}

/// Body of the verify-random route: seed, output and public key, each hex.
#[derive(Debug)]
pub struct VerifyRandomRequest {
    /// The seed the proof was generated from, hex-encoded.
    pub seed: String,
    /// The VRF output under test, hex-encoded.
    pub output: String,
    /// The public key the output should verify against, hex-encoded.
    pub public_key: String,
}

/// Reply of the verify-random route.
#[derive(Debug)]
pub struct VerifyRandomResponse {
    /// Whether the bundle verified.
    pub valid: bool,
}

/// Body of the commit route: the seed to pledge, hex-encoded.
#[derive(Debug)]
pub struct CommitRequest {
    /// The seed to commit to, hex-encoded.
    pub seed: String,
}

/// Reply of the commit route.
#[derive(Debug)]
pub struct CommitResponse {
    /// The seed's commitment, hex-encoded.
    pub commitment: String,
}

/// Body of the verify-commit route: the revealed seed and the pledged
/// commitment, each hex-encoded.
#[derive(Debug)]
pub struct VerifyCommitRequest {
    /// The revealed seed, hex-encoded.
    pub seed: String,
    /// The commitment pledged earlier, hex-encoded, 32 bytes.
    pub commitment: String,
}

/// Reply of the verify-commit route.
#[derive(Debug)]
pub struct VerifyCommitResponse {
    /// Whether the revealed seed matches the commitment.
    pub valid: bool,
}

/// What a hex field of a request decodes to: its bytes when it is well-formed
/// hex, the empty byte string otherwise.
pub open spec fn decoded_or_empty(s: Seq<char>) -> Seq<u8> {
    if hex_decodable(s) {
        hex_decoded(s)
    } else {
        seq![]
    }
}

/// The 32-byte comparison buffer a verify-commit request fills: the decoded
/// commitment when it is well-formed hex of exactly 32 bytes, all zero bytes
/// otherwise.
pub open spec fn commitment_buf(s: Seq<char>) -> Seq<u8> {
    if hex_decodable(s) && hex_decoded(s).len() == 32 {
        hex_decoded(s)
    } else {
        Seq::new(32nat, |i: int| 0u8)
    }
}

/// Decodes a hex request field, defaulting malformed input to empty bytes.
pub fn decode_or_default(s: &str) -> (r: Vec<u8>)
    ensures
        r@ == decoded_or_empty(s@),
{
    match decode_hex(s) {
        Ok(v) => v,
        Err(_) => Vec::new(),
    }
}

/// Draws a fresh 32-byte seed from the operating system's entropy source.
///
/// Relies on rand's `OsRng` and `RngCore::fill_bytes`: the whole buffer is
/// filled; nothing holds of the contents, which may differ between calls.
#[verifier::external_body]
fn os_random_seed() -> (r: [u8; 32]) {
    let mut seed = [0u8; 32];
    rand::rngs::OsRng.fill_bytes(&mut seed);
    seed
}

/// Builds the random-value reply for a given seed: the seed and its VRF
/// output hex-encoded, with the public key and the commitment included on
/// request.
pub fn respond_random_for_seed(seed: &[u8], with_proof: bool, with_commitment: bool) -> (r:
    RandomResponse)
    ensures
        r.seed@ == hex_of(seed@),
        r.randomness@ == hex_of(vrf_output(seed@)),
        with_proof ==> (r.public_key matches Some(k) && k@ == hex_of(vrf_public_key(seed@))),
        !with_proof ==> r.public_key is None,
        with_commitment ==> (r.commitment matches Some(c) && c@ == hex_of(commitment_of(seed@))),
        !with_commitment ==> r.commitment is None,
{
    let vrf = generate_random(seed).unwrap();
    let public_key = if with_proof {
        Some(encode_hex(vrf.public_key.as_slice()))
    } else {
        None
    };
    let commitment = if with_commitment {
        let c = commit(seed);
        Some(encode_hex(c.as_slice()))
    } else {
        None
    };
    RandomResponse {
        seed: encode_hex(seed),
        randomness: encode_hex(vrf.output.as_slice()),
        public_key,
        commitment,
    }
}

/// Handles the random-value route: draws a fresh 32-byte seed and replies
/// with its VRF output, plus the public key and the commitment when the
/// request's flags ask for them (an absent flag counts as false).
pub fn respond_random(req: &RandomRequest) -> (r: RandomResponse)
    ensures
        exists|s: Seq<u8>|
            s.len() == 32 && r.seed@ == #[trigger] hex_of(s) && r.randomness@ == hex_of(
                vrf_output(s),
            ) && (req.with_proof == Some(true) ==> (r.public_key matches Some(k) && k@ == hex_of(
                vrf_public_key(s),
            ))) && (req.with_proof != Some(true) ==> r.public_key is None) && (req.commit == Some(
                true,
            ) ==> (r.commitment matches Some(c) && c@ == hex_of(commitment_of(s)))) && (req.commit
                != Some(true) ==> r.commitment is None),
{
    let with_proof = req.with_proof.unwrap_or(false);
    let with_commitment = req.commit.unwrap_or(false);
    let seed = os_random_seed();
    respond_random_for_seed(seed.as_slice(), with_proof, with_commitment)
}

/// Handles the verify-random route: decodes the three hex fields (malformed
/// input becomes empty bytes) and reports whether the bundle verifies.
pub fn respond_verify_random(req: &VerifyRandomRequest) -> (r: VerifyRandomResponse)
    ensures
        r.valid == proof_accepted(
            decoded_or_empty(req.seed@),
            decoded_or_empty(req.output@),
            decoded_or_empty(req.public_key@),
        ),
{
    let seed = decode_or_default(req.seed.as_str());
    let output = decode_or_default(req.output.as_str());
    let public_key = decode_or_default(req.public_key.as_str());
    let valid = verify_proof(seed.as_slice(), output.as_slice(), public_key.as_slice()).is_ok();
    VerifyRandomResponse { valid }
}

/// Handles the commit route: decodes the seed (malformed input becomes empty
/// bytes) and replies with its commitment, hex-encoded.
pub fn respond_commit(req: &CommitRequest) -> (r: CommitResponse)
    ensures
        r.commitment@ == hex_of(commitment_of(decoded_or_empty(req.seed@))),
{
    let seed = decode_or_default(req.seed.as_str());
    let commitment = commit(seed.as_slice());
    CommitResponse { commitment: encode_hex(commitment.as_slice()) }
}

/// Builds a vector of 32 zero bytes.
fn zero32() -> (r: Vec<u8>)
    ensures
        r@ == Seq::new(32nat, |i: int| 0u8),
{
    let mut r: Vec<u8> = Vec::new();
    let mut i: usize = 0;
    while i < 32
        invariant
            i <= 32,
            r@ =~= Seq::new(i as nat, |j: int| 0u8),
        decreases 32 - i,
    {
        r.push(0u8);
        i = i + 1;
    }
    proof {
        assert(r@ =~= Seq::new(32nat, |i: int| 0u8));
    }
    r
}

/// Handles the verify-commit route: decodes the seed (malformed input becomes
/// empty bytes), fills the comparison buffer from the commitment only when it
/// is well-formed 32-byte hex (all zero bytes otherwise), and reports whether
/// the seed's digest equals that buffer.
pub fn respond_verify_commit(req: &VerifyCommitRequest) -> (r: VerifyCommitResponse)
    ensures
        r.valid == commit_matches(decoded_or_empty(req.seed@), commitment_buf(req.commitment@)),
{
    let seed = decode_or_default(req.seed.as_str());
    let buf: Vec<u8> = match decode_hex(req.commitment.as_str()) {
        Ok(bytes) => if bytes.len() == 32 {
            bytes
        } else {
            zero32()
        },
        Err(_) => zero32(),
    };
    let digest = commit(seed.as_slice());
    let valid = bytes_eq(digest.as_slice(), buf.as_slice());
    VerifyCommitResponse { valid }
}

} // verus!

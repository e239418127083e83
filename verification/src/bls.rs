//! Seed-keyed BLS12-381 signatures standing in for verifiable randomness.
//!
//! The signature scheme is blst's `min_sig` variant: 48-byte compressed G1
//! signatures and 96-byte compressed G2 public keys. The secret key is derived
//! deterministically from the seed's SHA-256 digest, so the whole proof bundle
//! is a function of the seed alone.

use crate::hash::sha256;
use crate::hash::sha256_of;
use crate::types::VRFError;
use crate::types::VRFProof;
use vstd::prelude::*;

verus! {

/// The compressed signature bytes that blst's `min_sig` signing produces for
/// a key derived from `ikm`, over message `msg`, under domain tag `dst`: a
/// function of those three values alone.
pub uninterp spec fn sig_bytes_of(ikm: Seq<u8>, msg: Seq<u8>, dst: Seq<char>) -> Seq<u8>;

/// The compressed public-key bytes of the blst `min_sig` key derived from
/// `ikm`: a function of the key material alone.
pub uninterp spec fn pk_bytes_of(ikm: Seq<u8>) -> Seq<u8>;

/// Whether blst's `min_sig` `PublicKey::from_bytes` accepts these bytes as a
/// public key.
pub uninterp spec fn pk_parse_ok(public_key: Seq<u8>) -> bool;

/// Whether blst's `min_sig` `Signature::from_bytes` accepts these bytes as a
/// signature.
pub uninterp spec fn sig_parse_ok(signature: Seq<u8>) -> bool;

/// Whether blst's pairing check accepts `signature` as a signature over `msg`
/// under domain tag `dst` against `public_key`, with both group checks on:
/// a function of the four byte strings alone.
pub uninterp spec fn bls_verifies(
    public_key: Seq<u8>,
    msg: Seq<u8>,
    dst: Seq<char>,
    signature: Seq<u8>,
) -> bool;

/// The fixed domain-separation tag for the VRF signature. Part of the wire
/// contract: the external verifier hashes to the curve under the same tag.
pub open spec fn vrf_dst() -> Seq<char> {
    "BLS_SIG_BLS12381G2_XMD:SHA-256_SSWU_RO_NUL_"@
}

/// The domain-separation tag as a string, for handing to the signer.
pub fn vrf_dst_str() -> (r: &'static str)
    ensures
        r@ == vrf_dst(),
{
    "BLS_SIG_BLS12381G2_XMD:SHA-256_SSWU_RO_NUL_"
}

/// The VRF output for a seed: the signature over the seed itself, under the
/// key derived from the seed's digest.
pub open spec fn vrf_output(seed: Seq<u8>) -> Seq<u8> {
    sig_bytes_of(sha256_of(seed), seed, vrf_dst())
}

/// The VRF public key for a seed: the public counterpart of the key derived
/// from the seed's digest.
pub open spec fn vrf_public_key(seed: Seq<u8>) -> Seq<u8> {
    pk_bytes_of(sha256_of(seed))
}

/// When verification of a proof bundle succeeds: the public key and signature
/// both parse, and the pairing check over the seed accepts them.
pub open spec fn proof_accepted(seed: Seq<u8>, output: Seq<u8>, public_key: Seq<u8>) -> bool {
    &&& pk_parse_ok(public_key)
    &&& sig_parse_ok(output)
    &&& bls_verifies(public_key, seed, vrf_dst(), output)
}

/// Derives the `min_sig` secret key from 32 bytes of key material, signs
/// `msg` under `dst`, and returns the compressed signature and public key.
///
/// Relies on blst's `min_sig` module: `SecretKey::key_gen` is documented to
/// generate the key deterministically from the material and fails only when
/// the material is shorter than 32 bytes, which the parameter type rules out;
/// `SecretKey::sign` and `SecretKey::sk_to_pk` are deterministic; `to_bytes`
/// yields the 48-byte compressed signature and 96-byte compressed public key.
/// Both serialized forms parse back through `from_bytes`, and
/// `Signature::verify` accepts a signature over the same message and tag
/// against the matching public key.
#[verifier::external_body]
fn bls_derive_and_sign(ikm: &[u8; 32], msg: &[u8], dst: &str) -> (r: (Vec<u8>, Vec<u8>))
    ensures
        r.0@ == sig_bytes_of(ikm@, msg@, dst@),
        r.1@ == pk_bytes_of(ikm@),
        r.0@.len() == 48,
        r.1@.len() == 96,
        sig_parse_ok(r.0@),
        pk_parse_ok(r.1@),
        bls_verifies(r.1@, msg@, dst@, r.0@),
{
    let sk = blst::min_sig::SecretKey::key_gen(ikm, &[]).unwrap();
    let sig = sk.sign(msg, dst.as_bytes(), &[]);
    let pk = sk.sk_to_pk();
    (sig.to_bytes().to_vec(), pk.to_bytes().to_vec())
}

/// How a signature check can come out, step by step: each variant names the
/// first stage that rejected the input.
enum SigCheck {
    BadPublicKey,
    BadSignature,
    Mismatch,
    Valid,
}

/// Parses the public key and signature and runs blst's pairing check over
/// `msg` under `dst`.
///
/// Relies on blst's `min_sig` module: `PublicKey::from_bytes` and
/// `Signature::from_bytes` accept or reject deterministically on the bytes
/// alone, and `Signature::verify` (called with both group checks on) returns
/// `BLST_SUCCESS` or an error as a deterministic function of the parsed
/// points, the message and the tag.
#[verifier::external_body]
fn bls_check_sig(msg: &[u8], sig_bytes: &[u8], pk_bytes: &[u8], dst: &str) -> (r: SigCheck)
    ensures
        r is BadPublicKey <==> !pk_parse_ok(pk_bytes@),
        pk_parse_ok(pk_bytes@) ==> (r is BadSignature <==> !sig_parse_ok(sig_bytes@)),
        pk_parse_ok(pk_bytes@) && sig_parse_ok(sig_bytes@) ==> (r is Valid <==> bls_verifies(
            pk_bytes@,
            msg@,
            dst@,
            sig_bytes@,
        )),
        pk_parse_ok(pk_bytes@) && sig_parse_ok(sig_bytes@) && !bls_verifies(
            pk_bytes@,
            msg@,
            dst@,
            sig_bytes@,
        ) ==> r is Mismatch,
{
    let pk = match blst::min_sig::PublicKey::from_bytes(pk_bytes) {
        Ok(pk) => pk,
        Err(_) => return SigCheck::BadPublicKey,
    };
    let sig = match blst::min_sig::Signature::from_bytes(sig_bytes) {
        Ok(sig) => sig,
        Err(_) => return SigCheck::BadSignature,
    };
    if sig.verify(true, msg, dst.as_bytes(), &[], &pk, true) == blst::BLST_ERROR::BLST_SUCCESS {
        SigCheck::Valid
    } else {
        SigCheck::Mismatch
    }
}

/// Generates a VRF proof and random output from a seed.
///
/// Succeeds on every seed, the empty one included. The output and public key
/// are functions of the seed alone, have the scheme's fixed sizes, and the
/// bundle always passes `verify_proof` for the same seed.
pub fn generate_random(seed: &[u8]) -> (r: Result<VRFProof, VRFError>)
    ensures
        r is Ok,
        r->Ok_0.output@ == vrf_output(seed@),
        r->Ok_0.public_key@ == vrf_public_key(seed@),
        vrf_output(seed@).len() == 48,
        vrf_public_key(seed@).len() == 96,
        proof_accepted(seed@, vrf_output(seed@), vrf_public_key(seed@)),
{
    let ikm = sha256(seed);
    let (output, public_key) = bls_derive_and_sign(&ikm, seed, vrf_dst_str());
    Ok(VRFProof { output, public_key })
}

/// Verifies a VRF proof given the seed, signature, and public key.
///
/// Returns `Ok` exactly when the bundle is accepted; otherwise the error
/// names the first stage that rejected the input: a malformed public key, a
/// malformed signature, or a well-formed but non-matching signature.
pub fn verify_proof(seed: &[u8], signature_bytes: &[u8], public_key_bytes: &[u8]) -> (r: Result<
    (),
    VRFError,
>)
    ensures
        r is Ok <==> proof_accepted(seed@, signature_bytes@, public_key_bytes@),
        !pk_parse_ok(public_key_bytes@) ==> r == Err::<(), VRFError>(VRFError::InvalidPublicKey),
        pk_parse_ok(public_key_bytes@) && !sig_parse_ok(signature_bytes@) ==> r == Err::<
            (),
            VRFError,
        >(VRFError::InvalidSignature),
        pk_parse_ok(public_key_bytes@) && sig_parse_ok(signature_bytes@) && !bls_verifies(
            public_key_bytes@,
            seed@,
            vrf_dst(),
            signature_bytes@,
        ) ==> r == Err::<(), VRFError>(VRFError::VerificationFailed),
{
    match bls_check_sig(seed, signature_bytes, public_key_bytes, vrf_dst_str()) {
        SigCheck::Valid => Ok(()),
        SigCheck::BadPublicKey => Err(VRFError::InvalidPublicKey),
        SigCheck::BadSignature => Err(VRFError::InvalidSignature),
        SigCheck::Mismatch => Err(VRFError::VerificationFailed),
    }
}

} // verus!

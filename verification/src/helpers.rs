//! Payload generation for on-chain contract testing.
//!
//! A payload bundles seed, salt, commitment, BLS keys, and a signature in the
//! exact format the on-chain verifier expects: blst's `min_pk` variant with
//! uncompressed serializations, a 96-byte G1 public key and a 192-byte G2
//! signature, signed under the contract's own domain tag. Note the derivation
//! here differs from the VRF path on purpose: the keypair grows out of the
//! commitment hash (seed and salt together), not out of the seed's digest,
//! and the signature covers the commitment, not the seed.

use crate::encode::base64_of;
use crate::encode::encode_base64;
use crate::encode::encode_hex;
use crate::encode::hex_of;
use crate::hash::sha256;
use crate::hash::sha256_of;
use rand::RngCore;
use vstd::prelude::*;

verus! {

/// Soroban BLS12-381 format standards: G1 public key, 96 bytes uncompressed.
pub const SOROBAN_G1_PUBKEY_SIZE: usize = 96;

/// Soroban BLS12-381 format standards: G2 signature, 192 bytes uncompressed.
pub const SOROBAN_G2_SIGNATURE_SIZE: usize = 192;

/// The domain separation tag the on-chain contract verifies under. Part of
/// the wire contract: it must match the contract's tag byte for byte.
pub open spec fn payload_dst() -> Seq<char> {
    "NEBULA-VRF-V01-BLS12381G2"@
}

/// The contract's domain-separation tag as a string, for handing to the
/// signer.
pub fn soroban_dst() -> (r: &'static str)
    ensures
        r@ == payload_dst(),
{
    "NEBULA-VRF-V01-BLS12381G2"
}

/// blst's `min_pk` secret key, carried inside a payload so the caller could
/// sign further messages; the library states nothing about its inner value.
#[verifier::external_type_specification]
#[verifier::external_body]
pub struct ExSecretKey(blst::min_pk::SecretKey);

/// Relies on blst's derived `Clone` for `min_pk::SecretKey`, so a payload as
/// a whole can be cloned; nothing is stated about the copy's inner value.
pub assume_specification[ <blst::min_pk::SecretKey as Clone>::clone ](
    sk: &blst::min_pk::SecretKey,
) -> blst::min_pk::SecretKey;

/// The uncompressed public-key bytes of the blst `min_pk` key derived from
/// `ikm`: a function of the key material alone.
pub uninterp spec fn payload_pk_bytes_of(ikm: Seq<u8>) -> Seq<u8>;

/// The uncompressed signature bytes that blst's `min_pk` signing produces for
/// a key derived from `ikm`, over message `msg`, under domain tag `dst`: a
/// function of those three values alone.
pub uninterp spec fn payload_sig_bytes_of(ikm: Seq<u8>, msg: Seq<u8>, dst: Seq<char>) -> Seq<u8>;

/// Derives the `min_pk` secret key from 32 bytes of key material, signs `msg`
/// under `dst`, and returns the key with the uncompressed public-key and
/// signature bytes.
///
/// Relies on blst's `min_pk` module: `SecretKey::key_gen` is documented to
/// generate the key deterministically from the material and fails only when
/// the material is shorter than 32 bytes, which the parameter type rules out;
/// `SecretKey::sk_to_pk` and `SecretKey::sign` are deterministic; `serialize`
/// yields the 96-byte uncompressed G1 public key and the 192-byte
/// uncompressed G2 signature.
#[verifier::external_body]
fn payload_derive_and_sign(ikm: &[u8; 32], msg: &[u8], dst: &str) -> (r: (
    blst::min_pk::SecretKey,
    Vec<u8>,
    Vec<u8>,
))
    ensures
        r.1@ == payload_pk_bytes_of(ikm@),
        r.2@ == payload_sig_bytes_of(ikm@, msg@, dst@),
        r.1@.len() == 96,
        r.2@.len() == 192,
{
    let sk = blst::min_pk::SecretKey::key_gen(ikm, &[]).unwrap();
    let pk_bytes = sk.sk_to_pk().serialize().to_vec();
    let sig_bytes = sk.sign(msg, dst.as_bytes(), &[]).serialize().to_vec();
    (sk, pk_bytes, sig_bytes)
}

/// Fills a fresh buffer with random bytes from a cryptographically secure
/// source.
///
/// Relies on rand's `thread_rng` and `RngCore::fill_bytes`: the whole buffer
/// is filled; nothing holds of the contents, which may differ between calls.
#[verifier::external_body]
fn random_bytes(len: usize) -> (r: Vec<u8>)
    ensures
        r@.len() == len,
{
    let mut buf = vec![0u8; len];
    rand::thread_rng().fill_bytes(&mut buf);
    buf
}

/// Concatenates two byte slices into a fresh buffer.
pub fn concat_bytes(a: &[u8], b: &[u8]) -> (r: Vec<u8>)
    ensures
        r@ == a@ + b@,
{
    let mut r: Vec<u8> = Vec::new();
    let mut i: usize = 0;
    while i < a.len()
        invariant
            i <= a@.len(),
            r@ == a@.take(i as int),
        decreases a@.len() - i,
    {
        r.push(a[i]);
        proof {
            assert(a@.take(i as int).push(a@[i as int]) =~= a@.take(i as int + 1));
        }
        i = i + 1;
    }
    let mut j: usize = 0;
    while j < b.len()
        invariant
            j <= b@.len(),
            r@ == a@.take(a@.len() as int) + b@.take(j as int),
        decreases b@.len() - j,
    {
        r.push(b[j]);
        proof {
            assert((a@.take(a@.len() as int) + b@.take(j as int)).push(b@[j as int]) =~= a@.take(
                a@.len() as int,
            ) + b@.take(j as int + 1));
        }
        j = j + 1;
    }
    proof {
        assert(a@.take(a@.len() as int) + b@.take(b@.len() as int) =~= a@ + b@);
    }
    r
}

/// Complete payload for commit and reveal operations.
#[derive(Debug, Clone)]
pub struct SamplePayload {
    /// Random seed bytes
    pub seed: Vec<u8>,
    /// Random salt bytes
    pub salt: Vec<u8>,
    /// Commitment hash over seed and salt together
    pub commitment: [u8; 32],
    /// BLS public key (G1, 96 bytes)
    pub pubkey: Vec<u8>,
    /// BLS secret key (for signing)
    pub secret_key: blst::min_pk::SecretKey,
    /// BLS signature over the commitment message (G2, 192 bytes)
    pub signature: Vec<u8>,
}

impl SamplePayload {
    /// The relationship every constructed payload has among its fields: the
    /// commitment is the digest of seed and salt concatenated, and the key
    /// and signature are derived from the commitment, which is also the
    /// signed message.
    pub open spec fn wf(self) -> bool {
        &&& self.commitment@ == sha256_of(self.seed@ + self.salt@)
        &&& self.pubkey@ == payload_pk_bytes_of(self.commitment@)
        &&& self.signature@ == payload_sig_bytes_of(
            self.commitment@,
            self.commitment@,
            payload_dst(),
        )
        &&& self.pubkey@.len() == 96
        &&& self.signature@.len() == 192
    }

    /// Generate a new test payload with random seed and salt of the given
    /// lengths.
    pub fn generate(seed_len: usize, salt_len: usize) -> (r: Result<Self, String>)
        ensures
            r is Ok,
            r->Ok_0.seed@.len() == seed_len,
            r->Ok_0.salt@.len() == salt_len,
            r->Ok_0.wf(),
    {
        let seed = random_bytes(seed_len);
        let salt = random_bytes(salt_len);
        Self::from_seed_salt(seed, salt)
    }

    /// Create a test payload from existing seed and salt. Succeeds on every
    /// input, zero-length seed or salt included.
    pub fn from_seed_salt(seed: Vec<u8>, salt: Vec<u8>) -> (r: Result<Self, String>)
        ensures
            r is Ok,
            r->Ok_0.seed@ == seed@,
            r->Ok_0.salt@ == salt@,
            r->Ok_0.wf(),
    {
        let combined = concat_bytes(seed.as_slice(), salt.as_slice());
        let commitment = sha256(combined.as_slice());
        let (secret_key, pubkey, signature) = payload_derive_and_sign(
            &commitment,
            commitment.as_slice(),
            soroban_dst(),
        );
        Ok(
            SamplePayload {
                seed,
                salt,
                commitment,
                pubkey,
                secret_key,
                signature,
            },
        )
    }

    /// Verify that the signature is valid for this payload. The pairing check
    /// itself runs on-chain; nothing is recomputed locally, so this always
    /// reports success.
    pub fn verify(&self) -> (r: Result<(), String>)
        ensures
            r is Ok,
    {
        Ok(())
    }

    /// Get seed as hex string
    pub fn seed_hex(&self) -> (r: String)
        ensures
            r@ == hex_of(self.seed@),
    {
        encode_hex(self.seed.as_slice())
    }

    /// Get salt as hex string
    pub fn salt_hex(&self) -> (r: String)
        ensures
            r@ == hex_of(self.salt@),
    {
        encode_hex(self.salt.as_slice())
    }

    /// Get commitment as hex string
    pub fn commitment_hex(&self) -> (r: String)
        ensures
            r@ == hex_of(self.commitment@),
    {
        encode_hex(self.commitment.as_slice())
    }

    /// Get pubkey as hex string
    pub fn pubkey_hex(&self) -> (r: String)
        ensures
            r@ == hex_of(self.pubkey@),
    {
        encode_hex(self.pubkey.as_slice())
    }

    /// Get signature as hex string
    pub fn signature_hex(&self) -> (r: String)
        ensures
            r@ == hex_of(self.signature@),
    {
        encode_hex(self.signature.as_slice())
    }

    /// Get seed as base64 string
    pub fn seed_base64(&self) -> (r: String)
        ensures
            r@ == base64_of(self.seed@),
    {
        encode_base64(self.seed.as_slice())
    }

    /// Get salt as base64 string
    pub fn salt_base64(&self) -> (r: String)
        ensures
            r@ == base64_of(self.salt@),
    {
        encode_base64(self.salt.as_slice())
    }

    /// Get commitment as base64 string
    pub fn commitment_base64(&self) -> (r: String)
        ensures
            r@ == base64_of(self.commitment@),
    {
        encode_base64(self.commitment.as_slice())
    }

    /// Get pubkey as base64 string
    pub fn pubkey_base64(&self) -> (r: String)
        ensures
            r@ == base64_of(self.pubkey@),
    {
        encode_base64(self.pubkey.as_slice())
    }

    /// Get signature as base64 string
    pub fn signature_base64(&self) -> (r: String)
        ensures
            r@ == base64_of(self.signature@),
    {
        encode_base64(self.signature.as_slice())
    }
}

/// Generate a random seed of the specified length.
pub fn generate_seed(len: usize) -> (r: Vec<u8>)
    ensures
        r@.len() == len,
{
    random_bytes(len)
}

/// Generate a random salt of the specified length.
pub fn generate_salt(len: usize) -> (r: Vec<u8>)
    ensures
        r@.len() == len,
{
    random_bytes(len)
}

/// Compute the commitment hash over seed and salt concatenated, with no
/// length prefix or separator. This matches the contract's computation.
pub fn compute_commitment(seed: &[u8], salt: &[u8]) -> (r: [u8; 32])
    ensures
        r@ == sha256_of(seed@ + salt@),
{
    let combined = concat_bytes(seed, salt);
    sha256(combined.as_slice())
}

} // verus!

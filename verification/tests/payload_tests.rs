//! Tests for payload generation: field relationships, fixed sizes,
//! determinism, and the dual encodings.

use nebula_vrf::helpers::compute_commitment;
use nebula_vrf::helpers::generate_salt;
use nebula_vrf::helpers::generate_seed;
use nebula_vrf::helpers::SamplePayload;
use nebula_vrf::helpers::SOROBAN_G1_PUBKEY_SIZE;
use nebula_vrf::helpers::SOROBAN_G2_SIGNATURE_SIZE;

/// The payload keeps the seed and salt it was built from, commits to their
/// concatenation, and serializes key and signature at the contract's sizes.
#[test]
fn test_from_seed_salt_fields() {
    let payload = SamplePayload::from_seed_salt(vec![1, 2, 3], vec![4, 5]).expect("payload failed");

    assert_eq!(payload.seed, vec![1, 2, 3]);
    assert_eq!(payload.salt, vec![4, 5]);
    assert_eq!(payload.commitment, compute_commitment(&[1, 2, 3], &[4, 5]));
    assert_eq!(payload.pubkey.len(), SOROBAN_G1_PUBKEY_SIZE);
    assert_eq!(payload.signature.len(), SOROBAN_G2_SIGNATURE_SIZE);
}

/// The same seed and salt always produce the same payload fields.
#[test]
fn test_payload_determinism() {
    let p1 = SamplePayload::from_seed_salt(vec![9, 8, 7], vec![6]).expect("payload 1 failed");
    let p2 = SamplePayload::from_seed_salt(vec![9, 8, 7], vec![6]).expect("payload 2 failed");

    assert_eq!(p1.commitment, p2.commitment);
    assert_eq!(p1.pubkey, p2.pubkey);
    assert_eq!(p1.signature, p2.signature);
}

/// Different seed/salt pairs give different keys and signatures.
#[test]
fn test_payload_uniqueness() {
    let p1 = SamplePayload::from_seed_salt(vec![1], vec![2]).expect("payload 1 failed");
    let p2 = SamplePayload::from_seed_salt(vec![3], vec![4]).expect("payload 2 failed");

    assert_ne!(p1.commitment, p2.commitment);
    assert_ne!(p1.pubkey, p2.pubkey);
    assert_ne!(p1.signature, p2.signature);
}

/// Generation draws seed and salt of the requested lengths.
#[test]
fn test_payload_generate_lengths() {
    let payload = SamplePayload::generate(8, 8).expect("generation failed");
    assert_eq!(payload.seed.len(), 8);
    assert_eq!(payload.salt.len(), 8);
    assert_eq!(payload.pubkey.len(), 96);
    assert_eq!(payload.signature.len(), 192);
}

/// Zero-length seed and salt are valid inputs and must succeed.
#[test]
fn test_payload_empty_seed_salt() {
    let payload = SamplePayload::from_seed_salt(vec![], vec![]).expect("empty payload failed");
    assert_eq!(payload.seed.len(), 0);
    assert_eq!(payload.salt.len(), 0);
    assert_eq!(payload.pubkey.len(), 96);
    assert_eq!(payload.signature.len(), 192);

    let generated = SamplePayload::generate(0, 0).expect("empty generation failed");
    assert_eq!(generated.seed.len(), 0);
    assert_eq!(generated.salt.len(), 0);
}

/// The payload's own check reports success; the pairing check runs on-chain.
#[test]
fn test_payload_verify_ok() {
    let payload = SamplePayload::from_seed_salt(vec![1, 2], vec![3]).expect("payload failed");
    assert!(payload.verify().is_ok());
}

/// Seed and salt helpers draw buffers of the requested length.
#[test]
fn test_generate_seed_salt_lengths() {
    assert_eq!(generate_seed(8).len(), 8);
    assert_eq!(generate_seed(0).len(), 0);
    assert_eq!(generate_salt(16).len(), 16);
}

/// The commitment over empty seed and salt is the digest of the empty string:
/// a fixed, well-known SHA-256 value.
#[test]
fn test_compute_commitment_empty_exact() {
    let commitment = compute_commitment(b"", b"");
    assert_eq!(
        hex::encode(commitment),
        "e3b0c44298fc1c149afbf4c8996fb92427ae41e4649b934ca495991b7852b855"
    );
}

/// The commitment is the digest of seed and salt concatenated with no
/// separator: splitting the same bytes differently gives the same commitment.
#[test]
fn test_compute_commitment_concatenation() {
    let c1 = compute_commitment(b"ab", b"c");
    let c2 = compute_commitment(b"a", b"bc");
    let c3 = compute_commitment(b"abc", b"");
    assert_eq!(c1, c2);
    assert_eq!(c2, c3);
}

//! Tests for the route logic: response shapes, hex defaulting, and each error
//! verdict of proof verification.

use nebula_vrf::api::decode_or_default;
use nebula_vrf::api::respond_commit;
use nebula_vrf::api::respond_random;
use nebula_vrf::api::respond_random_for_seed;
use nebula_vrf::api::respond_verify_commit;
use nebula_vrf::api::respond_verify_random;
use nebula_vrf::api::CommitRequest;
use nebula_vrf::api::RandomRequest;
use nebula_vrf::api::VerifyCommitRequest;
use nebula_vrf::api::VerifyRandomRequest;
use nebula_vrf::bls::generate_random;
use nebula_vrf::bls::verify_proof;
use nebula_vrf::commit::commit;
use nebula_vrf::types::VRFError;

/// The random-value reply carries the hex of the seed, its VRF output, and,
/// on request, the public key and the commitment.
#[test]
fn test_respond_random_for_seed_fields() {
    let seed = [7u8; 32];
    let vrf = generate_random(&seed).expect("generation failed");

    let resp = respond_random_for_seed(&seed, true, true);
    assert_eq!(resp.seed, hex::encode(seed));
    assert_eq!(resp.randomness, hex::encode(&vrf.output));
    assert_eq!(resp.public_key.as_deref(), Some(hex::encode(&vrf.public_key).as_str()));
    assert_eq!(resp.commitment.as_deref(), Some(hex::encode(commit(&seed)).as_str()));

    let bare = respond_random_for_seed(&seed, false, false);
    assert_eq!(bare.public_key, None);
    assert_eq!(bare.commitment, None);
}

/// A fresh random reply uses a 32-byte seed whose proof verifies.
#[test]
fn test_respond_random_verifies() {
    let req = RandomRequest { with_proof: Some(true), commit: None };
    let resp = respond_random(&req);
    assert_eq!(resp.seed.len(), 64);
    assert_eq!(resp.randomness.len(), 96);

    let seed = hex::decode(&resp.seed).expect("seed should be hex");
    let output = hex::decode(&resp.randomness).expect("randomness should be hex");
    let public_key =
        hex::decode(resp.public_key.as_deref().expect("proof requested")).expect("key hex");
    assert_eq!(seed.len(), 32);
    assert!(verify_proof(&seed, &output, &public_key).is_ok());
}

/// Malformed hex decodes to empty bytes rather than an error.
#[test]
fn test_decode_or_default_lenient() {
    assert_eq!(decode_or_default("deadbeef"), vec![0xde, 0xad, 0xbe, 0xef]);
    assert_eq!(decode_or_default("DEADBEEF"), vec![0xde, 0xad, 0xbe, 0xef]);
    assert_eq!(decode_or_default(""), Vec::<u8>::new());
    assert_eq!(decode_or_default("xyz"), Vec::<u8>::new());
    assert_eq!(decode_or_default("abc"), Vec::<u8>::new()); // odd length
}

/// The verify-random route accepts a genuine bundle and rejects a tampered
/// or malformed one.
#[test]
fn test_respond_verify_random() {
    let seed = b"route-seed";
    let vrf = generate_random(seed).expect("generation failed");

    let good = VerifyRandomRequest {
        seed: hex::encode(seed),
        output: hex::encode(&vrf.output),
        public_key: hex::encode(&vrf.public_key),
    };
    assert!(respond_verify_random(&good).valid);

    let wrong_seed = VerifyRandomRequest {
        seed: hex::encode(b"other-seed"),
        output: good.output.clone(),
        public_key: good.public_key.clone(),
    };
    assert!(!respond_verify_random(&wrong_seed).valid);

    let malformed = VerifyRandomRequest {
        seed: "not-hex!".to_string(),
        output: good.output.clone(),
        public_key: good.public_key.clone(),
    };
    assert!(!respond_verify_random(&malformed).valid);
}

/// The commit route replies with the hex commitment of the decoded seed.
#[test]
fn test_respond_commit() {
    let req = CommitRequest { seed: "00ff".to_string() };
    let resp = respond_commit(&req);
    assert_eq!(resp.commitment, hex::encode(commit(&[0x00, 0xff])));

    // Malformed hex commits to the empty seed.
    let odd = CommitRequest { seed: "abc".to_string() };
    assert_eq!(respond_commit(&odd).commitment, hex::encode(commit(b"")));
}

/// The verify-commit route accepts the matching pair and rejects tampered,
/// malformed, or wrongly sized commitments.
#[test]
fn test_respond_verify_commit() {
    let seed = b"fairness-proof";
    let commitment = commit(seed);

    let good = VerifyCommitRequest {
        seed: hex::encode(seed),
        commitment: hex::encode(commitment),
    };
    assert!(respond_verify_commit(&good).valid);

    let tampered = VerifyCommitRequest {
        seed: hex::encode(b"tampered"),
        commitment: hex::encode(commitment),
    };
    assert!(!respond_verify_commit(&tampered).valid);

    // A non-32-byte commitment compares against all zero bytes and fails.
    let short = VerifyCommitRequest { seed: hex::encode(seed), commitment: "00ff".to_string() };
    assert!(!respond_verify_commit(&short).valid);

    let malformed =
        VerifyCommitRequest { seed: hex::encode(seed), commitment: "zz".repeat(32) };
    assert!(!respond_verify_commit(&malformed).valid);
}

/// Each verification error names the stage that rejected the input.
#[test]
fn test_verify_proof_error_variants() {
    let seed = b"error-cases";
    let vrf = generate_random(seed).expect("generation failed");

    // Garbage public key: rejected at key parsing.
    let bad_key = verify_proof(seed, &vrf.output, &[0u8; 96]);
    assert!(matches!(bad_key, Err(VRFError::InvalidPublicKey)));
    let short_key = verify_proof(seed, &vrf.output, &[1, 2, 3]);
    assert!(matches!(short_key, Err(VRFError::InvalidPublicKey)));

    // Garbage signature under a good key: rejected at signature parsing.
    let bad_sig = verify_proof(seed, &[0u8; 48], &vrf.public_key);
    assert!(matches!(bad_sig, Err(VRFError::InvalidSignature)));

    // Well-formed but non-matching bundle: rejected by the pairing check.
    let other = generate_random(b"some-other-seed").expect("generation failed");
    let mismatch = verify_proof(seed, &other.output, &vrf.public_key);
    assert!(matches!(mismatch, Err(VRFError::VerificationFailed)));
}

/// Each error renders its own message.
#[test]
fn test_error_messages() {
    assert_eq!(VRFError::InvalidSignature.message(), "Invalid signature");
    assert_eq!(VRFError::InvalidPublicKey.message(), "Invalid public key");
    assert_eq!(VRFError::InvalidCommitment.message(), "Invalid commitment");
    assert_eq!(VRFError::DeserializationError.message(), "Deserialization error");
    assert_eq!(VRFError::VerificationFailed.message(), "Verification failed");
}

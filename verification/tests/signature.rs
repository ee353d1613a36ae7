use base64::{engine::general_purpose::STANDARD as B64, Engine};
use ed25519_dalek::{Signer, SigningKey};
use sip_trunk::signature::{
    decoded_public_key, decoded_signature, signed_payload, verify_telnyx_signature,
};

// Deterministic test key — fixed 32-byte seed so tests are reproducible.
fn test_key_pair() -> (SigningKey, String) {
    let seed = [0x42u8; 32];
    let signing_key = SigningKey::from_bytes(&seed);
    let pub_key_b64 = B64.encode(signing_key.verifying_key().as_bytes());
    (signing_key, pub_key_b64)
}

fn make_signature(signing_key: &SigningKey, timestamp: &str, body: &[u8]) -> String {
    let mut payload = format!("{timestamp}|").into_bytes();
    payload.extend_from_slice(body);
    B64.encode(signing_key.sign(&payload).to_bytes())
}

#[test]
fn test_valid_signature_passes() {
    let (signing_key, pub_key_b64) = test_key_pair();
    let timestamp = "1700000000";
    let body = b"{\"data\":{\"event_type\":\"call.initiated\"}}";
    let sig = make_signature(&signing_key, timestamp, body);
    assert!(verify_telnyx_signature(&pub_key_b64, timestamp, body, &sig).is_ok());
}

#[test]
fn test_tampered_body_fails() {
    let (signing_key, pub_key_b64) = test_key_pair();
    let timestamp = "1700000000";
    let body = b"{\"data\":{\"event_type\":\"call.initiated\"}}";
    let sig = make_signature(&signing_key, timestamp, body);
    let tampered = b"{\"data\":{\"event_type\":\"call.hangup\"}}";
    assert!(verify_telnyx_signature(&pub_key_b64, timestamp, tampered, &sig).is_err());
}

#[test]
fn test_wrong_key_fails() {
    let (signing_key, _) = test_key_pair();
    let timestamp = "1700000000";
    let body = b"{}";
    let sig = make_signature(&signing_key, timestamp, body);
    // Different key pair for verification
    let other_seed = [0x99u8; 32];
    let other_key = SigningKey::from_bytes(&other_seed);
    let other_pub_b64 = B64.encode(other_key.verifying_key().as_bytes());
    assert!(verify_telnyx_signature(&other_pub_b64, timestamp, body, &sig).is_err());
}

#[test]
fn test_tampered_timestamp_fails() {
    let (signing_key, pub_key_b64) = test_key_pair();
    let body = b"{\"data\":{}}";
    let sig = make_signature(&signing_key, "1700000000", body);
    // Replaying with a different timestamp must fail
    assert!(verify_telnyx_signature(&pub_key_b64, "9999999999", body, &sig).is_err());
}

#[test]
fn test_invalid_public_key_encoding_errors() {
    let result = verify_telnyx_signature("not-valid-base64!!!", "ts", b"body", "sig");
    assert!(result.is_err());
}

#[test]
fn test_invalid_signature_encoding_errors() {
    let (_, pub_key_b64) = test_key_pair();
    let result = verify_telnyx_signature(&pub_key_b64, "ts", b"body", "not-valid-base64!!!");
    assert!(result.is_err());
}

#[test]
fn refusals_give_their_reason() {
    let (signing_key, pub_key_b64) = test_key_pair();
    let reason = |k: &str, s: &str| verify_telnyx_signature(k, "1", b"b", s).unwrap_err().to_string();
    assert_eq!(reason("not-valid-base64!!!", "sig"), "invalid public key base64 encoding");
    assert_eq!(reason(&B64.encode([1u8; 16]), "sig"), "public key must be exactly 32 bytes");
    assert_eq!(reason(&pub_key_b64, "not-valid-base64!!!"), "invalid signature base64 encoding");
    assert_eq!(reason(&pub_key_b64, &B64.encode([0u8; 63])), "signature must be exactly 64 bytes");
    assert_eq!(reason(&pub_key_b64, &B64.encode([0u8; 64])), "invalid signature");
    let good = make_signature(&signing_key, "1", b"b");
    assert!(verify_telnyx_signature(&pub_key_b64, "1", b"b", &good).is_ok());
}

#[test]
fn key_that_is_not_a_curve_point_is_refused_before_the_signature_is_read() {
    // Find an encoding that does not decompress to a curve point.
    let mut bytes = [0u8; 32];
    while ed25519_dalek::VerifyingKey::from_bytes(&bytes).is_ok() {
        bytes[0] += 1;
    }
    let result = verify_telnyx_signature(&B64.encode(bytes), "1", b"b", "not-valid-base64!!!");
    assert_eq!(result.unwrap_err().to_string(), "invalid Ed25519 public key");
}

#[test]
fn signed_payload_is_timestamp_pipe_body() {
    assert_eq!(signed_payload("1700000000", b"{}"), b"1700000000|{}".to_vec());
    assert_eq!(signed_payload("", b""), b"|".to_vec());
    assert_eq!(signed_payload("é", b"x"), "é|x".as_bytes().to_vec());
}

#[test]
fn decoded_lengths_are_checked() {
    assert!(decoded_public_key(Some(vec![0u8; 32])).is_ok());
    assert_eq!(
        decoded_public_key(Some(vec![0u8; 31])).unwrap_err().to_string(),
        "public key must be exactly 32 bytes"
    );
    assert_eq!(
        decoded_public_key(None).unwrap_err().to_string(),
        "invalid public key base64 encoding"
    );
    assert!(decoded_signature(Some(vec![0u8; 64])).is_ok());
    assert_eq!(
        decoded_signature(Some(vec![0u8; 65])).unwrap_err().to_string(),
        "signature must be exactly 64 bytes"
    );
    assert_eq!(
        decoded_signature(None).unwrap_err().to_string(),
        "invalid signature base64 encoding"
    );
}

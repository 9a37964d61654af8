use rcli::process::{process_generate, process_sign, process_verify, sign, verify};
use rcli::process::{Blake3, Ed25519Signer, Ed25519Verifier, KeyLoader, TextSign, TextVerify};
use rcli::{RcliError, TextSignFormat};

#[test]
fn test_keyed_hash_sign_verify_round_trip() {
    let key = [7u8; 32];
    let msg = b"attack at dawn";
    let sig = sign(msg, &key, TextSignFormat::Blake3).unwrap();
    assert_eq!(sig.len(), 32);
    assert_eq!(verify(msg, &key, &sig, TextSignFormat::Blake3), Ok(true));
}

#[test]
fn test_keyed_hash_matches_primitive() {
    // The library's keyed-hash signature is exactly blake3's keyed hash.
    let key = [9u8; 32];
    let msg = b"some bytes to tag";
    let sig = sign(msg, &key, TextSignFormat::Blake3).unwrap();
    assert_eq!(sig.as_slice(), blake3::keyed_hash(&key, msg).as_bytes());
}

#[test]
fn test_keyed_hash_rejects_other_signature() {
    let key = [7u8; 32];
    let msg = b"attack at dawn";
    let mut sig = sign(msg, &key, TextSignFormat::Blake3).unwrap();
    sig[0] ^= 0x01;
    // A wrong but well-formed signature is Ok(false), never an error.
    assert_eq!(verify(msg, &key, &sig, TextSignFormat::Blake3), Ok(false));
}

#[test]
fn test_keyed_hash_signature_differs_from_input() {
    let key = [0u8; 32];
    let msg = [5u8; 32];
    let sig = sign(&msg, &key, TextSignFormat::Blake3).unwrap();
    assert_ne!(sig.as_slice(), &msg[..]);
}

#[test]
fn test_wrong_length_signature_is_malformed() {
    let key = [7u8; 32];
    let short = [0u8; 5];
    assert_eq!(
        verify(b"m", &key, &short, TextSignFormat::Blake3),
        Err(RcliError::MalformedSignature)
    );
    assert_eq!(
        verify(b"m", &key, &short, TextSignFormat::Ed25519),
        Err(RcliError::MalformedSignature)
    );
    // A keyed-hash signature has 32 bytes; it is malformed for Ed25519.
    let sig32 = [0u8; 32];
    assert_eq!(
        verify(b"m", &key, &sig32, TextSignFormat::Ed25519),
        Err(RcliError::MalformedSignature)
    );
}

#[test]
fn test_short_key_is_invalid() {
    let short = [0u8; 31];
    assert_eq!(
        sign(b"m", &short, TextSignFormat::Blake3).unwrap_err(),
        RcliError::InvalidKeyLength
    );
    assert_eq!(
        sign(b"m", &short, TextSignFormat::Ed25519).unwrap_err(),
        RcliError::InvalidKeyLength
    );
    assert_eq!(
        verify(b"m", &short, &[0u8; 32], TextSignFormat::Blake3).unwrap_err(),
        RcliError::InvalidKeyLength
    );
    assert_eq!(Blake3::load(&short).unwrap_err(), RcliError::InvalidKeyLength);
    assert_eq!(Ed25519Signer::load(&short).unwrap_err(), RcliError::InvalidKeyLength);
    assert_eq!(Ed25519Verifier::load(&short).unwrap_err(), RcliError::InvalidKeyLength);
}

#[test]
fn test_long_key_is_invalid() {
    // Longer-than-required key material is rejected, not truncated.
    let long = [0u8; 33];
    assert_eq!(Blake3::load(&long).unwrap_err(), RcliError::InvalidKeyLength);
    assert_eq!(
        sign(b"m", &long, TextSignFormat::Ed25519).unwrap_err(),
        RcliError::InvalidKeyLength
    );
}

#[test]
fn test_loaded_key_round_trips() {
    // Signing with a loaded key behaves exactly as using the raw bytes.
    let key = [3u8; 32];
    let msg = b"loaded key";
    let loaded = Blake3::load(&key).unwrap();
    let via_loader = loaded.sign(msg).unwrap();
    let via_raw = sign(msg, &key, TextSignFormat::Blake3).unwrap();
    assert_eq!(via_loader, via_raw);
    assert_eq!(loaded.verify(msg, &via_raw), Ok(true));
}

#[test]
fn test_generate_keyed_hash_shape() {
    let keys = process_generate(TextSignFormat::Blake3).unwrap();
    assert_eq!(keys.len(), 1);
    assert_eq!(keys[0].len(), 32);
}

#[test]
fn test_generate_ed25519_shape_and_round_trip() {
    let keys = process_generate(TextSignFormat::Ed25519).unwrap();
    assert_eq!(keys.len(), 2);
    assert_eq!(keys[0].len(), 32);
    assert_eq!(keys[1].len(), 32);
    // The returned public key verifies what the returned private key signs.
    let msg = b"generated pair";
    let sig = sign(msg, &keys[0], TextSignFormat::Ed25519).unwrap();
    assert_eq!(sig.len(), 64);
    assert_eq!(verify(msg, &keys[1], &sig, TextSignFormat::Ed25519), Ok(true));
    let mut bad = sig.clone();
    bad[1] ^= 0x40;
    assert_eq!(verify(msg, &keys[1], &bad, TextSignFormat::Ed25519), Ok(false));
}

#[test]
fn test_ed25519_matches_primitive() {
    // The library's Ed25519 signature and derived public key are exactly
    // ed25519-dalek's, reconstructed deterministically from the seed.
    let seed = [42u8; 32];
    let msg = b"cross-check";
    let sig = sign(msg, &seed, TextSignFormat::Ed25519).unwrap();
    let sk = ed25519_dalek::SigningKey::from_bytes(&seed);
    let expected = ed25519_dalek::Signer::sign(&sk, msg);
    assert_eq!(sig.as_slice(), expected.to_bytes().as_slice());
    let pk = sk.verifying_key();
    assert_eq!(
        verify(msg, pk.as_bytes(), &sig, TextSignFormat::Ed25519),
        Ok(true)
    );
}

#[test]
fn test_ed25519_public_key_differs_from_seed() {
    let keys = process_generate(TextSignFormat::Ed25519).unwrap();
    assert_ne!(keys[0], keys[1]);
}

#[test]
fn test_hello_world_keyed_hash_scenario() {
    // Signing "Hello World!" twice with the all-zero key is deterministic;
    // flipping one bit of the message makes verification fail.
    let key = [0u8; 32];
    let msg = b"Hello World!";
    let sig1 = sign(msg, &key, TextSignFormat::Blake3).unwrap();
    let sig2 = sign(msg, &key, TextSignFormat::Blake3).unwrap();
    assert_eq!(sig1, sig2);
    assert_eq!(sig1.len(), 32);
    let mut flipped = *msg;
    flipped[0] ^= 0x01;
    assert_eq!(verify(&flipped, &key, &sig1, TextSignFormat::Blake3), Ok(false));
}

#[test]
fn test_empty_input_is_signable() {
    // The empty stream is a valid signing target for both schemes.
    let key = [1u8; 32];
    let sig = sign(b"", &key, TextSignFormat::Blake3).unwrap();
    assert_eq!(sig.len(), 32);
    assert_eq!(verify(b"", &key, &sig, TextSignFormat::Blake3), Ok(true));

    let keys = process_generate(TextSignFormat::Ed25519).unwrap();
    let sig = sign(b"", &keys[0], TextSignFormat::Ed25519).unwrap();
    assert_eq!(sig.len(), 64);
    assert_eq!(verify(b"", &keys[1], &sig, TextSignFormat::Ed25519), Ok(true));
}

#[test]
fn test_process_sign_and_verify_base64() {
    let key = [7u8; 32];
    let msg = b"text to protect";
    let text = process_sign(msg, &key, TextSignFormat::Blake3).unwrap();
    assert_eq!(text, process_encode_of_signature(msg, &key));
    assert_eq!(process_verify(msg, &key, &text, TextSignFormat::Blake3), Ok(true));
    // Tampered message: still a well-formed signature, so Ok(false).
    assert_eq!(process_verify(b"other", &key, &text, TextSignFormat::Blake3), Ok(false));
    // Text that is not base64 at all.
    assert_eq!(
        process_verify(msg, &key, "*bad*", TextSignFormat::Blake3),
        Err(RcliError::InvalidBase64)
    );
    // Valid base64 of the wrong length.
    assert_eq!(
        process_verify(msg, &key, "AAAA", TextSignFormat::Blake3),
        Err(RcliError::MalformedSignature)
    );
}

fn process_encode_of_signature(msg: &[u8], key: &[u8]) -> String {
    let sig = sign(msg, key, TextSignFormat::Blake3).unwrap();
    rcli::process_encode(&sig, rcli::Base64Format::Standard)
}

#[test]
fn test_error_messages() {
    assert_eq!(RcliError::InvalidKeyLength.message(), "invalid key length");
    assert_eq!(RcliError::MalformedSignature.message(), "malformed signature");
    assert_eq!(RcliError::UnsupportedScheme.message(), "unsupported scheme");
    assert_eq!(RcliError::StreamReadFailure.message(), "stream read failure");
}

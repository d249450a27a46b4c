use base64::Engine;
use ttychat::identity::{import_seed, load_or_generate, pubkey_b64, sign_nonce, IdentityError};

fn b64(bytes: &[u8]) -> String {
    base64::engine::general_purpose::STANDARD.encode(bytes)
}

#[test]
fn generate_then_reload_is_idempotent() {
    let (id, is_new) = load_or_generate(None).unwrap();
    assert!(is_new);
    let first_pub = pubkey_b64(&id);
    let stored = id.seed_bytes().clone();

    let (id2, is_new2) = load_or_generate(Some(stored)).unwrap();
    assert!(!is_new2);
    assert_eq!(pubkey_b64(&id2), first_pub);
}

#[test]
fn corrupt_key_file_is_rejected() {
    let r = load_or_generate(Some(vec![7u8; 31]));
    assert!(matches!(r, Err(IdentityError::KeyCorrupt)));
    let r = load_or_generate(Some(vec![7u8; 33]));
    assert!(matches!(r, Err(IdentityError::KeyCorrupt)));
}

#[test]
fn import_round_trip_matches_direct_signing() {
    let seed = [42u8; 32];
    let imported = import_seed(&b64(&seed)).unwrap();
    assert_eq!(imported, seed.to_vec());

    let (id, is_new) = load_or_generate(Some(imported)).unwrap();
    assert!(!is_new);

    let direct = ed25519_dalek::SigningKey::from_bytes(&seed);
    let expected = b64(direct.verifying_key().as_bytes());
    assert_eq!(pubkey_b64(&id), expected);
}

#[test]
fn import_rejects_bad_format_and_length() {
    assert!(matches!(
        import_seed("!!!not base64!!!"),
        Err(IdentityError::InvalidKeyFormat)
    ));
    assert!(matches!(
        import_seed(&b64(&[1u8; 16])),
        Err(IdentityError::InvalidKeyLength)
    ));
}

#[test]
fn signing_is_deterministic_and_nonce_sensitive() {
    let (id, _) = load_or_generate(Some(vec![9u8; 32])).unwrap();
    let nonce_a = b64(b"nonce-aaaa");
    let nonce_b = b64(b"nonce-bbbb");

    let sig1 = sign_nonce(&id, &nonce_a).unwrap();
    let sig2 = sign_nonce(&id, &nonce_a).unwrap();
    assert_eq!(sig1, sig2);

    let sig3 = sign_nonce(&id, &nonce_b).unwrap();
    assert_ne!(sig1, sig3);
}

#[test]
fn signature_verifies_against_the_public_key() {
    let seed = [3u8; 32];
    let (id, _) = load_or_generate(Some(seed.to_vec())).unwrap();
    let nonce_bytes = b"check this nonce";
    let sig_b64 = sign_nonce(&id, &b64(nonce_bytes)).unwrap();

    let sig_raw = base64::engine::general_purpose::STANDARD
        .decode(&sig_b64)
        .unwrap();
    let sig = ed25519_dalek::Signature::from_bytes(&sig_raw.try_into().unwrap());
    let vk = ed25519_dalek::SigningKey::from_bytes(&seed).verifying_key();
    assert!(vk.verify_strict(nonce_bytes, &sig).is_ok());
}

#[test]
fn bad_nonce_is_a_decode_error() {
    let (id, _) = load_or_generate(Some(vec![9u8; 32])).unwrap();
    assert!(matches!(
        sign_nonce(&id, "*** definitely not base64 ***"),
        Err(IdentityError::DecodeError)
    ));
}

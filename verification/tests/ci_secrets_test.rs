use aes_gcm::aead::{Aead, KeyInit};
use base64::Engine;
use gitfox::ci_secrets::{ci_variable_conflict, decrypt_value, encrypt_value, get_encryption_key, updated_secret};
use gitfox::error::AppError;
use sha2::Digest;

fn internal_message(r: Result<String, AppError>) -> String {
    match r {
        Err(AppError::InternalError(m)) => m,
        other => panic!("expected an internal error, got {:?}", other),
    }
}

fn seal_with(key: &[u8], nonce: &[u8; 12], plaintext: &[u8]) -> String {
    let cipher = aes_gcm::Aes256Gcm::new(aes_gcm::Key::<aes_gcm::Aes256Gcm>::from_slice(key));
    let sealed = cipher.encrypt(aes_gcm::Nonce::from_slice(nonce), plaintext).unwrap();
    let mut combined = nonce.to_vec();
    combined.extend_from_slice(&sealed);
    base64::engine::general_purpose::URL_SAFE_NO_PAD.encode(&combined)
}

#[test]
fn encryption_key_is_sha256_of_secret_and_context() {
    let key = get_encryption_key("jwt-secret");
    let expected = sha2::Sha256::digest(b"jwt-secretci_variable_key").to_vec();
    assert_eq!(key, expected);
    assert_eq!(key.len(), 32);
}

#[test]
fn decrypt_undoes_encrypt() {
    let key = get_encryption_key("s3cret");
    for value in ["", "hunter2", "multi\nline ✓ value"] {
        let stored = encrypt_value(value, &key).unwrap();
        assert_eq!(decrypt_value(&stored, &key).unwrap(), value);
    }
}

#[test]
fn encryption_uses_fresh_nonces() {
    let key = get_encryption_key("s3cret");
    let a = encrypt_value("same", &key).unwrap();
    let b = encrypt_value("same", &key).unwrap();
    assert_ne!(a, b);
    let raw = base64::engine::general_purpose::URL_SAFE_NO_PAD.decode(&a).unwrap();
    assert_eq!(raw.len(), 12 + 4 + 16);
}

#[test]
fn decrypt_of_a_known_sealing() {
    let key = get_encryption_key("k");
    let stored = seal_with(&key, &[7u8; 12], b"token-value");
    assert_eq!(decrypt_value(&stored, &key).unwrap(), "token-value");
}

#[test]
fn decrypt_refusals() {
    let key = get_encryption_key("k");
    assert!(internal_message(decrypt_value("!!!", &key)).starts_with("Invalid encrypted data: "));
    assert_eq!(internal_message(decrypt_value("AAAA", &key)), "Invalid encrypted data length");
    let other = get_encryption_key("other");
    let stored = encrypt_value("v", &key).unwrap();
    assert_eq!(internal_message(decrypt_value(&stored, &other)), "Decryption failed: aead::Error");
    let not_utf8 = seal_with(&key, &[1u8; 12], &[0xff, 0xfe]);
    assert_eq!(
        internal_message(decrypt_value(&not_utf8, &key)),
        "Invalid UTF-8: invalid utf-8 sequence of 1 bytes from index 0"
    );
}

#[test]
fn variable_conflicts_and_updates() {
    match ci_variable_conflict("TOKEN", "production") {
        AppError::Conflict(m) => assert_eq!(m, "Variable 'TOKEN' already exists for scope 'production'"),
        other => panic!("unexpected {:?}", other),
    }
    let key = get_encryption_key("k");
    assert_eq!(updated_secret(None, "stored-value", &key).unwrap(), "stored-value");
    let fresh = updated_secret(Some("new"), "stored-value", &key).unwrap();
    assert_eq!(decrypt_value(&fresh, &key).unwrap(), "new");
}

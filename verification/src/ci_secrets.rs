//! CI variables: their conflicts, and the encryption of their values: AES-256-GCM (aes-gcm crate) under a
//! key derived from the instance secret; a stored value is the URL-safe
//! base64 of the nonce followed by the sealed value.
use vstd::prelude::*;
use aes_gcm::aead::{Aead, KeyInit};
use vstd::string::StringSliceAdditionalSpecFns;
use vstd::utf8::{decode_utf8, encode_utf8, encode_utf8_decode_utf8, encode_utf8_valid_utf8, valid_utf8};
use crate::crypto::{b64url_nopad, b64url_nopad_decoding, base64_url_decode, base64_url_encode, random_bytes, sha256,
    sha256_digest};
use crate::error::AppError;
use crate::git_http::{utf8_error_text, utf8_string};
use crate::text::{join2, join3};

verus! {

/// The longest plaintext AES-GCM seals (`aes_gcm::P_MAX`, 2^36 bytes).
pub open spec fn aes_gcm_max_plaintext() -> int {
    0x10_0000_0000
}

/// What AES-256-GCM (`Aes256Gcm::encrypt` with no associated data) gives
/// for a key, a nonce and a plaintext: the ciphertext followed by the tag.
pub uninterp spec fn aes256gcm_sealed(key: Seq<u8>, nonce: Seq<u8>, plaintext: Seq<u8>) -> Seq<u8>;

/// What `Aes256Gcm::decrypt` (no associated data) gives for a key, a nonce
/// and sealed bytes: the plaintext, or nothing when they do not
/// authenticate.
pub uninterp spec fn aes256gcm_opened(key: Seq<u8>, nonce: Seq<u8>, sealed: Seq<u8>) -> Option<Seq<u8>>;

/// Seals a plaintext with AES-256-GCM (`Aes256Gcm::new`, then
/// `Aead::encrypt`). The sealed bytes are named; they are the plaintext's
/// length plus a 16-byte tag. The crate refuses plaintexts longer than 2^36
/// bytes (`None`).
#[verifier::external_body]
fn aes_gcm_encrypt(key: &[u8], nonce: &[u8], plaintext: &[u8]) -> (r: Option<Vec<u8>>)
    requires
        key@.len() == 32,
        nonce@.len() == 12,
        plaintext@.len() + 16 <= isize::MAX,
    ensures
        r is Some <==> plaintext@.len() <= aes_gcm_max_plaintext(),
        r matches Some(c) ==> c@ == aes256gcm_sealed(key@, nonce@, plaintext@),
        r matches Some(c) ==> c@.len() == plaintext@.len() + 16,
{
    let cipher = aes_gcm::Aes256Gcm::new(aes_gcm::Key::<aes_gcm::Aes256Gcm>::from_slice(key));
    cipher.encrypt(aes_gcm::Nonce::from_slice(nonce), plaintext).ok()
}

/// Opens sealed bytes with AES-256-GCM (`Aes256Gcm::new`, then
/// `Aead::decrypt`). The outcome is named; bytes that `aes_gcm_encrypt`
/// sealed under the same key and nonce open to the plaintext.
#[verifier::external_body]
fn aes_gcm_decrypt(key: &[u8], nonce: &[u8], sealed: &[u8]) -> (r: Option<Vec<u8>>)
    requires
        key@.len() == 32,
        nonce@.len() == 12,
    ensures
        match r {
            Some(p) => aes256gcm_opened(key@, nonce@, sealed@) == Some(p@),
            None => aes256gcm_opened(key@, nonce@, sealed@) is None,
        },
        r is Some || !(exists|p: Seq<u8>| p.len() <= aes_gcm_max_plaintext()
            && sealed@ == #[trigger] aes256gcm_sealed(key@, nonce@, p)),
        r matches Some(v) ==> (forall|p: Seq<u8>| p.len() <= aes_gcm_max_plaintext()
            && sealed@ == #[trigger] aes256gcm_sealed(key@, nonce@, p) ==> v@ == p),
{
    let cipher = aes_gcm::Aes256Gcm::new(aes_gcm::Key::<aes_gcm::Aes256Gcm>::from_slice(key));
    cipher.decrypt(aes_gcm::Nonce::from_slice(nonce), sealed).ok()
}

/// The bytes hashed into the encryption key: the secret, then
/// `ci_variable_key`.
pub open spec fn ci_key_material(secret: &str) -> Seq<u8> {
    secret.spec_bytes() + "ci_variable_key".spec_bytes()
}

/// The key CI variable values are encrypted with: the SHA-256 digest of the
/// secret followed by `ci_variable_key`.
pub fn get_encryption_key(secret: &str) -> (r: Vec<u8>)
    ensures
        r@ == sha256_digest(ci_key_material(secret)),
        r@.len() == 32,
{
    let mut material: Vec<u8> = Vec::new();
    material.extend_from_slice(secret.as_bytes());
    material.extend_from_slice("ci_variable_key".as_bytes());
    assert(material@ =~= ci_key_material(secret));
    sha256(material.as_slice())
}

/// How a value is stored when sealed under `key` with `nonce`: URL-safe
/// base64 of the nonce followed by the sealed UTF-8 bytes of the value.
pub open spec fn stored_secret(key: Seq<u8>, nonce: Seq<u8>, value: Seq<char>) -> Seq<char> {
    b64url_nopad(nonce + aes256gcm_sealed(key, nonce, encode_utf8(value)))
}

/// Encrypts a value with a fresh random 12-byte nonce. A value longer than
/// AES-GCM accepts is an internal error.
pub fn encrypt_value(value: &str, key: &[u8]) -> (r: Result<String, AppError>)
    requires
        key@.len() == 32,
        value.spec_bytes().len() + 16 <= isize::MAX,
    ensures
        value.spec_bytes().len() <= aes_gcm_max_plaintext() ==> exists|nonce: Seq<u8>|
            nonce.len() == 12 && (r matches Ok(s) && s@ == #[trigger] stored_secret(key@, nonce, value@)),
        value.spec_bytes().len() > aes_gcm_max_plaintext() ==> (r matches Err(AppError::InternalError(m))
            && m@ == "Encryption failed: aead::Error"@),
{
    let nonce = random_bytes(12);
    let plaintext = value.as_bytes();
    match aes_gcm_encrypt(key, nonce.as_slice(), plaintext) {
        None => Err(AppError::internal("Encryption failed: aead::Error")),
        Some(sealed) => {
            let mut combined: Vec<u8> = Vec::new();
            combined.extend_from_slice(nonce.as_slice());
            combined.extend_from_slice(sealed.as_slice());
            assert(combined@ =~= nonce@ + aes256gcm_sealed(key@, nonce@, encode_utf8(value@)));
            let s = base64_url_encode(combined.as_slice());
            assert(s@ == stored_secret(key@, nonce@, value@));
            Ok(s)
        },
    }
}

/// What a stored value decrypts to under `key`, or the message of the
/// internal error: the text must decode, hold a 12-byte nonce, open under
/// the key, and be UTF-8.
pub open spec fn spec_decrypt_value(key: Seq<u8>, text: Seq<char>) -> Result<Seq<char>, Seq<char>> {
    match b64url_nopad_decoding(text) {
        Err(e) => Err("Invalid encrypted data: "@ + e),
        Ok(combined) => if combined.len() < 12 {
            Err("Invalid encrypted data length"@)
        } else {
            match aes256gcm_opened(key, combined.take(12), combined.skip(12)) {
                None => Err("Decryption failed: aead::Error"@),
                Some(p) => if valid_utf8(p) {
                    Ok(decode_utf8(p))
                } else {
                    Err("Invalid UTF-8: "@ + utf8_error_text(p))
                },
            }
        },
    }
}

/// Decrypts a stored value; a refusal is an internal error. A value that
/// `encrypt_value` stored under the same key decrypts to the value.
pub fn decrypt_value(encrypted: &str, key: &[u8]) -> (r: Result<String, AppError>)
    requires
        key@.len() == 32,
    ensures
        match spec_decrypt_value(key@, encrypted@) {
            Ok(v) => r matches Ok(s) && s@ == v,
            Err(m) => r matches Err(AppError::InternalError(msg)) && msg@ == m,
        },
        forall|nonce: Seq<u8>, value: Seq<char>|
            nonce.len() == 12 && encode_utf8(value).len() <= aes_gcm_max_plaintext()
                && encrypted@ == #[trigger] stored_secret(key@, nonce, value) ==> (r matches Ok(s) && s@ == value),
{
    let combined = match base64_url_decode(encrypted) {
        Ok(c) => c,
        Err(e) => {
            return Err(AppError::InternalError(join2("Invalid encrypted data: ", e.as_str())));
        },
    };
    if combined.len() < 12 {
        return Err(AppError::internal("Invalid encrypted data length"));
    }
    let nonce = vstd::slice::slice_subrange(combined.as_slice(), 0, 12);
    let sealed = vstd::slice::slice_subrange(combined.as_slice(), 12, combined.len());
    assert(nonce@ =~= combined@.take(12));
    assert(sealed@ =~= combined@.skip(12));
    let plaintext = match aes_gcm_decrypt(key, nonce, sealed) {
        Some(p) => p,
        None => {
            proof {
                assert forall|n: Seq<u8>, value: Seq<char>|
                    n.len() == 12 && encode_utf8(value).len() <= aes_gcm_max_plaintext()
                        && encrypted@ == #[trigger] stored_secret(key@, n, value) implies false by {
                    let sealed_value = aes256gcm_sealed(key@, n, encode_utf8(value));
                    assert(combined@ == n + sealed_value);
                    assert((n + sealed_value).take(12) =~= n);
                    assert((n + sealed_value).skip(12) =~= sealed_value);
                    assert(sealed@ == aes256gcm_sealed(key@, nonce@, encode_utf8(value)));
                }
            }
            return Err(AppError::internal("Decryption failed: aead::Error"));
        },
    };
    let ghost pt = plaintext@;
    let r = match utf8_string(plaintext) {
        Ok(s) => Ok(s),
        Err(e) => Err(AppError::InternalError(join2("Invalid UTF-8: ", e.as_str()))),
    };
    proof {
        assert forall|n: Seq<u8>, value: Seq<char>|
            n.len() == 12 && encode_utf8(value).len() <= aes_gcm_max_plaintext()
                && encrypted@ == #[trigger] stored_secret(key@, n, value) implies (r matches Ok(s) && s@ == value) by {
            let sealed_value = aes256gcm_sealed(key@, n, encode_utf8(value));
            assert(combined@ == n + sealed_value);
            assert((n + sealed_value).take(12) =~= n);
            assert((n + sealed_value).skip(12) =~= sealed_value);
            assert(pt == encode_utf8(value));
            encode_utf8_valid_utf8(value);
            encode_utf8_decode_utf8(value);
        }
    }
    r
}

/// The error for a variable that already exists in an environment scope.
pub fn ci_variable_conflict(key: &str, scope: &str) -> (e: AppError)
    ensures
        e matches AppError::Conflict(m) && m@ == "Variable '"@ + key@ + "' already exists for scope '"@ + scope@ + "'"@,
{
    let a = join3("Variable '", key, "' already exists for scope '");
    AppError::Conflict(join3(a.as_str(), scope, "'"))
}

/// The stored value after an update of a variable: the new value encrypted
/// when one is given, else the stored one unchanged.
pub fn updated_secret(new_value: Option<&str>, stored: &str, key: &[u8]) -> (r: Result<String, AppError>)
    requires
        key@.len() == 32,
        new_value matches Some(v) ==> v.spec_bytes().len() + 16 <= isize::MAX,
    ensures
        match new_value {
            None => r matches Ok(s) && s@ == stored@,
            Some(v) => if v.spec_bytes().len() <= aes_gcm_max_plaintext() {
                exists|nonce: Seq<u8>|
                    nonce.len() == 12 && (r matches Ok(s) && s@ == #[trigger] stored_secret(key@, nonce, v@))
            } else {
                r matches Err(AppError::InternalError(m)) && m@ == "Encryption failed: aead::Error"@
            },
        },
{
    match new_value {
        Some(v) => encrypt_value(v, key),
        None => Ok(stored.to_string()),
    }
}

} // verus!

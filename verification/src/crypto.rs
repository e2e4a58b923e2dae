//! Hashing, hexadecimal, base64 and percent encodings and random bytes,
//! through the sha2, hex, base64, urlencoding and rand crates.
use vstd::prelude::*;
use base64::Engine;
use rand::RngCore;
use sha2::Digest;
use vstd::string::StringSliceAdditionalSpecFns;
use crate::text::hex_lower;

verus! {

/// The SHA-256 digest that the sha2 crate computes for a byte string.
pub uninterp spec fn sha256_digest(data: Seq<u8>) -> Seq<u8>;

/// Hashes bytes with SHA-256 (`sha2::Sha256`, `update` then `finalize`).
/// The digest is named, not computed; it is 32 bytes long.
#[verifier::external_body]
pub(crate) fn sha256(data: &[u8]) -> (r: Vec<u8>)
    ensures
        r@ == sha256_digest(data@),
        r@.len() == 32,
{
    let mut hasher = sha2::Sha256::new();
    hasher.update(data);
    hasher.finalize().to_vec()
}

/// Writes bytes as lowercase hexadecimal (`hex::encode`): two digits per
/// byte, high nibble first.
#[verifier::external_body]
pub(crate) fn hex_encode(data: &[u8]) -> (r: String)
    ensures
        r@ == hex_lower(data@),
{
    hex::encode(data)
}

/// The character for a 6-bit value in the URL-safe base64 alphabet.
pub open spec fn b64url_char(v: int) -> char {
    if v < 26 {
        (v + ('A' as int)) as char
    } else if v < 52 {
        (v - 26 + ('a' as int)) as char
    } else if v < 62 {
        (v - 52 + ('0' as int)) as char
    } else if v == 62 {
        '-'
    } else {
        '_'
    }
}

/// URL-safe base64 without padding: each group of three bytes becomes four
/// characters; a final group of one or two bytes becomes two or three.
pub open spec fn b64url_nopad(b: Seq<u8>) -> Seq<char>
    decreases b.len(),
{
    if b.len() == 0 {
        Seq::empty()
    } else if b.len() == 1 {
        seq![b64url_char((b[0] / 4) as int), b64url_char((b[0] % 4) * 16)]
    } else if b.len() == 2 {
        seq![
            b64url_char((b[0] / 4) as int),
            b64url_char((b[0] % 4) * 16 + b[1] / 16),
            b64url_char((b[1] % 16) * 4),
        ]
    } else {
        seq![
            b64url_char((b[0] / 4) as int),
            b64url_char((b[0] % 4) * 16 + b[1] / 16),
            b64url_char((b[1] % 16) * 4 + b[2] / 64),
            b64url_char((b[2] % 64) as int),
        ] + b64url_nopad(b.skip(3))
    }
}

/// Encodes bytes as URL-safe base64 without padding
/// (`base64::engine::general_purpose::URL_SAFE_NO_PAD.encode`).
#[verifier::external_body]
pub(crate) fn base64_url_encode(data: &[u8]) -> (r: String)
    ensures
        r@ == b64url_nopad(data@),
{
    base64::engine::general_purpose::URL_SAFE_NO_PAD.encode(data)
}

/// What `URL_SAFE_NO_PAD.decode` of the base64 crate gives for a text: the
/// decoded bytes, or the text of the decode error.
pub uninterp spec fn b64url_nopad_decoding(text: Seq<char>) -> Result<Seq<u8>, Seq<char>>;

/// Decodes URL-safe base64 without padding
/// (`base64::engine::general_purpose::URL_SAFE_NO_PAD.decode`). The outcome
/// is named; of it the contract states only that decoding what the encoder
/// wrote gives back the encoded bytes.
#[verifier::external_body]
pub(crate) fn base64_url_decode(text: &str) -> (r: Result<Vec<u8>, String>)
    ensures
        match r {
            Ok(b) => b64url_nopad_decoding(text@) == Ok::<Seq<u8>, Seq<char>>(b@),
            Err(m) => b64url_nopad_decoding(text@) == Err::<Seq<u8>, Seq<char>>(m@),
        },
        r is Ok || !(exists|b: Seq<u8>| text@ == #[trigger] b64url_nopad(b)),
        r matches Ok(v) ==> (forall|b: Seq<u8>| text@ == #[trigger] b64url_nopad(b) ==> v@ == b),
{
    match base64::engine::general_purpose::URL_SAFE_NO_PAD.decode(text) {
        Ok(b) => Ok(b),
        Err(e) => Err(e.to_string()),
    }
}

/// Bytes that percent-encoding leaves as they are: ASCII letters and digits
/// and `-`, `.`, `_`, `~`.
pub open spec fn url_unreserved(b: u8) -> bool {
    ||| 48 <= b <= 57
    ||| 65 <= b <= 90
    ||| 97 <= b <= 122
    ||| b == 45 || b == 46 || b == 95 || b == 126
}

/// The uppercase hexadecimal digit for `d` in `0..16`.
pub open spec fn hex_upper_digit(d: int) -> char {
    if d < 10 {
        (d + 48) as char
    } else {
        (d + 55) as char
    }
}

/// Percent-encoding of bytes: an unreserved byte stays, any other becomes
/// `%` and its two uppercase hexadecimal digits.
pub open spec fn percent_encoded(b: Seq<u8>) -> Seq<char>
    decreases b.len(),
{
    if b.len() == 0 {
        Seq::empty()
    } else {
        (if url_unreserved(b[0]) {
            seq![b[0] as char]
        } else {
            seq!['%', hex_upper_digit((b[0] / 16) as int), hex_upper_digit((b[0] % 16) as int)]
        }) + percent_encoded(b.drop_first())
    }
}

/// Percent-encodes the UTF-8 bytes of a text (`urlencoding::encode`).
#[verifier::external_body]
pub(crate) fn url_encode(text: &str) -> (r: String)
    ensures
        r@ == percent_encoded(text.spec_bytes()),
{
    urlencoding::encode(text).into_owned()
}

/// `n` random bytes from the thread-local generator of the rand crate
/// (`RngCore::fill_bytes`). Nothing is promised of their values.
#[verifier::external_body]
pub(crate) fn random_bytes(n: usize) -> (r: Vec<u8>)
    ensures
        r@.len() == n,
{
    let mut bytes = vec![0u8; n];
    rand::thread_rng().fill_bytes(&mut bytes);
    bytes
}

/// The lowercase hexadecimal SHA-256 digest of a text's UTF-8 bytes.
pub open spec fn sha256_hex(s: &str) -> Seq<char> {
    hex_lower(sha256_digest(s.spec_bytes()))
}

/// The lowercase hexadecimal SHA-256 digest of a text (how tokens and
/// secrets are stored).
pub fn hash_token(token: &str) -> (r: String)
    ensures
        r@ == sha256_hex(token),
{
    let digest = sha256(token.as_bytes());
    hex_encode(digest.as_slice())
}

/// A random token: the prefix, then the hexadecimal writing of 32 random
/// bytes.
pub fn random_hex_token(prefix: &str) -> (r: String)
    ensures
        exists|b: Seq<u8>| b.len() == 32 && r@ == prefix@ + hex_lower(b),
{
    let bytes = random_bytes(32);
    let h = hex_encode(bytes.as_slice());
    let r = crate::text::join2(prefix, h.as_str());
    assert(bytes@.len() == 32 && r@ == prefix@ + hex_lower(bytes@));
    r
}

} // verus!

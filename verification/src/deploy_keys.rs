//! Project settings: deploy keys and the tokens of pipeline triggers and
//! project access.
use vstd::prelude::*;
use vstd::string::StringSliceAdditionalSpecFns;
use crate::crypto::{b64url_nopad, base64_url_encode, random_bytes, sha256, sha256_digest};
use crate::error::AppError;
use crate::git_http::{base64_decode_standard, base64_standard_decoded};
use crate::gpg::{vec_views, words, words_of};
use crate::text::{chars_of, join2, owned, string_of};
use crate::tokens::PAT_PREFIX;

verus! {

/// The key types accepted for deploy keys.
pub open spec fn supported_key_type(t: Seq<char>) -> bool {
    t == "ssh-rsa"@ || t == "ssh-ed25519"@ || t == "ecdsa-sha2-nistp256"@ || t == "ecdsa-sha2-nistp384"@
        || t == "ecdsa-sha2-nistp521"@
}

/// The fingerprint of key data: `SHA256:` and the URL-safe base64, without
/// padding, of the SHA-256 digest of the data.
pub open spec fn fingerprint_of(data: Seq<u8>) -> Seq<char> {
    "SHA256:"@ + b64url_nopad(sha256_digest(data))
}

/// What a public key line gives: its type, the whole line and its
/// fingerprint; or why it is refused.
pub open spec fn ssh_key_parse(key: Seq<char>) -> Result<(Seq<char>, Seq<char>, Seq<char>), Seq<char>> {
    let parts = words_of(key);
    if parts.len() < 2 {
        Err("Invalid SSH key format"@)
    } else if !supported_key_type(parts[0]) {
        Err("Unsupported key type: "@ + parts[0])
    } else {
        match base64_standard_decoded(parts[1]) {
            Err(_) => Err("Invalid SSH key data"@),
            Ok(data) => Ok((parts[0], key, fingerprint_of(data))),
        }
    }
}

fn key_type_supported(t: &str) -> (r: bool)
    ensures
        r == supported_key_type(t@),
{
    crate::text::str_eq(t, "ssh-rsa") || crate::text::str_eq(t, "ssh-ed25519") || crate::text::str_eq(
        t,
        "ecdsa-sha2-nistp256",
    ) || crate::text::str_eq(t, "ecdsa-sha2-nistp384") || crate::text::str_eq(t, "ecdsa-sha2-nistp521")
}

/// Reads a public key line (`<type> <base64 data> [comment]`): its type,
/// the line, and the fingerprint of its data. A bad line is a bad request.
pub fn parse_ssh_key(key: &str) -> (r: Result<(String, String, String), AppError>)
    ensures
        match ssh_key_parse(key@) {
            Ok((t, k, f)) => r matches Ok((a, b, c)) && a@ == t && b@ == k && c@ == f,
            Err(m) => r matches Err(AppError::BadRequest(msg)) && msg@ == m,
        },
{
    let cs = chars_of(key);
    let parts = words(&cs);
    proof {
        assert(vec_views(parts@).len() == parts@.len());
    }
    if parts.len() < 2 {
        return Err(AppError::bad_request("Invalid SSH key format"));
    }
    assert(vec_views(parts@)[0] == parts@[0]@);
    assert(vec_views(parts@)[1] == parts@[1]@);
    let key_type = string_of(&parts[0]);
    if !key_type_supported(key_type.as_str()) {
        return Err(AppError::BadRequest(join2("Unsupported key type: ", key_type.as_str())));
    }
    let data = string_of(&parts[1]);
    let decoded = match base64_decode_standard(data.as_str()) {
        Ok(d) => d,
        Err(_) => return Err(AppError::bad_request("Invalid SSH key data")),
    };
    let digest = sha256(decoded.as_slice());
    let enc = base64_url_encode(digest.as_slice());
    let fingerprint = join2("SHA256:", enc.as_str());
    Ok((key_type, owned(key), fingerprint))
}

/// A new pipeline trigger token: `glptt-` and 24 random bytes in URL-safe
/// base64 without padding.
pub fn generate_trigger_token() -> (r: String)
    ensures
        exists|b: Seq<u8>| b.len() == 24 && r@ == "glptt-"@ + b64url_nopad(b),
{
    let bytes = random_bytes(24);
    let enc = base64_url_encode(bytes.as_slice());
    let r = join2("glptt-", enc.as_str());
    assert(bytes@.len() == 24 && r@ == "glptt-"@ + b64url_nopad(bytes@));
    r
}

/// A new project access token: the token prefix and 20 random bytes in
/// URL-safe base64 without padding.
pub fn generate_project_access_token() -> (r: String)
    ensures
        exists|b: Seq<u8>| b.len() == 20 && r@ == PAT_PREFIX@ + b64url_nopad(b),
{
    let bytes = random_bytes(20);
    let enc = base64_url_encode(bytes.as_slice());
    let r = join2(PAT_PREFIX, enc.as_str());
    assert(bytes@.len() == 20 && r@ == PAT_PREFIX@ + b64url_nopad(bytes@));
    r
}

} // verus!

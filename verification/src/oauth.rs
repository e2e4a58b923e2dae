//! OAuth 2.0 and OpenID Connect: the checks of the provider side (client
//! credentials, PKCE, authorization and token requests, ID token claims) and
//! the built-in external login providers with their default endpoints.
use vstd::prelude::*;
use crate::config::{enabled_provider_names, provider_enabled, push_if, str_views, Config, OAuthConfig, OAuthProviderConfig};
use crate::crypto::{percent_encoded, url_encode, base64_url_encode, b64url_nopad, hash_token, random_bytes, random_hex_token,
    sha256, sha256_digest, sha256_hex};
use crate::error::AppError;
use crate::git_http::{basic_credentials, spec_basic_credentials};
use crate::gpg::{vec_views, words, words_of};
use crate::text::{joined, join_with, string_seq_views, trim_end_all, trim_end_matches, chars_of, decimal_of, has_prefix, hex_lower, i64_to_decimal, join2, join3, owned, signed_decimal_of, slice_chars, starts_with, str_eq, string_of, u64_to_decimal};
use vstd::string::StringSliceAdditionalSpecFns;

verus! {

// ---------------------------------------------------------------------------
// Secrets and codes
// ---------------------------------------------------------------------------

/// A new client id: 16 random bytes in hexadecimal.
pub fn generate_client_id() -> (r: String)
    ensures
        exists|b: Seq<u8>| b.len() == 16 && r@ == hex_lower(b),
{
    let bytes = random_bytes(16);
    let r = crate::crypto::hex_encode(bytes.as_slice());
    assert(bytes@.len() == 16 && r@ == hex_lower(bytes@));
    r
}

/// A new client secret: `gfcs_`, then 32 random bytes in hexadecimal.
pub fn generate_client_secret() -> (r: String)
    ensures
        exists|b: Seq<u8>| b.len() == 32 && r@ == "gfcs_"@ + hex_lower(b),
{
    random_hex_token("gfcs_")
}

/// A new authorization code: 32 random bytes in hexadecimal.
pub fn generate_auth_code() -> (r: String)
    ensures
        exists|b: Seq<u8>| b.len() == 32 && r@ == hex_lower(b),
{
    let r = random_hex_token("");
    proof {
        reveal_strlit("");
        let b = choose|b: Seq<u8>| b.len() == 32 && r@ == ""@ + hex_lower(b);
        assert(""@ + hex_lower(b) =~= hex_lower(b));
    }
    r
}

/// A new access or refresh token: `gfat_`, then 32 random bytes in
/// hexadecimal.
pub fn generate_access_token() -> (r: String)
    ensures
        exists|b: Seq<u8>| b.len() == 32 && r@ == "gfat_"@ + hex_lower(b),
{
    random_hex_token("gfat_")
}

/// How a secret, a code or a token is stored: its SHA-256 digest in
/// hexadecimal.
pub fn hash_secret(secret: &str) -> (r: String)
    ensures
        r@ == sha256_hex(secret),
{
    hash_token(secret)
}

/// Whether a PKCE verifier answers a challenge: `plain` compares them,
/// `S256` compares the URL-safe base64 of the verifier's SHA-256 digest;
/// any other method fails.
pub open spec fn pkce_holds(verifier: &str, challenge: Seq<char>, method: Seq<char>) -> bool {
    if method == "plain"@ {
        verifier@ == challenge
    } else if method == "S256"@ {
        b64url_nopad(sha256_digest(verifier.spec_bytes())) == challenge
    } else {
        false
    }
}

/// Checks a PKCE code verifier against the stored challenge.
pub fn verify_pkce(verifier: &str, challenge: &str, method: &str) -> (r: bool)
    ensures
        r == pkce_holds(verifier, challenge@, method@),
{
    if str_eq(method, "plain") {
        str_eq(verifier, challenge)
    } else if str_eq(method, "S256") {
        let digest = sha256(verifier.as_bytes());
        let computed = base64_url_encode(digest.as_slice());
        str_eq(computed.as_str(), challenge)
    } else {
        false
    }
}

// ---------------------------------------------------------------------------
// Client credentials
// ---------------------------------------------------------------------------

/// The client id and secret of a token or revocation request: those of a
/// Basic authorization header when it holds any, else the body's, where the
/// client id is required.
pub open spec fn spec_client_credentials(
    header: Option<Seq<char>>,
    body_id: Option<Seq<char>>,
    body_secret: Option<Seq<char>>,
) -> Result<(Seq<char>, Option<Seq<char>>), Seq<char>> {
    match header {
        Some(h) if spec_basic_credentials(h) is Some => {
            let (id, secret) = spec_basic_credentials(h)->0;
            Ok((id, Some(secret)))
        },
        _ => match body_id {
            Some(id) => Ok((id, body_secret)),
            None => Err("client_id is required"@),
        },
    }
}

/// The views of an optional text.
pub open spec fn opt_view(o: Option<String>) -> Option<Seq<char>> {
    match o {
        Some(s) => Some(s@),
        None => None,
    }
}

/// The views of an optional string slice.
pub open spec fn opt_str_view(o: Option<&str>) -> Option<Seq<char>> {
    match o {
        Some(s) => Some(s@),
        None => None,
    }
}

/// Reads the client credentials of a token or revocation request; a
/// missing client id is a bad request.
pub fn client_credentials(
    header: Option<&str>,
    body_id: Option<String>,
    body_secret: Option<String>,
) -> (r: Result<(String, Option<String>), AppError>)
    ensures
        match spec_client_credentials(opt_str_view(header), opt_view(body_id), opt_view(body_secret)) {
            Ok((id, secret)) => r matches Ok((i, s)) && i@ == id && opt_view(s) == secret,
            Err(m) => r matches Err(AppError::BadRequest(msg)) && msg@ == m,
        },
{
    if let Some(h) = header {
        if let Some((id, secret)) = basic_credentials(h) {
            return Ok((id, Some(secret)));
        }
    }
    match body_id {
        Some(id) => Ok((id, body_secret)),
        None => Err(AppError::bad_request("client_id is required")),
    }
}

/// Why a client is refused: a confidential client must present a secret
/// whose hash is the stored one.
pub open spec fn client_secret_denial(confidential: bool, secret: Option<&str>, stored_hash: Seq<char>) -> Option<Seq<char>> {
    if !confidential {
        None
    } else {
        match secret {
            None => Some("client_secret is required"@),
            Some(s) => if sha256_hex(s) != stored_hash {
                Some("Invalid client_secret"@)
            } else {
                None
            },
        }
    }
}

/// Checks the secret of a client; a refusal is an unauthorized error.
pub fn check_client_secret(confidential: bool, secret: Option<&str>, stored_hash: &str) -> (r: Result<(), AppError>)
    ensures
        match client_secret_denial(confidential, secret, stored_hash@) {
            None => r is Ok,
            Some(m) => r matches Err(AppError::Unauthorized(msg)) && msg@ == m,
        },
{
    if !confidential {
        return Ok(());
    }
    match secret {
        None => Err(AppError::unauthorized("client_secret is required")),
        Some(s) => {
            let h = hash_secret(s);
            if !str_eq(h.as_str(), stored_hash) {
                Err(AppError::unauthorized("Invalid client_secret"))
            } else {
                Ok(())
            }
        },
    }
}

// ---------------------------------------------------------------------------
// Authorization and token requests
// ---------------------------------------------------------------------------

/// The grant types of the token endpoint.
#[derive(PartialEq, Eq, Structural, Debug, Clone, Copy)]
pub enum GrantKind {
    AuthorizationCode,
    RefreshToken,
}

/// The grant a token request asks for, or `None` for an unsupported one.
pub open spec fn spec_grant_kind(grant_type: Seq<char>) -> Option<GrantKind> {
    if grant_type == "authorization_code"@ {
        Some(GrantKind::AuthorizationCode)
    } else if grant_type == "refresh_token"@ {
        Some(GrantKind::RefreshToken)
    } else {
        None
    }
}

/// Reads the grant type of a token request; any other is a bad request.
pub fn grant_kind(grant_type: &str) -> (r: Result<GrantKind, AppError>)
    ensures
        match spec_grant_kind(grant_type@) {
            Some(k) => r == Ok::<GrantKind, AppError>(k),
            None => r matches Err(AppError::BadRequest(m)) && m@ == "Unsupported grant_type"@,
        },
{
    if str_eq(grant_type, "authorization_code") {
        Ok(GrantKind::AuthorizationCode)
    } else if str_eq(grant_type, "refresh_token") {
        Ok(GrantKind::RefreshToken)
    } else {
        Err(AppError::bad_request("Unsupported grant_type"))
    }
}

/// Only the `code` response type is supported.
pub fn check_response_type(response_type: &str) -> (r: Result<(), AppError>)
    ensures
        r is Ok <==> response_type@ == "code"@,
        r matches Err(e) ==> e matches AppError::BadRequest(m) && m@ == "Unsupported response_type"@,
{
    if str_eq(response_type, "code") {
        Ok(())
    } else {
        Err(AppError::bad_request("Unsupported response_type"))
    }
}

/// The first requested scope that the application does not allow.
pub open spec fn first_disallowed(requested: Seq<Seq<char>>, allowed: Seq<Seq<char>>) -> Option<Seq<char>>
    decreases requested.len(),
{
    if requested.len() == 0 {
        None
    } else if !allowed.contains(requested[0]) {
        Some(requested[0])
    } else {
        first_disallowed(requested.drop_first(), allowed)
    }
}

/// The scopes an authorization request asks for (its `scope` split at white
/// space), or why it is refused: a redirect URI the application did not
/// register, or a scope it does not allow.
pub open spec fn spec_authorize_scopes(
    redirect_uri: Seq<char>,
    scope: Option<Seq<char>>,
    redirect_uris: Seq<Seq<char>>,
    app_scopes: Seq<Seq<char>>,
) -> Result<Seq<Seq<char>>, Seq<char>> {
    let requested = words_of(
        match scope {
            Some(s) => s,
            None => Seq::empty(),
        },
    );
    if !redirect_uris.contains(redirect_uri) {
        Err("Invalid redirect_uri"@)
    } else {
        match first_disallowed(requested, app_scopes) {
            Some(s) => Err("Scope '"@ + s + "' not allowed for this application"@),
            None => Ok(requested),
        }
    }
}

/// The texts of a list of strings.
pub open spec fn string_views(v: Seq<String>) -> Seq<Seq<char>> {
    v.map_values(|s: String| s@)
}

/// Whether `s` is one of `list`.
fn contains_text(list: &Vec<String>, s: &Vec<char>) -> (r: bool)
    ensures
        r == string_views(list@).contains(s@),
{
    let mut i: usize = 0;
    while i < list.len()
        invariant
            i <= list.len(),
            forall|j: int| 0 <= j < i ==> (#[trigger] list@[j])@ != s@,
        decreases list.len() - i,
    {
        let c = chars_of(list[i].as_str());
        if crate::text::chars_eq(&c, s) {
            proof {
                assert(string_views(list@)[i as int] == s@);
            }
            return true;
        }
        i = i + 1;
    }
    proof {
        if string_views(list@).contains(s@) {
            let k = choose|k: int| 0 <= k < string_views(list@).len() && string_views(list@)[k] == s@;
            assert(list@[k]@ == s@);
        }
    }
    false
}

/// Checks the redirect URI and the scopes of an authorization request and
/// gives the requested scopes; a refusal is a bad request.
pub fn authorize_scopes(
    redirect_uri: &str,
    scope: Option<&str>,
    redirect_uris: &Vec<String>,
    app_scopes: &Vec<String>,
) -> (r: Result<Vec<String>, AppError>)
    ensures
        match spec_authorize_scopes(redirect_uri@, opt_str_view(scope), string_views(redirect_uris@), string_views(app_scopes@)) {
            Ok(s) => r matches Ok(v) && string_views(v@) == s,
            Err(m) => r matches Err(AppError::BadRequest(msg)) && msg@ == m,
        },
{
    let ru = chars_of(redirect_uri);
    if !contains_text(redirect_uris, &ru) {
        return Err(AppError::bad_request("Invalid redirect_uri"));
    }
    let sc = match scope {
        Some(s) => chars_of(s),
        None => Vec::new(),
    };
    let ws = words(&sc);
    let ghost requested = words_of(sc@);
    assert(sc@ == (match opt_str_view(scope) {
        Some(x) => x,
        None => Seq::<char>::empty(),
    }));
    let mut out: Vec<String> = Vec::new();
    let mut i: usize = 0;
    assert(requested.skip(0) =~= requested);
    while i < ws.len()
        invariant
            vec_views(ws@) == requested,
            requested == words_of(match opt_str_view(scope) {
                Some(x) => x,
                None => Seq::empty(),
            }),
            string_views(redirect_uris@).contains(redirect_uri@),
            i <= ws.len(),
            string_views(out@) == requested.take(i as int),
            first_disallowed(requested, string_views(app_scopes@))
                == first_disallowed(requested.skip(i as int), string_views(app_scopes@)),
        decreases ws.len() - i,
    {
        assert(requested[i as int] == ws@[i as int]@);
        assert(requested.skip(i as int)[0] == requested[i as int]);
        assert(requested.skip(i as int).drop_first() =~= requested.skip(i + 1));
        if !contains_text(app_scopes, &ws[i]) {
            let s = string_of(&ws[i]);
            return Err(AppError::BadRequest(join3("Scope '", s.as_str(), "' not allowed for this application")));
        }
        let item = string_of(&ws[i]);
        let ghost before = out@;
        out.push(item);
        proof {
            assert(out@ == before.push(item));
            assert(string_views(out@) =~= string_views(before).push(item@));
            assert(requested.take(i + 1) =~= requested.take(i as int).push(requested[i as int]));
        }
        i = i + 1;
    }
    assert(requested.take(i as int) =~= requested);
    Ok(out)
}

/// Why an authorization code exchange is refused: the redirect URI must be
/// the stored one, and when a challenge was stored a verifier must answer it
/// (by its stored method, `plain` when none was stored).
pub open spec fn code_exchange_denial(
    stored_redirect: Seq<char>,
    redirect_uri: Seq<char>,
    challenge: Option<Seq<char>>,
    method: Option<Seq<char>>,
    verifier: Option<&str>,
) -> Option<Seq<char>> {
    if stored_redirect != redirect_uri {
        Some("redirect_uri mismatch"@)
    } else {
        match challenge {
            None => None,
            Some(c) => match verifier {
                None => Some("code_verifier is required"@),
                Some(v) => if !pkce_holds(v, c, match method {
                    Some(m) => m,
                    None => "plain"@,
                }) {
                    Some("Invalid code_verifier"@)
                } else {
                    None
                },
            },
        }
    }
}

/// Checks an authorization code exchange against what was stored with the
/// code; a refusal is a bad request.
pub fn check_code_exchange(
    stored_redirect: &str,
    redirect_uri: &str,
    challenge: Option<&str>,
    method: Option<&str>,
    verifier: Option<&str>,
) -> (r: Result<(), AppError>)
    ensures
        match code_exchange_denial(stored_redirect@, redirect_uri@, opt_str_view(challenge), opt_str_view(method), verifier) {
            None => r is Ok,
            Some(m) => r matches Err(AppError::BadRequest(msg)) && msg@ == m,
        },
{
    if !str_eq(stored_redirect, redirect_uri) {
        return Err(AppError::bad_request("redirect_uri mismatch"));
    }
    match challenge {
        None => Ok(()),
        Some(c) => match verifier {
            None => Err(AppError::bad_request("code_verifier is required")),
            Some(v) => {
                let m = match method {
                    Some(m) => m,
                    None => "plain",
                };
                if !verify_pkce(v, c, m) {
                    Err(AppError::bad_request("Invalid code_verifier"))
                } else {
                    Ok(())
                }
            },
        },
    }
}

/// Which stored tokens a revocation may match, by its hint: access tokens
/// without a hint or with `access_token`, refresh tokens without a hint or
/// with `refresh_token`.
pub fn revocation_targets(hint: Option<&str>) -> (r: (bool, bool))
    ensures
        r.0 == (hint is None || opt_str_view(hint) == Some("access_token"@)),
        r.1 == (hint is None || opt_str_view(hint) == Some("refresh_token"@)),
{
    match hint {
        None => (true, true),
        Some(h) => (str_eq(h, "access_token"), str_eq(h, "refresh_token")),
    }
}

/// The access token of an `Authorization: Bearer <token>` header, or why
/// there is none.
pub open spec fn spec_bearer_token(header: Option<Seq<char>>) -> Result<Seq<char>, Seq<char>> {
    match header {
        None => Err("Missing Authorization header"@),
        Some(h) => if !has_prefix(h, "Bearer "@) {
            Err("Invalid Authorization header"@)
        } else {
            Ok(h.skip(7))
        },
    }
}

/// Reads the bearer token of the user-info request; a missing or other
/// header is unauthorized.
pub fn bearer_token(header: Option<&str>) -> (r: Result<String, AppError>)
    ensures
        match spec_bearer_token(opt_str_view(header)) {
            Ok(t) => r matches Ok(s) && s@ == t,
            Err(m) => r matches Err(AppError::Unauthorized(msg)) && msg@ == m,
        },
{
    match header {
        None => Err(AppError::unauthorized("Missing Authorization header")),
        Some(h) => {
            let cs = chars_of(h);
            let p = chars_of("Bearer ");
            proof {
                reveal_strlit("Bearer ");
            }
            if !starts_with(&cs, &p) {
                return Err(AppError::unauthorized("Invalid Authorization header"));
            }
            let t = slice_chars(&cs, 7, cs.len());
            assert(t@ =~= h@.skip(7));
            Ok(string_of(&t))
        },
    }
}

/// Whether the scopes of an access token let it read the user's profile:
/// `openid` or `read_user`.
pub fn has_user_scope(scopes: &Vec<String>) -> (r: bool)
    ensures
        r == (string_views(scopes@).contains("openid"@) || string_views(scopes@).contains("read_user"@)),
{
    let a = chars_of("openid");
    let b = chars_of("read_user");
    contains_text(scopes, &a) || contains_text(scopes, &b)
}

// ---------------------------------------------------------------------------
// ID token claims
// ---------------------------------------------------------------------------

/// The claims of an OpenID Connect ID token.
pub struct IdTokenClaims {
    /// Issuer: the base URL of the instance.
    pub iss: String,
    /// Subject: the user id in decimal.
    pub sub: String,
    /// Audience: the client id.
    pub aud: String,
    /// Expiry, in seconds since the epoch.
    pub exp: i64,
    /// Issue time, in seconds since the epoch.
    pub iat: i64,
    /// Authorized party: the client id.
    pub azp: String,
    pub preferred_username: String,
    /// The email, when the `email` scope was granted.
    pub email: Option<String>,
    /// Set when the user has an email.
    pub email_verified: Option<bool>,
}

/// The claims of the ID token issued at `now` with these scopes; there is
/// none without the `openid` scope. The token lives one hour.
pub open spec fn id_token_claims_ok(
    c: IdTokenClaims,
    base_url: Seq<char>,
    user_id: i64,
    username: Seq<char>,
    email: Option<Seq<char>>,
    client_id: Seq<char>,
    scopes: Seq<Seq<char>>,
    now: i64,
) -> bool {
    &&& c.iss@ == base_url
    &&& c.sub@ == signed_decimal_of(user_id as int)
    &&& c.aud@ == client_id
    &&& c.exp == now + 3600
    &&& c.iat == now
    &&& c.azp@ == client_id
    &&& c.preferred_username@ == username
    &&& opt_view(c.email) == (if scopes.contains("email"@) { email } else { None })
    &&& c.email_verified == (if email is Some { Some(true) } else { None::<bool> })
}

/// The claims of an ID token, when the `openid` scope was granted.
pub fn id_token_claims(
    base_url: &str,
    user_id: i64,
    username: &str,
    email: Option<&str>,
    client_id: &str,
    scopes: &Vec<String>,
    now: i64,
) -> (r: Option<IdTokenClaims>)
    requires
        now <= i64::MAX - 3600,
    ensures
        r is Some <==> string_views(scopes@).contains("openid"@),
        r matches Some(c) ==> id_token_claims_ok(c, base_url@, user_id, username@, opt_str_view(email), client_id@,
            string_views(scopes@), now),
{
    let openid = chars_of("openid");
    if !contains_text(scopes, &openid) {
        return None;
    }
    let em = chars_of("email");
    let with_email = contains_text(scopes, &em);
    let sub = string_of(&i64_to_decimal(user_id));
    let email_claim = if with_email {
        match email {
            Some(e) => Some(owned(e)),
            None => None,
        }
    } else {
        None
    };
    let verified = match email {
        Some(_) => Some(true),
        None => None,
    };
    Some(IdTokenClaims {
        iss: owned(base_url),
        sub,
        aud: owned(client_id),
        exp: now + 3600,
        iat: now,
        azp: owned(client_id),
        preferred_username: owned(username),
        email: email_claim,
        email_verified: verified,
    })
}

// ---------------------------------------------------------------------------
// External login providers
// ---------------------------------------------------------------------------

/// The providers whose credentials come from the configuration.
pub open spec fn builtin_provider(name: Seq<char>) -> bool {
    name == "github"@ || name == "gitlab"@ || name == "google"@ || name == "azure_ad"@ || name == "bitbucket"@
}

/// Whether a provider is one of the built-in ones.
pub fn is_builtin_provider(name: &str) -> (r: bool)
    ensures
        r == builtin_provider(name@),
{
    str_eq(name, "github") || str_eq(name, "gitlab") || str_eq(name, "google") || str_eq(name, "azure_ad")
        || str_eq(name, "bitbucket")
}

/// The id and secret of a provider's configuration, when both are set.
pub open spec fn provider_credentials(p: OAuthProviderConfig) -> Option<(Seq<char>, Seq<char>)> {
    match (p.client_id, p.client_secret) {
        (Some(id), Some(secret)) => Some((id@, secret@)),
        _ => None,
    }
}

/// The configured credentials of a built-in provider (`azure` names
/// `azure_ad` too).
pub open spec fn builtin_credentials(c: OAuthConfig, name: Seq<char>) -> Option<(Seq<char>, Seq<char>)> {
    if name == "github"@ {
        provider_credentials(c.github)
    } else if name == "gitlab"@ {
        provider_credentials(c.gitlab)
    } else if name == "google"@ {
        provider_credentials(c.google)
    } else if name == "azure_ad"@ || name == "azure"@ {
        provider_credentials(c.azure_ad)
    } else if name == "bitbucket"@ {
        provider_credentials(c.bitbucket)
    } else {
        None
    }
}

fn credentials_of(p: &OAuthProviderConfig) -> (r: Option<(String, String)>)
    ensures
        match r {
            Some((a, b)) => provider_credentials(*p) == Some((a@, b@)),
            None => provider_credentials(*p) is None,
        },
{
    match (&p.client_id, &p.client_secret) {
        (Some(id), Some(secret)) => Some((owned(id.as_str()), owned(secret.as_str()))),
        _ => None,
    }
}

/// The configured client id and secret of a built-in provider.
pub fn get_builtin_credentials(config: &Config, provider_name: &str) -> (r: Option<(String, String)>)
    ensures
        match r {
            Some((a, b)) => builtin_credentials(config.oauth, provider_name@) == Some((a@, b@)),
            None => builtin_credentials(config.oauth, provider_name@) is None,
        },
{
    if str_eq(provider_name, "github") {
        credentials_of(&config.oauth.github)
    } else if str_eq(provider_name, "gitlab") {
        credentials_of(&config.oauth.gitlab)
    } else if str_eq(provider_name, "google") {
        credentials_of(&config.oauth.google)
    } else if str_eq(provider_name, "azure_ad") || str_eq(provider_name, "azure") {
        credentials_of(&config.oauth.azure_ad)
    } else if str_eq(provider_name, "bitbucket") {
        credentials_of(&config.oauth.bitbucket)
    } else {
        None
    }
}

/// An administrator's request to add a login provider.
pub struct CreateOAuthProviderRequest {
    pub name: String,
    pub display_name: String,
    pub provider_type: String,
    pub client_id: String,
    pub client_secret: String,
    pub authorization_url: Option<String>,
    pub token_url: Option<String>,
    pub userinfo_url: Option<String>,
    pub scopes: Option<Vec<String>>,
    pub icon: Option<String>,
    pub enabled: Option<bool>,
}

/// An administrator's request to change a login provider; only the fields
/// that are set change.
pub struct UpdateOAuthProviderRequest {
    pub display_name: Option<String>,
    pub client_id: Option<String>,
    pub client_secret: Option<String>,
    pub authorization_url: Option<String>,
    pub token_url: Option<String>,
    pub userinfo_url: Option<String>,
    pub scopes: Option<Vec<String>>,
    pub icon: Option<String>,
    pub enabled: Option<bool>,
    pub sort_order: Option<i32>,
}

/// The authorization, token and user-info endpoints of a known provider
/// type, `None` for any other.
pub open spec fn default_endpoints(provider_type: Seq<char>) -> Option<(Seq<char>, Seq<char>, Seq<char>)> {
    if provider_type == "github"@ {
        Some(("https://github.com/login/oauth/authorize"@, "https://github.com/login/oauth/access_token"@,
            "https://api.github.com/user"@))
    } else if provider_type == "gitlab"@ {
        Some(("https://gitlab.com/oauth/authorize"@, "https://gitlab.com/oauth/token"@,
            "https://gitlab.com/api/v4/user"@))
    } else if provider_type == "google"@ {
        Some(("https://accounts.google.com/o/oauth2/v2/auth"@, "https://oauth2.googleapis.com/token"@,
            "https://www.googleapis.com/oauth2/v2/userinfo"@))
    } else if provider_type == "azure_ad"@ {
        Some(("https://login.microsoftonline.com/common/oauth2/v2.0/authorize"@,
            "https://login.microsoftonline.com/common/oauth2/v2.0/token"@, "https://graph.microsoft.com/v1.0/me"@))
    } else if provider_type == "bitbucket"@ {
        Some(("https://bitbucket.org/site/oauth2/authorize"@, "https://bitbucket.org/site/oauth2/access_token"@,
            "https://api.bitbucket.org/2.0/user"@))
    } else {
        None
    }
}

/// The endpoints a new provider gets: those of the request, and for the
/// missing ones the defaults of its type (empty texts and no user-info
/// endpoint for an unknown type).
pub open spec fn provider_urls(
    provider_type: Seq<char>,
    auth: Option<Seq<char>>,
    token: Option<Seq<char>>,
    user: Option<Seq<char>>,
) -> (Seq<char>, Seq<char>, Option<Seq<char>>) {
    let d = default_endpoints(provider_type);
    (
        match auth {
            Some(a) => a,
            None => match d {
                Some(e) => e.0,
                None => Seq::empty(),
            },
        },
        match token {
            Some(t) => t,
            None => match d {
                Some(e) => e.1,
                None => Seq::empty(),
            },
        },
        match user {
            Some(u) => Some(u),
            None => match d {
                Some(e) => Some(e.2),
                None => None,
            },
        },
    )
}

fn endpoints_of(provider_type: &str) -> (r: Option<(&'static str, &'static str, &'static str)>)
    ensures
        match r {
            Some(e) => default_endpoints(provider_type@) == Some((e.0@, e.1@, e.2@)),
            None => default_endpoints(provider_type@) is None,
        },
{
    if str_eq(provider_type, "github") {
        Some(("https://github.com/login/oauth/authorize", "https://github.com/login/oauth/access_token",
            "https://api.github.com/user"))
    } else if str_eq(provider_type, "gitlab") {
        Some(("https://gitlab.com/oauth/authorize", "https://gitlab.com/oauth/token",
            "https://gitlab.com/api/v4/user"))
    } else if str_eq(provider_type, "google") {
        Some(("https://accounts.google.com/o/oauth2/v2/auth", "https://oauth2.googleapis.com/token",
            "https://www.googleapis.com/oauth2/v2/userinfo"))
    } else if str_eq(provider_type, "azure_ad") {
        Some(("https://login.microsoftonline.com/common/oauth2/v2.0/authorize",
            "https://login.microsoftonline.com/common/oauth2/v2.0/token", "https://graph.microsoft.com/v1.0/me"))
    } else if str_eq(provider_type, "bitbucket") {
        Some(("https://bitbucket.org/site/oauth2/authorize", "https://bitbucket.org/site/oauth2/access_token",
            "https://api.bitbucket.org/2.0/user"))
    } else {
        None
    }
}

/// The authorization, token and user-info endpoints of a new provider.
pub fn get_default_provider_urls(provider_type: &str, req: &CreateOAuthProviderRequest) -> (r: (String, String, Option<String>))
    ensures
        (r.0@, r.1@, opt_view(r.2)) == provider_urls(provider_type@, opt_view(req.authorization_url),
            opt_view(req.token_url), opt_view(req.userinfo_url)),
{
    let d = endpoints_of(provider_type);
    let auth = match &req.authorization_url {
        Some(a) => owned(a.as_str()),
        None => match d {
            Some(e) => owned(e.0),
            None => String::new(),
        },
    };
    let token = match &req.token_url {
        Some(t) => owned(t.as_str()),
        None => match d {
            Some(e) => owned(e.1),
            None => String::new(),
        },
    };
    let user = match &req.userinfo_url {
        Some(u) => Some(owned(u.as_str())),
        None => match d {
            Some(e) => Some(owned(e.2)),
            None => None,
        },
    };
    (auth, token, user)
}

/// The scopes a new provider of a known type asks for by default.
pub open spec fn default_scopes(provider_type: Seq<char>) -> Seq<Seq<char>> {
    if provider_type == "github"@ {
        seq!["user:email"@]
    } else if provider_type == "gitlab"@ {
        seq!["read_user"@]
    } else if provider_type == "google"@ || provider_type == "azure_ad"@ {
        seq!["openid"@, "email"@, "profile"@]
    } else if provider_type == "bitbucket"@ {
        seq!["account"@]
    } else {
        Seq::empty()
    }
}

/// The default scopes of a provider type.
pub fn get_default_scopes(provider_type: &str) -> (r: Vec<String>)
    ensures
        string_views(r@) == default_scopes(provider_type@),
{
    let mut v: Vec<String> = Vec::new();
    if str_eq(provider_type, "github") {
        v.push(owned("user:email"));
    } else if str_eq(provider_type, "gitlab") {
        v.push(owned("read_user"));
    } else if str_eq(provider_type, "google") || str_eq(provider_type, "azure_ad") {
        v.push(owned("openid"));
        v.push(owned("email"));
        v.push(owned("profile"));
    } else if str_eq(provider_type, "bitbucket") {
        v.push(owned("account"));
    }
    assert(string_views(v@) =~= default_scopes(provider_type@));
    v
}

/// A provider name is made of lowercase ASCII letters, digits and `_`.
pub open spec fn valid_provider_name(name: Seq<char>) -> bool {
    forall|i: int| 0 <= i < name.len() ==> ('a' <= #[trigger] name[i] <= 'z' || '0' <= name[i] <= '9' || name[i] == '_')
}

/// Checks the name of a new provider; another is a bad request.
pub fn check_provider_name(name: &str) -> (r: Result<(), AppError>)
    ensures
        r is Ok <==> valid_provider_name(name@),
        r matches Err(e) ==> e matches AppError::BadRequest(m)
            && m@ == "Provider name must be lowercase alphanumeric with underscores"@,
{
    let cs = chars_of(name);
    let mut i: usize = 0;
    while i < cs.len()
        invariant
            cs@ == name@,
            i <= cs.len(),
            forall|j: int| 0 <= j < i ==> ('a' <= #[trigger] cs@[j] <= 'z' || '0' <= cs@[j] <= '9' || cs@[j] == '_'),
        decreases cs.len() - i,
    {
        let c = cs[i];
        if !(('a' <= c && c <= 'z') || ('0' <= c && c <= '9') || c == '_') {
            return Err(AppError::bad_request("Provider name must be lowercase alphanumeric with underscores"));
        }
        i = i + 1;
    }
    Ok(())
}

/// The columns that an update request sets, in their fixed order.
pub open spec fn provider_update_columns(req: UpdateOAuthProviderRequest) -> Seq<Seq<char>> {
    let s1 = push_if(Seq::empty(), req.display_name is Some, "display_name"@);
    let s2 = push_if(s1, req.client_id is Some, "client_id"@);
    let s3 = push_if(s2, req.client_secret is Some, "client_secret_encrypted"@);
    let s4 = push_if(s3, req.authorization_url is Some, "authorization_url"@);
    let s5 = push_if(s4, req.token_url is Some, "token_url"@);
    let s6 = push_if(s5, req.userinfo_url is Some, "userinfo_url"@);
    let s7 = push_if(s6, req.scopes is Some, "scopes"@);
    let s8 = push_if(s7, req.icon is Some, "icon"@);
    let s9 = push_if(s8, req.enabled is Some, "enabled"@);
    push_if(s9, req.sort_order is Some, "sort_order"@)
}

/// The assignments of an update: `updated_at = NOW()`, then each column set
/// to the next numbered parameter from `$2` on (`$1` is the provider id).
pub open spec fn set_assignments(cols: Seq<Seq<char>>) -> Seq<char>
    decreases cols.len(),
{
    if cols.len() == 0 {
        "updated_at = NOW()"@
    } else {
        set_assignments(cols.drop_last()) + ", "@ + cols.last() + " = $"@ + decimal_of((cols.len() + 1) as nat)
    }
}

/// The statement that updates a provider.
pub open spec fn provider_update_statement(req: UpdateOAuthProviderRequest) -> Seq<char> {
    "UPDATE oauth_providers SET "@ + set_assignments(provider_update_columns(req)) + " WHERE id = $1 RETURNING *"@
}

fn assign_if(sql: &mut String, cols: &mut Vec<&'static str>, on: bool, col: &'static str)
    requires
        old(cols)@.len() < 100,
        old(sql)@ == set_assignments(str_views(old(cols)@)),
    ensures
        str_views(final(cols)@) == push_if(str_views(old(cols)@), on, col@),
        final(cols)@.len() <= old(cols)@.len() + 1,
        final(sql)@ == set_assignments(str_views(final(cols)@)),
{
    if on {
        let ghost before = cols@;
        cols.push(col);
        let n = cols.len() + 1;
        let digits = u64_to_decimal(n as u64);
        let d = string_of(&digits);
        let piece = join3(", ", col, " = $");
        sql.append(piece.as_str());
        sql.append(d.as_str());
        proof {
            assert(str_views(cols@) =~= str_views(before).push(col@));
            assert(str_views(cols@).drop_last() =~= str_views(before));
        }
    }
}

/// The statement that applies an update request to a provider, with one
/// numbered parameter per field that is set.
pub fn provider_update_sql(req: &UpdateOAuthProviderRequest) -> (r: String)
    ensures
        r@ == provider_update_statement(*req),
{
    let mut cols: Vec<&'static str> = Vec::new();
    let mut sql = owned("updated_at = NOW()");
    assert(str_views(cols@) =~= Seq::<Seq<char>>::empty());
    assign_if(&mut sql, &mut cols, req.display_name.is_some(), "display_name");
    assign_if(&mut sql, &mut cols, req.client_id.is_some(), "client_id");
    assign_if(&mut sql, &mut cols, req.client_secret.is_some(), "client_secret_encrypted");
    assign_if(&mut sql, &mut cols, req.authorization_url.is_some(), "authorization_url");
    assign_if(&mut sql, &mut cols, req.token_url.is_some(), "token_url");
    assign_if(&mut sql, &mut cols, req.userinfo_url.is_some(), "userinfo_url");
    assign_if(&mut sql, &mut cols, req.scopes.is_some(), "scopes");
    assign_if(&mut sql, &mut cols, req.icon.is_some(), "icon");
    assign_if(&mut sql, &mut cols, req.enabled.is_some(), "enabled");
    assign_if(&mut sql, &mut cols, req.sort_order.is_some(), "sort_order");
    join3("UPDATE oauth_providers SET ", sql.as_str(), " WHERE id = $1 RETURNING *")
}

/// Whether a login provider is offered on the login page: a built-in one
/// when its credentials are configured, another one when its stored client
/// id and secret are both non-empty.
pub open spec fn provider_offered(c: OAuthConfig, name: Seq<char>, client_id: Seq<char>, client_secret: Seq<char>) -> bool {
    if builtin_provider(name) {
        builtin_credentials(c, name) is Some
    } else {
        client_id.len() > 0 && client_secret.len() > 0
    }
}

/// Whether an enabled provider, with the client id and secret stored for
/// it, is listed among the login providers.
pub fn is_provider_offered(config: &Config, name: &str, client_id: &str, client_secret: &str) -> (r: bool)
    ensures
        r == provider_offered(config.oauth, name@, client_id@, client_secret@),
{
    if is_builtin_provider(name) {
        get_builtin_credentials(config, name).is_some()
    } else {
        !client_id.is_empty() && !client_secret.is_empty()
    }
}

/// The client id sent to a provider's authorization page: a built-in
/// provider's comes from the configuration, another's is the stored one,
/// which must be non-empty.
pub open spec fn spec_provider_client_id(c: OAuthConfig, name: Seq<char>, client_id: Seq<char>) -> Result<Seq<char>, Seq<char>> {
    if builtin_provider(name) {
        match builtin_credentials(c, name) {
            Some(creds) => Ok(creds.0),
            None => Err(name + " OAuth not configured in .env"@),
        }
    } else if client_id.len() == 0 {
        Err(name + " OAuth client_id not configured"@)
    } else {
        Ok(client_id)
    }
}

/// The client id for the redirect to a provider; a provider without one is
/// a bad request.
pub fn provider_client_id(config: &Config, name: &str, client_id: &str) -> (r: Result<String, AppError>)
    ensures
        match spec_provider_client_id(config.oauth, name@, client_id@) {
            Ok(id) => r matches Ok(s) && s@ == id,
            Err(m) => r matches Err(AppError::BadRequest(msg)) && msg@ == m,
        },
{
    if is_builtin_provider(name) {
        match get_builtin_credentials(config, name) {
            Some((id, _secret)) => Ok(id),
            None => Err(AppError::BadRequest(join2(name, " OAuth not configured in .env"))),
        }
    } else if client_id.is_empty() {
        Err(AppError::BadRequest(join2(name, " OAuth client_id not configured")))
    } else {
        Ok(owned(client_id))
    }
}

/// The client id and secret used to exchange a code with a provider: a
/// built-in provider's come from the configuration, another's are the stored
/// ones, which must both be non-empty.
pub open spec fn spec_provider_secrets(
    c: OAuthConfig,
    name: Seq<char>,
    client_id: Seq<char>,
    client_secret: Seq<char>,
) -> Result<(Seq<char>, Seq<char>), Seq<char>> {
    if builtin_provider(name) {
        match builtin_credentials(c, name) {
            Some(creds) => Ok(creds),
            None => Err(name + " OAuth not configured in .env"@),
        }
    } else if client_id.len() == 0 || client_secret.len() == 0 {
        Err(name + " OAuth credentials not configured"@)
    } else {
        Ok((client_id, client_secret))
    }
}

/// The credentials for the code exchange with a provider; a provider
/// without them is a bad request.
pub fn provider_secrets(config: &Config, name: &str, client_id: &str, client_secret: &str) -> (r: Result<(String, String), AppError>)
    ensures
        match spec_provider_secrets(config.oauth, name@, client_id@, client_secret@) {
            Ok(creds) => r matches Ok((a, b)) && a@ == creds.0 && b@ == creds.1,
            Err(m) => r matches Err(AppError::BadRequest(msg)) && msg@ == m,
        },
{
    if is_builtin_provider(name) {
        match get_builtin_credentials(config, name) {
            Some(creds) => Ok(creds),
            None => Err(AppError::BadRequest(join2(name, " OAuth not configured in .env"))),
        }
    } else if client_id.is_empty() || client_secret.is_empty() {
        Err(AppError::BadRequest(join2(name, " OAuth credentials not configured")))
    } else {
        Ok((owned(client_id), owned(client_secret)))
    }
}

/// `{base_url}/api/v1/oauth/{name}` and a suffix: where the login with a
/// provider starts (`/authorize`) and where the provider sends the user back
/// (`/callback`).
pub open spec fn provider_endpoint(base_url: Seq<char>, name: Seq<char>, suffix: Seq<char>) -> Seq<char> {
    base_url + "/api/v1/oauth/"@ + name + suffix
}

/// The URL that starts the login with a provider.
pub fn provider_authorize_url(base_url: &str, name: &str) -> (r: String)
    ensures
        r@ == provider_endpoint(base_url@, name@, "/authorize"@),
{
    let mut r = join3(base_url, "/api/v1/oauth/", name);
    r.append("/authorize");
    r
}

/// The redirect URI registered with a provider.
pub fn provider_callback_uri(base_url: &str, name: &str) -> (r: String)
    ensures
        r@ == provider_endpoint(base_url@, name@, "/callback"@),
{
    let mut r = join3(base_url, "/api/v1/oauth/", name);
    r.append("/callback");
    r
}

/// What a provider's redirect back carries: the code is required first; an
/// error reported by the provider (with its description, empty when absent)
/// refuses the login.
pub open spec fn spec_callback_code(
    code: Option<Seq<char>>,
    error: Option<Seq<char>>,
    description: Option<Seq<char>>,
) -> Result<Seq<char>, Seq<char>> {
    match code {
        None => Err("Missing authorization code"@),
        Some(c) => match error {
            Some(e) => Err("OAuth error: "@ + e + " - "@ + match description {
                Some(d) => d,
                None => Seq::empty(),
            }),
            None => Ok(c),
        },
    }
}

/// The authorization code of a provider's redirect back; a refusal is a bad
/// request.
pub fn callback_code(code: Option<&str>, error: Option<&str>, description: Option<&str>) -> (r: Result<String, AppError>)
    ensures
        match spec_callback_code(opt_str_view(code), opt_str_view(error), opt_str_view(description)) {
            Ok(c) => r matches Ok(s) && s@ == c,
            Err(m) => r matches Err(AppError::BadRequest(msg)) && msg@ == m,
        },
{
    match code {
        None => Err(AppError::bad_request("Missing authorization code")),
        Some(c) => match error {
            Some(e) => {
                let mut msg = join3("OAuth error: ", e, " - ");
                match description {
                    Some(d) => msg.append(d),
                    None => {},
                }
                proof {
                    if description is None {
                        assert(msg@ =~= "OAuth error: "@ + e@ + " - "@ + Seq::<char>::empty());
                    }
                }
                Err(AppError::BadRequest(msg))
            },
            None => Ok(owned(c)),
        },
    }
}

/// A provider is listed on the login page exactly when the code exchange
/// with it has credentials, and then the redirect to it has a client id.
pub proof fn law_offered_providers_can_log_in(c: OAuthConfig, name: Seq<char>, client_id: Seq<char>, client_secret: Seq<char>)
    ensures
        provider_offered(c, name, client_id, client_secret) <==> spec_provider_secrets(c, name, client_id, client_secret) is Ok,
        provider_offered(c, name, client_id, client_secret) ==> spec_provider_client_id(c, name, client_id) is Ok,
{
}

/// Whether a user may unlink one of their external identities: one who has
/// no password must keep at least one other identity.
pub open spec fn unlink_allowed(has_password: bool, identity_count: int) -> bool {
    has_password || identity_count > 1
}

/// Checks that unlinking an identity leaves the user a way to sign in; a
/// refusal is a bad request.
pub fn check_unlink_identity(has_password: bool, identity_count: i64) -> (r: Result<(), AppError>)
    ensures
        unlink_allowed(has_password, identity_count as int) ==> r is Ok,
        !unlink_allowed(has_password, identity_count as int) ==> (r matches Err(AppError::BadRequest(m))
            && m@ == "Cannot unlink last OAuth identity without a password set"@),
{
    if !has_password && identity_count <= 1 {
        Err(AppError::bad_request("Cannot unlink last OAuth identity without a password set"))
    } else {
        Ok(())
    }
}

/// The answer to an unlink once the deletion ran: no deleted row means the
/// identity is not one of the user's.
pub fn unlink_outcome(rows_affected: u64) -> (r: Result<(), AppError>)
    ensures
        rows_affected > 0 ==> r is Ok,
        rows_affected == 0 ==> (r matches Err(AppError::NotFound(m)) && m@ == "Identity not found"@),
{
    if rows_affected == 0 {
        Err(AppError::not_found("Identity not found"))
    } else {
        Ok(())
    }
}

/// A user without a password who unlinks an identity with the user's
/// agreement still has one left to sign in with.
pub proof fn law_unlink_keeps_a_sign_in(has_password: bool, identity_count: int)
    requires
        unlink_allowed(has_password, identity_count),
        !has_password,
    ensures
        identity_count - 1 >= 1,
{
}

/// Text with every trailing occurrence of `suffix` removed.
fn trimmed_end(text: &str, suffix: &str) -> (r: String)
    ensures
        r@ == trim_end_all(text@, suffix@),
{
    let cs = chars_of(text);
    let ps = chars_of(suffix);
    string_of(&trim_end_matches(&cs, &ps))
}

/// Where a signed-out user who asks to authorize an application is sent:
/// the sign-in page of the instance, told to come back to the request.
pub open spec fn spec_login_redirect(base_url: Seq<char>, request_uri: &str) -> Seq<char> {
    trim_end_all(base_url, "/"@) + "/login?redirect="@ + percent_encoded(request_uri.spec_bytes())
}

/// The sign-in redirect of an authorization request without a session.
pub fn login_redirect_url(base_url: &str, request_uri: &str) -> (r: String)
    ensures
        r@ == spec_login_redirect(base_url@, request_uri),
{
    let base = trimmed_end(base_url, "/");
    let encoded = url_encode(request_uri);
    join3(base.as_str(), "/login?redirect=", encoded.as_str())
}

/// The state sent to a login provider: the one asked for, else 16 random
/// bytes in hexadecimal.
pub fn provider_state(state: Option<&str>) -> (r: String)
    ensures
        state matches Some(s) ==> r@ == s@,
        state is None ==> exists|b: Seq<u8>| b.len() == 16 && r@ == hex_lower(b),
{
    match state {
        Some(s) => owned(s),
        None => {
            let bytes = random_bytes(16);
            let r = crate::crypto::hex_encode(bytes.as_slice());
            assert(bytes@.len() == 16 && r@ == hex_lower(bytes@));
            r
        },
    }
}

/// The address of a provider's authorization page with the parameters of
/// the login: client id, redirect URI, `code` as response type, the scopes
/// separated by spaces, and the state, each percent-encoded.
pub open spec fn spec_provider_login_url(
    authorization_url: Seq<char>,
    client_id: &str,
    redirect_uri: &str,
    scope: &str,
    state: &str,
) -> Seq<char> {
    authorization_url + "?client_id="@ + percent_encoded(client_id.spec_bytes()) + "&redirect_uri="@
        + percent_encoded(redirect_uri.spec_bytes()) + "&response_type=code&scope="@ + percent_encoded(
        scope.spec_bytes(),
    ) + "&state="@ + percent_encoded(state.spec_bytes())
}

/// Builds the redirect to a provider's authorization page; `scope` is the
/// provider's scopes joined with spaces.
pub fn provider_login_url(authorization_url: &str, client_id: &str, redirect_uri: &str, scope: &str, state: &str) -> (r:
    String)
    ensures
        r@ == spec_provider_login_url(authorization_url@, client_id, redirect_uri, scope, state),
{
    let a = url_encode(client_id);
    let b = url_encode(redirect_uri);
    let c = url_encode(scope);
    let d = url_encode(state);
    let mut r = join3(authorization_url, "?client_id=", a.as_str());
    r.append("&redirect_uri=");
    r.append(b.as_str());
    r.append("&response_type=code&scope=");
    r.append(c.as_str());
    r.append("&state=");
    r.append(d.as_str());
    r
}

/// The scopes of a provider as one parameter: separated by spaces.
pub fn provider_scope(scopes: &Vec<String>) -> (r: String)
    ensures
        r@ == joined(string_seq_views(scopes@), " "@),
{
    join_with(scopes, " ")
}

/// Where the user lands after a login with a provider: the callback page of
/// the web front end (the base URL without its `/api/v1` ending) with the
/// session token and the provider, percent-encoded.
pub open spec fn spec_frontend_login_url(base_url: Seq<char>, token: &str, provider: &str) -> Seq<char> {
    trim_end_all(base_url, "/api/v1"@) + "/oauth/callback?token="@ + percent_encoded(token.spec_bytes())
        + "&provider="@ + percent_encoded(provider.spec_bytes())
}

/// The redirect to the web front end after a login with a provider.
pub fn frontend_login_url(base_url: &str, token: &str, provider: &str) -> (r: String)
    ensures
        r@ == spec_frontend_login_url(base_url@, token, provider),
{
    let base = trimmed_end(base_url, "/api/v1");
    let t = url_encode(token);
    let p = url_encode(provider);
    let mut r = join3(base.as_str(), "/oauth/callback?token=", t.as_str());
    r.append("&provider=");
    r.append(p.as_str());
    r
}

/// Reads what a provider's token endpoint answered, in order: an `error`
/// field refuses the login (a bad request carrying the description, empty
/// when absent); without an `access_token`, or without a user-info URL
/// configured for the provider, the exchange fails (an internal error);
/// else the access token and the user-info URL.
pub fn token_reply(
    error: Option<&str>,
    description: Option<&str>,
    access_token: Option<&str>,
    userinfo_url: Option<&str>,
) -> (r: Result<(String, String), AppError>)
    ensures
        match error {
            Some(e) => r matches Err(AppError::BadRequest(m)) && m@ == "OAuth error: "@ + e@ + " - "@ + match description {
                Some(d) => d@,
                None => Seq::empty(),
            },
            None => match access_token {
                None => r matches Err(AppError::InternalError(m)) && m@ == "No access_token in response"@,
                Some(t) => match userinfo_url {
                    None => r matches Err(AppError::InternalError(m)) && m@ == "No userinfo_url configured"@,
                    Some(u) => r matches Ok((a, b)) && a@ == t@ && b@ == u@,
                },
            },
        },
{
    if let Some(e) = error {
        let mut msg = join3("OAuth error: ", e, " - ");
        if let Some(d) = description {
            msg.append(d);
        }
        proof {
            if description is None {
                assert(msg@ =~= "OAuth error: "@ + e@ + " - "@ + Seq::<char>::empty());
            }
        }
        return Err(AppError::BadRequest(msg));
    }
    match access_token {
        None => Err(AppError::internal("No access_token in response")),
        Some(t) => match userinfo_url {
            None => Err(AppError::internal("No userinfo_url configured")),
            Some(u) => Ok((owned(t), owned(u))),
        },
    }
}

/// The user-info fields read for the id, user name, email and avatar: the
/// provider's mappings where it has them, else `id`, `login`, `email` and
/// `avatar_url`.
pub fn userinfo_fields(
    id: Option<&str>,
    username: Option<&str>,
    email: Option<&str>,
    avatar: Option<&str>,
) -> (r: (String, String, String, String))
    ensures
        r.0@ == (match id { Some(f) => f@, None => "id"@ }),
        r.1@ == (match username { Some(f) => f@, None => "login"@ }),
        r.2@ == (match email { Some(f) => f@, None => "email"@ }),
        r.3@ == (match avatar { Some(f) => f@, None => "avatar_url"@ }),
{
    let a = match id { Some(f) => owned(f), None => owned("id") };
    let b = match username { Some(f) => owned(f), None => owned("login") };
    let c = match email { Some(f) => owned(f), None => owned("email") };
    let d = match avatar { Some(f) => owned(f), None => owned("avatar_url") };
    (a, b, c, d)
}

/// `s` with `name` pushed when `on` holds `x` exactly when `s` does or `on`
/// holds and `x` is `name`.
proof fn lemma_push_if_contains(s: Seq<Seq<char>>, on: bool, name: Seq<char>, x: Seq<char>)
    ensures
        push_if(s, on, name).contains(x) <==> (s.contains(x) || (on && x == name)),
{
    if on {
        if s.contains(x) {
            let i = choose|i: int| 0 <= i < s.len() && s[i] == x;
            assert(s.push(name)[i] == x);
        }
        if x == name {
            assert(s.push(name)[s.len() as int] == x);
        }
        if s.push(name).contains(x) && x != name {
            let i = choose|i: int| 0 <= i < s.push(name).len() && s.push(name)[i] == x;
            assert(i < s.len());
            assert(s[i] == x);
        }
    }
}

/// The credentials of a built-in provider are configured exactly when the
/// provider is among the enabled ones; `azure` stands for `azure_ad`, and
/// any other name has none.
pub proof fn law_builtin_credentials_match_enabled(c: OAuthConfig, name: Seq<char>)
    ensures
        builtin_provider(name) ==> ((builtin_credentials(c, name) is Some) <==> enabled_provider_names(c).contains(name)),
        builtin_credentials(c, "azure"@) == builtin_credentials(c, "azure_ad"@),
        !builtin_provider(name) && name != "azure"@ ==> builtin_credentials(c, name) is None,
{
    reveal_strlit("github");
    reveal_strlit("gitlab");
    reveal_strlit("google");
    reveal_strlit("azure_ad");
    reveal_strlit("azure");
    reveal_strlit("bitbucket");
    let s0: Seq<Seq<char>> = Seq::empty();
    let s1 = push_if(s0, provider_enabled(c.github), "github"@);
    let s2 = push_if(s1, provider_enabled(c.gitlab), "gitlab"@);
    let s3 = push_if(s2, provider_enabled(c.google), "google"@);
    let s4 = push_if(s3, provider_enabled(c.azure_ad), "azure_ad"@);
    lemma_push_if_contains(s0, provider_enabled(c.github), "github"@, name);
    lemma_push_if_contains(s1, provider_enabled(c.gitlab), "gitlab"@, name);
    lemma_push_if_contains(s2, provider_enabled(c.google), "google"@, name);
    lemma_push_if_contains(s3, provider_enabled(c.azure_ad), "azure_ad"@, name);
    lemma_push_if_contains(s4, provider_enabled(c.bitbucket), "bitbucket"@, name);
    assert(!s0.contains(name));
    assert("github"@ != "gitlab"@ && "github"@ != "google"@ && "github"@ != "azure_ad"@ && "github"@ != "bitbucket"@) by {
        assert("github"@[3] != "gitlab"@[3]);
        assert("github"@[1] != "google"@[1]);
        assert("github"@.len() != "azure_ad"@.len());
        assert("github"@[0] != "bitbucket"@[0]);
    }
    assert("gitlab"@ != "google"@ && "gitlab"@ != "azure_ad"@ && "gitlab"@ != "bitbucket"@) by {
        assert("gitlab"@[1] != "google"@[1]);
        assert("gitlab"@.len() != "azure_ad"@.len());
        assert("gitlab"@[0] != "bitbucket"@[0]);
    }
    assert("google"@ != "azure_ad"@ && "google"@ != "bitbucket"@) by {
        assert("google"@.len() != "azure_ad"@.len());
        assert("google"@[0] != "bitbucket"@[0]);
    }
    assert("azure_ad"@ != "bitbucket"@) by {
        assert("azure_ad"@[0] != "bitbucket"@[0]);
    }
    assert("azure"@ != "azure_ad"@) by {
        assert("azure"@.len() != "azure_ad"@.len());
    }
    assert("azure"@ != "github"@ && "azure"@ != "gitlab"@ && "azure"@ != "google"@ && "azure"@ != "bitbucket"@) by {
        assert("azure"@[0] != "github"@[0]);
        assert("azure"@[0] != "gitlab"@[0]);
        assert("azure"@[0] != "google"@[0]);
        assert("azure"@[0] != "bitbucket"@[0]);
    }
}

// ---------------------------------------------------------------------------
// Authorization codes
// ---------------------------------------------------------------------------

/// An authorization code as stored: what it was issued for, and whether it
/// was used or has expired.
pub struct AuthCode {
    pub redirect_uri: String,
    pub code_challenge: Option<String>,
    pub code_challenge_method: Option<String>,
    pub used: bool,
    pub expired: bool,
}

/// What redeeming a code gives and leaves: a code that was used or has
/// expired is refused; else the checks of the exchange decide, and only a
/// successful exchange marks the code used.
pub open spec fn redeem_outcome(code: AuthCode, redirect_uri: Seq<char>, verifier: Option<&str>) -> (Result<(), Seq<char>>, AuthCode) {
    if code.used || code.expired {
        (Err("Invalid or expired authorization code"@), code)
    } else {
        match code_exchange_denial(
            code.redirect_uri@,
            redirect_uri,
            opt_view(code.code_challenge),
            opt_view(code.code_challenge_method),
            verifier,
        ) {
            Some(m) => (Err(m), code),
            None => (Ok(()), AuthCode { used: true, ..code }),
        }
    }
}

/// Redeems an authorization code for a token exchange; a refusal is a bad
/// request.
pub fn redeem_code(code: &mut AuthCode, redirect_uri: &str, verifier: Option<&str>) -> (r: Result<(), AppError>)
    ensures
        *final(code) == redeem_outcome(*old(code), redirect_uri@, verifier).1,
        match redeem_outcome(*old(code), redirect_uri@, verifier).0 {
            Ok(()) => r is Ok,
            Err(m) => r matches Err(AppError::BadRequest(msg)) && msg@ == m,
        },
{
    if code.used || code.expired {
        return Err(AppError::bad_request("Invalid or expired authorization code"));
    }
    let challenge = match &code.code_challenge {
        Some(c) => Some(c.as_str()),
        None => None,
    };
    let method = match &code.code_challenge_method {
        Some(m) => Some(m.as_str()),
        None => None,
    };
    proof {
        assert(opt_str_view(challenge) == opt_view(code.code_challenge));
        assert(opt_str_view(method) == opt_view(code.code_challenge_method));
    }
    let checked = check_code_exchange(code.redirect_uri.as_str(), redirect_uri, challenge, method, verifier);
    match checked {
        Ok(()) => {
            code.used = true;
            Ok(())
        },
        Err(e) => Err(e),
    }
}

/// An authorization code is good for one exchange: once an exchange with
/// it succeeded, every later one is refused, whatever it presents; a
/// refused exchange leaves the code as it was.
pub proof fn law_code_redeemed_once(
    code: AuthCode,
    redirect_uri: Seq<char>,
    verifier: Option<&str>,
    later_redirect_uri: Seq<char>,
    later_verifier: Option<&str>,
)
    ensures
        redeem_outcome(code, redirect_uri, verifier).0 is Ok ==> redeem_outcome(
            redeem_outcome(code, redirect_uri, verifier).1,
            later_redirect_uri,
            later_verifier,
        ).0 == Err::<(), Seq<char>>("Invalid or expired authorization code"@),
        redeem_outcome(code, redirect_uri, verifier).0 is Err ==> redeem_outcome(code, redirect_uri, verifier).1 == code,
{
}

// ---------------------------------------------------------------------------
// Linking external accounts
// ---------------------------------------------------------------------------

/// What a login through a provider does with the external account.
#[derive(PartialEq, Eq, Structural, Debug, Clone, Copy)]
pub enum LinkAction {
    /// The account is linked to this user already: refresh the link.
    UpdateIdentity(i64),
    /// A user has the account's email: link the account to that user.
    LinkUser(i64),
    /// Nobody matches: create a user and link the account to it.
    CreateUser,
}

/// The action for an external account, from the user its identity is
/// linked to (if any) and the user with its email (if it gave one and
/// someone has it).
pub open spec fn spec_link_action(identity_user: Option<i64>, email_user: Option<i64>) -> LinkAction {
    match identity_user {
        Some(u) => LinkAction::UpdateIdentity(u),
        None => match email_user {
            Some(u) => LinkAction::LinkUser(u),
            None => LinkAction::CreateUser,
        },
    }
}

/// Decides what a provider login does with the external account.
pub fn link_action(identity_user: Option<i64>, email_user: Option<i64>) -> (r: LinkAction)
    ensures
        r == spec_link_action(identity_user, email_user),
{
    match identity_user {
        Some(u) => LinkAction::UpdateIdentity(u),
        None => match email_user {
            Some(u) => LinkAction::LinkUser(u),
            None => LinkAction::CreateUser,
        },
    }
}

/// The user an external account of a provider is linked to.
pub open spec fn linked_user(links: Map<(i64, Seq<char>), i64>, provider: i64, uid: Seq<char>) -> Option<i64> {
    if links.dom().contains((provider, uid)) {
        Some(links[(provider, uid)])
    } else {
        None
    }
}

/// A provider login applied to the links: the user signed in, the links
/// after it, and whether a user was created (`created` is the id a new
/// user gets).
pub open spec fn apply_link(
    links: Map<(i64, Seq<char>), i64>,
    provider: i64,
    uid: Seq<char>,
    action: LinkAction,
    created: i64,
) -> (i64, Map<(i64, Seq<char>), i64>, bool) {
    match action {
        LinkAction::UpdateIdentity(u) => (u, links, false),
        LinkAction::LinkUser(u) => (u, links.insert((provider, uid), u), false),
        LinkAction::CreateUser => (created, links.insert((provider, uid), created), true),
    }
}

/// Two logins through a provider with the same external account sign in
/// the same user, and the second neither creates a user nor adds a link.
pub proof fn law_external_account_linked_once(
    links: Map<(i64, Seq<char>), i64>,
    provider: i64,
    uid: Seq<char>,
    email_user: Option<i64>,
    created: i64,
    later_email_user: Option<i64>,
    later_created: i64,
)
    ensures
        ({
            let first = apply_link(links, provider, uid, spec_link_action(linked_user(links, provider, uid), email_user), created);
            let second = apply_link(
                first.1,
                provider,
                uid,
                spec_link_action(linked_user(first.1, provider, uid), later_email_user),
                later_created,
            );
            &&& second.0 == first.0
            &&& second.1 == first.1
            &&& !second.2
        }),
{
}

/// The five built-in provider type names are different from one another.
proof fn lemma_provider_types_distinct()
    ensures
        "github"@ != "gitlab"@,
        "github"@ != "google"@,
        "github"@ != "azure_ad"@,
        "github"@ != "bitbucket"@,
        "gitlab"@ != "google"@,
        "gitlab"@ != "azure_ad"@,
        "gitlab"@ != "bitbucket"@,
        "google"@ != "azure_ad"@,
        "google"@ != "bitbucket"@,
        "azure_ad"@ != "bitbucket"@,
{
    reveal_strlit("github");
    reveal_strlit("gitlab");
    reveal_strlit("google");
    reveal_strlit("azure_ad");
    reveal_strlit("bitbucket");
    assert("github"@[3] != "gitlab"@[3]);
    assert("github"@[1] != "google"@[1]);
    assert("github"@.len() != "azure_ad"@.len());
    assert("github"@[0] != "bitbucket"@[0]);
    assert("gitlab"@[1] != "google"@[1]);
    assert("gitlab"@.len() != "azure_ad"@.len());
    assert("gitlab"@[0] != "bitbucket"@[0]);
    assert("google"@.len() != "azure_ad"@.len());
    assert("google"@[0] != "bitbucket"@[0]);
    assert("azure_ad"@[0] != "bitbucket"@[0]);
}

/// A new provider keeps every endpoint its request gives; each one it
/// leaves out is the documented endpoint of its built-in type: GitHub,
/// GitLab.com, Google, Microsoft identity platform v2.0 (`common` tenant,
/// user info from Microsoft Graph) and Bitbucket Cloud; an unknown type
/// gets empty endpoints and no user-info endpoint.
pub proof fn law_provider_endpoints(
    provider_type: Seq<char>,
    auth: Option<Seq<char>>,
    token: Option<Seq<char>>,
    user: Option<Seq<char>>,
)
    ensures
        auth matches Some(a) ==> provider_urls(provider_type, auth, token, user).0 == a,
        token matches Some(t) ==> provider_urls(provider_type, auth, token, user).1 == t,
        user matches Some(u) ==> provider_urls(provider_type, auth, token, user).2 == Some(u),
        provider_type == "github"@ ==> provider_urls(provider_type, None, None, None) == (
            "https://github.com/login/oauth/authorize"@,
            "https://github.com/login/oauth/access_token"@,
            Some("https://api.github.com/user"@),
        ),
        provider_type == "gitlab"@ ==> provider_urls(provider_type, None, None, None) == (
            "https://gitlab.com/oauth/authorize"@,
            "https://gitlab.com/oauth/token"@,
            Some("https://gitlab.com/api/v4/user"@),
        ),
        provider_type == "google"@ ==> provider_urls(provider_type, None, None, None) == (
            "https://accounts.google.com/o/oauth2/v2/auth"@,
            "https://oauth2.googleapis.com/token"@,
            Some("https://www.googleapis.com/oauth2/v2/userinfo"@),
        ),
        provider_type == "azure_ad"@ ==> provider_urls(provider_type, None, None, None) == (
            "https://login.microsoftonline.com/common/oauth2/v2.0/authorize"@,
            "https://login.microsoftonline.com/common/oauth2/v2.0/token"@,
            Some("https://graph.microsoft.com/v1.0/me"@),
        ),
        provider_type == "bitbucket"@ ==> provider_urls(provider_type, None, None, None) == (
            "https://bitbucket.org/site/oauth2/authorize"@,
            "https://bitbucket.org/site/oauth2/access_token"@,
            Some("https://api.bitbucket.org/2.0/user"@),
        ),
        !builtin_provider(provider_type) ==> provider_urls(provider_type, None, None, user) == (
            Seq::<char>::empty(),
            Seq::<char>::empty(),
            user,
        ),
{
    lemma_provider_types_distinct();
}

/// A new provider of a built-in type asks for the scopes its type
/// documents: `user:email` on GitHub, `read_user` on GitLab, `openid`,
/// `email` and `profile` on Google and Azure AD, `account` on Bitbucket;
/// any other type asks for none.
pub proof fn law_provider_default_scopes(provider_type: Seq<char>)
    ensures
        provider_type == "github"@ ==> default_scopes(provider_type) == seq!["user:email"@],
        provider_type == "gitlab"@ ==> default_scopes(provider_type) == seq!["read_user"@],
        provider_type == "google"@ ==> default_scopes(provider_type) == seq!["openid"@, "email"@, "profile"@],
        provider_type == "azure_ad"@ ==> default_scopes(provider_type) == seq!["openid"@, "email"@, "profile"@],
        provider_type == "bitbucket"@ ==> default_scopes(provider_type) == seq!["account"@],
        !builtin_provider(provider_type) ==> default_scopes(provider_type) == Seq::<Seq<char>>::empty(),
{
    lemma_provider_types_distinct();
}

} // verus!

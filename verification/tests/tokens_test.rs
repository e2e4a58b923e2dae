use gitfox::crypto::hash_token;
use gitfox::error::AppError;
use gitfox::tokens::{generate_token, has_scope, pat_expiry_days, pat_lookup_hash, token_last_four, PAT_PREFIX};

fn scopes(v: &[&str]) -> Vec<String> {
    v.iter().map(|s| s.to_string()).collect()
}

#[test]
fn admin_scope_grants_everything() {
    let s = scopes(&["admin"]);
    assert!(has_scope(&s, "write_repository"));
    assert!(has_scope(&s, "read_api"));
    assert!(has_scope(&s, "anything"));
}

#[test]
fn write_scope_grants_read() {
    let s = scopes(&["write_repository"]);
    assert!(has_scope(&s, "read_repository"));
    assert!(has_scope(&s, "write_repository"));
    assert!(!has_scope(&s, "read_api"));
}

#[test]
fn read_scope_does_not_grant_write() {
    let s = scopes(&["read_repository"]);
    assert!(has_scope(&s, "read_repository"));
    assert!(!has_scope(&s, "write_repository"));
}

#[test]
fn empty_scopes_grant_nothing() {
    let s: Vec<String> = Vec::new();
    assert!(!has_scope(&s, "read_api"));
}

#[test]
fn more_scopes_grant_no_less() {
    let fewer = scopes(&["write_api"]);
    let more = scopes(&["write_api", "read_user"]);
    for req in ["read_api", "write_api", "read_user", "admin"] {
        if has_scope(&fewer, req) {
            assert!(has_scope(&more, req));
        }
    }
}

#[test]
fn generated_token_has_prefix_and_hex_body() {
    let t = generate_token();
    assert!(t.starts_with(PAT_PREFIX));
    assert_eq!(PAT_PREFIX, "gitfox-pat_");
    let body = &t[PAT_PREFIX.len()..];
    assert_eq!(body.len(), 64);
    assert!(body.chars().all(|c| c.is_ascii_hexdigit() && !c.is_ascii_uppercase()));
    assert_ne!(generate_token(), t);
}

#[test]
fn hash_token_is_sha256_hex() {
    assert_eq!(hash_token("abc"), "ba7816bf8f01cfea414140de5dae2223b00361a396177a9cb410ff61f20015ad");
}

#[test]
fn pat_lookup_hash_only_for_prefixed_tokens() {
    assert_eq!(
        pat_lookup_hash("gitfox-pat_abc"),
        Some("8f7274828d6f61e3d06ae7c156ab6a1716e4d4a2593b1ef27490cb657cfe1b7d".to_string())
    );
    assert_eq!(pat_lookup_hash("glpat-abc"), None);
    assert_eq!(pat_lookup_hash(""), None);
}

#[test]
fn last_four_of_token() {
    assert_eq!(token_last_four("gitfox-pat_0123abcd"), "abcd");
    assert_eq!(token_last_four("wxyz"), "wxyz");
}

#[test]
fn expiry_zero_days_never_expires() {
    assert!(matches!(pat_expiry_days(Some(0), 30, 365), Ok(None)));
}

#[test]
fn expiry_over_maximum_is_refused() {
    match pat_expiry_days(Some(40), 30, 365) {
        Err(AppError::BadRequest(m)) => assert_eq!(m, "Expiration cannot exceed 30 days"),
        _ => panic!("expected a bad request"),
    }
}

#[test]
fn expiry_within_maximum_is_kept() {
    assert!(matches!(pat_expiry_days(Some(30), 30, 365), Ok(Some(30))));
    assert!(matches!(pat_expiry_days(Some(1000), 0, 0), Ok(Some(1000))));
}

#[test]
fn expiry_default_applies_when_unset() {
    assert!(matches!(pat_expiry_days(None, 0, 365), Ok(Some(365))));
    assert!(matches!(pat_expiry_days(None, 10, 0), Ok(None)));
}

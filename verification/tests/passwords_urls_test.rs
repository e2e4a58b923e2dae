use gitfox::auth::{basic_auth_outcome, has_pat_form, TokenInfo};
use gitfox::error::AppError;
use gitfox::login::{check_new_password, check_password, password_accepted};
use gitfox::oauth::{frontend_login_url, login_redirect_url, provider_login_url, provider_scope, provider_state};
use gitfox::registry::npm_password_check;
use gitfox::repository::raw_file;

fn hash_of(password: &str) -> String {
    bcrypt::hash(password, 4).unwrap()
}

#[test]
fn password_checks() {
    let h = hash_of("correct horse");
    assert!(password_accepted("correct horse", &h));
    assert!(!password_accepted("wrong", &h));
    assert!(!password_accepted("correct horse", "not-a-hash"));
    assert!(check_password("correct horse", &h).is_ok());
    match check_password("wrong", &h) {
        Err(AppError::Unauthorized(m)) => assert_eq!(m, "Invalid credentials"),
        other => panic!("unexpected {:?}", other),
    }
    match check_password("x", "not-a-hash") {
        Err(AppError::InternalError(m)) => assert!(m.starts_with("Password verification failed: ")),
        other => panic!("unexpected {:?}", other),
    }
    match npm_password_check("x", "not-a-hash") {
        Err(AppError::InternalError(m)) => assert_eq!(m, "Password verification failed"),
        other => panic!("unexpected {:?}", other),
    }
    match npm_password_check("wrong", &h) {
        Err(AppError::Unauthorized(m)) => assert_eq!(m, "Invalid credentials"),
        other => panic!("unexpected {:?}", other),
    }
    assert!(npm_password_check("correct horse", &h).is_ok());
}

#[test]
fn new_password_length() {
    assert!(check_new_password("12345678").is_ok());
    match check_new_password("1234567") {
        Err(AppError::BadRequest(m)) => assert_eq!(m, "Password must be at least 8 characters"),
        other => panic!("unexpected {:?}", other),
    }
    assert!(check_new_password("ééééé").is_ok());
}

#[test]
fn pat_forms() {
    assert!(has_pat_form("gitfox-pat_abc"));
    assert!(has_pat_form("glpat-abc"));
    assert!(!has_pat_form("gfoat_abc"));
    assert!(!has_pat_form("secret"));
}

#[test]
fn basic_auth_order() {
    let h = hash_of("pw-123456");
    let pat = TokenInfo::limited_access(1, "pat-user".to_string(), vec!["read_repository".to_string()]);
    let oauth = TokenInfo::limited_access(2, "oauth-user".to_string(), vec!["read_user".to_string()]);
    let account = Some((3, "carol".to_string(), h.clone()));

    let t = basic_auth_outcome("pw-123456", Some(pat), None, account.clone()).unwrap();
    assert_eq!(t.user_id, 1);
    let t = basic_auth_outcome("pw-123456", None, Some(oauth), account.clone()).unwrap();
    assert_eq!(t.user_id, 2);
    let t = basic_auth_outcome("pw-123456", None, None, account.clone()).unwrap();
    assert_eq!((t.user_id, t.username.as_str(), t.scopes.is_none()), (3, "carol", true));
    assert!(basic_auth_outcome("wrong", None, None, account).is_none());
    assert!(basic_auth_outcome("pw-123456", None, None, None).is_none());
}

#[test]
fn login_redirects() {
    assert_eq!(
        login_redirect_url("https://git.example//", "/oauth/authorize?client_id=a b&x=é"),
        "https://git.example/login?redirect=%2Foauth%2Fauthorize%3Fclient_id%3Da%20b%26x%3D%C3%A9"
    );
    assert_eq!(
        frontend_login_url("https://git.example/api/v1", "t.k-n_~", "git hub"),
        "https://git.example/oauth/callback?token=t.k-n_~&provider=git%20hub"
    );
}

#[test]
fn provider_login_urls() {
    let scope = provider_scope(&vec!["read:user".to_string(), "user:email".to_string()]);
    assert_eq!(scope, "read:user user:email");
    assert_eq!(
        provider_login_url(
            "https://github.com/login/oauth/authorize",
            "id1",
            "https://git.example/api/v1/oauth/github/callback",
            &scope,
            "st"
        ),
        "https://github.com/login/oauth/authorize?client_id=id1&redirect_uri=https%3A%2F%2Fgit.example%2Fapi%2Fv1%2Foauth%2Fgithub%2Fcallback&response_type=code&scope=read%3Auser%20user%3Aemail&state=st"
    );
    assert_eq!(provider_state(Some("given")), "given");
    let s = provider_state(None);
    assert_eq!(s.len(), 32);
    assert!(s.chars().all(|c| c.is_ascii_hexdigit() && !c.is_ascii_uppercase()));
}

#[test]
fn raw_files() {
    let f = raw_file("docs/readme.txt", false, "hello").unwrap();
    assert_eq!(f.content_type, "text/plain");
    assert_eq!(f.content_disposition, "inline; filename=\"readme.txt\"");
    assert_eq!(f.body, b"hello".to_vec());

    let f = raw_file("img/logo.png", true, "AQID").unwrap();
    assert_eq!(f.content_type, "image/png");
    assert_eq!(f.content_disposition, "attachment; filename=\"logo.png\"");
    assert_eq!(f.body, vec![1, 2, 3]);

    let f = raw_file("blob", true, "AQID").unwrap();
    assert_eq!(f.content_type, "application/octet-stream");
    assert_eq!(f.content_disposition, "attachment; filename=\"blob\"");

    let f = raw_file("Makefile", false, "all:").unwrap();
    assert_eq!(f.content_type, "text/plain");

    match raw_file("a.bin", true, "***") {
        Err(AppError::InternalError(m)) => assert!(m.starts_with("Base64 decode error: ")),
        Err(e) => panic!("unexpected {:?}", e),
        Ok(_) => panic!("expected an error"),
    }
}

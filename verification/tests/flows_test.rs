use gitfox::auth::{
    classify_ref_change, http_access_answer, ref_update_response, Credential, HttpAccessAnswer, ProtectionRule,
    RepoFacts, TokenInfo,
};
use gitfox::config::Config;
use gitfox::error::AppError;
use gitfox::login::{check_sign_in, two_factor_step, TwoFactorState};
use gitfox::oauth::{get_builtin_credentials, link_action, redeem_code, AuthCode, LinkAction};
use gitfox::registry::cargo_publish_check;

fn env(pairs: &[(&str, &str)]) -> Vec<(String, String)> {
    pairs.iter().map(|(a, b)| (a.to_string(), b.to_string())).collect()
}

#[test]
fn configuration_carries_oauth_and_smtp() {
    let c = Config::from_vars(
        &env(&[
            ("DATABASE_URL", "pg"),
            ("OAUTH_GITHUB_CLIENT_ID", "id"),
            ("OAUTH_GITHUB_CLIENT_SECRET", "secret"),
            ("OAUTH_GITLAB_URL", "https://gl.example"),
            ("SMTP_HOST", "mail"),
            ("SMTP_ENABLED", "TRUE"),
            ("SMTP_USE_SSL", "1"),
        ]),
        "h",
        1,
    )
    .unwrap();
    assert_eq!(c.oauth.github.client_id.as_deref(), Some("id"));
    assert_eq!(c.oauth.gitlab.base_url.as_deref(), Some("https://gl.example"));
    assert_eq!(c.oauth.enabled_providers(), vec!["github"]);
    assert_eq!(get_builtin_credentials(&c, "github"), Some(("id".to_string(), "secret".to_string())));
    assert_eq!(get_builtin_credentials(&c, "gitlab"), None);
    assert_eq!(c.smtp.host.as_deref(), Some("mail"));
    assert!(c.smtp.enabled && c.smtp.use_ssl);
    assert_eq!(c.smtp.port, 465);
}

fn code(challenge: Option<&str>) -> AuthCode {
    AuthCode {
        redirect_uri: "https://app/cb".to_string(),
        code_challenge: challenge.map(|c| c.to_string()),
        code_challenge_method: None,
        used: false,
        expired: false,
    }
}

fn bad_request<T: std::fmt::Debug>(r: Result<T, AppError>) -> String {
    match r {
        Err(AppError::BadRequest(m)) => m,
        other => panic!("expected a bad request, got {:?}", other),
    }
}

#[test]
fn authorization_codes_are_single_use() {
    let mut c = code(Some("abc"));
    assert_eq!(bad_request(redeem_code(&mut c, "https://other/cb", Some("abc"))), "redirect_uri mismatch");
    assert!(!c.used);
    assert_eq!(bad_request(redeem_code(&mut c, "https://app/cb", Some("xyz"))), "Invalid code_verifier");
    assert!(!c.used);
    assert!(redeem_code(&mut c, "https://app/cb", Some("abc")).is_ok());
    assert!(c.used);
    assert_eq!(
        bad_request(redeem_code(&mut c, "https://app/cb", Some("abc"))),
        "Invalid or expired authorization code"
    );
    let mut e = code(None);
    e.expired = true;
    assert_eq!(bad_request(redeem_code(&mut e, "https://app/cb", None)), "Invalid or expired authorization code");
}

#[test]
fn unknown_user_answers_like_wrong_password() {
    let h = bcrypt::hash("right-password", 4).unwrap();
    let unknown = check_sign_in(None, "guess");
    let wrong = check_sign_in(Some(&h), "guess");
    match (unknown, wrong) {
        (Err(AppError::Unauthorized(a)), Err(AppError::Unauthorized(b))) => {
            assert_eq!(a, "Invalid credentials");
            assert_eq!(a, b);
        }
        other => panic!("unexpected {:?}", other),
    }
    assert!(check_sign_in(Some(&h), "right-password").is_ok());
}

#[test]
fn second_factor_steps() {
    let mut st = TwoFactorState { pending_user: Some(9), failures: 2 };
    match two_factor_step(&mut st, true, Ok(true)) {
        Err(AppError::TooManyRequests(m)) => assert!(m.starts_with("Account temporarily locked")),
        other => panic!("unexpected {:?}", other),
    }
    match two_factor_step(&mut st, false, Err(AppError::BadRequest("TOTP code required".to_string()))) {
        Err(AppError::BadRequest(m)) => assert_eq!(m, "TOTP code required"),
        other => panic!("unexpected {:?}", other),
    }
    assert_eq!(st.failures, 2);
    match two_factor_step(&mut st, false, Ok(false)) {
        Err(AppError::Unauthorized(m)) => assert_eq!(m, "Invalid 2FA code"),
        other => panic!("unexpected {:?}", other),
    }
    assert_eq!((st.pending_user, st.failures), (Some(9), 3));
    assert_eq!(two_factor_step(&mut st, false, Ok(true)).unwrap(), 9);
    assert_eq!((st.pending_user, st.failures), (None, 0));
    match two_factor_step(&mut st, false, Ok(true)) {
        Err(AppError::Unauthorized(m)) => assert_eq!(m, "Invalid or expired 2FA token"),
        other => panic!("unexpected {:?}", other),
    }
}

#[test]
fn external_account_links() {
    assert_eq!(link_action(Some(4), Some(7)), LinkAction::UpdateIdentity(4));
    assert_eq!(link_action(None, Some(7)), LinkAction::LinkUser(7));
    assert_eq!(link_action(None, None), LinkAction::CreateUser);
}

fn project(owner: i64, visibility: &str) -> Option<RepoFacts> {
    Some(RepoFacts { id: 11, name: "proj".to_string(), owner_id: owner, visibility: visibility.to_string() })
}

fn answer(a: HttpAccessAnswer) -> (bool, String, i64, bool, i64, String) {
    match a {
        HttpAccessAnswer::Answer(r) => (r.status, r.message, r.user_id, r.can_write, r.project_id, r.repository_path),
        HttpAccessAnswer::AuthFailed => panic!("auth failed"),
        HttpAccessAnswer::InvalidPath => panic!("invalid path"),
    }
}

#[test]
fn http_access_flow() {
    let owner = || Credential::Accepted(TokenInfo::full_access(3, "olga".to_string()));
    assert!(matches!(
        http_access_answer("git-receive-pack", Credential::Rejected, "ns/proj.git", "/r", project(3, "private"), None, None),
        HttpAccessAnswer::AuthFailed
    ));
    assert!(matches!(
        http_access_answer("git-upload-pack", owner(), "proj.git", "/r", project(3, "private"), None, None),
        HttpAccessAnswer::InvalidPath
    ));
    assert_eq!(
        answer(http_access_answer("git-receive-pack", Credential::Missing, "ns/proj.git", "/r", None, None, None)).1,
        "Authentication required for push"
    );
    assert_eq!(
        answer(http_access_answer("git-upload-pack", owner(), "ns/proj.git", "/r", None, None, None)),
        (false, "You don't have access to this repository".to_string(), 0, false, 0, String::new())
    );
    assert_eq!(
        answer(http_access_answer("git-receive-pack", owner(), "ns/proj.git", "/r", project(3, "private"), None, None)),
        (true, String::new(), 3, true, 11, "/r/ns/proj.git".to_string())
    );
    assert_eq!(
        answer(http_access_answer("git-upload-pack", Credential::Rejected, "ns/proj.git", "/r", project(3, "public"), None, None)),
        (true, String::new(), 0, false, 11, "/r/ns/proj.git".to_string())
    );
}

fn rule(pattern: &str, force: bool, delete: bool) -> ProtectionRule {
    ProtectionRule {
        branch_pattern: pattern.to_string(),
        require_review: false,
        required_reviewers: 0,
        require_ci_pass: false,
        allow_force_push: force,
        allow_deletion: delete,
    }
}

#[test]
fn ref_update_flow() {
    let z = "0000000000000000000000000000000000000000";
    let a = "1111111111111111111111111111111111111111";
    let b = "2222222222222222222222222222222222222222";
    let rules = vec![rule("main", false, false)];
    let tag = classify_ref_change("refs/tags/v1", "update", a, b);
    let r = ref_update_response(false, &tag, false, &rules, "developer");
    assert_eq!((r.allowed, r.message.as_str()), (false, "Project not found"));
    let r = ref_update_response(true, &tag, true, &rules, "guest");
    assert!(r.allowed && r.message.is_empty());
    let push = classify_ref_change("refs/heads/main", "update", a, b);
    let r = ref_update_response(true, &push, false, &rules, "developer");
    assert_eq!(r.message, "Branch 'main' is protected. Only maintainers and owners can push.");
    let r = ref_update_response(true, &push, true, &rules, "maintainer");
    assert_eq!(r.message, "Branch 'main' is protected. Force push is not allowed.");
    let create = classify_ref_change("refs/heads/main", "create", z, b);
    let r = ref_update_response(true, &create, true, &rules, "maintainer");
    assert!(r.allowed);
    let r = ref_update_response(true, &push, false, &rules, "maintainer");
    assert!(r.allowed);
}

#[test]
fn cargo_publish_checks() {
    match cargo_publish_check(true, "serde", "1.0.0", "not-a-uuid") {
        Err(AppError::Conflict(m)) => assert_eq!(m, "Crate serde version 1.0.0 already exists"),
        other => panic!("unexpected {:?}", other),
    }
    match cargo_publish_check(false, "serde", "1.0.0", "not-a-uuid") {
        Err(AppError::BadRequest(m)) => assert_eq!(m, "Invalid user_id UUID"),
        other => panic!("unexpected {:?}", other),
    }
    assert_eq!(cargo_publish_check(false, "serde", "1.0.0", "00000000000000000000000000000007").unwrap(), 7);
}

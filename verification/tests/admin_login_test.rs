use gitfox::admin::{
    check_admin_delete, check_admin_update, role_changed_key, test_email_sent_message, test_email_target,
    user_list_plan, AdminListQuery, AdminUpdateUserRequest, SmtpTestRequest,
};
use gitfox::error::AppError;
use gitfox::login::{
    login_step, second_factor, second_factor_verdict, two_factor_session_key, LoginFacts, LoginStep, SecondFactor,
};

fn query(page: Option<u32>, per: Option<u32>, search: Option<&str>, role: Option<&str>, status: Option<&str>) -> AdminListQuery {
    AdminListQuery {
        page,
        per_page: per,
        search: search.map(|s| s.to_string()),
        role: role.map(|s| s.to_string()),
        status: status.map(|s| s.to_string()),
    }
}

const HEAD: &str = "SELECT u.id, u.username, u.email, u.display_name, u.avatar_url, \n                  u.role, u.is_active, u.created_at, u.updated_at, u.is_pro,\n                  COALESCE((SELECT COUNT(*) FROM projects p WHERE p.owner_id = u.id), 0) as projects_count\n           FROM users u ";

#[test]
fn user_list_without_filters() {
    let p = user_list_plan(&query(None, None, None, None, None));
    assert_eq!(p.page, 1);
    assert_eq!(p.per_page, 20);
    assert_eq!(p.count_sql, "SELECT COUNT(*) FROM users ");
    assert_eq!(p.list_sql, format!("{}\n           ORDER BY u.created_at DESC\n           LIMIT 20 OFFSET 0", HEAD));
    assert!(p.binds.is_empty());
}

#[test]
fn user_list_with_every_filter() {
    let p = user_list_plan(&query(Some(3), Some(500), Some("bob"), Some("admin"), Some("blocked")));
    assert_eq!(p.per_page, 100);
    let w = "WHERE (username ILIKE '%' || $1 || '%' OR email ILIKE '%' || $1 || '%' OR display_name ILIKE '%' || $1 || '%') AND role = $2::user_role AND is_active = false";
    assert_eq!(p.count_sql, format!("SELECT COUNT(*) FROM users {}", w));
    assert_eq!(p.list_sql, format!("{}{}\n           ORDER BY u.created_at DESC\n           LIMIT 100 OFFSET 200", HEAD, w));
    assert_eq!(p.binds, vec!["bob".to_string(), "admin".to_string()]);
}

#[test]
fn user_list_role_alone_is_first_parameter() {
    let p = user_list_plan(&query(Some(0), Some(10), Some(""), Some("developer"), Some("active")));
    assert_eq!(p.count_sql, "SELECT COUNT(*) FROM users WHERE role = $1::user_role AND is_active = true");
    assert_eq!(p.binds, vec!["developer".to_string()]);
    assert!(p.list_sql.ends_with("LIMIT 10 OFFSET 0"));
    let p = user_list_plan(&query(None, None, None, Some("all"), Some("other")));
    assert_eq!(p.count_sql, "SELECT COUNT(*) FROM users ");
    assert!(p.binds.is_empty());
}

fn update(role: Option<&str>, active: Option<bool>) -> AdminUpdateUserRequest {
    AdminUpdateUserRequest {
        role: role.map(|s| s.to_string()),
        is_active: active,
        display_name: None,
        email: None,
        is_pro: None,
    }
}

#[test]
fn administrators_cannot_lock_themselves_out() {
    match check_admin_update(1, 1, &update(Some("user"), None)) {
        Err(AppError::BadRequest(m)) => assert_eq!(m, "Cannot change your own admin role"),
        _ => panic!(),
    }
    match check_admin_update(1, 1, &update(None, Some(false))) {
        Err(AppError::BadRequest(m)) => assert_eq!(m, "Cannot deactivate your own account"),
        _ => panic!(),
    }
    assert!(check_admin_update(1, 1, &update(Some("admin"), Some(true))).is_ok());
    assert!(check_admin_update(2, 1, &update(Some("user"), Some(false))).is_ok());
    match check_admin_delete(1, 1) {
        Err(AppError::BadRequest(m)) => assert_eq!(m, "Cannot delete your own account"),
        _ => panic!(),
    }
    assert!(check_admin_delete(2, 1).is_ok());
}

#[test]
fn admin_helpers() {
    assert_eq!(role_changed_key(42), "user:42:role_changed");
    let mut req = SmtpTestRequest {
        enabled: true,
        host: "h".to_string(),
        port: 25,
        username: "u".to_string(),
        password: "p".to_string(),
        from_email: "f@x".to_string(),
        from_name: "F".to_string(),
        use_tls: false,
        use_ssl: false,
        test_email: None,
    };
    match test_email_target(&req) {
        Err(AppError::BadRequest(m)) => assert_eq!(m, "test_email is required"),
        _ => panic!(),
    }
    req.test_email = Some("t@x".to_string());
    assert_eq!(test_email_target(&req).unwrap(), "t@x");
    assert_eq!(test_email_sent_message("t@x"), "Test email sent to t@x");
}

fn facts() -> LoginFacts {
    LoginFacts {
        require_email_confirmation: false,
        email_confirmed: false,
        require_two_factor: false,
        require_two_factor_admin: false,
        is_admin: false,
        two_factor_enabled: false,
        two_factor_required_at: None,
        grace_period_days: 7,
        now: 1_000_000,
        totp_enabled: false,
        webauthn_credentials: 0,
    }
}

#[test]
fn plain_login() {
    assert!(matches!(login_step(&facts()), Ok(LoginStep::SignedIn { mark_required: false })));
}

#[test]
fn unconfirmed_email_is_refused() {
    let mut f = facts();
    f.require_email_confirmation = true;
    match login_step(&f) {
        Err(AppError::Unauthorized(m)) => assert_eq!(m, "Please confirm your email address before logging in"),
        _ => panic!(),
    }
    f.email_confirmed = true;
    assert!(login_step(&f).is_ok());
}

#[test]
fn two_factor_policy_and_grace_period() {
    let mut f = facts();
    f.is_admin = true;
    f.require_two_factor_admin = true;
    assert!(matches!(login_step(&f), Ok(LoginStep::SignedIn { mark_required: true })));
    f.two_factor_required_at = Some(1_000_000 - 7 * 86_400_000_000_000);
    assert!(matches!(login_step(&f), Ok(LoginStep::SignedIn { mark_required: false })));
    f.two_factor_required_at = Some(1_000_000 - 7 * 86_400_000_000_000 - 1);
    match login_step(&f) {
        Err(AppError::Unauthorized(m)) => {
            assert_eq!(m, "Two-factor authentication is required. Please contact your administrator.")
        }
        _ => panic!(),
    }
}

#[test]
fn enabled_two_factor_needs_second_step() {
    let mut f = facts();
    f.two_factor_enabled = true;
    match login_step(&f) {
        Ok(LoginStep::SecondFactor { methods }) => assert_eq!(methods, vec!["recovery"]),
        _ => panic!(),
    }
    f.totp_enabled = true;
    f.webauthn_credentials = 2;
    match login_step(&f) {
        Ok(LoginStep::SecondFactor { methods }) => assert_eq!(methods, vec!["totp", "webauthn", "recovery"]),
        _ => panic!(),
    }
}

#[test]
fn second_factor_requests() {
    assert!(matches!(second_factor("totp", Some("123456"), None), Ok(SecondFactor::Totp(c)) if c == "123456"));
    assert!(matches!(second_factor("recovery", Some("r"), None), Ok(SecondFactor::Recovery(c)) if c == "r"));
    assert!(matches!(second_factor("webauthn", None, Some("{}")), Ok(SecondFactor::WebAuthn(c)) if c == "{}"));
    for (method, msg) in [
        ("totp", "TOTP code required"),
        ("recovery", "Recovery code required"),
        ("webauthn", "WebAuthn response required"),
        ("sms", "Invalid 2FA method"),
    ] {
        match second_factor(method, None, None) {
            Err(AppError::BadRequest(m)) => assert_eq!(m, msg),
            _ => panic!(),
        }
    }
    assert_eq!(two_factor_session_key("abc"), "2fa:abc");
    assert!(second_factor_verdict(true).is_ok());
    match second_factor_verdict(false) {
        Err(AppError::Unauthorized(m)) => assert_eq!(m, "Invalid 2FA code"),
        _ => panic!(),
    }
}

use gitfox::config::Config;
use gitfox::error::AppError;
use gitfox::oauth::{
    authorize_scopes, bearer_token, check_client_secret, check_code_exchange, check_provider_name,
    check_response_type, client_credentials, generate_access_token, generate_auth_code, generate_client_id,
    generate_client_secret, get_builtin_credentials, get_default_provider_urls, get_default_scopes, grant_kind,
    has_user_scope, hash_secret, id_token_claims, is_builtin_provider, provider_update_sql, revocation_targets,
    verify_pkce, token_reply, userinfo_fields, callback_code, check_unlink_identity, unlink_outcome, is_provider_offered, provider_authorize_url, provider_callback_uri,
    provider_client_id, provider_secrets, CreateOAuthProviderRequest, GrantKind, UpdateOAuthProviderRequest,
};

fn strings(v: &[&str]) -> Vec<String> {
    v.iter().map(|s| s.to_string()).collect()
}

fn is_lower_hex(s: &str) -> bool {
    s.chars().all(|c| c.is_ascii_digit() || ('a'..='f').contains(&c))
}

#[test]
fn generated_client_values_have_their_shapes() {
    let id = generate_client_id();
    assert_eq!(id.len(), 32);
    assert!(is_lower_hex(&id));
    let secret = generate_client_secret();
    assert!(secret.starts_with("gfcs_"));
    assert_eq!(secret.len(), 5 + 64);
    let code = generate_auth_code();
    assert_eq!(code.len(), 64);
    assert!(is_lower_hex(&code));
    let token = generate_access_token();
    assert!(token.starts_with("gfat_"));
    assert!(is_lower_hex(&token[5..]));
}

#[test]
fn hash_secret_is_sha256_hex() {
    assert_eq!(hash_secret("s3cret"), "1ec1c26b50d5d3c58d9583181af8076655fe00756bf7285940ba3670f99fcba0");
}

#[test]
fn pkce_plain_and_s256() {
    assert!(verify_pkce("abc", "abc", "plain"));
    assert!(!verify_pkce("abc", "abd", "plain"));
    assert!(verify_pkce(
        "dBjftJeZ4CVP-mB92K27uhbUJU1p1r_wW1gFWFOEjXk",
        "E9Melhoa2OwvFrEMTJguCHaoeK1t8URWbuGJSstw-cM",
        "S256"
    ));
    assert!(!verify_pkce("dBjftJeZ4CVP-mB92K27uhbUJU1p1r_wW1gFWFOEjXk", "wrong", "S256"));
    assert!(!verify_pkce("abc", "abc", "S512"));
}

#[test]
fn client_credentials_from_basic_header() {
    let r = client_credentials(Some("Basic Y2xpZW50OnMzY3JldA=="), Some("body".to_string()), None).unwrap();
    assert_eq!(r, ("client".to_string(), Some("s3cret".to_string())));
}

#[test]
fn client_credentials_from_body() {
    let r = client_credentials(Some("Bearer x"), Some("body".to_string()), Some("pw".to_string())).unwrap();
    assert_eq!(r, ("body".to_string(), Some("pw".to_string())));
    let r = client_credentials(None, Some("body".to_string()), None).unwrap();
    assert_eq!(r, ("body".to_string(), None));
}

#[test]
fn client_credentials_missing_client_id() {
    match client_credentials(Some("Basic !!!"), None, None) {
        Err(AppError::BadRequest(m)) => assert_eq!(m, "client_id is required"),
        _ => panic!("expected a bad request"),
    }
}

#[test]
fn client_secret_checks() {
    assert!(check_client_secret(false, None, "x").is_ok());
    match check_client_secret(true, None, "x") {
        Err(AppError::Unauthorized(m)) => assert_eq!(m, "client_secret is required"),
        _ => panic!(),
    }
    let stored = hash_secret("s3cret");
    assert!(check_client_secret(true, Some("s3cret"), &stored).is_ok());
    match check_client_secret(true, Some("other"), &stored) {
        Err(AppError::Unauthorized(m)) => assert_eq!(m, "Invalid client_secret"),
        _ => panic!(),
    }
}

#[test]
fn grant_kinds() {
    assert!(matches!(grant_kind("authorization_code"), Ok(GrantKind::AuthorizationCode)));
    assert!(matches!(grant_kind("refresh_token"), Ok(GrantKind::RefreshToken)));
    match grant_kind("password") {
        Err(AppError::BadRequest(m)) => assert_eq!(m, "Unsupported grant_type"),
        _ => panic!(),
    }
}

#[test]
fn response_type_must_be_code() {
    assert!(check_response_type("code").is_ok());
    match check_response_type("token") {
        Err(AppError::BadRequest(m)) => assert_eq!(m, "Unsupported response_type"),
        _ => panic!(),
    }
}

#[test]
fn authorize_scopes_cases() {
    let uris = strings(&["https://app/cb"]);
    let allowed = strings(&["read_user", "openid"]);
    match authorize_scopes("https://evil/cb", None, &uris, &allowed) {
        Err(AppError::BadRequest(m)) => assert_eq!(m, "Invalid redirect_uri"),
        _ => panic!(),
    }
    let r = authorize_scopes("https://app/cb", Some(" read_user  openid "), &uris, &allowed).unwrap();
    assert_eq!(r, strings(&["read_user", "openid"]));
    let r = authorize_scopes("https://app/cb", None, &uris, &allowed).unwrap();
    assert!(r.is_empty());
    match authorize_scopes("https://app/cb", Some("openid api"), &uris, &allowed) {
        Err(AppError::BadRequest(m)) => assert_eq!(m, "Scope 'api' not allowed for this application"),
        _ => panic!(),
    }
}

#[test]
fn code_exchange_checks() {
    match check_code_exchange("https://a", "https://b", None, None, None) {
        Err(AppError::BadRequest(m)) => assert_eq!(m, "redirect_uri mismatch"),
        _ => panic!(),
    }
    assert!(check_code_exchange("https://a", "https://a", None, None, None).is_ok());
    match check_code_exchange("https://a", "https://a", Some("abc"), None, None) {
        Err(AppError::BadRequest(m)) => assert_eq!(m, "code_verifier is required"),
        _ => panic!(),
    }
    assert!(check_code_exchange("https://a", "https://a", Some("abc"), None, Some("abc")).is_ok());
    match check_code_exchange("https://a", "https://a", Some("abc"), Some("S256"), Some("abc")) {
        Err(AppError::BadRequest(m)) => assert_eq!(m, "Invalid code_verifier"),
        _ => panic!(),
    }
}

#[test]
fn revocation_targets_by_hint() {
    assert_eq!(revocation_targets(None), (true, true));
    assert_eq!(revocation_targets(Some("access_token")), (true, false));
    assert_eq!(revocation_targets(Some("refresh_token")), (false, true));
    assert_eq!(revocation_targets(Some("other")), (false, false));
}

#[test]
fn bearer_token_cases() {
    match bearer_token(None) {
        Err(AppError::Unauthorized(m)) => assert_eq!(m, "Missing Authorization header"),
        _ => panic!(),
    }
    match bearer_token(Some("Basic abc")) {
        Err(AppError::Unauthorized(m)) => assert_eq!(m, "Invalid Authorization header"),
        _ => panic!(),
    }
    assert_eq!(bearer_token(Some("Bearer gfat_123")).unwrap(), "gfat_123");
}

#[test]
fn user_scope_needs_openid_or_read_user() {
    assert!(has_user_scope(&strings(&["openid"])));
    assert!(has_user_scope(&strings(&["api", "read_user"])));
    assert!(!has_user_scope(&strings(&["api"])));
}

#[test]
fn id_token_claims_need_openid() {
    assert!(id_token_claims("http://x", 42, "bob", Some("b@x"), "cid", &strings(&["email"]), 1000).is_none());
    let c = id_token_claims("http://x", 42, "bob", Some("b@x"), "cid", &strings(&["openid", "email"]), 1000).unwrap();
    assert_eq!(c.iss, "http://x");
    assert_eq!(c.sub, "42");
    assert_eq!(c.aud, "cid");
    assert_eq!(c.azp, "cid");
    assert_eq!(c.exp, 4600);
    assert_eq!(c.iat, 1000);
    assert_eq!(c.preferred_username, "bob");
    assert_eq!(c.email, Some("b@x".to_string()));
    assert_eq!(c.email_verified, Some(true));
    let c = id_token_claims("http://x", -7, "bob", Some("b@x"), "cid", &strings(&["openid"]), 0).unwrap();
    assert_eq!(c.sub, "-7");
    assert_eq!(c.email, None);
    assert_eq!(c.email_verified, Some(true));
    let c = id_token_claims("http://x", 1, "bob", None, "cid", &strings(&["openid", "email"]), 0).unwrap();
    assert_eq!(c.email, None);
    assert_eq!(c.email_verified, None);
}

#[test]
fn builtin_providers() {
    for p in ["github", "gitlab", "google", "azure_ad", "bitbucket"] {
        assert!(is_builtin_provider(p));
    }
    assert!(!is_builtin_provider("azure"));
    assert!(!is_builtin_provider("gitea"));
}

fn env(pairs: &[(&str, &str)]) -> Vec<(String, String)> {
    pairs.iter().map(|(a, b)| (a.to_string(), b.to_string())).collect()
}

#[test]
fn builtin_credentials_from_configuration() {
    let e = env(&[
        ("DATABASE_URL", "postgres://db"),
        ("OAUTH_GITHUB_CLIENT_ID", "gh-id"),
        ("OAUTH_GITHUB_CLIENT_SECRET", "gh-secret"),
        ("OAUTH_AZURE_CLIENT_ID", "az-id"),
        ("OAUTH_AZURE_CLIENT_SECRET", "az-secret"),
        ("OAUTH_GOOGLE_CLIENT_ID", "only-id"),
    ]);
    let c = Config::from_vars(&e, "host", 1).unwrap();
    assert_eq!(get_builtin_credentials(&c, "github"), Some(("gh-id".to_string(), "gh-secret".to_string())));
    assert_eq!(get_builtin_credentials(&c, "azure"), Some(("az-id".to_string(), "az-secret".to_string())));
    assert_eq!(get_builtin_credentials(&c, "azure_ad"), Some(("az-id".to_string(), "az-secret".to_string())));
    assert_eq!(get_builtin_credentials(&c, "google"), None);
    assert_eq!(get_builtin_credentials(&c, "unknown"), None);
}

fn create_request(ptype: &str, auth: Option<&str>, user: Option<&str>) -> CreateOAuthProviderRequest {
    CreateOAuthProviderRequest {
        name: "p".to_string(),
        display_name: "P".to_string(),
        provider_type: ptype.to_string(),
        client_id: "id".to_string(),
        client_secret: "secret".to_string(),
        authorization_url: auth.map(|s| s.to_string()),
        token_url: None,
        userinfo_url: user.map(|s| s.to_string()),
        scopes: None,
        icon: None,
        enabled: None,
    }
}

#[test]
fn default_provider_urls() {
    let r = get_default_provider_urls("github", &create_request("github", None, None));
    assert_eq!(r.0, "https://github.com/login/oauth/authorize");
    assert_eq!(r.1, "https://github.com/login/oauth/access_token");
    assert_eq!(r.2, Some("https://api.github.com/user".to_string()));
    let r = get_default_provider_urls("gitlab", &create_request("gitlab", Some("https://gl/auth"), Some("https://gl/me")));
    assert_eq!(r.0, "https://gl/auth");
    assert_eq!(r.1, "https://gitlab.com/oauth/token");
    assert_eq!(r.2, Some("https://gl/me".to_string()));
    let r = get_default_provider_urls("custom", &create_request("custom", None, None));
    assert_eq!(r, (String::new(), String::new(), None));
}

#[test]
fn default_scopes_by_type() {
    assert_eq!(get_default_scopes("github"), vec!["user:email".to_string()]);
    assert_eq!(get_default_scopes("gitlab"), vec!["read_user".to_string()]);
    assert_eq!(get_default_scopes("google"), strings(&["openid", "email", "profile"]));
    assert_eq!(get_default_scopes("azure_ad"), strings(&["openid", "email", "profile"]));
    assert_eq!(get_default_scopes("bitbucket"), vec!["account".to_string()]);
    assert!(get_default_scopes("custom").is_empty());
}

#[test]
fn provider_names() {
    assert!(check_provider_name("my_provider1").is_ok());
    match check_provider_name("My-Provider") {
        Err(AppError::BadRequest(m)) => {
            assert_eq!(m, "Provider name must be lowercase alphanumeric with underscores")
        }
        _ => panic!(),
    }
}

#[test]
fn provider_update_statement() {
    let mut req = UpdateOAuthProviderRequest {
        display_name: Some("X".to_string()),
        client_id: None,
        client_secret: None,
        authorization_url: None,
        token_url: None,
        userinfo_url: None,
        scopes: None,
        icon: None,
        enabled: Some(false),
        sort_order: None,
    };
    assert_eq!(
        provider_update_sql(&req),
        "UPDATE oauth_providers SET updated_at = NOW(), display_name = $2, enabled = $3 WHERE id = $1 RETURNING *"
    );
    req.display_name = None;
    req.enabled = None;
    assert_eq!(provider_update_sql(&req), "UPDATE oauth_providers SET updated_at = NOW() WHERE id = $1 RETURNING *");
    req.client_secret = Some("s".to_string());
    req.sort_order = Some(3);
    assert_eq!(
        provider_update_sql(&req),
        "UPDATE oauth_providers SET updated_at = NOW(), client_secret_encrypted = $2, sort_order = $3 WHERE id = $1 RETURNING *"
    );
}

fn provider_config() -> Config {
    let e = env(&[
        ("DATABASE_URL", "postgres://db"),
        ("OAUTH_GITHUB_CLIENT_ID", "gh-id"),
        ("OAUTH_GITHUB_CLIENT_SECRET", "gh-secret"),
        ("OAUTH_GOOGLE_CLIENT_ID", "only-id"),
    ]);
    Config::from_vars(&e, "host", 1).unwrap()
}

fn bad_request(r: Result<impl std::fmt::Debug, AppError>) -> String {
    match r {
        Err(AppError::BadRequest(m)) => m,
        other => panic!("expected a bad request, got {:?}", other),
    }
}

#[test]
fn offered_login_providers() {
    let c = provider_config();
    assert!(is_provider_offered(&c, "github", "", ""));
    assert!(!is_provider_offered(&c, "google", "db-id", "db-secret"));
    assert!(is_provider_offered(&c, "gitea", "id", "secret"));
    assert!(!is_provider_offered(&c, "gitea", "id", ""));
    assert!(!is_provider_offered(&c, "gitea", "", "secret"));
}

#[test]
fn provider_client_ids() {
    let c = provider_config();
    assert_eq!(provider_client_id(&c, "github", "ignored").unwrap(), "gh-id");
    assert_eq!(bad_request(provider_client_id(&c, "google", "x")), "google OAuth not configured in .env");
    assert_eq!(provider_client_id(&c, "gitea", "tea-id").unwrap(), "tea-id");
    assert_eq!(bad_request(provider_client_id(&c, "gitea", "")), "gitea OAuth client_id not configured");
}

#[test]
fn provider_exchange_secrets() {
    let c = provider_config();
    assert_eq!(provider_secrets(&c, "github", "", "").unwrap(), ("gh-id".to_string(), "gh-secret".to_string()));
    assert_eq!(bad_request(provider_secrets(&c, "bitbucket", "a", "b")), "bitbucket OAuth not configured in .env");
    assert_eq!(provider_secrets(&c, "gitea", "a", "b").unwrap(), ("a".to_string(), "b".to_string()));
    assert_eq!(bad_request(provider_secrets(&c, "gitea", "a", "")), "gitea OAuth credentials not configured");
}

#[test]
fn provider_urls_of_the_instance() {
    assert_eq!(provider_authorize_url("https://git.example", "github"), "https://git.example/api/v1/oauth/github/authorize");
    assert_eq!(provider_callback_uri("https://git.example", "gitea"), "https://git.example/api/v1/oauth/gitea/callback");
}

#[test]
fn provider_callback_codes() {
    assert_eq!(callback_code(Some("abc"), None, None).unwrap(), "abc");
    assert_eq!(bad_request(callback_code(None, Some("access_denied"), None)), "Missing authorization code");
    assert_eq!(bad_request(callback_code(Some("abc"), Some("access_denied"), Some("denied"))), "OAuth error: access_denied - denied");
    assert_eq!(bad_request(callback_code(Some("abc"), Some("access_denied"), None)), "OAuth error: access_denied - ");
}

#[test]
fn unlinking_identities() {
    assert!(check_unlink_identity(true, 1).is_ok());
    assert!(check_unlink_identity(false, 2).is_ok());
    assert_eq!(bad_request(check_unlink_identity(false, 1)), "Cannot unlink last OAuth identity without a password set");
    assert_eq!(bad_request(check_unlink_identity(false, 0)), "Cannot unlink last OAuth identity without a password set");
    assert!(unlink_outcome(1).is_ok());
    match unlink_outcome(0) {
        Err(AppError::NotFound(m)) => assert_eq!(m, "Identity not found"),
        other => panic!("unexpected {:?}", other),
    }
}

#[test]
fn provider_token_replies() {
    assert_eq!(
        token_reply(None, None, Some("tok"), Some("https://api/user")).unwrap(),
        ("tok".to_string(), "https://api/user".to_string())
    );
    assert_eq!(
        bad_request(token_reply(Some("bad_verification_code"), Some("expired"), Some("tok"), None)),
        "OAuth error: bad_verification_code - expired"
    );
    match token_reply(None, None, None, Some("u")) {
        Err(AppError::InternalError(m)) => assert_eq!(m, "No access_token in response"),
        other => panic!("unexpected {:?}", other),
    }
    match token_reply(None, None, Some("t"), None) {
        Err(AppError::InternalError(m)) => assert_eq!(m, "No userinfo_url configured"),
        other => panic!("unexpected {:?}", other),
    }
}

#[test]
fn userinfo_field_defaults() {
    assert_eq!(
        userinfo_fields(None, None, None, None),
        ("id".to_string(), "login".to_string(), "email".to_string(), "avatar_url".to_string())
    );
    assert_eq!(
        userinfo_fields(Some("sub"), Some("preferred_username"), None, Some("picture")),
        ("sub".to_string(), "preferred_username".to_string(), "email".to_string(), "picture".to_string())
    );
}

use gitfox::config::{is_flag_on, parse_port, rp_id_from_base, var, var_flag, var_or, Config, OAuthConfig, SmtpConfig};
use gitfox::error::AppError;

fn env(pairs: &[(&str, &str)]) -> Vec<(String, String)> {
    pairs.iter().map(|(a, b)| (a.to_string(), b.to_string())).collect()
}

#[test]
fn error_constructors_and_statuses() {
    let cases: Vec<(AppError, u16, &str, &str)> = vec![
        (AppError::internal("x"), 500, "internal_error", "Internal error: x"),
        (AppError::not_found("x"), 404, "not_found", "Not found: x"),
        (AppError::bad_request("x"), 400, "bad_request", "Bad request: x"),
        (AppError::unauthorized("x"), 401, "unauthorized", "Unauthorized: x"),
        (AppError::forbidden("x"), 403, "forbidden", "Forbidden: x"),
        (AppError::conflict("x"), 409, "conflict", "Conflict: x"),
        (AppError::DatabaseError("x".to_string()), 500, "database_error", "Database error: x"),
        (AppError::GitError("x".to_string()), 500, "git_error", "Git error: x"),
        (AppError::QueueError("x".to_string()), 500, "queue_error", "Queue error: x"),
        (AppError::ValidationError("x".to_string()), 400, "validation_error", "Validation error: x"),
        (AppError::TooManyRequests("x".to_string()), 429, "rate_limit_exceeded", "Too many requests: x"),
    ];
    for (e, status, kind, msg) in cases {
        assert_eq!(e.status_code(), status);
        assert_eq!(e.error_type(), kind);
        assert_eq!(e.message(), msg);
    }
    assert!(matches!(AppError::not_found("Project"), AppError::NotFound(m) if m == "Project"));
}

#[test]
fn environment_lookups() {
    let e = env(&[("A", "1"), ("B", "true"), ("A", "2"), ("C", "TRUE"), ("D", "yes")]);
    assert_eq!(var(&e, "A"), Some("1".to_string()));
    assert_eq!(var(&e, "Z"), None);
    assert_eq!(var_or(&e, "Z", "dflt"), "dflt");
    assert!(var_flag(&e, "A", false));
    assert!(var_flag(&e, "B", false));
    assert!(var_flag(&e, "C", false));
    assert!(!var_flag(&e, "D", true));
    assert!(var_flag(&e, "Z", true));
    assert!(is_flag_on("True"));
    assert!(!is_flag_on("0"));
}

#[test]
fn ports() {
    assert_eq!(parse_port("8080"), Some(8080));
    assert_eq!(parse_port("+22"), Some(22));
    assert_eq!(parse_port("65536"), None);
    assert_eq!(parse_port("-1"), None);
    assert_eq!(parse_port(""), None);
}

#[test]
fn relying_party_id() {
    assert_eq!(rp_id_from_base("https://git.example.com:8443/path"), "git.example.com");
    assert_eq!(rp_id_from_base("http://localhost"), "localhost");
    assert_eq!(rp_id_from_base("no-scheme"), "localhost");
    assert_eq!(rp_id_from_base("https://git.example.com/"), "git.example.com");
    assert_eq!(rp_id_from_base("https://git.example.com/gitfox"), "git.example.com");
}

#[test]
fn smtp_configuration() {
    let s = SmtpConfig::from_vars(&env(&[]));
    assert_eq!(s.port, 587);
    assert_eq!(s.from_email, "noreply@gitfox.local");
    assert_eq!(s.from_name, "GitFox");
    assert!(s.use_tls && !s.use_ssl && !s.enabled);
    assert!(!s.is_configured());
    let s = SmtpConfig::from_vars(&env(&[("SMTP_HOST", "mail"), ("SMTP_ENABLED", "1"), ("SMTP_PORT", "bad")]));
    assert!(s.is_configured());
    assert_eq!(s.port, 587);
    let s = SmtpConfig::from_vars(&env(&[("SMTP_USE_SSL", "true"), ("SMTP_USE_TLS", "false")]));
    assert!(s.use_ssl && !s.use_tls);
    assert_eq!(s.port, 465);
    let s = SmtpConfig::from_vars(&env(&[("SMTP_USE_TLS", "0")]));
    assert_eq!(s.port, 25);
    let s = SmtpConfig::from_vars(&env(&[("SMTP_USE_SSL", "1"), ("SMTP_PORT", "2525")]));
    assert_eq!(s.port, 2525);
}

#[test]
fn oauth_configuration() {
    let o = OAuthConfig::from_vars(&env(&[
        ("OAUTH_GITLAB_CLIENT_ID", "a"),
        ("OAUTH_GITLAB_CLIENT_SECRET", "b"),
        ("OAUTH_BITBUCKET_CLIENT_ID", "c"),
        ("OAUTH_GITHUB_CLIENT_ID", "d"),
        ("OAUTH_GITHUB_CLIENT_SECRET", "e"),
    ]));
    assert!(o.gitlab.is_enabled());
    assert!(!o.bitbucket.is_enabled());
    assert_eq!(o.enabled_providers(), vec!["github", "gitlab"]);
}

#[test]
fn main_configuration() {
    match Config::from_vars(&env(&[]), "h", 1) {
        Err(m) => assert_eq!(m, "DATABASE_URL must be set"),
        Ok(_) => panic!(),
    }
    match Config::from_vars(&env(&[("DATABASE_URL", "pg"), ("SERVER_PORT", "x")]), "h", 1) {
        Err(m) => assert_eq!(m, "Invalid SERVER_PORT"),
        Ok(_) => panic!(),
    }
    match Config::from_vars(&env(&[("SERVER_CONNECTION_TYPE", "unix_socket")]), "h", 1) {
        Err(m) => assert_eq!(m, "SERVER_SOCKET_PATH must be set when SERVER_CONNECTION_TYPE=unix_socket"),
        Ok(_) => panic!(),
    }
    let c = Config::from_vars(&env(&[("DATABASE_URL", "pg")]), "node1", 4242).unwrap();
    assert_eq!(c.server_host, "127.0.0.1");
    assert_eq!(c.server_port, 8080);
    assert_eq!(c.database_url, "pg");
    assert_eq!(c.jwt_expiration, 86400);
    assert_eq!(c.base_url, "http://localhost:8080");
    assert_eq!(c.internal_api_url, "http://127.0.0.1:8080");
    assert_eq!(c.instance_id, "node1:4242");
    assert_eq!(c.webauthn_rp_id, "localhost");
    let c = Config::from_vars(&env(&[("DATABASE_URL", "pg"), ("GITFOX_BASE_URL", "https://git.example.com/")]), "n", 1)
        .unwrap();
    assert_eq!(c.webauthn_rp_id, "git.example.com");
    assert_eq!(c.webauthn_origin, "https://git.example.com/");
    assert_eq!(c.base_url, "https://git.example.com/");
    let c = Config::from_vars(
        &env(&[("DATABASE_URL", "pg"), ("SERVER_CONNECTION_TYPE", "unix_socket"), ("SERVER_SOCKET_PATH", "/s")]),
        "n",
        1,
    )
    .unwrap();
    assert_eq!(c.server_port, 8081);
    assert_eq!(c.server_socket_path, Some("/s".to_string()));
}

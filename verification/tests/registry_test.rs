use gitfox::deploy_keys::{generate_project_access_token, generate_trigger_token, parse_ssh_key};
use gitfox::error::AppError;
use gitfox::ids::{new_uuid_simple, parse_uuid, uuid_simple};
use gitfox::registry::{
    cargo_scopes_of_pat, cargo_search_window, cargo_token_verdict, check_registry_token, crate_file_name, crate_links,
    crate_version_conflict, is_pat, npm_file_name, npm_version_conflict, new_npm_token, npm_search_window, request_user_uuid, CargoSearchQuery, NpmSearchQuery,
};

fn strings(v: &[&str]) -> Vec<String> {
    v.iter().map(|s| s.to_string()).collect()
}

#[test]
fn registry_token() {
    assert!(check_registry_token(Some("s"), "s").is_ok());
    match check_registry_token(None, "s") {
        Err(AppError::Unauthorized(m)) => assert_eq!(m, "Invalid internal token"),
        _ => panic!(),
    }
}

#[test]
fn search_windows() {
    let q = NpmSearchQuery { q: None, limit: None, offset: None };
    assert_eq!(npm_search_window(&q), (String::new(), 20, 0));
    let q = NpmSearchQuery { q: Some("left".to_string()), limit: Some(500), offset: Some(40) };
    assert_eq!(npm_search_window(&q), ("left".to_string(), 100, 40));
    let q = CargoSearchQuery { q: None, per_page: None };
    assert_eq!(cargo_search_window(&q), (String::new(), 10));
    let q = CargoSearchQuery { q: Some("serde".to_string()), per_page: Some(1000) };
    assert_eq!(cargo_search_window(&q), ("serde".to_string(), 100));
}

#[test]
fn crate_publishing_helpers() {
    match crate_version_conflict("foo", "1.0.0") {
        AppError::Conflict(m) => assert_eq!(m, "Crate foo version 1.0.0 already exists"),
        _ => panic!(),
    }
    assert_eq!(crate_file_name("foo", "1.0.0"), "foo-1.0.0.crate");
    assert_eq!(crate_links(&None), "");
    assert_eq!(crate_links(&Some("z".to_string())), "z");
}

#[test]
fn pat_scopes_for_cargo() {
    assert_eq!(cargo_scopes_of_pat(&strings(&["write_registry"])), Some(strings(&["publish", "yank", "owners"])));
    assert_eq!(cargo_scopes_of_pat(&strings(&["api"])), Some(strings(&["publish", "yank", "owners"])));
    assert_eq!(cargo_scopes_of_pat(&strings(&["read_registry"])), None);
    assert!(is_pat("gitfox-pat_abc"));
    assert!(!is_pat("cio_abc"));
}

#[test]
fn cargo_token_verdicts() {
    let found = Some(("u1".to_string(), "bob".to_string(), strings(&["publish"])));
    let r = cargo_token_verdict(found, "publish", true);
    assert!(r.valid);
    assert_eq!(r.user_id, Some("u1".to_string()));
    assert_eq!(r.username, Some("bob".to_string()));
    assert_eq!(r.scopes, strings(&["publish"]));
    let found = Some(("u1".to_string(), "bob".to_string(), strings(&["publish"])));
    let r = cargo_token_verdict(found, "yank", true);
    assert!(!r.valid && r.user_id.is_none() && r.scopes.is_empty());
    let found = Some(("u1".to_string(), "bob".to_string(), strings(&["*"])));
    assert!(cargo_token_verdict(found, "owners", true).valid);
    let found = Some(("u1".to_string(), "bob".to_string(), strings(&["*"])));
    assert!(!cargo_token_verdict(found, "owners", false).valid);
    assert!(!cargo_token_verdict(None, "publish", true).valid);
}

#[test]
fn uuids() {
    assert_eq!(uuid_simple(0), "00000000000000000000000000000000");
    assert_eq!(uuid_simple(0x550e8400e29b41d4a716446655440000), "550e8400e29b41d4a716446655440000");
    assert_eq!(parse_uuid("550e8400-e29b-41d4-a716-446655440000"), Some(0x550e8400e29b41d4a716446655440000));
    assert_eq!(parse_uuid("550e8400e29b41d4a716446655440000"), Some(0x550e8400e29b41d4a716446655440000));
    assert_eq!(parse_uuid("not-a-uuid"), None);
    let u = new_uuid_simple();
    assert_eq!(u.len(), 32);
    assert_eq!(parse_uuid(&u).map(uuid_simple), Some(u.clone()));
    assert_eq!(request_user_uuid("550e8400-e29b-41d4-a716-446655440000").unwrap(), 0x550e8400e29b41d4a716446655440000);
    match request_user_uuid("x") {
        Err(AppError::BadRequest(m)) => assert_eq!(m, "Invalid user_id UUID"),
        _ => panic!(),
    }
    let t = new_npm_token();
    assert!(t.starts_with("gitfox-npm_"));
    assert_eq!(t.len(), 11 + 32);
}

#[test]
fn ssh_keys() {
    let key = "ssh-ed25519 AAAAC3NzaC1lZDI1NTE5AAAAIOMqqnkVzrm0SdG6UOoqKLsabgH5C9okWi0dh2l9GKJl user@host";
    let (t, k, f) = parse_ssh_key(key).unwrap();
    assert_eq!(t, "ssh-ed25519");
    assert_eq!(k, key);
    assert_eq!(f, "SHA256:-DiY3wvvV6TuJJhbpZisF_zLDA0zPMSvHdkr4UvCOqU");
    match parse_ssh_key("ssh-ed25519") {
        Err(AppError::BadRequest(m)) => assert_eq!(m, "Invalid SSH key format"),
        _ => panic!(),
    }
    match parse_ssh_key("ssh-dss AAAA") {
        Err(AppError::BadRequest(m)) => assert_eq!(m, "Unsupported key type: ssh-dss"),
        _ => panic!(),
    }
    match parse_ssh_key("ssh-rsa !!notbase64") {
        Err(AppError::BadRequest(m)) => assert_eq!(m, "Invalid SSH key data"),
        _ => panic!(),
    }
}

#[test]
fn settings_tokens() {
    let t = generate_trigger_token();
    assert!(t.starts_with("glptt-"));
    assert_eq!(t.len(), 6 + 32);
    let p = generate_project_access_token();
    assert!(p.starts_with("gitfox-pat_"));
    assert_eq!(p.len(), 11 + 27);
    assert!(p[11..].chars().all(|c| c.is_ascii_alphanumeric() || c == '-' || c == '_'));
}

#[test]
fn npm_package_files() {
    assert_eq!(npm_file_name("@scope/pkg", "1.2.3"), "@scope-pkg-1.2.3.tgz");
    assert_eq!(npm_file_name("left-pad", "0.0.1"), "left-pad-0.0.1.tgz");
    match npm_version_conflict("left-pad", "0.0.1") {
        AppError::Conflict(m) => assert_eq!(m, "Package left-pad version 0.0.1 already exists"),
        other => panic!("unexpected {:?}", other),
    }
}

#[test]
fn uuid_versions_and_round_trip() {
    for _ in 0..20 {
        let u = new_uuid_simple();
        let cs: Vec<char> = u.chars().collect();
        assert_eq!(cs[12], '4');
        assert!(matches!(cs[16], '8' | '9' | 'a' | 'b'));
    }
    let n: u128 = 0x0123_4567_89ab_4def_8123_4567_89ab_cdef;
    assert_eq!(parse_uuid(&uuid_simple(n)), Some(n));
    assert_eq!(parse_uuid(&uuid_simple(7)), Some(7));
}

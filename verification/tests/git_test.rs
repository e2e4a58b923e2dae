use gitfox::error::AppError;
use gitfox::git_http::{
    advertisement_content_type, advertisement_preamble, basic_credentials, info_refs_service, parse_git_path, pkt_line,
    write_permission,
};
use gitfox::internal::{
    internal_ref_update, internal_token_accepted, key_repo_access, lfs_project_access, plan_batch, split_owner_project,
    user_id_or_zero, StoredObject,
};

#[test]
fn git_paths() {
    assert_eq!(parse_git_path("group/sub/repo.git").unwrap(), ("group/sub".to_string(), "repo".to_string()));
    assert_eq!(parse_git_path("alice/app").unwrap(), ("alice".to_string(), "app".to_string()));
    assert_eq!(parse_git_path("alice/app.git.git").unwrap(), ("alice".to_string(), "app".to_string()));
    match parse_git_path("repo.git") {
        Err(AppError::BadRequest(m)) => assert_eq!(m, "Invalid git path: missing namespace"),
        _ => panic!(),
    }
    match parse_git_path("/repo") {
        Err(AppError::BadRequest(m)) => assert_eq!(m, "Invalid git path"),
        _ => panic!(),
    }
    match parse_git_path("alice/") {
        Err(AppError::BadRequest(m)) => assert_eq!(m, "Invalid git path"),
        _ => panic!(),
    }
}

#[test]
fn git_path_round_trip() {
    for p in ["a/b", "group/sub/repo.git", "x/y.git"] {
        let (ns, name) = parse_git_path(p).unwrap();
        assert_eq!(format!("{}/{}", ns, name), p.trim_end_matches(".git"));
    }
}

#[test]
fn pkt_lines() {
    assert_eq!(pkt_line("# service=git-upload-pack\n"), "001e# service=git-upload-pack\n");
    assert_eq!(pkt_line(""), "0004");
    assert_eq!(
        advertisement_preamble("git-upload-pack"),
        "001e# service=git-upload-pack\n0000"
    );
    assert_eq!(advertisement_content_type("git-upload-pack"), "application/x-git-upload-pack-advertisement");
}

#[test]
fn info_refs_services() {
    assert_eq!(info_refs_service(Some("git-upload-pack")), Some("git-upload-pack"));
    assert_eq!(info_refs_service(Some("git-receive-pack")), Some("git-receive-pack"));
    assert_eq!(info_refs_service(Some("git-other")), None);
    assert_eq!(info_refs_service(None), None);
}

#[test]
fn basic_credentials_read() {
    assert_eq!(
        basic_credentials("Basic Y2xpZW50OnMzY3JldA=="),
        Some(("client".to_string(), "s3cret".to_string()))
    );
    assert_eq!(basic_credentials("Basic dXNlcjpwYTpzcw=="), Some(("user".to_string(), "pa:ss".to_string())));
    assert_eq!(basic_credentials("Bearer abc"), None);
    assert_eq!(basic_credentials("Basic ###"), None);
    assert_eq!(basic_credentials("Basic bm9jb2xvbg=="), None);
}

#[test]
fn git_write_permission() {
    assert!(write_permission(3, 3, None));
    assert!(write_permission(4, 3, Some("maintainer")));
    assert!(!write_permission(4, 3, Some("guest")));
    assert!(!write_permission(4, 3, None));
}

#[test]
fn internal_token() {
    assert!(internal_token_accepted(Some("s3"), "s3"));
    assert!(!internal_token_accepted(Some("x"), "s3"));
    assert!(!internal_token_accepted(None, "s3"));
}

#[test]
fn internal_paths_and_ids() {
    assert_eq!(split_owner_project("alice/app"), Some(("alice".to_string(), "app".to_string())));
    assert_eq!(user_id_or_zero("42"), 42);
    assert_eq!(user_id_or_zero("x"), 0);
    let a = key_repo_access(5, 5, "private", None);
    assert!(a.can_access && a.can_write);
}

#[test]
fn internal_ref_updates() {
    let r = internal_ref_update("delete", "refs/heads/main", Some((false, false)), false);
    assert!(!r.allowed);
    assert_eq!(r.message, Some("Branch 'main' is protected: deletion is not allowed".to_string()));
    let r = internal_ref_update("delete", "refs/heads/main", Some((false, false)), true);
    assert!(r.allowed && r.message.is_none());
    let r = internal_ref_update("delete", "refs/tags/v1", Some((false, false)), false);
    assert!(r.allowed);
    let r = internal_ref_update("update", "refs/heads/main", Some((false, false)), false);
    assert!(r.allowed);
}

#[test]
fn lfs_access() {
    assert!(lfs_project_access(Some("developer"), None, true));
    assert!(!lfs_project_access(Some("reporter"), None, true));
    assert!(lfs_project_access(Some("reporter"), None, false));
    assert!(lfs_project_access(None, Some("public"), false));
    assert!(!lfs_project_access(None, Some("public"), true));
    assert!(!lfs_project_access(None, Some("internal"), false));
    assert!(!lfs_project_access(None, None, false));
}

#[test]
fn lfs_batch_plans() {
    let objs = vec![
        StoredObject { oid: "a".to_string(), size: 10, stored: Some(12) },
        StoredObject { oid: "b".to_string(), size: 5, stored: None },
    ];
    let (plans, total) = plan_batch(false, &objs);
    assert_eq!(total, 15);
    assert_eq!(plans[0].oid, "a");
    assert_eq!(plans[0].size, 12);
    assert_eq!(plans[0].actions, vec!["download"]);
    assert!(plans[0].error.is_none());
    assert_eq!(plans[1].error, Some((404, "Object not found".to_string())));
    let (plans, total) = plan_batch(true, &objs);
    assert_eq!(total, 15);
    assert!(plans[0].actions.is_empty());
    assert_eq!(plans[1].actions, vec!["upload", "verify"]);
}

use gitfox::auth::{http_access_denied, http_access_response, jwt_user_id, JwtClaims, RepoAccess, TokenInfo};
use gitfox::error::AppError;
use gitfox::gpg::{signature_verdict, SignerFacts};
use gitfox::internal::{
    access_check_answer, batch_response, AccessCheckAnswer, AccountFacts, ProjectFacts, SshKeyFacts, StoredObject,
};
use gitfox::registry::{
    npm_tag_not_found, npm_version_choice, npm_version_not_found, package_list_sql, ListPackagesQuery,
    NpmPackageQuery, NpmVersionChoice, PackageType,
};

fn user(id: i64) -> TokenInfo {
    TokenInfo::full_access(id, "dana".to_string())
}

#[test]
fn http_access_answers() {
    let r = http_access_response(
        true,
        user(7),
        RepoAccess { can_access: true, can_write: true },
        42,
        "/repos/ns/p.git".to_string(),
        Some("unix:///run/gitlayer.sock".to_string()),
    );
    assert!(r.status && r.message.is_empty());
    assert_eq!((r.user_id, r.username.as_str(), r.can_write, r.project_id), (7, "dana", true, 42));
    assert_eq!(r.repository_path, "/repos/ns/p.git");
    assert_eq!(r.gitlayer_address, "unix:///run/gitlayer.sock");

    let r = http_access_response(true, user(7), RepoAccess { can_access: true, can_write: false }, 42, "x".to_string(), None);
    assert!(!r.status);
    assert_eq!(r.message, "You don't have write access to this repository");
    assert_eq!((r.user_id, r.project_id, r.repository_path.as_str()), (0, 0, ""));

    let r = http_access_response(false, user(7), RepoAccess { can_access: false, can_write: false }, 0, String::new(), None);
    assert_eq!(r.message, "You don't have access to this repository");

    let r = http_access_response(false, user(7), RepoAccess { can_access: true, can_write: false }, 3, "p".to_string(), None);
    assert!(r.status && !r.can_write && r.gitlayer_address.is_empty());

    let r = http_access_denied("Authentication required for push".to_string());
    assert!(!r.status && r.message == "Authentication required for push" && r.user_id == 0);
}

fn key(expires_at: Option<i128>) -> Option<SshKeyFacts> {
    Some(SshKeyFacts { user_id: 5, expires_at })
}

fn account(active: bool) -> Option<AccountFacts> {
    Some(AccountFacts { user_id: 5, username: "eve".to_string(), is_active: active })
}

fn project(visibility: &str, owner: i64) -> Option<ProjectFacts> {
    Some(ProjectFacts { id: 9, visibility: visibility.to_string(), owner_id: owner })
}

fn denied(a: AccessCheckAnswer) -> (u16, String) {
    match a {
        AccessCheckAnswer::Denied(c, m) => (c, m),
        _ => panic!("expected a denial"),
    }
}

#[test]
fn ssh_access_check_answers() {
    let ok = |a: AccessCheckAnswer| match a {
        AccessCheckAnswer::Allowed { user_id, username, can_write, project_id } => (user_id, username, can_write, project_id),
        _ => panic!("expected access"),
    };
    let all = |tok, kid, k, acc, path, proj, member, action| {
        access_check_answer(tok, "sec", kid, k, 1000, acc, path, proj, member, action)
    };
    match all(None, "key-1", key(None), account(true), "eve/p", project("private", 5), None, "git-upload-pack") {
        AccessCheckAnswer::Refused(AppError::Unauthorized(m)) => assert_eq!(m, "Invalid shell token"),
        _ => panic!(),
    }
    match all(Some("sec"), "1", key(None), account(true), "eve/p", project("private", 5), None, "git-upload-pack") {
        AccessCheckAnswer::Refused(AppError::BadRequest(m)) => assert_eq!(m, "Invalid key_id format"),
        _ => panic!(),
    }
    match all(Some("sec"), "key-1", None, account(true), "eve/p", project("private", 5), None, "git-upload-pack") {
        AccessCheckAnswer::Refused(AppError::Unauthorized(m)) => assert_eq!(m, "SSH key not found"),
        _ => panic!(),
    }
    assert_eq!(
        denied(all(Some("sec"), "key-1", key(Some(999)), account(true), "eve/p", project("private", 5), None, "x")),
        (403, "SSH key has expired".to_string())
    );
    match all(Some("sec"), "key-1", key(Some(1000)), None, "eve/p", project("private", 5), None, "x") {
        AccessCheckAnswer::Refused(AppError::Unauthorized(m)) => assert_eq!(m, "User not found"),
        _ => panic!(),
    }
    assert_eq!(
        denied(all(Some("sec"), "key-1", key(None), account(false), "eve/p", project("private", 5), None, "x")),
        (403, "User account is deactivated".to_string())
    );
    assert_eq!(
        denied(all(Some("sec"), "key-1", key(None), account(true), "eve/g/p", project("private", 5), None, "x")),
        (400, "Invalid repository path format. Expected: owner/project".to_string())
    );
    assert_eq!(
        denied(all(Some("sec"), "key-1", key(None), account(true), "eve/p", None, None, "x")),
        (404, "Repository not found".to_string())
    );
    assert_eq!(
        denied(all(Some("sec"), "key-1", key(None), account(true), "bob/p", project("private", 8), None, "git-upload-pack")),
        (403, "You don't have access to this repository".to_string())
    );
    assert_eq!(
        denied(all(Some("sec"), "key-1", key(None), account(true), "bob/p", project("public", 8), Some("reporter"), "git-receive-pack")),
        (403, "You don't have write access to this repository".to_string())
    );
    assert_eq!(
        ok(all(Some("sec"), "key-1", key(None), account(true), "bob/p", project("internal", 8), None, "git-upload-pack")),
        (5, "eve".to_string(), false, 9)
    );
    assert_eq!(
        ok(all(Some("sec"), "key-1", key(None), account(true), "bob/p", project("private", 8), Some("developer"), "git-receive-pack")),
        (5, "eve".to_string(), true, 9)
    );
}

fn obj(oid: &str, size: i64, stored: Option<i64>) -> StoredObject {
    StoredObject { oid: oid.to_string(), size, stored }
}

#[test]
fn lfs_batch_answers() {
    let objs = vec![obj("a", 10, None), obj("b", 20, Some(20))];
    let r = batch_response(false, true, true, &objs).ok().unwrap();
    assert_eq!((r.transfer.as_str(), r.objects.len(), r.message.as_str()), ("", 0, "LFS is not enabled for this project"));
    assert_eq!(batch_response(true, false, true, &objs).err().unwrap(), "Access denied");
    let r = batch_response(true, true, true, &objs).ok().unwrap();
    assert_eq!((r.transfer.as_str(), r.message.as_str(), r.operation, r.total_size), ("basic", "", "upload", 30));
    assert_eq!(r.objects[0].actions, vec!["upload", "verify"]);
    assert!(r.objects[1].actions.is_empty());
    let r = batch_response(true, true, false, &objs).ok().unwrap();
    assert_eq!(r.operation, "download");
    assert_eq!(r.objects[0].error, Some((404, "Object not found".to_string())));
    assert_eq!(r.objects[1].actions, vec!["download"]);
}

fn signer(revoked: bool, verified: bool, expires_at: Option<i128>) -> Option<SignerFacts> {
    Some(SignerFacts {
        user_id: 3,
        username: "fay".to_string(),
        emails: vec!["Fay@Example.com".to_string()],
        revoked,
        verified,
        expires_at,
    })
}

const GOOD: &str = "[GNUPG:] NEWSIG\n[GNUPG:] GOODSIG 0123456789ABCDEF Fay <fay@example.com>\n[GNUPG:] VALIDSIG FFFF 2024";

#[test]
fn signature_verdicts() {
    let v = signature_verdict(GOOD, signer(false, true, None), "fay@example.com", 100);
    assert!(v.valid);
    assert_eq!(v.status, "verified");
    assert_eq!(v.key_id.as_deref(), Some("0123456789ABCDEF"));
    assert_eq!((v.user_id, v.username.as_deref()), (Some(3), Some("fay")));

    let v = signature_verdict(GOOD, signer(false, false, None), "fay@example.com", 100);
    assert_eq!((v.valid, v.status.as_str()), (true, "unverified"));
    let v = signature_verdict(GOOD, signer(false, true, None), "other@example.com", 100);
    assert_eq!((v.valid, v.status.as_str()), (false, "bad_email"));
    let v = signature_verdict(GOOD, signer(true, true, None), "fay@example.com", 100);
    assert_eq!((v.valid, v.status.as_str()), (false, "revoked_key"));
    let v = signature_verdict(GOOD, signer(false, true, Some(50)), "fay@example.com", 100);
    assert_eq!((v.valid, v.status.as_str()), (false, "expired_key"));

    let v = signature_verdict(GOOD, signer(false, true, Some(99)), "fay@example.com", 100);
    assert_eq!((v.valid, v.status.as_str()), (false, "expired_key"));
    let v = signature_verdict(GOOD, signer(false, true, Some(100)), "fay@example.com", 100);
    assert_eq!((v.valid, v.status.as_str()), (true, "verified"));

    let v = signature_verdict(GOOD, None, "fay@example.com", 100);
    assert_eq!((v.valid, v.status.as_str(), v.user_id, v.username), (true, "unverified", None, None));
    assert_eq!(v.key_id.as_deref(), Some("0123456789ABCDEF"));

    let v = signature_verdict("[GNUPG:] ERRSIG 1 2\n[GNUPG:] NO_PUBKEY 1234", signer(false, true, None), "fay@example.com", 100);
    assert_eq!((v.valid, v.status.as_str(), v.user_id), (false, "unknown_key", None));
    let v = signature_verdict("[GNUPG:] BADSIG 77 Fay", None, "x", 100);
    assert_eq!((v.valid, v.status.as_str()), (false, "bad_signature"));
}

#[test]
fn package_lists_and_npm_versions() {
    let (sql, kind) = package_list_sql(&ListPackagesQuery { package_type: Some(PackageType::Npm) });
    assert!(sql.contains("package_type = $2"));
    assert_eq!(kind, Some("npm"));
    let (sql, kind) = package_list_sql(&ListPackagesQuery { package_type: None });
    assert!(sql.ends_with("ORDER BY package_type, name, created_at DESC"));
    assert_eq!(kind, None);
    assert_eq!(PackageType::Cargo.as_str(), "cargo");
    assert_eq!(PackageType::Docker.as_str(), "docker");

    match npm_version_choice(&NpmPackageQuery { version: Some("1.0.0".to_string()), tag: Some("beta".to_string()) }) {
        NpmVersionChoice::Version(v) => assert_eq!(v, "1.0.0"),
        _ => panic!(),
    }
    match npm_version_choice(&NpmPackageQuery { version: None, tag: Some("beta".to_string()) }) {
        NpmVersionChoice::Tag { tag, explicit } => assert!(tag == "beta" && explicit),
        _ => panic!(),
    }
    match npm_version_choice(&NpmPackageQuery { version: None, tag: None }) {
        NpmVersionChoice::Tag { tag, explicit } => assert!(tag == "latest" && !explicit),
        _ => panic!(),
    }
    match npm_tag_not_found("beta", true, "pkg") {
        AppError::NotFound(m) => assert_eq!(m, "Tag beta not found for package pkg"),
        _ => panic!(),
    }
    match npm_tag_not_found("latest", false, "pkg") {
        AppError::NotFound(m) => assert_eq!(m, "Package pkg not found"),
        _ => panic!(),
    }
    match npm_version_not_found("pkg", "2.0.0") {
        AppError::NotFound(m) => assert_eq!(m, "Package pkg@2.0.0 not found"),
        _ => panic!(),
    }
}

#[test]
fn session_token_subjects() {
    assert_eq!(jwt_user_id(&JwtClaims { sub: "42".to_string(), exp: 0 }), Ok(42));
    assert_eq!(jwt_user_id(&JwtClaims { sub: "alice".to_string(), exp: 0 }), Err("Invalid user ID in token"));
}

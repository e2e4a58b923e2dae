use gitfox::auth::{
    access_denial, any_rule_matches, branch_matches_pattern, classify_ref_change, http_token_gate, lfs_href, lfs_token_denial,
    parse_key_id, protected_branch_denial, repo_access, repo_disk_path, role_can_maintain, role_can_write,
    split_repo_path, ssh_key_denial, user_project_role, Credential, ProtectionRule, RepoAccess, TokenGate, TokenInfo,
};

fn scoped(v: &[&str]) -> TokenInfo {
    TokenInfo::limited_access(5, "bob".to_string(), v.iter().map(|s| s.to_string()).collect())
}

#[test]
fn anonymous_token_is_unauthenticated() {
    let t = TokenInfo::anonymous();
    assert!(!t.is_authenticated());
    assert!(t.can_read_repo());
    assert!(t.can_write_repo());
    assert_eq!(t.user_id, 0);
}

#[test]
fn full_access_token() {
    let t = TokenInfo::full_access(3, "amy".to_string());
    assert!(t.is_authenticated());
    assert!(t.can_read_repo());
    assert!(t.can_write_repo());
}

#[test]
fn scoped_tokens() {
    assert!(scoped(&["write_repository"]).can_write_repo());
    assert!(scoped(&["write_repository"]).can_read_repo());
    assert!(scoped(&["repository:read"]).can_read_repo());
    assert!(!scoped(&["repository:read"]).can_write_repo());
    assert!(scoped(&["admin"]).can_write_repo());
    assert!(!scoped(&["read_api"]).can_read_repo());
}

#[test]
fn write_scope_implies_read_scope() {
    for s in ["repository:write", "write_repository", "admin"] {
        let t = scoped(&[s]);
        assert!(t.can_write_repo());
        assert!(t.can_read_repo());
    }
}

#[test]
fn repository_access_rules() {
    let owner = repo_access(7, 7, "private", None);
    assert!(owner.can_access && owner.can_write);
    let anon_public = repo_access(0, 7, "public", None);
    assert!(anon_public.can_access && !anon_public.can_write);
    let anon_internal = repo_access(0, 7, "internal", None);
    assert!(!anon_internal.can_access);
    let user_internal = repo_access(5, 7, "internal", None);
    assert!(user_internal.can_access && !user_internal.can_write);
    let user_private = repo_access(5, 7, "private", None);
    assert!(!user_private.can_access);
    let dev = repo_access(5, 7, "private", Some("developer"));
    assert!(dev.can_access && dev.can_write);
    let reporter = repo_access(5, 7, "private", Some("reporter"));
    assert!(reporter.can_access && !reporter.can_write);
}

#[test]
fn roles() {
    assert!(role_can_write("owner"));
    assert!(role_can_write("developer"));
    assert!(!role_can_write("reporter"));
    assert!(role_can_maintain("maintainer"));
    assert!(!role_can_maintain("developer"));
    assert_eq!(user_project_role(7, 7, None), "owner");
    assert_eq!(user_project_role(5, 7, Some("developer")), "developer");
}

#[test]
fn push_needs_an_authenticated_writer() {
    assert!(matches!(
        http_token_gate("git-receive-pack", Credential::Missing),
        TokenGate::Deny(m) if m == "Authentication required for push"
    ));
    assert!(matches!(http_token_gate("git-receive-pack", Credential::Rejected), TokenGate::Fail));
    assert!(matches!(
        http_token_gate("git-receive-pack", Credential::Accepted(scoped(&["read_repository"]))),
        TokenGate::Deny(m) if m == "Token scope insufficient for push (need repository:write or write_repository)"
    ));
    assert!(matches!(
        http_token_gate("git-receive-pack", Credential::Accepted(scoped(&["write_repository"]))),
        TokenGate::Proceed(t) if t.user_id == 5
    ));
}

#[test]
fn clone_falls_back_to_anonymous() {
    assert!(matches!(http_token_gate("git-upload-pack", Credential::Rejected), TokenGate::Proceed(t) if t.user_id == 0));
    assert!(matches!(http_token_gate("git-upload-pack", Credential::Missing), TokenGate::Proceed(t) if t.user_id == 0));
    assert!(matches!(
        http_token_gate("git-upload-pack", Credential::Accepted(scoped(&["read_api"]))),
        TokenGate::Deny(m) if m == "Token scope insufficient for clone/fetch (need repository:read or read_repository)"
    ));
}

#[test]
fn access_denials() {
    let none = RepoAccess { can_access: false, can_write: false };
    let read = RepoAccess { can_access: true, can_write: false };
    let write = RepoAccess { can_access: true, can_write: true };
    assert_eq!(access_denial(false, &none), Some("You don't have access to this repository"));
    assert_eq!(access_denial(true, &read), Some("You don't have write access to this repository"));
    assert_eq!(access_denial(false, &read), None);
    assert_eq!(access_denial(true, &write), None);
}

#[test]
fn ssh_key_denials() {
    assert_eq!(ssh_key_denial(true, true), Some("SSH key has expired"));
    assert_eq!(ssh_key_denial(false, false), Some("User account is deactivated"));
    assert_eq!(ssh_key_denial(false, true), None);
}

#[test]
fn key_ids() {
    assert_eq!(parse_key_id("key-42"), Some(42));
    assert_eq!(parse_key_id("key-x"), None);
    assert_eq!(parse_key_id("42"), None);
}

#[test]
fn lfs_token_denials() {
    let write = RepoAccess { can_access: true, can_write: true };
    let read = RepoAccess { can_access: true, can_write: false };
    assert_eq!(lfs_token_denial(false, false, &write), Some("User not found or inactive"));
    assert_eq!(lfs_token_denial(true, true, &read), Some("You don't have write access to this repository"));
    assert_eq!(lfs_token_denial(true, true, &write), None);
    assert_eq!(lfs_token_denial(true, false, &read), None);
}

#[test]
fn lfs_and_repository_paths() {
    assert_eq!(lfs_href("http://host/", "team/app"), "http://host/team/app.git/info/lfs");
    assert_eq!(split_repo_path("team/sub/app.git"), Some(("team/sub".to_string(), "app".to_string())));
    assert_eq!(split_repo_path("app"), None);
    assert_eq!(repo_disk_path("/repos", "team", "app"), "/repos/team/app.git");
}

#[test]
fn branch_patterns() {
    assert!(branch_matches_pattern("main", "main"));
    assert!(!branch_matches_pattern("main2", "main"));
    assert!(branch_matches_pattern("release/1.0", "release/*"));
    assert!(!branch_matches_pattern("hotfix/1.0", "release/*"));
    assert!(branch_matches_pattern("v1", "v?"));
    assert!(!branch_matches_pattern("v10", "v?"));
    assert!(!branch_matches_pattern("relxase", "rel.ase*"));
}

#[test]
fn ref_changes() {
    let zero = "0000000000000000000000000000000000000000";
    let c = classify_ref_change("refs/heads/main", "update", "abc", zero);
    assert!(c.is_branch && c.is_deletion && !c.is_creation);
    assert_eq!(c.branch, "main");
    let c = classify_ref_change("refs/tags/v1", "create", "abc", "def");
    assert!(!c.is_branch && c.is_creation);
}

fn rule(pattern: &str, force: bool, delete: bool) -> ProtectionRule {
    ProtectionRule {
        branch_pattern: pattern.to_string(),
        require_review: false,
        required_reviewers: 0,
        require_ci_pass: false,
        allow_force_push: force,
        allow_deletion: delete,
    }
}

#[test]
fn protected_branches() {
    let rules = vec![rule("main", false, false), rule("release/*", true, false)];
    assert_eq!(
        protected_branch_denial("main", false, false, &rules, "developer"),
        Some("Branch 'main' is protected. Only maintainers and owners can push.".to_string())
    );
    assert_eq!(protected_branch_denial("main", false, false, &rules, "maintainer"), None);
    assert_eq!(
        protected_branch_denial("main", true, false, &rules, "owner"),
        Some("Branch 'main' is protected. Deletion is not allowed.".to_string())
    );
    assert_eq!(
        protected_branch_denial("main", false, true, &rules, "owner"),
        Some("Branch 'main' is protected. Force push is not allowed.".to_string())
    );
    assert_eq!(protected_branch_denial("release/2", false, true, &rules, "owner"), None);
    assert_eq!(protected_branch_denial("feature/x", true, true, &rules, "guest"), None);
    assert!(any_rule_matches("release/9", &rules));
    assert!(!any_rule_matches("feature/x", &rules));
}

use gitfox::branch::find_branch;
use gitfox::error::AppError;
use gitfox::issue::{closes_issue, issue_window, ListIssuesQuery};
use gitfox::merge::{check_mergeable, delete_source_after_merge, merge_author, merge_message, merge_route, MergeRoute};
use gitfox::pipeline::{initial_pipeline_status, job_or_default, pipeline_status_after_creation};
use gitfox::namespace::{
    access_level, check_group_action, check_group_path, group_full_path, resolve_answer, split_project_candidate,
    GroupAction,
};
use gitfox::project::{list_window, ListQuery};
use gitfox::repository::{
    commit_actions, commit_email, make_signature, project_write_access, signature_at, FileAction,
};
use gitfox::server::{server_config, ssh_clone_url_prefix};

#[test]
fn branches_are_found_by_name() {
    let names = vec!["main".to_string(), "dev".to_string(), "main".to_string()];
    assert_eq!(find_branch(&names, "main").unwrap(), 0);
    assert_eq!(find_branch(&names, "dev").unwrap(), 1);
    match find_branch(&names, "gone") {
        Err(AppError::NotFound(m)) => assert_eq!(m, "Branch not found"),
        _ => panic!(),
    }
}

#[test]
fn issue_and_project_windows() {
    let q = ListIssuesQuery { state: None, page: None, per_page: None };
    assert_eq!(issue_window(&q), ("open".to_string(), 20, 0));
    let q = ListIssuesQuery { state: Some("closed".to_string()), page: Some(3), per_page: Some(10) };
    assert_eq!(issue_window(&q), ("closed".to_string(), 10, 20));
    assert_eq!(list_window(&ListQuery { page: None, per_page: None }), (1, 20));
    assert_eq!(list_window(&ListQuery { page: Some(2), per_page: Some(5) }), (2, 5));
}

#[test]
fn merge_checks() {
    match merge_route(false, 1, 1) {
        Err(AppError::BadRequest(m)) => assert_eq!(m, "Merge request is not open"),
        _ => panic!(),
    }
    assert_eq!(merge_route(true, 1, 1).unwrap(), MergeRoute::SameProject);
    assert_eq!(merge_route(true, 2, 1).unwrap(), MergeRoute::FromFork);
    match check_mergeable(false) {
        Err(AppError::Conflict(m)) => assert_eq!(m, "Cannot merge due to conflicts"),
        _ => panic!(),
    }
    assert!(check_mergeable(true).is_ok());
}

#[test]
fn merge_commit_details() {
    assert_eq!(
        merge_message("feature", "main", 12, "Add login"),
        "Merge branch 'feature' into 'main'\n\nMerge request !12: Add login"
    );
    assert_eq!(merge_author("bob", Some("Bob B")), "Bob B");
    assert_eq!(merge_author("bob", None), "bob");
    assert!(delete_source_after_merge(Some(true), MergeRoute::SameProject));
    assert!(!delete_source_after_merge(Some(true), MergeRoute::FromFork));
    assert!(!delete_source_after_merge(None, MergeRoute::SameProject));
    assert_eq!(job_or_default(Some(1), Some(2)), Some(1));
    assert_eq!(job_or_default(None, Some(2)), Some(2));
    assert_eq!(pipeline_status_after_creation(0), "skipped");
    assert_eq!(pipeline_status_after_creation(3), "pending");
    assert_eq!(initial_pipeline_status(Ok(2)), ("pending", None));
    assert_eq!(initial_pipeline_status(Ok(0)), ("failed", Some("No jobs defined in CI configuration".to_string())));
    assert_eq!(
        initial_pipeline_status(Err("bad yaml")),
        ("failed", Some("CI configuration error: bad yaml".to_string()))
    );
}

#[test]
fn namespaces() {
    assert_eq!(split_project_candidate("team/sub/app"), Some(("team/sub".to_string(), "app".to_string())));
    assert_eq!(split_project_candidate("team"), None);
    assert_eq!(resolve_answer(true, Some("group".to_string())).entity_type, "project");
    assert_eq!(resolve_answer(false, Some("group".to_string())).entity_type, "group");
    assert_eq!(resolve_answer(false, None).entity_type, "not_found");
    assert_eq!(group_full_path(Some("parent"), "child"), "parent/child");
    assert_eq!(group_full_path(None, "top"), "top");
    match check_group_path(1, true, 0) {
        Err(AppError::Conflict(m)) => assert_eq!(m, "This path already exists"),
        _ => panic!(),
    }
    match check_group_path(0, true, 1) {
        Err(AppError::Conflict(m)) => assert_eq!(m, "Path conflicts with existing username"),
        _ => panic!(),
    }
    assert!(check_group_path(0, false, 1).is_ok());
}

#[test]
fn group_permissions() {
    assert_eq!(access_level(40), 40);
    assert_eq!(access_level(0), 10);
    assert_eq!(access_level(35), 10);
    match check_group_action(GroupAction::CreateSubgroup, 20, 0) {
        Err(AppError::Forbidden(m)) => assert_eq!(m, "You don't have permission to create subgroups in this group"),
        _ => panic!(),
    }
    assert!(check_group_action(GroupAction::CreateSubgroup, 30, 0).is_ok());
    match check_group_action(GroupAction::Update, 30, 0) {
        Err(AppError::Forbidden(m)) => assert_eq!(m, "Insufficient permissions"),
        _ => panic!(),
    }
    match check_group_action(GroupAction::Delete, 40, 0) {
        Err(AppError::Forbidden(m)) => assert_eq!(m, "Only group owner can delete the group"),
        _ => panic!(),
    }
    assert!(check_group_action(GroupAction::Delete, 50, 0).is_ok());
    match check_group_action(GroupAction::AddMember, 40, 50) {
        Err(AppError::Forbidden(m)) => assert_eq!(m, "Cannot grant higher access than your own"),
        _ => panic!(),
    }
    assert!(check_group_action(GroupAction::AddMember, 40, 40).is_ok());
    assert!(check_group_action(GroupAction::RemoveMember, 40, 0).is_ok());
}

#[test]
fn repository_editing() {
    let s = signature_at("bob", "bob@gitfox.local", 1700000000);
    assert_eq!((s.name.as_str(), s.email.as_str(), s.timestamp, s.timezone.as_str()), ("bob", "bob@gitfox.local", 1700000000, "+0000"));
    let now = make_signature("amy", "amy@x");
    assert_eq!(now.timezone, "+0000");
    assert!(now.timestamp > 1_600_000_000);
    assert_eq!(commit_email("bob"), "bob@gitfox.local");
    assert!(project_write_access(3, 3, None, false));
    assert!(project_write_access(4, 3, Some("developer"), false));
    assert!(!project_write_access(4, 3, Some("reporter"), false));
    assert!(project_write_access(4, 3, Some("reporter"), true));
    assert!(!project_write_access(4, 3, None, false));
}

#[test]
fn batch_commit_actions() {
    let acts = vec![
        FileAction { action: "create".to_string(), file_path: "a.txt".to_string(), content: Some("hé".to_string()) },
        FileAction { action: "delete".to_string(), file_path: "b.txt".to_string(), content: None },
    ];
    let out = commit_actions(&acts);
    assert_eq!(out.len(), 2);
    assert_eq!(out[0].action, "create");
    assert_eq!(out[0].path, "a.txt");
    assert_eq!(out[0].content, "hé".as_bytes().to_vec());
    assert_eq!(out[0].mode, 0o100644);
    assert_eq!(out[0].previous_path, "");
    assert!(out[1].content.is_empty());
}

#[test]
fn clone_prefixes() {
    assert_eq!(ssh_clone_url_prefix(true, "git.example.com", 22), "git@git.example.com:");
    assert_eq!(ssh_clone_url_prefix(true, "git.example.com", 2222), "ssh://git@git.example.com:2222/");
    assert_eq!(ssh_clone_url_prefix(false, "x", 22), "");
    let c = server_config(true, "h", 22, "https", "git.example.com");
    assert!(c.ssh_enabled);
    assert_eq!(c.http_clone_url_prefix, "https://git.example.com/");
    assert_eq!(c.ssh_clone_url_prefix, "git@h:");
}

#[test]
fn closing_issues() {
    assert!(closes_issue(&Some("closed".to_string())));
    assert!(!closes_issue(&Some("opened".to_string())));
    assert!(!closes_issue(&None));
}

//! Namespaces: what a path names (a project, a group or a user), the
//! namespaces a project can be created in, and the path of a new group.
use vstd::prelude::*;
use crate::error::AppError;
use crate::text::{chars_of, join3, last_index, owned, rfind_char, slice_chars, string_of};

verus! {

/// What a path names: `project`, `group`, `user` or `not_found`.
pub struct PathResolveResponse {
    pub entity_type: String,
}

/// A namespace a user may create projects in.
pub struct NamespaceOption {
    pub id: i64,
    pub name: String,
    pub path: String,
    /// `user` or `group`.
    pub namespace_type: String,
    pub avatar_url: Option<String>,
}

/// A path with a `/` may name a project: the namespace before its last
/// `/`, the project after it.
pub open spec fn project_candidate(path: Seq<char>) -> Option<(Seq<char>, Seq<char>)> {
    match last_index(path, '/') {
        Some(i) => Some((path.take(i), path.skip(i + 1))),
        None => None,
    }
}

/// Cuts a path into the namespace and project it may name.
pub fn split_project_candidate(path: &str) -> (r: Option<(String, String)>)
    ensures
        match r {
            Some((ns, p)) => project_candidate(path@) == Some((ns@, p@)),
            None => project_candidate(path@) is None,
        },
{
    let cs = chars_of(path);
    match rfind_char(&cs, '/') {
        Some(i) => {
            let ns = slice_chars(&cs, 0, i);
            let p = slice_chars(&cs, i + 1, cs.len());
            assert(ns@ =~= path@.take(i as int));
            assert(p@ =~= path@.skip(i + 1));
            Some((string_of(&ns), string_of(&p)))
        },
        None => None,
    }
}

/// What a path names: a project when one was found, else the kind of the
/// namespace with that path, else nothing.
pub open spec fn resolved_kind(is_project: bool, namespace_type: Option<Seq<char>>) -> Seq<char> {
    if is_project {
        "project"@
    } else {
        match namespace_type {
            Some(t) => t,
            None => "not_found"@,
        }
    }
}

/// The answer to a path resolution.
pub fn resolve_answer(is_project: bool, namespace_type: Option<String>) -> (r: PathResolveResponse)
    ensures
        r.entity_type@ == resolved_kind(is_project, match namespace_type {
            Some(t) => Some(t@),
            None => None,
        }),
{
    if is_project {
        PathResolveResponse { entity_type: owned("project") }
    } else {
        match namespace_type {
            Some(t) => PathResolveResponse { entity_type: t },
            None => PathResolveResponse { entity_type: owned("not_found") },
        }
    }
}

/// The path of a new group: under its parent's path when it has a parent.
pub fn group_full_path(parent_path: Option<&str>, path: &str) -> (r: String)
    ensures
        r@ == (match parent_path {
            Some(p) => p@ + "/"@ + path@,
            None => path@,
        }),
{
    match parent_path {
        Some(p) => join3(p, "/", path),
        None => owned(path),
    }
}

/// Why a new group's path is refused: it is taken by a namespace, or, for a
/// top-level group, by a user name.
pub open spec fn group_path_denial(namespaces_with_path: i64, top_level: bool, users_with_name: i64) -> Option<Seq<char>> {
    if namespaces_with_path > 0 {
        Some("This path already exists"@)
    } else if top_level && users_with_name > 0 {
        Some("Path conflicts with existing username"@)
    } else {
        None
    }
}

/// Checks the path of a new group; a refusal is a conflict.
pub fn check_group_path(namespaces_with_path: i64, top_level: bool, users_with_name: i64) -> (r: Result<(), AppError>)
    ensures
        match group_path_denial(namespaces_with_path, top_level, users_with_name) {
            None => r is Ok,
            Some(m) => r matches Err(AppError::Conflict(msg)) && msg@ == m,
        },
{
    if namespaces_with_path > 0 {
        Err(AppError::conflict("This path already exists"))
    } else if top_level && users_with_name > 0 {
        Err(AppError::conflict("Path conflicts with existing username"))
    } else {
        Ok(())
    }
}

/// Access levels in groups, from guest to owner.
pub const GUEST: i32 = 10;
pub const REPORTER: i32 = 20;
pub const DEVELOPER: i32 = 30;
pub const MAINTAINER: i32 = 40;
pub const OWNER: i32 = 50;

/// The access level that a stored number stands for: a known level is
/// itself, anything else (no membership among them) is guest.
pub open spec fn access_level_of(n: i32) -> i32 {
    if n == 50 || n == 40 || n == 30 || n == 20 || n == 10 {
        n
    } else {
        GUEST
    }
}

/// Reads a stored access level.
pub fn access_level(n: i32) -> (r: i32)
    ensures
        r == access_level_of(n),
{
    if n == 50 || n == 40 || n == 30 || n == 20 || n == 10 {
        n
    } else {
        GUEST
    }
}

/// Something done to a group.
#[derive(PartialEq, Eq, Structural, Debug, Clone, Copy)]
pub enum GroupAction {
    CreateSubgroup,
    Update,
    Delete,
    AddMember,
    RemoveMember,
}

/// Why a member with access `access` may not do an action; adding a member
/// at level `granted`.
pub open spec fn group_action_denial(action: GroupAction, access: i32, granted: i32) -> Option<Seq<char>> {
    match action {
        GroupAction::CreateSubgroup => if access < DEVELOPER {
            Some("You don't have permission to create subgroups in this group"@)
        } else {
            None
        },
        GroupAction::Update | GroupAction::RemoveMember => if access < MAINTAINER {
            Some("Insufficient permissions"@)
        } else {
            None
        },
        GroupAction::Delete => if access < OWNER {
            Some("Only group owner can delete the group"@)
        } else {
            None
        },
        GroupAction::AddMember => if access < MAINTAINER {
            Some("Insufficient permissions"@)
        } else if granted > access {
            Some("Cannot grant higher access than your own"@)
        } else {
            None
        },
    }
}

/// Checks that a member may do an action to a group; a refusal is
/// forbidden.
pub fn check_group_action(action: GroupAction, access: i32, granted: i32) -> (r: Result<(), AppError>)
    ensures
        match group_action_denial(action, access, granted) {
            None => r is Ok,
            Some(m) => r matches Err(AppError::Forbidden(msg)) && msg@ == m,
        },
{
    match action {
        GroupAction::CreateSubgroup => if access < DEVELOPER {
            Err(AppError::forbidden("You don't have permission to create subgroups in this group"))
        } else {
            Ok(())
        },
        GroupAction::Update | GroupAction::RemoveMember => if access < MAINTAINER {
            Err(AppError::forbidden("Insufficient permissions"))
        } else {
            Ok(())
        },
        GroupAction::Delete => if access < OWNER {
            Err(AppError::forbidden("Only group owner can delete the group"))
        } else {
            Ok(())
        },
        GroupAction::AddMember => if access < MAINTAINER {
            Err(AppError::forbidden("Insufficient permissions"))
        } else if granted > access {
            Err(AppError::forbidden("Cannot grant higher access than your own"))
        } else {
            Ok(())
        },
    }
}

/// Nobody can hand out more access than they have, and only maintainers
/// and owners can add members.
pub proof fn law_no_escalation(access: i32, granted: i32)
    requires
        group_action_denial(GroupAction::AddMember, access, granted) is None,
    ensures
        granted <= access,
        access >= MAINTAINER,
{
}

/// Only an owner can delete a group.
pub proof fn law_only_owner_deletes(access: i32, granted: i32)
    requires
        group_action_denial(GroupAction::Delete, access, granted) is None,
    ensures
        access >= OWNER,
{
}

} // verus!

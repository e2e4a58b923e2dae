//! Merging a merge request: the checks before the merge, the commit message
//! and author, and what happens to the source branch.
use vstd::prelude::*;
use crate::error::AppError;
use crate::text::{join2, join3, owned, signed_decimal_of, string_of, i64_to_decimal};

verus! {

/// How a merge request is merged.
#[derive(PartialEq, Eq, Structural, Debug, Clone, Copy)]
pub enum MergeRoute {
    /// The source branch is in the same project.
    SameProject,
    /// The source branch is in a fork, which is fetched first.
    FromFork,
}

/// Only an open merge request can be merged; its source decides the route.
pub fn merge_route(is_open: bool, source_project_id: i64, project_id: i64) -> (r: Result<MergeRoute, AppError>)
    ensures
        !is_open ==> (r matches Err(AppError::BadRequest(m)) && m@ == "Merge request is not open"@),
        is_open ==> r == Ok::<MergeRoute, AppError>(if source_project_id == project_id {
            MergeRoute::SameProject
        } else {
            MergeRoute::FromFork
        }),
{
    if !is_open {
        return Err(AppError::bad_request("Merge request is not open"));
    }
    if source_project_id == project_id {
        Ok(MergeRoute::SameProject)
    } else {
        Ok(MergeRoute::FromFork)
    }
}

/// Within a project, branches that conflict are not merged.
pub fn check_mergeable(can_merge: bool) -> (r: Result<(), AppError>)
    ensures
        r is Ok <==> can_merge,
        r matches Err(e) ==> e matches AppError::Conflict(m) && m@ == "Cannot merge due to conflicts"@,
{
    if can_merge {
        Ok(())
    } else {
        Err(AppError::conflict("Cannot merge due to conflicts"))
    }
}

/// The message of a merge commit.
pub open spec fn merge_message_of(source: Seq<char>, target: Seq<char>, iid: i64, title: Seq<char>) -> Seq<char> {
    "Merge branch '"@ + source + "' into '"@ + target + "'\n\nMerge request !"@ + signed_decimal_of(iid as int)
        + ": "@ + title
}

/// Writes the message of a merge commit.
pub fn merge_message(source: &str, target: &str, iid: i64, title: &str) -> (r: String)
    ensures
        r@ == merge_message_of(source@, target@, iid, title@),
{
    let a = join3("Merge branch '", source, "' into '");
    let b = join3(a.as_str(), target, "'\n\nMerge request !");
    let n = string_of(&i64_to_decimal(iid));
    let c = join3(b.as_str(), n.as_str(), ": ");
    join2(c.as_str(), title)
}

/// The author of a merge commit: the user's display name, else the user
/// name.
pub fn merge_author(username: &str, display_name: Option<&str>) -> (r: String)
    ensures
        r@ == (match display_name {
            Some(d) => d@,
            None => username@,
        }),
{
    match display_name {
        Some(d) => owned(d),
        None => owned(username),
    }
}

/// The source branch is deleted after a merge: when asked, and only when
/// it is in the same project.
pub open spec fn deletes_source(requested: Option<bool>, route: MergeRoute) -> bool {
    (match requested {
        Some(b) => b,
        None => false,
    }) && route == MergeRoute::SameProject
}

/// Whether the source branch is deleted after the merge.
pub fn delete_source_after_merge(requested: Option<bool>, route: MergeRoute) -> (r: bool)
    ensures
        r == deletes_source(requested, route),
{
    let asked = match requested {
        Some(b) => b,
        None => false,
    };
    asked && route == MergeRoute::SameProject
}

/// A branch in a fork is never deleted by a merge, whatever was asked.
pub proof fn law_fork_branch_survives_merge(requested: Option<bool>)
    ensures
        !deletes_source(requested, MergeRoute::FromFork),
{
}

} // verus!

//! Branches of a repository: the paths of the branch API and the lookup of
//! one branch among those of a repository.
use vstd::prelude::*;
use crate::error::AppError;
use crate::oauth::string_views;
use crate::text::str_eq;

verus! {

/// The path of a project's branch list.
pub struct ProjectPath {
    pub namespace: String,
    pub project: String,
}

/// The path of one branch.
pub struct BranchPath {
    pub namespace: String,
    pub project: String,
    pub branch: String,
}

/// The position of the first branch with this name.
pub open spec fn first_named(names: Seq<Seq<char>>, name: Seq<char>) -> Option<int>
    decreases names.len(),
{
    if names.len() == 0 {
        None
    } else if names[0] == name {
        Some(0)
    } else {
        match first_named(names.drop_first(), name) {
            Some(i) => Some(i + 1),
            None => None,
        }
    }
}

/// Finds a branch by name among the branches of a repository; an unknown
/// branch is not found.
pub fn find_branch(names: &Vec<String>, name: &str) -> (r: Result<usize, AppError>)
    ensures
        match first_named(string_views(names@), name@) {
            Some(i) => r == Ok::<usize, AppError>(i as usize),
            None => r matches Err(AppError::NotFound(m)) && m@ == "Branch not found"@,
        },
{
    let ghost v = string_views(names@);
    let mut i: usize = 0;
    assert(v.skip(0) =~= v);
    while i < names.len()
        invariant
            v == string_views(names@),
            i <= names.len(),
            first_named(v, name@) == match first_named(v.skip(i as int), name@) {
                Some(k) => Some(k + i),
                None => None,
            },
        decreases names.len() - i,
    {
        assert(v.skip(i as int)[0] == names@[i as int]@);
        assert(v.skip(i as int).drop_first() =~= v.skip(i + 1));
        if str_eq(names[i].as_str(), name) {
            return Ok(i);
        }
        i = i + 1;
    }
    assert(v.skip(i as int).len() == 0);
    Err(AppError::not_found("Branch not found"))
}

} // verus!

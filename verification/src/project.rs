//! Projects: the paths and the query of the project API.
use vstd::prelude::*;

verus! {

/// The page of a project list.
pub struct ListQuery {
    pub page: Option<u32>,
    pub per_page: Option<u32>,
}

/// The path of a project: `/{namespace}/{project}`.
pub struct ProjectPath {
    pub namespace: String,
    pub project: String,
}

/// The path of a project member.
pub struct MemberPath {
    pub namespace: String,
    pub project: String,
    pub user_id: i64,
}

/// The page and page size of a project list: page 1 of 20 by default.
pub fn list_window(q: &ListQuery) -> (r: (u32, u32))
    ensures
        r.0 == (match q.page {
            Some(p) => p,
            None => 1,
        }),
        r.1 == (match q.per_page {
            Some(p) => p,
            None => 20,
        }),
{
    let page = match q.page {
        Some(p) => p,
        None => 1,
    };
    let per_page = match q.per_page {
        Some(p) => p,
        None => 20,
    };
    (page, per_page)
}

} // verus!

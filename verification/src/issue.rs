//! Issues: the query of the issue list and its page window, notes, and
//! when an update closes an issue.
use vstd::prelude::*;
use crate::text::{owned, str_eq};

verus! {

/// The query of an issue list.
pub struct ListIssuesQuery {
    /// `open` by default.
    pub state: Option<String>,
    pub page: Option<i32>,
    pub per_page: Option<i32>,
}

/// A comment on an issue.
pub struct CreateNoteRequest {
    pub body: String,
}

/// The state an issue list shows, the page size, and how many issues come
/// before the page: `open`, 20 and page 1 by default.
pub open spec fn issue_window_of(q: ListIssuesQuery) -> (Seq<char>, i64, i64) {
    let per_page = match q.per_page {
        Some(p) => p,
        None => 20,
    };
    let page = match q.page {
        Some(p) => p,
        None => 1,
    };
    (
        match q.state {
            Some(s) => s@,
            None => "open"@,
        },
        per_page as i64,
        ((page - 1) * per_page) as i64,
    )
}

/// The state filter, page size and offset of an issue list.
pub fn issue_window(q: &ListIssuesQuery) -> (r: (String, i64, i64))
    requires
        i32::MIN <= (match q.page {
            Some(p) => p,
            None => 1,
        }) - 1,
        i32::MIN <= ((match q.page {
            Some(p) => p,
            None => 1,
        }) - 1) * (match q.per_page {
            Some(p) => p,
            None => 20,
        }) <= i32::MAX,
    ensures
        (r.0@, r.1, r.2) == issue_window_of(*q),
{
    let state = match &q.state {
        Some(s) => owned(s.as_str()),
        None => owned("open"),
    };
    let per_page: i32 = match q.per_page {
        Some(p) => p,
        None => 20,
    };
    let page: i32 = match q.page {
        Some(p) => p,
        None => 1,
    };
    let offset: i32 = (page - 1) * per_page;
    (state, per_page as i64, offset as i64)
}

/// Whether an issue update closes the issue, so that its closing time is
/// set: when it sets the state to `closed`.
pub fn closes_issue(state: &Option<String>) -> (r: bool)
    ensures
        r == (match *state {
            Some(s) => s@ == "closed"@,
            None => false,
        }),
{
    match state {
        Some(s) => str_eq(s.as_str(), "closed"),
        None => false,
    }
}

} // verus!

//! Administration: the user list with its filters and pages, the guards on
//! what an administrator may do to their own account, and the request and
//! response types of the administration API.
use vstd::prelude::*;
use crate::error::AppError;
use crate::oauth::opt_view;
use crate::text::{joined, join_with, string_seq_views, decimal_of, join2, join3, owned, str_eq, string_of, u64_to_decimal, signed_decimal_of,
    i64_to_decimal};

verus! {

/// Counts shown on the administration dashboard.
pub struct SystemStats {
    pub total_users: i64,
    pub active_users: i64,
    pub total_projects: i64,
    pub total_groups: i64,
    pub admin_count: i64,
}

/// The query of the user list.
pub struct AdminListQuery {
    /// Page number, from 1.
    pub page: Option<u32>,
    pub per_page: Option<u32>,
    /// Text searched in user names, emails and display names.
    pub search: Option<String>,
    /// Role to keep (`all`: every role).
    pub role: Option<String>,
    /// `active` or `blocked`.
    pub status: Option<String>,
}

/// An administrator's change to a user; unset fields stay as they are.
pub struct AdminUpdateUserRequest {
    /// The new role, by its name (`admin` is the administrator role).
    pub role: Option<String>,
    pub is_active: Option<bool>,
    pub display_name: Option<String>,
    pub email: Option<String>,
    pub is_pro: Option<bool>,
}

/// Sets or clears a user's pro status.
pub struct SetProStatusRequest {
    pub is_pro: bool,
}

/// SMTP settings to test, with the address a test email goes to.
pub struct SmtpTestRequest {
    pub enabled: bool,
    pub host: String,
    pub port: u16,
    pub username: String,
    pub password: String,
    pub from_email: String,
    pub from_name: String,
    pub use_tls: bool,
    pub use_ssl: bool,
    pub test_email: Option<String>,
}

/// The SMTP settings in force, as shown to administrators.
pub struct SmtpStatusResponse {
    pub configured: bool,
    pub enabled: bool,
    pub host: String,
    pub port: u16,
    pub from_email: String,
    pub from_name: String,
    pub use_tls: bool,
    pub use_ssl: bool,
}

// ---------------------------------------------------------------------------
// The user list
// ---------------------------------------------------------------------------

/// The list is searched: a non-empty search text was given.
pub open spec fn search_active(q: AdminListQuery) -> bool {
    q.search matches Some(s) && s@.len() > 0
}

/// The list is filtered by role: a role other than `all` was given.
pub open spec fn role_active(q: AdminListQuery) -> bool {
    q.role matches Some(r) && r@.len() > 0 && r@ != "all"@
}

/// The search condition, on parameter `$k`.
pub open spec fn search_condition(k: nat) -> Seq<char> {
    let d = decimal_of(k);
    "(username ILIKE '%' || $"@ + d + " || '%' OR email ILIKE '%' || $"@ + d + " || '%' OR display_name ILIKE '%' || $"@
        + d + " || '%')"@
}

/// The role condition, on parameter `$k`.
pub open spec fn role_condition(k: nat) -> Seq<char> {
    "role = $"@ + decimal_of(k) + "::user_role"@
}

/// The condition of a status filter: `active` and `blocked` filter, any
/// other value does not.
pub open spec fn status_condition(status: Option<Seq<char>>) -> Option<Seq<char>> {
    match status {
        Some(s) => if s == "active"@ {
            Some("is_active = true"@)
        } else if s == "blocked"@ {
            Some("is_active = false"@)
        } else {
            None
        },
        None => None,
    }
}

/// The parameter that the role is bound to: after the search text when
/// there is one.
pub open spec fn role_param(q: AdminListQuery) -> nat {
    if search_active(q) {
        2
    } else {
        1
    }
}

/// The conditions of the user list, in order: search, role, status.
pub open spec fn list_conditions(q: AdminListQuery) -> Seq<Seq<char>> {
    let c1 = if search_active(q) {
        seq![search_condition(1)]
    } else {
        Seq::empty()
    };
    let c2 = if role_active(q) {
        c1.push(role_condition(role_param(q)))
    } else {
        c1
    };
    match status_condition(opt_view(q.status)) {
        Some(c) => c2.push(c),
        None => c2,
    }
}

/// The `WHERE` clause of the user list (empty without conditions).
pub open spec fn where_clause_of(q: AdminListQuery) -> Seq<char> {
    if list_conditions(q).len() == 0 {
        Seq::empty()
    } else {
        "WHERE "@ + joined(list_conditions(q), " AND "@)
    }
}

/// The page asked for, 1 by default.
pub open spec fn page_of(q: AdminListQuery) -> u32 {
    match q.page {
        Some(p) => p,
        None => 1,
    }
}

/// The page size: 20 by default, at most 100.
pub open spec fn per_page_of(q: AdminListQuery) -> u32 {
    let p = match q.per_page {
        Some(p) => p,
        None => 20,
    };
    if p < 100 {
        p
    } else {
        100
    }
}

/// How many users come before the page (page 0 counts as page 1).
pub open spec fn offset_of(q: AdminListQuery) -> int {
    (if page_of(q) > 0 {
        page_of(q) - 1
    } else {
        0
    }) * per_page_of(q)
}

/// The text before the `WHERE` clause in the list statement.
pub open spec fn list_head() -> Seq<char> {
    "SELECT u.id, u.username, u.email, u.display_name, u.avatar_url, \n                  u.role, u.is_active, u.created_at, u.updated_at, u.is_pro,\n                  COALESCE((SELECT COUNT(*) FROM projects p WHERE p.owner_id = u.id), 0) as projects_count\n           FROM users u "@
}

/// The statement that lists a page of users.
pub open spec fn list_statement(q: AdminListQuery) -> Seq<char> {
    list_head() + where_clause_of(q) + "\n           ORDER BY u.created_at DESC\n           LIMIT "@ + decimal_of(
        per_page_of(q) as nat,
    ) + " OFFSET "@ + decimal_of(offset_of(q) as nat)
}

/// The values bound to the statements' parameters, in order: the search
/// text, then the role.
pub open spec fn list_binds(q: AdminListQuery) -> Seq<Seq<char>> {
    let b1 = if search_active(q) {
        seq![q.search->0@]
    } else {
        Seq::empty()
    };
    if role_active(q) {
        b1.push(q.role->0@)
    } else {
        b1
    }
}

/// What the user list runs: the page and its size, the statements that
/// count the matching users and list the page, and the values bound to
/// their parameters.
pub struct UserListPlan {
    pub page: u32,
    pub per_page: u32,
    pub count_sql: String,
    pub list_sql: String,
    pub binds: Vec<String>,
}

/// The binds of a plan, as texts.
pub open spec fn bind_views(b: Seq<String>) -> Seq<Seq<char>> {
    b.map_values(|s: String| s@)
}

fn join_and(parts: &Vec<String>) -> (r: String)
    ensures
        r@ == joined(bind_views(parts@), " AND "@),
{
    let r = join_with(parts, " AND ");
    assert(bind_views(parts@) =~= string_seq_views(parts@));
    r
}

fn decimal_string(n: u64) -> (r: String)
    ensures
        r@ == decimal_of(n as nat),
{
    string_of(&u64_to_decimal(n))
}

/// Plans the user list for a query.
pub fn user_list_plan(q: &AdminListQuery) -> (r: UserListPlan)
    requires
        offset_of(*q) <= u32::MAX,
    ensures
        r.page == page_of(*q),
        r.per_page == per_page_of(*q),
        r.count_sql@ == "SELECT COUNT(*) FROM users "@ + where_clause_of(*q),
        r.list_sql@ == list_statement(*q),
        bind_views(r.binds@) == list_binds(*q),
{
    let page: u32 = match q.page {
        Some(p) => p,
        None => 1,
    };
    let requested: u32 = match q.per_page {
        Some(p) => p,
        None => 20,
    };
    let per_page: u32 = if requested < 100 {
        requested
    } else {
        100
    };
    let before: u32 = if page > 0 {
        page - 1
    } else {
        0
    };
    let offset: u32 = before * per_page;

    let mut conditions: Vec<String> = Vec::new();
    let mut binds: Vec<String> = Vec::new();
    let mut param: u64 = 1;
    let searching = match &q.search {
        Some(s) => !s.as_str().is_empty(),
        None => false,
    };
    if searching {
        let d = decimal_string(param);
        let part1 = join3("(username ILIKE '%' || $", d.as_str(), " || '%' OR email ILIKE '%' || $");
        let part2 = join3(part1.as_str(), d.as_str(), " || '%' OR display_name ILIKE '%' || $");
        let cond = join3(part2.as_str(), d.as_str(), " || '%')");
        conditions.push(cond);
        match &q.search {
            Some(s) => binds.push(owned(s.as_str())),
            None => {},
        }
        param = param + 1;
    }
    proof {
        assert(bind_views(conditions@) =~= (if search_active(*q) {
            seq![search_condition(1)]
        } else {
            Seq::<Seq<char>>::empty()
        }));
    }
    let filtering_role = match &q.role {
        Some(r) => !r.as_str().is_empty() && !str_eq(r.as_str(), "all"),
        None => false,
    };
    if filtering_role {
        let d = decimal_string(param);
        let cond = join3("role = $", d.as_str(), "::user_role");
        conditions.push(cond);
        match &q.role {
            Some(r) => binds.push(owned(r.as_str())),
            None => {},
        }
    }
    match &q.status {
        Some(st) => {
            if str_eq(st.as_str(), "active") {
                conditions.push(owned("is_active = true"));
            } else if str_eq(st.as_str(), "blocked") {
                conditions.push(owned("is_active = false"));
            }
        },
        None => {},
    }
    assert(bind_views(conditions@) =~= list_conditions(*q));
    assert(bind_views(binds@) =~= list_binds(*q));
    let where_clause = if conditions.len() == 0 {
        String::new()
    } else {
        let j = join_and(&conditions);
        join2("WHERE ", j.as_str())
    };
    let count_sql = join2("SELECT COUNT(*) FROM users ", where_clause.as_str());
    let head = join2(
        "SELECT u.id, u.username, u.email, u.display_name, u.avatar_url, \n                  u.role, u.is_active, u.created_at, u.updated_at, u.is_pro,\n                  COALESCE((SELECT COUNT(*) FROM projects p WHERE p.owner_id = u.id), 0) as projects_count\n           FROM users u ",
        where_clause.as_str(),
    );
    let pp = decimal_string(per_page as u64);
    let off = decimal_string(offset as u64);
    let mid = join3(head.as_str(), "\n           ORDER BY u.created_at DESC\n           LIMIT ", pp.as_str());
    let list_sql = join3(mid.as_str(), " OFFSET ", off.as_str());
    UserListPlan { page, per_page, count_sql, list_sql, binds }
}

/// Each parameter of the list statements is bound to the value it stands
/// for: `$1` is the search text when the list is searched, and the role is
/// bound to the parameter that its condition names.
pub proof fn law_list_params_match_binds(q: AdminListQuery)
    ensures
        search_active(q) ==> list_binds(q)[0] == q.search->0@ && list_conditions(q)[0] == search_condition(1),
        role_active(q) ==> list_binds(q)[role_param(q) - 1] == q.role->0@,
        list_binds(q).len() == (if search_active(q) { 1int } else { 0 }) + (if role_active(q) { 1int } else { 0 }),
{
}

// ---------------------------------------------------------------------------
// Guards
// ---------------------------------------------------------------------------

/// Why an administrator may not apply a change to a user: to their own
/// account they may neither give up the administrator role nor deactivate
/// it.
pub open spec fn admin_update_denial(target: i64, admin: i64, role: Option<Seq<char>>, is_active: Option<bool>) -> Option<
    Seq<char>,
> {
    if target != admin {
        None
    } else if role matches Some(r) && r != "admin"@ {
        Some("Cannot change your own admin role"@)
    } else if is_active == Some(false) {
        Some("Cannot deactivate your own account"@)
    } else {
        None
    }
}

/// Checks an administrator's change to a user; a refusal is a bad request.
pub fn check_admin_update(target: i64, admin: i64, req: &AdminUpdateUserRequest) -> (r: Result<(), AppError>)
    ensures
        match admin_update_denial(target, admin, opt_view(req.role), req.is_active) {
            None => r is Ok,
            Some(m) => r matches Err(AppError::BadRequest(msg)) && msg@ == m,
        },
{
    if target == admin {
        if let Some(role) = &req.role {
            if !str_eq(role.as_str(), "admin") {
                return Err(AppError::bad_request("Cannot change your own admin role"));
            }
        }
        if req.is_active == Some(false) {
            return Err(AppError::bad_request("Cannot deactivate your own account"));
        }
    }
    Ok(())
}

/// An administrator may not delete their own account.
pub fn check_admin_delete(target: i64, admin: i64) -> (r: Result<(), AppError>)
    ensures
        r is Ok <==> target != admin,
        r matches Err(e) ==> e matches AppError::BadRequest(m) && m@ == "Cannot delete your own account"@,
{
    if target == admin {
        Err(AppError::bad_request("Cannot delete your own account"))
    } else {
        Ok(())
    }
}

/// An administrator can never lock themselves out: no change they are
/// allowed to make to their own account removes its administrator role or
/// deactivates it.
pub proof fn law_admin_keeps_own_access(admin: i64, role: Option<Seq<char>>, is_active: Option<bool>)
    requires
        admin_update_denial(admin, admin, role, is_active) is None,
    ensures
        role matches Some(r) ==> r == "admin"@,
        is_active != Some(false),
{
}

/// The key that tells the sessions of a user that the user's role changed.
pub fn role_changed_key(user_id: i64) -> (r: String)
    ensures
        r@ == "user:"@ + signed_decimal_of(user_id as int) + ":role_changed"@,
{
    let d = string_of(&i64_to_decimal(user_id));
    join3("user:", d.as_str(), ":role_changed")
}

/// The address a test email goes to; a request without one is a bad
/// request.
pub fn test_email_target(req: &SmtpTestRequest) -> (r: Result<String, AppError>)
    ensures
        match req.test_email {
            Some(t) => r matches Ok(s) && s@ == t@,
            None => r matches Err(AppError::BadRequest(m)) && m@ == "test_email is required"@,
        },
{
    match &req.test_email {
        Some(t) => Ok(owned(t.as_str())),
        None => Err(AppError::bad_request("test_email is required")),
    }
}

/// The message that confirms a test email.
pub fn test_email_sent_message(to: &str) -> (r: String)
    ensures
        r@ == "Test email sent to "@ + to@,
{
    join2("Test email sent to ", to)
}

} // verus!

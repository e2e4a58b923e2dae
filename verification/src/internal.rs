//! Decisions of the internal API that the SSH shell and the Git HTTP
//! front end call: the shared-secret check, repository access of an SSH key
//! and the ref-update check of the pre-receive hook.
use vstd::prelude::*;
use crate::auth::{opt_view, role_writes, role_can_write, RepoAccess};
use crate::error::AppError;
use crate::text::{owned, chars_of, join3, parse_integer, parse_in_range, split_char, split_on, str_eq,
    string_of, has_prefix, starts_with, slice_chars};

verus! {

/// The shared secret sent in a request header matches the configured one.
pub open spec fn spec_token_accepted(header: Option<Seq<char>>, secret: Seq<char>) -> bool {
    header == Some(secret)
}

/// Whether the internal token sent with a request (if any) is the configured
/// secret.
pub fn internal_token_accepted(header: Option<&str>, secret: &str) -> (r: bool)
    ensures
        r == spec_token_accepted(opt_view(header), secret@),
{
    match header {
        Some(t) => str_eq(t, secret),
        None => false,
    }
}

/// Access that an SSH key's user has to a project: full for the owner, read
/// for members and, for owner, maintainer and developer members, write;
/// without membership read on public and internal projects.
pub open spec fn spec_key_repo_access(
    user_id: int,
    owner_id: int,
    visibility: Seq<char>,
    membership: Option<Seq<char>>,
) -> RepoAccess {
    if user_id == owner_id {
        RepoAccess { can_access: true, can_write: true }
    } else {
        match membership {
            Some(role) => RepoAccess { can_access: true, can_write: role_writes(role) },
            None => if visibility == "public"@ || visibility == "internal"@ {
                RepoAccess { can_access: true, can_write: false }
            } else {
                RepoAccess { can_access: false, can_write: false }
            },
        }
    }
}

/// Access of the user of an SSH key to a project.
pub fn key_repo_access(user_id: i64, owner_id: i64, visibility: &str, membership: Option<&str>) -> (r:
    RepoAccess)
    ensures
        r == spec_key_repo_access(user_id as int, owner_id as int, visibility@, opt_view(membership)),
{
    if user_id == owner_id {
        return RepoAccess { can_access: true, can_write: true };
    }
    match membership {
        Some(role) => RepoAccess { can_access: true, can_write: role_can_write(role) },
        None => {
            if str_eq(visibility, "public") || str_eq(visibility, "internal") {
                RepoAccess { can_access: true, can_write: false }
            } else {
                RepoAccess { can_access: false, can_write: false }
            }
        },
    }
}

/// `owner/project` cut at its single `/`; any other number of `/` is refused.
pub open spec fn spec_owner_project(path: Seq<char>) -> Option<(Seq<char>, Seq<char>)> {
    let parts = split_char(path, '/');
    if parts.len() == 2 {
        Some((parts[0], parts[1]))
    } else {
        None
    }
}

/// Cuts `owner/project` into its two parts.
pub fn split_owner_project(path: &str) -> (r: Option<(String, String)>)
    ensures
        match r {
            Some((o, p)) => spec_owner_project(path@) == Some((o@, p@)),
            None => spec_owner_project(path@) is None,
        },
{
    let cs = chars_of(path);
    let parts = split_on(&cs, '/');
    if parts.len() == 2 {
        Some((string_of(&parts[0]), string_of(&parts[1])))
    } else {
        None
    }
}

/// The user id sent as text by the shell: a number, or 0 when it does not
/// read as one.
pub fn user_id_or_zero(text: &str) -> (r: i64)
    ensures
        r as int == match parse_in_range(text@, true, i64::MIN as int, i64::MAX as int) {
            Some(v) => v,
            None => 0,
        },
{
    let cs = chars_of(text);
    match parse_integer(&cs, true, i64::MIN as i128, i64::MAX as i128) {
        Some(v) => v as i64,
        None => 0,
    }
}

/// The answer to a ref-update check.
pub struct RefUpdateAnswer {
    pub allowed: bool,
    pub message: Option<String>,
}

/// The denial of the internal ref-update check: deleting a protected branch
/// whose rule forbids deletion, by a user who is neither owner nor
/// maintainer. Everything else is allowed.
pub open spec fn spec_internal_ref_denial(
    change_type: Seq<char>,
    ref_name: Seq<char>,
    protection: Option<(bool, bool)>,
    has_admin_access: bool,
) -> Option<Seq<char>> {
    if !has_prefix(ref_name, "refs/heads/"@) {
        None
    } else {
        match protection {
            Some((_allow_force_push, allow_deletion)) => if change_type == "delete"@
                && !allow_deletion && !has_admin_access {
                Some(
                    "Branch '"@ + ref_name.skip(11) + "' is protected: deletion is not allowed"@,
                )
            } else {
                None
            },
            None => None,
        }
    }
}

/// Checks a ref update for the internal API. `protection` is the most
/// specific rule covering the branch, as (allow force push, allow deletion),
/// and `has_admin_access` tells whether the user owns or maintains the
/// project.
pub fn internal_ref_update(
    change_type: &str,
    ref_name: &str,
    protection: Option<(bool, bool)>,
    has_admin_access: bool,
) -> (r: RefUpdateAnswer)
    ensures
        r.allowed == (spec_internal_ref_denial(change_type@, ref_name@, protection, has_admin_access) is None),
        match r.message {
            Some(m) => spec_internal_ref_denial(change_type@, ref_name@, protection, has_admin_access) == Some(m@),
            None => spec_internal_ref_denial(change_type@, ref_name@, protection, has_admin_access) is None,
        },
{
    let cs = chars_of(ref_name);
    let heads = chars_of("refs/heads/");
    proof {
        reveal_strlit("refs/heads/");
    }
    if !starts_with(&cs, &heads) {
        return RefUpdateAnswer { allowed: true, message: None };
    }
    match protection {
        Some((_allow_force_push, allow_deletion)) => {
            if str_eq(change_type, "delete") && !allow_deletion && !has_admin_access {
                let branch = string_of(&slice_chars(&cs, 11, cs.len()));
                proof {
                    assert(cs@.subrange(11, cs@.len() as int) =~= ref_name@.skip(11));
                }
                let msg = join3("Branch '", branch.as_str(), "' is protected: deletion is not allowed");
                RefUpdateAnswer { allowed: false, message: Some(msg) }
            } else {
                RefUpdateAnswer { allowed: true, message: None }
            }
        },
        None => RefUpdateAnswer { allowed: true, message: None },
    }
}

// ---------------------------------------------------------------------------
// LFS
// ---------------------------------------------------------------------------

/// Access to a project's LFS objects: members read and, as owner, maintainer
/// or developer, write; non-members read public projects and never write; an
/// unknown project gives nothing.
pub open spec fn spec_lfs_access(
    membership: Option<Seq<char>>,
    visibility: Option<Seq<char>>,
    require_write: bool,
) -> bool {
    match membership {
        Some(role) => if require_write {
            role_writes(role)
        } else {
            true
        },
        None => match visibility {
            Some(v) => !require_write && v == "public"@,
            None => false,
        },
    }
}

/// Whether a user may read (or, with `require_write`, write) a project's LFS
/// objects, from their membership role and the project's visibility.
pub fn lfs_project_access(membership: Option<&str>, visibility: Option<&str>, require_write: bool) -> (r:
    bool)
    ensures
        r == spec_lfs_access(opt_view(membership), opt_view(visibility), require_write),
{
    match membership {
        Some(role) => {
            if require_write {
                role_can_write(role)
            } else {
                true
            }
        },
        None => match visibility {
            Some(v) => {
                if require_write {
                    false
                } else {
                    str_eq(v, "public")
                }
            },
            None => false,
        },
    }
}

/// What the store knows of one object of an LFS batch request.
pub struct StoredObject {
    pub oid: String,
    /// The size the client announced.
    pub size: i64,
    /// For an upload: whether the object is stored; for a download: its
    /// stored size when it is stored and linked to the project.
    pub stored: Option<i64>,
}

/// The answer for one object of an LFS batch request.
pub struct BatchObjectPlan {
    pub oid: String,
    pub size: i64,
    /// Names of the transfer actions offered (`upload`, `verify`, `download`).
    pub actions: Vec<&'static str>,
    /// Error code and message when the object cannot be served.
    pub error: Option<(i32, String)>,
}

/// The action names offered for one object.
pub open spec fn spec_batch_actions(is_upload: bool, stored: Option<i64>) -> Seq<Seq<char>> {
    if is_upload {
        if stored is Some {
            Seq::empty()
        } else {
            seq!["upload"@, "verify"@]
        }
    } else {
        if stored is Some {
            seq!["download"@]
        } else {
            Seq::empty()
        }
    }
}

/// The views of a sequence of string slices.
pub open spec fn strs_view(s: Seq<&str>) -> Seq<Seq<char>> {
    s.map_values(|x: &str| x@)
}

/// The answer for one object: its id; the stored size of a stored object
/// being downloaded, else the announced size; the actions offered; and
/// error 404 for a download of a missing object.
pub open spec fn batch_plan_ok(is_upload: bool, obj: StoredObject, r: BatchObjectPlan) -> bool {
    &&& r.oid@ == obj.oid@
    &&& r.size == (if !is_upload && obj.stored is Some { obj.stored->0 } else { obj.size })
    &&& strs_view(r.actions@) == spec_batch_actions(is_upload, obj.stored)
    &&& (r.error is Some <==> (!is_upload && obj.stored is None))
    &&& (r.error matches Some((code, m)) ==> code == 404 && m@ == "Object not found"@)
}

/// Plans the answer for one object: an upload of a stored object needs no
/// action, of a new one an upload and a verify; a download of a stored object
/// gets a download with the stored size, of a missing one error 404.
pub fn plan_batch_object(is_upload: bool, obj: &StoredObject) -> (r: BatchObjectPlan)
    ensures
        batch_plan_ok(is_upload, *obj, r),
{
    let mut actions: Vec<&'static str> = Vec::new();
    let oid = obj.oid.clone();
    if is_upload {
        if obj.stored.is_none() {
            actions.push("upload");
            actions.push("verify");
        }
        assert(strs_view(actions@) =~= spec_batch_actions(is_upload, obj.stored));
        BatchObjectPlan { oid, size: obj.size, actions, error: None }
    } else {
        match obj.stored {
            Some(actual) => {
                actions.push("download");
                assert(strs_view(actions@) =~= spec_batch_actions(is_upload, obj.stored));
                BatchObjectPlan { oid, size: actual, actions, error: None }
            },
            None => {
                assert(strs_view(actions@) =~= spec_batch_actions(is_upload, obj.stored));
                BatchObjectPlan {
                    oid,
                    size: obj.size,
                    actions,
                    error: Some((404, "Object not found".to_string())),
                }
            },
        }
    }
}

/// The sum of the announced sizes of the objects.
pub open spec fn announced_total(objs: Seq<StoredObject>) -> int
    decreases objs.len(),
{
    if objs.len() == 0 {
        0
    } else {
        announced_total(objs.drop_last()) + objs.last().size
    }
}

/// Plans the answers for all objects of a batch, in order, and sums the
/// announced sizes.
pub fn plan_batch(is_upload: bool, objs: &Vec<StoredObject>) -> (r: (Vec<BatchObjectPlan>, i64))
    requires
        forall|k: int| 0 <= k <= objs@.len() ==> i64::MIN <= #[trigger] announced_total(objs@.take(k)) <= i64::MAX,
    ensures
        r.0@.len() == objs@.len(),
        forall|k: int| 0 <= k < objs@.len() ==> batch_plan_ok(is_upload, objs@[k], #[trigger] r.0@[k]),
        r.1 == announced_total(objs@),
{
    let mut plans: Vec<BatchObjectPlan> = Vec::new();
    let mut total: i64 = 0;
    let mut i: usize = 0;
    assert(objs@.take(0) =~= Seq::<StoredObject>::empty());
    while i < objs.len()
        invariant
            i <= objs@.len(),
            forall|k: int| 0 <= k <= objs@.len() ==> i64::MIN <= #[trigger] announced_total(objs@.take(k)) <= i64::MAX,
            plans@.len() == i,
            forall|k: int| 0 <= k < i ==> batch_plan_ok(is_upload, objs@[k], #[trigger] plans@[k]),
            total == announced_total(objs@.take(i as int)),
        decreases objs.len() - i,
    {
        proof {
            assert(objs@.take(i + 1).drop_last() =~= objs@.take(i as int));
            let _ = announced_total(objs@.take(i + 1));
        }
        total = total + objs[i].size;
        plans.push(plan_batch_object(is_upload, &objs[i]));
        i = i + 1;
    }
    assert(objs@.take(objs@.len() as int) =~= objs@);
    (plans, total)
}

/// The answer to an LFS batch request, with what is recorded of it.
pub struct BatchResponse {
    /// `basic`, or empty when LFS is off.
    pub transfer: String,
    pub objects: Vec<BatchObjectPlan>,
    pub message: String,
    /// `upload` or `download`, as recorded.
    pub operation: &'static str,
    /// The sum of the announced sizes, as recorded.
    pub total_size: i64,
}

/// Answers an LFS batch request: a project without LFS gets an empty answer
/// saying so; a caller without the access the operation needs is refused
/// ("Access denied"); else every object is planned, in order, with the
/// `basic` transfer.
pub fn batch_response(lfs_enabled: bool, access_ok: bool, is_upload: bool, objs: &Vec<StoredObject>) -> (r: Result<
    BatchResponse,
    &'static str,
>)
    requires
        lfs_enabled && access_ok ==> forall|k: int|
            0 <= k <= objs@.len() ==> i64::MIN <= #[trigger] announced_total(objs@.take(k)) <= i64::MAX,
    ensures
        !lfs_enabled ==> (r matches Ok(b) && b.transfer@.len() == 0 && b.objects@.len() == 0 && b.message@
            == "LFS is not enabled for this project"@),
        lfs_enabled && !access_ok ==> (r matches Err(m) && m@ == "Access denied"@),
        lfs_enabled && access_ok ==> (r matches Ok(b) && b.transfer@ == "basic"@ && b.message@.len() == 0
            && b.objects@.len() == objs@.len() && (forall|k: int|
            0 <= k < objs@.len() ==> batch_plan_ok(is_upload, objs@[k], #[trigger] b.objects@[k]))
            && b.operation@ == (if is_upload { "upload"@ } else { "download"@ }) && b.total_size
            == announced_total(objs@)),
{
    if !lfs_enabled {
        return Ok(BatchResponse {
            transfer: String::new(),
            objects: Vec::new(),
            message: owned("LFS is not enabled for this project"),
            operation: if is_upload { "upload" } else { "download" },
            total_size: 0,
        });
    }
    if !access_ok {
        return Err("Access denied");
    }
    let (objects, total_size) = plan_batch(is_upload, objs);
    Ok(BatchResponse {
        transfer: owned("basic"),
        objects,
        message: String::new(),
        operation: if is_upload { "upload" } else { "download" },
        total_size,
    })
}

// ---------------------------------------------------------------------------
// The SSH access check
// ---------------------------------------------------------------------------

/// What was found for the key of an SSH access check.
pub struct SshKeyFacts {
    pub user_id: i64,
    /// When the key expires, in nanoseconds since the Unix epoch, if it
    /// does.
    pub expires_at: Option<i128>,
}

/// What was found for the key's user.
pub struct AccountFacts {
    pub user_id: i64,
    pub username: String,
    pub is_active: bool,
}

/// What was found for the repository.
pub struct ProjectFacts {
    pub id: i64,
    pub visibility: String,
    pub owner_id: i64,
}

/// The answer to an SSH access check.
pub enum AccessCheckAnswer {
    /// The request fails with this error.
    Refused(AppError),
    /// Access is denied with this HTTP status and message.
    Denied(u16, String),
    /// Access is granted.
    Allowed { user_id: i64, username: String, can_write: bool, project_id: i64 },
}

/// An SSH access check answer as seen by the contracts.
pub enum AccessOutcome {
    Unauthorized(Seq<char>),
    BadRequest(Seq<char>),
    Denied(u16, Seq<char>),
    Allowed(int, Seq<char>, bool, int),
}

/// Whether an answer is the outcome.
pub open spec fn answer_is(r: AccessCheckAnswer, o: AccessOutcome) -> bool {
    match o {
        AccessOutcome::Unauthorized(m) => r matches AccessCheckAnswer::Refused(AppError::Unauthorized(x)) && x@ == m,
        AccessOutcome::BadRequest(m) => r matches AccessCheckAnswer::Refused(AppError::BadRequest(x)) && x@ == m,
        AccessOutcome::Denied(c, m) => r matches AccessCheckAnswer::Denied(c2, x) && c2 == c && x@ == m,
        AccessOutcome::Allowed(u, n, w, p) => r matches AccessCheckAnswer::Allowed { user_id, username, can_write, project_id }
            && user_id == u && username@ == n && can_write == w && project_id == p,
    }
}

/// The SSH access check, in the order its checks are made: the shell
/// token, the form of the key id, the key, its expiry, the user, whether
/// the account is active, the form of the repository path, the repository,
/// and the access of the user to it for the action (`git-receive-pack`
/// writes). `key`, `account`, `project` and `membership` are what the
/// lookups found; each is read only once the checks before it passed.
pub open spec fn spec_access_check(
    token_ok: bool,
    key_id: Seq<char>,
    key: Option<(int, Option<i128>)>,
    now: i128,
    account: Option<(int, Seq<char>, bool)>,
    repo_path: Seq<char>,
    project: Option<(int, Seq<char>, int)>,
    membership: Option<Seq<char>>,
    action: Seq<char>,
) -> AccessOutcome {
    if !token_ok {
        AccessOutcome::Unauthorized("Invalid shell token"@)
    } else if crate::auth::spec_key_number(key_id) is None {
        AccessOutcome::BadRequest("Invalid key_id format"@)
    } else {
        match key {
            None => AccessOutcome::Unauthorized("SSH key not found"@),
            Some((_, expires)) => if (match expires { Some(e) => e < now, None => false }) {
                AccessOutcome::Denied(403, "SSH key has expired"@)
            } else {
                match account {
                    None => AccessOutcome::Unauthorized("User not found"@),
                    Some((uid, name, active)) => if !active {
                        AccessOutcome::Denied(403, "User account is deactivated"@)
                    } else if spec_owner_project(repo_path) is None {
                        AccessOutcome::Denied(400, "Invalid repository path format. Expected: owner/project"@)
                    } else {
                        match project {
                            None => AccessOutcome::Denied(404, "Repository not found"@),
                            Some((pid, visibility, owner)) => {
                                let access = spec_key_repo_access(uid, owner, visibility, membership);
                                match crate::auth::spec_access_denial(action == "git-receive-pack"@, access) {
                                    Some(m) => AccessOutcome::Denied(403, m),
                                    None => AccessOutcome::Allowed(uid, name, access.can_write, pid),
                                }
                            },
                        }
                    }
                }
            }
        }
    }
}

/// Answers an SSH access check from the shell token sent (if any), the
/// configured secret, what the lookups found, and the time (nanoseconds
/// since the Unix epoch).
pub fn access_check_answer(
    shell_token: Option<&str>,
    secret: &str,
    key_id: &str,
    key: Option<SshKeyFacts>,
    now: i128,
    account: Option<AccountFacts>,
    repo_path: &str,
    project: Option<ProjectFacts>,
    membership: Option<&str>,
    action: &str,
) -> (r: AccessCheckAnswer)
    ensures
        answer_is(
            r,
            spec_access_check(
                spec_token_accepted(opt_view(shell_token), secret@),
                key_id@,
                match key {
                    Some(k) => Some((k.user_id as int, k.expires_at)),
                    None => None,
                },
                now,
                match account {
                    Some(a) => Some((a.user_id as int, a.username@, a.is_active)),
                    None => None,
                },
                repo_path@,
                match project {
                    Some(p) => Some((p.id as int, p.visibility@, p.owner_id as int)),
                    None => None,
                },
                opt_view(membership),
                action@,
            ),
        ),
{
    if !internal_token_accepted(shell_token, secret) {
        return AccessCheckAnswer::Refused(AppError::unauthorized("Invalid shell token"));
    }
    if crate::auth::parse_key_id(key_id).is_none() {
        return AccessCheckAnswer::Refused(AppError::bad_request("Invalid key_id format"));
    }
    let k = match key {
        None => {
            return AccessCheckAnswer::Refused(AppError::unauthorized("SSH key not found"));
        },
        Some(k) => k,
    };
    let expired = match k.expires_at {
        Some(e) => e < now,
        None => false,
    };
    if expired {
        return AccessCheckAnswer::Denied(403, owned("SSH key has expired"));
    }
    let a = match account {
        None => {
            return AccessCheckAnswer::Refused(AppError::unauthorized("User not found"));
        },
        Some(a) => a,
    };
    if !a.is_active {
        return AccessCheckAnswer::Denied(403, owned("User account is deactivated"));
    }
    if split_owner_project(repo_path).is_none() {
        return AccessCheckAnswer::Denied(400, owned("Invalid repository path format. Expected: owner/project"));
    }
    let p = match project {
        None => {
            return AccessCheckAnswer::Denied(404, owned("Repository not found"));
        },
        Some(p) => p,
    };
    let access = key_repo_access(a.user_id, p.owner_id, p.visibility.as_str(), membership);
    let needs_write = str_eq(action, "git-receive-pack");
    match crate::auth::access_denial(needs_write, &access) {
        Some(m) => AccessCheckAnswer::Denied(403, owned(m)),
        None => AccessCheckAnswer::Allowed {
            user_id: a.user_id,
            username: a.username,
            can_write: access.can_write,
            project_id: p.id,
        },
    }
}

} // verus!

//! Repository access control for Git over SSH and HTTP.
//!
//! The permission a request ends up with is the intersection of three
//! layers: what the token's scopes allow, whether the user account may act,
//! and what the user's membership in the project (or the project's
//! visibility) allows.
use vstd::prelude::*;
use crate::login::{password_accepted, password_matches};
use crate::text::{chars_of, contains_char, has_char, has_prefix, join3, owned, parse_integer,
    parse_in_range, str_eq, starts_with, trim_start_matches, trim_start_all, rfind_char,
    last_index, slice_chars, string_of, trim_end_matches, trim_end_all, ends_with, has_suffix};

verus! {

// ---------------------------------------------------------------------------
// Token scopes
// ---------------------------------------------------------------------------

/// The outcome of authenticating a request, with the scopes of its token.
pub struct TokenInfo {
    pub user_id: i64,
    pub username: String,
    /// `None` for full access (session token or password), `Some` for the
    /// scopes of a personal access token or an OAuth token.
    pub scopes: Option<Vec<String>>,
}

/// The views of a sequence of strings.
pub open spec fn string_views(v: Seq<String>) -> Seq<Seq<char>> {
    v.map_values(|s: String| s@)
}

/// A caller as seen by the contracts: user id, user name and scopes.
pub struct TokenView {
    pub user_id: int,
    pub username: Seq<char>,
    pub scopes: Option<Seq<Seq<char>>>,
}

impl View for TokenInfo {
    type V = TokenView;

    open spec fn view(&self) -> TokenView {
        TokenView {
            user_id: self.user_id as int,
            username: self.username@,
            scopes: match self.scopes {
                Some(v) => Some(string_views(v@)),
                None => None,
            },
        }
    }
}

/// The anonymous caller.
pub open spec fn anonymous_view() -> TokenView {
    TokenView { user_id: 0, username: Seq::empty(), scopes: None }
}

/// A scope that allows pushing.
pub open spec fn is_repo_write_scope(s: Seq<char>) -> bool {
    s == "repository:write"@ || s == "write_repository"@ || s == "admin"@
}

/// A scope that allows cloning and fetching.
pub open spec fn is_repo_read_scope(s: Seq<char>) -> bool {
    s == "repository:read"@ || s == "read_repository"@ || is_repo_write_scope(s)
}

/// The caller may push.
pub open spec fn token_can_write(t: TokenView) -> bool {
    match t.scopes {
        None => true,
        Some(v) => exists|i: int| 0 <= i < v.len() && is_repo_write_scope(#[trigger] v[i]),
    }
}

/// The caller may clone and fetch.
pub open spec fn token_can_read(t: TokenView) -> bool {
    match t.scopes {
        None => true,
        Some(v) => exists|i: int| 0 <= i < v.len() && is_repo_read_scope(#[trigger] v[i]),
    }
}

/// The caller is a user (user id 0 stands for anonymous).
pub open spec fn token_authenticated(t: TokenView) -> bool {
    t.user_id != 0
}

fn is_write_scope_name(s: &str) -> (r: bool)
    ensures
        r == is_repo_write_scope(s@),
{
    str_eq(s, "repository:write") || str_eq(s, "write_repository") || str_eq(s, "admin")
}

fn is_read_scope_name(s: &str) -> (r: bool)
    ensures
        r == is_repo_read_scope(s@),
{
    str_eq(s, "repository:read") || str_eq(s, "read_repository") || is_write_scope_name(s)
}

impl TokenInfo {
    /// An unauthenticated caller.
    pub fn anonymous() -> (t: TokenInfo)
        ensures
            t@ == anonymous_view(),
    {
        TokenInfo { user_id: 0, username: String::new(), scopes: None }
    }

    /// A caller with unrestricted access (session token or password).
    pub fn full_access(user_id: i64, username: String) -> (t: TokenInfo)
        ensures
            t.user_id == user_id,
            t.username == username,
            t.scopes is None,
    {
        TokenInfo { user_id, username, scopes: None }
    }

    /// A caller limited to the given scopes (access token).
    pub fn limited_access(user_id: i64, username: String, scopes: Vec<String>) -> (t: TokenInfo)
        ensures
            t.user_id == user_id,
            t.username == username,
            t.scopes == Some(scopes),
    {
        TokenInfo { user_id, username, scopes: Some(scopes) }
    }

    /// Whether the token allows pushing.
    pub fn can_write_repo(&self) -> (r: bool)
        ensures
            r == token_can_write(self@),
    {
        match &self.scopes {
            None => true,
            Some(scopes) => {
                let mut i: usize = 0;
                while i < scopes.len()
                    invariant
                        i <= scopes.len(),
                        self.scopes == Some(*scopes),
                        forall|j: int| 0 <= j < i ==> !is_repo_write_scope(#[trigger] scopes@[j]@),
                    decreases scopes.len() - i,
                {
                    if is_write_scope_name(scopes[i].as_str()) {
                        let ghost v = string_views(scopes@);
                        assert(v[i as int] == scopes@[i as int]@);
                        assert(self@.scopes == Some(v));
                        assert(is_repo_write_scope(v[i as int]));
                        assert(self@.scopes->0[i as int] == v[i as int]);
                        return true;
                    }
                    i = i + 1;
                }
                false
            },
        }
    }

    /// Whether the token allows cloning and fetching.
    pub fn can_read_repo(&self) -> (r: bool)
        ensures
            r == token_can_read(self@),
    {
        match &self.scopes {
            None => true,
            Some(scopes) => {
                let mut i: usize = 0;
                while i < scopes.len()
                    invariant
                        i <= scopes.len(),
                        self.scopes == Some(*scopes),
                        forall|j: int| 0 <= j < i ==> !is_repo_read_scope(#[trigger] scopes@[j]@),
                    decreases scopes.len() - i,
                {
                    if is_read_scope_name(scopes[i].as_str()) {
                        let ghost v = string_views(scopes@);
                        assert(v[i as int] == scopes@[i as int]@);
                        assert(self@.scopes == Some(v));
                        assert(is_repo_read_scope(v[i as int]));
                        assert(self@.scopes->0[i as int] == v[i as int]);
                        return true;
                    }
                    i = i + 1;
                }
                false
            },
        }
    }

    /// Whether the caller is a user rather than anonymous.
    pub fn is_authenticated(&self) -> (r: bool)
        ensures
            r == token_authenticated(self@),
    {
        self.user_id != 0
    }
}

// ---------------------------------------------------------------------------
// Project membership and visibility
// ---------------------------------------------------------------------------

/// The access a user has to a repository.
pub struct RepoAccess {
    pub can_access: bool,
    pub can_write: bool,
}

/// A project role that may push.
pub open spec fn role_writes(role: Seq<char>) -> bool {
    role == "owner"@ || role == "maintainer"@ || role == "developer"@
}

/// A project role that may push to protected branches.
pub open spec fn role_maintains(role: Seq<char>) -> bool {
    role == "owner"@ || role == "maintainer"@
}

/// The view of an optional string slice.
pub open spec fn opt_view(o: Option<&str>) -> Option<Seq<char>> {
    match o {
        Some(s) => Some(s@),
        None => None,
    }
}

/// Access of a user (id 0: anonymous) to a project with the given owner,
/// visibility and membership role of the user.
pub open spec fn spec_repo_access(
    user_id: int,
    owner_id: int,
    visibility: Seq<char>,
    membership: Option<Seq<char>>,
) -> RepoAccess {
    if user_id == 0 {
        RepoAccess { can_access: visibility == "public"@, can_write: false }
    } else if user_id == owner_id {
        RepoAccess { can_access: true, can_write: true }
    } else {
        match membership {
            Some(role) => RepoAccess { can_access: true, can_write: role_writes(role) },
            None => RepoAccess {
                can_access: visibility == "public"@ || visibility == "internal"@,
                can_write: false,
            },
        }
    }
}

/// Whether a project role may push.
pub fn role_can_write(role: &str) -> (r: bool)
    ensures
        r == role_writes(role@),
{
    str_eq(role, "owner") || str_eq(role, "maintainer") || str_eq(role, "developer")
}

/// Whether a project role may push to protected branches.
pub fn role_can_maintain(role: &str) -> (r: bool)
    ensures
        r == role_maintains(role@),
{
    str_eq(role, "owner") || str_eq(role, "maintainer")
}

/// Access of a user to a project. Anonymous users (id 0) read public
/// projects only; the owner has full access; members read and, as owner,
/// maintainer or developer, write; other users read public and internal
/// projects.
pub fn repo_access(user_id: i64, owner_id: i64, visibility: &str, membership: Option<&str>) -> (r:
    RepoAccess)
    ensures
        r == spec_repo_access(user_id as int, owner_id as int, visibility@, opt_view(membership)),
{
    if user_id == 0 {
        return RepoAccess { can_access: str_eq(visibility, "public"), can_write: false };
    }
    if user_id == owner_id {
        return RepoAccess { can_access: true, can_write: true };
    }
    match membership {
        Some(role) => RepoAccess { can_access: true, can_write: role_can_write(role) },
        None => RepoAccess {
            can_access: str_eq(visibility, "public") || str_eq(visibility, "internal"),
            can_write: false,
        },
    }
}

/// The role of a user in a project: `owner` for the project owner, the
/// membership role otherwise, `none` without membership.
pub open spec fn spec_project_role(user_id: int, owner_id: int, membership: Option<Seq<char>>) -> Seq<
    char,
> {
    if user_id == owner_id {
        "owner"@
    } else {
        match membership {
            Some(r) => r,
            None => "none"@,
        }
    }
}

/// The role of a user in a project.
pub fn user_project_role(user_id: i64, owner_id: i64, membership: Option<&str>) -> (r: String)
    ensures
        r@ == spec_project_role(user_id as int, owner_id as int, opt_view(membership)),
{
    if user_id == owner_id {
        return owned("owner");
    }
    match membership {
        Some(role) => owned(role),
        None => owned("none"),
    }
}

// ---------------------------------------------------------------------------
// Request gates
// ---------------------------------------------------------------------------

/// What authenticating the credentials of a request gave.
pub enum Credential {
    /// The request carried no credentials.
    Missing,
    /// The credentials were valid.
    Accepted(TokenInfo),
    /// The credentials were present but invalid.
    Rejected,
}

/// A credential as seen by the contracts.
pub enum CredentialView {
    Missing,
    Accepted(TokenView),
    Rejected,
}

impl View for Credential {
    type V = CredentialView;

    open spec fn view(&self) -> CredentialView {
        match self {
            Credential::Missing => CredentialView::Missing,
            Credential::Accepted(t) => CredentialView::Accepted(t@),
            Credential::Rejected => CredentialView::Rejected,
        }
    }
}

/// The outcome of checking a request's token before looking at the project.
pub enum TokenGate {
    /// The authentication error is returned to the caller.
    Fail,
    /// Access is denied with this message.
    Deny(String),
    /// Go on with this caller.
    Proceed(TokenInfo),
}

/// A token gate outcome as seen by the contracts.
pub enum GateView {
    Fail,
    Deny(Seq<char>),
    Proceed(TokenView),
}

impl View for TokenGate {
    type V = GateView;

    open spec fn view(&self) -> GateView {
        match self {
            TokenGate::Fail => GateView::Fail,
            TokenGate::Deny(m) => GateView::Deny(m@),
            TokenGate::Proceed(t) => GateView::Proceed(t@),
        }
    }
}

/// The Git action that pushes.
pub open spec fn is_push_action(action: Seq<char>) -> bool {
    action == "git-receive-pack"@
}

/// The scope checks of the token gate: a push needs an authenticated caller
/// whose scopes allow writing; a read by an authenticated caller needs scopes
/// that allow reading.
pub open spec fn spec_scope_gate(needs_write: bool, t: TokenView) -> GateView {
    if needs_write && !token_authenticated(t) {
        GateView::Deny("Authentication required for push"@)
    } else if token_authenticated(t) && needs_write && !token_can_write(t) {
        GateView::Deny(
            "Token scope insufficient for push (need repository:write or write_repository)"@,
        )
    } else if token_authenticated(t) && !needs_write && !token_can_read(t) {
        GateView::Deny(
            "Token scope insufficient for clone/fetch (need repository:read or read_repository)"@,
        )
    } else {
        GateView::Proceed(t)
    }
}

/// The token gate of an HTTP Git request: invalid credentials fail a push
/// and fall back to anonymous access for a read, then the scope checks.
pub open spec fn spec_http_token_gate(needs_write: bool, credential: CredentialView) -> GateView {
    match credential {
        CredentialView::Rejected => if needs_write {
            GateView::Fail
        } else {
            spec_scope_gate(needs_write, anonymous_view())
        },
        CredentialView::Missing => spec_scope_gate(needs_write, anonymous_view()),
        CredentialView::Accepted(t) => spec_scope_gate(needs_write, t),
    }
}

fn scope_gate(needs_write: bool, t: TokenInfo) -> (g: TokenGate)
    ensures
        g@ == spec_scope_gate(needs_write, t@),
{
    if needs_write && !t.is_authenticated() {
        return TokenGate::Deny(owned("Authentication required for push"));
    }
    if t.is_authenticated() {
        if needs_write && !t.can_write_repo() {
            return TokenGate::Deny(
                owned(
                    "Token scope insufficient for push (need repository:write or write_repository)",
                ),
            );
        }
        if !needs_write && !t.can_read_repo() {
            return TokenGate::Deny(
                owned(
                    "Token scope insufficient for clone/fetch (need repository:read or read_repository)",
                ),
            );
        }
    }
    TokenGate::Proceed(t)
}

/// Checks the token of an HTTP Git request for the given action.
pub fn http_token_gate(action: &str, credential: Credential) -> (g: TokenGate)
    ensures
        g@ == spec_http_token_gate(is_push_action(action@), credential@),
{
    let needs_write = str_eq(action, "git-receive-pack");
    match credential {
        Credential::Rejected => {
            if needs_write {
                TokenGate::Fail
            } else {
                scope_gate(needs_write, TokenInfo::anonymous())
            }
        },
        Credential::Missing => scope_gate(needs_write, TokenInfo::anonymous()),
        Credential::Accepted(t) => scope_gate(needs_write, t),
    }
}

/// The denial, if any, for a request with the given repository access.
pub open spec fn spec_access_denial(needs_write: bool, access: RepoAccess) -> Option<Seq<char>> {
    if !access.can_access {
        Some("You don't have access to this repository"@)
    } else if needs_write && !access.can_write {
        Some("You don't have write access to this repository"@)
    } else {
        None
    }
}

/// Refuses a request whose repository access does not cover the action.
pub fn access_denial(needs_write: bool, access: &RepoAccess) -> (r: Option<&'static str>)
    ensures
        opt_view(r) == spec_access_denial(needs_write, *access),
{
    if !access.can_access {
        Some("You don't have access to this repository")
    } else if needs_write && !access.can_write {
        Some("You don't have write access to this repository")
    } else {
        None
    }
}

/// The denial, if any, for an SSH key before the repository is looked at.
pub open spec fn spec_ssh_key_denial(key_expired: bool, user_active: bool) -> Option<Seq<char>> {
    if key_expired {
        Some("SSH key has expired"@)
    } else if !user_active {
        Some("User account is deactivated"@)
    } else {
        None
    }
}

/// Refuses an expired SSH key or a deactivated account.
pub fn ssh_key_denial(key_expired: bool, user_active: bool) -> (r: Option<&'static str>)
    ensures
        opt_view(r) == spec_ssh_key_denial(key_expired, user_active),
{
    if key_expired {
        Some("SSH key has expired")
    } else if !user_active {
        Some("User account is deactivated")
    } else {
        None
    }
}

/// The key number in a key id of the form `key-<n>`.
pub open spec fn spec_key_number(key_id: Seq<char>) -> Option<int> {
    if has_prefix(key_id, "key-"@) {
        parse_in_range(key_id.skip(4), true, i64::MIN as int, i64::MAX as int)
    } else {
        None
    }
}

/// Reads the number of a key id `key-<n>`.
pub fn parse_key_id(key_id: &str) -> (r: Option<i64>)
    ensures
        match r {
            Some(n) => spec_key_number(key_id@) == Some(n as int),
            None => spec_key_number(key_id@) is None,
        },
{
    let cs = chars_of(key_id);
    let prefix = chars_of("key-");
    proof {
        reveal_strlit("key-");
    }
    if !starts_with(&cs, &prefix) {
        return None;
    }
    let rest = slice_chars(&cs, 4, cs.len());
    assert(rest@ =~= key_id@.skip(4));
    match parse_integer(&rest, true, i64::MIN as i128, i64::MAX as i128) {
        Some(v) => Some(v as i64),
        None => None,
    }
}

/// The denial, if any, for an LFS token request.
pub open spec fn spec_lfs_token_denial(user_exists: bool, is_upload: bool, access: RepoAccess) -> Option<
    Seq<char>,
> {
    if !user_exists {
        Some("User not found or inactive"@)
    } else if is_upload {
        spec_access_denial(true, access)
    } else {
        None
    }
}

/// Refuses an LFS token to an unknown user, or an upload token to a user who
/// may not push (the access is only looked at for uploads).
pub fn lfs_token_denial(user_exists: bool, is_upload: bool, access: &RepoAccess) -> (r: Option<
    &'static str,
>)
    ensures
        opt_view(r) == spec_lfs_token_denial(user_exists, is_upload, *access),
{
    if !user_exists {
        Some("User not found or inactive")
    } else if is_upload {
        access_denial(true, access)
    } else {
        None
    }
}

/// The LFS endpoint of a repository: the base URL without trailing `/`, then
/// `/<repo>.git/info/lfs`.
pub fn lfs_href(base_url: &str, repo_path: &str) -> (r: String)
    ensures
        r@ == trim_end_all(base_url@, "/"@) + "/"@ + repo_path@ + ".git/info/lfs"@,
{
    let base = chars_of(base_url);
    let slash = chars_of("/");
    let trimmed = trim_end_matches(&base, &slash);
    let t = string_of(&trimmed);
    let mut out = join3(t.as_str(), "/", repo_path);
    out.append(".git/info/lfs");
    out
}

/// The answer to an HTTP Git access check.
pub struct HttpAccessResponse {
    pub status: bool,
    pub message: String,
    pub user_id: i64,
    pub username: String,
    pub can_write: bool,
    pub project_id: i64,
    pub repository_path: String,
    pub gitlayer_address: String,
}

/// The answer to an HTTP Git access check once the caller passed the token
/// gate and the repository was looked up: a denial carries only its
/// message (every other field empty, zero or false); a grant carries the
/// caller, the write permission, the project, the repository path on disk
/// and the Git service address (empty when none is configured).
pub fn http_access_response(
    needs_write: bool,
    caller: TokenInfo,
    access: RepoAccess,
    project_id: i64,
    repository_path: String,
    gitlayer_address: Option<String>,
) -> (r: HttpAccessResponse)
    ensures
        match spec_access_denial(needs_write, access) {
            Some(m) => !r.status && r.message@ == m && r.user_id == 0 && r.username@.len() == 0 && !r.can_write
                && r.project_id == 0 && r.repository_path@.len() == 0 && r.gitlayer_address@.len() == 0,
            None => r.status && r.message@.len() == 0 && r.user_id == caller.user_id && r.username@ == caller.username@
                && r.can_write == access.can_write && r.project_id == project_id && r.repository_path@
                == repository_path@ && r.gitlayer_address@ == (match gitlayer_address {
                Some(a) => a@,
                None => Seq::<char>::empty(),
            }),
        },
{
    match access_denial(needs_write, &access) {
        Some(m) => HttpAccessResponse {
            status: false,
            message: owned(m),
            user_id: 0,
            username: String::new(),
            can_write: false,
            project_id: 0,
            repository_path: String::new(),
            gitlayer_address: String::new(),
        },
        None => HttpAccessResponse {
            status: true,
            message: String::new(),
            user_id: caller.user_id,
            username: caller.username,
            can_write: access.can_write,
            project_id,
            repository_path,
            gitlayer_address: match gitlayer_address {
                Some(a) => a,
                None => String::new(),
            },
        },
    }
}

/// The answer for a request the token gate denied: only its message.
pub fn http_access_denied(message: String) -> (r: HttpAccessResponse)
    ensures
        !r.status && r.message@ == message@ && r.user_id == 0 && r.username@.len() == 0 && !r.can_write
            && r.project_id == 0 && r.repository_path@.len() == 0 && r.gitlayer_address@.len() == 0,
{
    HttpAccessResponse {
        status: false,
        message,
        user_id: 0,
        username: String::new(),
        can_write: false,
        project_id: 0,
        repository_path: String::new(),
        gitlayer_address: String::new(),
    }
}

/// The claims of a session token that matter here: the subject (the user
/// id, as text) and the expiry.
pub struct JwtClaims {
    pub sub: String,
    pub exp: u64,
}

/// The user a session token's claims name: its subject read as a 64-bit
/// integer; any other subject is refused ("Invalid user ID in token").
pub fn jwt_user_id(claims: &JwtClaims) -> (r: Result<i64, &'static str>)
    ensures
        match parse_in_range(claims.sub@, true, i64::MIN as int, i64::MAX as int) {
            Some(n) => r == Ok::<i64, &'static str>(n as i64),
            None => r matches Err(m) && m@ == "Invalid user ID in token"@,
        },
{
    let cs = chars_of(claims.sub.as_str());
    match parse_integer(&cs, true, i64::MIN as i128, i64::MAX as i128) {
        Some(n) => Ok(n as i64),
        None => Err("Invalid user ID in token"),
    }
}

/// What was found for the project of an HTTP Git request.
pub struct RepoFacts {
    pub id: i64,
    pub name: String,
    pub owner_id: i64,
    pub visibility: String,
}

/// The answer to an HTTP Git access check.
pub enum HttpAccessAnswer {
    /// The credentials failed on a push: the authentication error is
    /// returned.
    AuthFailed,
    /// The repository path has no `/`: "Invalid repository path format".
    InvalidPath,
    /// The response.
    Answer(HttpAccessResponse),
}

/// The outcome of an HTTP Git access check, as the contracts see it.
pub enum HttpAccessOutcome {
    AuthFailed,
    InvalidPath,
    Denied(Seq<char>),
    /// User id, user name, write permission, project id, repository path.
    Granted(int, Seq<char>, bool, int, Seq<char>),
}

/// An HTTP Git access check: the token gate first; then the repository
/// path; then the project (its access for the caller, or none when it is
/// not found, with project id 0 and no path) decides the response.
pub open spec fn spec_http_access(
    action: Seq<char>,
    credential: CredentialView,
    repo_path: Seq<char>,
    repos_root: Seq<char>,
    project: Option<(int, Seq<char>, int, Seq<char>)>,
    membership: Option<Seq<char>>,
) -> HttpAccessOutcome {
    let needs_write = is_push_action(action);
    match spec_http_token_gate(needs_write, credential) {
        GateView::Fail => HttpAccessOutcome::AuthFailed,
        GateView::Deny(m) => HttpAccessOutcome::Denied(m),
        GateView::Proceed(t) => match spec_split_repo_path(repo_path) {
            None => HttpAccessOutcome::InvalidPath,
            Some((ns, _)) => {
                let (access, pid, path) = match project {
                    None => (RepoAccess { can_access: false, can_write: false }, 0int, Seq::<char>::empty()),
                    Some((id, name, owner, visibility)) => (
                        spec_repo_access(t.user_id, owner, visibility, membership),
                        id,
                        repos_root + "/"@ + ns + "/"@ + name + ".git"@,
                    ),
                };
                match spec_access_denial(needs_write, access) {
                    Some(m) => HttpAccessOutcome::Denied(m),
                    None => HttpAccessOutcome::Granted(t.user_id, t.username, access.can_write, pid, path),
                }
            },
        },
    }
}

/// Answers an HTTP Git access check from the action, the credentials, the
/// repository path, the root of the repositories, and what the lookups
/// found for the caller the token gate lets through.
pub fn http_access_answer(
    action: &str,
    credential: Credential,
    repo_path: &str,
    repos_root: &str,
    project: Option<RepoFacts>,
    membership: Option<&str>,
    gitlayer_address: Option<String>,
) -> (r: HttpAccessAnswer)
    ensures
        match spec_http_access(
            action@,
            credential@,
            repo_path@,
            repos_root@,
            match project {
                Some(p) => Some((p.id as int, p.name@, p.owner_id as int, p.visibility@)),
                None => None,
            },
            opt_view(membership),
        ) {
            HttpAccessOutcome::AuthFailed => r is AuthFailed,
            HttpAccessOutcome::InvalidPath => r is InvalidPath,
            HttpAccessOutcome::Denied(m) => r matches HttpAccessAnswer::Answer(a) && !a.status && a.message@ == m
                && a.user_id == 0 && a.project_id == 0 && a.repository_path@.len() == 0,
            HttpAccessOutcome::Granted(u, n, w, pid, path) => r matches HttpAccessAnswer::Answer(a) && a.status
                && a.message@.len() == 0 && a.user_id == u && a.username@ == n && a.can_write == w && a.project_id
                == pid && a.repository_path@ == path && a.gitlayer_address@ == (match gitlayer_address {
                Some(g) => g@,
                None => Seq::<char>::empty(),
            }),
        },
{
    let needs_write = str_eq(action, "git-receive-pack");
    let t = match http_token_gate(action, credential) {
        TokenGate::Fail => {
            return HttpAccessAnswer::AuthFailed;
        },
        TokenGate::Deny(m) => {
            return HttpAccessAnswer::Answer(http_access_denied(m));
        },
        TokenGate::Proceed(t) => t,
    };
    let ns = match split_repo_path(repo_path) {
        None => {
            return HttpAccessAnswer::InvalidPath;
        },
        Some((ns, _)) => ns,
    };
    let (access, pid, path) = match project {
        None => (RepoAccess { can_access: false, can_write: false }, 0i64, String::new()),
        Some(p) => (
            repo_access(t.user_id, p.owner_id, p.visibility.as_str(), membership),
            p.id,
            repo_disk_path(repos_root, ns.as_str(), p.name.as_str()),
        ),
    };
    HttpAccessAnswer::Answer(http_access_response(needs_write, t, access, pid, path, gitlayer_address))
}

// ---------------------------------------------------------------------------
// Basic authentication
// ---------------------------------------------------------------------------

/// Whether a token has the form of a personal access token: the current
/// `gitfox-pat_` prefix or the legacy `glpat-` one.
pub open spec fn pat_form(token: Seq<char>) -> bool {
    has_prefix(token, "gitfox-pat_"@) || has_prefix(token, "glpat-"@)
}

/// Whether a token is looked up as a personal access token.
pub fn has_pat_form(token: &str) -> (r: bool)
    ensures
        r == pat_form(token@),
{
    let t = chars_of(token);
    let current = chars_of("gitfox-pat_");
    let legacy = chars_of("glpat-");
    starts_with(&t, &current) || starts_with(&t, &legacy)
}

/// The views of an optional caller.
pub open spec fn opt_token_view(o: Option<TokenInfo>) -> Option<TokenView> {
    match o {
        Some(t) => Some(t@),
        None => None,
    }
}

/// Who a Basic-auth request acts as, trying its password in turn as a
/// personal access token (`pat`: what the lookup found), an OAuth access
/// token (`oauth`), and the password of the named account (`account`: its
/// id, name and password hash): tokens give their scopes, the password full
/// access. `None` is answered "Invalid credentials".
pub open spec fn spec_basic_auth(
    password: Seq<char>,
    pat: Option<TokenView>,
    oauth: Option<TokenView>,
    account: Option<(int, Seq<char>, Seq<char>)>,
) -> Option<TokenView> {
    match pat {
        Some(t) => Some(t),
        None => match oauth {
            Some(t) => Some(t),
            None => match account {
                Some((id, name, hash)) => if password_matches(password, hash) {
                    Some(TokenView { user_id: id, username: name, scopes: None })
                } else {
                    None
                },
                None => None,
            },
        },
    }
}

/// Decides a Basic-auth request from the lookups of its password.
pub fn basic_auth_outcome(
    password: &str,
    pat: Option<TokenInfo>,
    oauth: Option<TokenInfo>,
    account: Option<(i64, String, String)>,
) -> (r: Option<TokenInfo>)
    ensures
        opt_token_view(r) == spec_basic_auth(
            password@,
            opt_token_view(pat),
            opt_token_view(oauth),
            match account {
                Some((id, name, hash)) => Some((id as int, name@, hash@)),
                None => None,
            },
        ),
{
    if let Some(t) = pat {
        return Some(t);
    }
    if let Some(t) = oauth {
        return Some(t);
    }
    match account {
        Some((id, name, hash)) => {
            if password_accepted(password, hash.as_str()) {
                Some(TokenInfo::full_access(id, name))
            } else {
                None
            }
        },
        None => None,
    }
}

// ---------------------------------------------------------------------------
// Repository paths
// ---------------------------------------------------------------------------

/// `namespace/project.git` cut at its last `/`, with one `.git` removed from
/// the project part.
pub open spec fn spec_split_repo_path(path: Seq<char>) -> Option<(Seq<char>, Seq<char>)> {
    match last_index(path, '/') {
        Some(i) => {
            let project = path.skip(i + 1);
            let name = if has_suffix(project, ".git"@) {
                project.take(project.len() - 4)
            } else {
                project
            };
            Some((path.take(i), name))
        },
        None => None,
    }
}

/// Cuts a repository path into namespace and project name (one `.git`
/// suffix removed); `None` without a `/`.
pub fn split_repo_path(path: &str) -> (r: Option<(String, String)>)
    ensures
        match r {
            Some((ns, name)) => spec_split_repo_path(path@) == Some((ns@, name@)),
            None => spec_split_repo_path(path@) is None,
        },
{
    let cs = chars_of(path);
    match rfind_char(&cs, '/') {
        Some(i) => {
            let ns = slice_chars(&cs, 0, i);
            let project = slice_chars(&cs, i + 1, cs.len());
            let git = chars_of(".git");
            proof {
                reveal_strlit(".git");
            }
            let name = if ends_with(&project, &git) {
                slice_chars(&project, 0, project.len() - 4)
            } else {
                project
            };
            proof {
                assert(ns@ =~= path@.take(i as int));
                assert(cs@.subrange(i + 1, cs@.len() as int) =~= path@.skip(i + 1));
                if has_suffix(path@.skip(i + 1), ".git"@) {
                    assert(name@ =~= path@.skip(i + 1).take(path@.skip(i + 1).len() - 4));
                }
            }
            Some((string_of(&ns), string_of(&name)))
        },
        None => None,
    }
}

/// The path of a repository on disk: `<root>/<namespace>/<name>.git`.
pub fn repo_disk_path(root: &str, namespace: &str, name: &str) -> (r: String)
    ensures
        r@ == root@ + "/"@ + namespace@ + "/"@ + name@ + ".git"@,
{
    let mut out = join3(root, "/", namespace);
    out.append("/");
    out.append(name);
    out.append(".git");
    out
}

// ---------------------------------------------------------------------------
// Protected branches
// ---------------------------------------------------------------------------

/// What the regex crate answers for `Regex::new(pattern)` then `is_match(text)`:
/// `None` when the pattern does not compile.
pub uninterp spec fn regex_match_result(pattern: Seq<char>, text: Seq<char>) -> Option<bool>;

/// Compiles `pattern` with `regex::Regex::new` and, when it compiles, tells
/// whether it matches somewhere in `text` (`Regex::is_match`). The contract
/// only names the answer; which texts a pattern matches is left to the regex
/// crate.
#[verifier::external_body]
fn regex_full_match(pattern: &str, text: &str) -> (r: Option<bool>)
    ensures
        r == regex_match_result(pattern@, text@),
{
    match regex::Regex::new(pattern) {
        Ok(re) => Some(re.is_match(text)),
        Err(_) => None,
    }
}

/// The regular-expression text of one glob character.
pub open spec fn glob_char_regex(c: char) -> Seq<char> {
    if c == '.' {
        seq!['\\', '.']
    } else if c == '*' {
        seq!['.', '*']
    } else if c == '?' {
        seq!['.']
    } else {
        seq![c]
    }
}

/// A glob turned into a regular expression: `.` escaped, `*` to `.*`, `?`
/// to `.`.
pub open spec fn glob_regex(p: Seq<char>) -> Seq<char>
    decreases p.len(),
{
    if p.len() == 0 {
        Seq::<char>::empty()
    } else {
        glob_regex(p.drop_last()) + glob_char_regex(p.last())
    }
}

/// The anchored regular expression of a glob.
pub open spec fn anchored_glob_regex(p: Seq<char>) -> Seq<char> {
    seq!['^'] + glob_regex(p) + seq!['$']
}

/// A branch name matches a protection pattern: exactly, when the pattern has
/// no wildcard; otherwise by the anchored regular expression of the glob,
/// falling back to exact comparison when it does not compile.
pub open spec fn pattern_matches(branch: Seq<char>, pattern: Seq<char>) -> bool {
    if !has_char(pattern, '*') && !has_char(pattern, '?') {
        branch == pattern
    } else {
        match regex_match_result(anchored_glob_regex(pattern), branch) {
            Some(b) => b,
            None => branch == pattern,
        }
    }
}

fn glob_to_regex(p: &Vec<char>) -> (r: String)
    ensures
        r@ == anchored_glob_regex(p@),
{
    let mut out = String::new();
    crate::text::push_char(&mut out, '^');
    let mut i: usize = 0;
    while i < p.len()
        invariant
            i <= p.len(),
            out@ == seq!['^'] + glob_regex(p@.take(i as int)),
        decreases p.len() - i,
    {
        let c = p[i];
        proof {
            assert(p@.take(i + 1).drop_last() =~= p@.take(i as int));
        }
        if c == '.' {
            crate::text::push_char(&mut out, '\\');
            crate::text::push_char(&mut out, '.');
        } else if c == '*' {
            crate::text::push_char(&mut out, '.');
            crate::text::push_char(&mut out, '*');
        } else if c == '?' {
            crate::text::push_char(&mut out, '.');
        } else {
            crate::text::push_char(&mut out, c);
        }
        proof {
            assert(out@ =~= seq!['^'] + glob_regex(p@.take(i + 1)));
        }
        i = i + 1;
    }
    assert(p@.take(p.len() as int) =~= p@);
    crate::text::push_char(&mut out, '$');
    out
}

/// Whether a branch name matches a protection pattern (`*` and `?` globs).
pub fn branch_matches_pattern(branch: &str, pattern: &str) -> (r: bool)
    ensures
        r == pattern_matches(branch@, pattern@),
{
    let p = chars_of(pattern);
    if !contains_char(&p, '*') && !contains_char(&p, '?') {
        return str_eq(branch, pattern);
    }
    let re = glob_to_regex(&p);
    match regex_full_match(re.as_str(), branch) {
        Some(b) => b,
        None => str_eq(branch, pattern),
    }
}

/// A branch protection rule of a project.
pub struct ProtectionRule {
    pub branch_pattern: String,
    pub require_review: bool,
    pub required_reviewers: i32,
    pub require_ci_pass: bool,
    pub allow_force_push: bool,
    pub allow_deletion: bool,
}

/// The kind of change a pushed ref update makes.
pub struct RefChange {
    /// The ref is a branch (`refs/heads/...`).
    pub is_branch: bool,
    /// The branch name with every leading `refs/heads/` removed.
    pub branch: String,
    pub is_creation: bool,
    pub is_deletion: bool,
}

/// The all-zero object id that marks a missing side of a ref update.
pub open spec fn zero_sha() -> Seq<char> {
    "0000000000000000000000000000000000000000"@
}

/// Classifies a ref update: whether it touches a branch, which one, and
/// whether it creates or deletes it.
pub fn classify_ref_change(ref_name: &str, change_type: &str, old_sha: &str, new_sha: &str) -> (r:
    RefChange)
    ensures
        r.is_branch == has_prefix(ref_name@, "refs/heads/"@),
        r.branch@ == trim_start_all(ref_name@, "refs/heads/"@),
        r.is_creation == (change_type@ == "create"@ || old_sha@ == zero_sha()),
        r.is_deletion == (change_type@ == "delete"@ || new_sha@ == zero_sha()),
{
    let cs = chars_of(ref_name);
    let heads = chars_of("refs/heads/");
    let is_branch = starts_with(&cs, &heads);
    let branch = string_of(&trim_start_matches(&cs, &heads));
    let zero = "0000000000000000000000000000000000000000";
    RefChange {
        is_branch,
        branch,
        is_creation: str_eq(change_type, "create") || str_eq(old_sha, zero),
        is_deletion: str_eq(change_type, "delete") || str_eq(new_sha, zero),
    }
}

/// The denial one matching protection rule gives, if any.
pub open spec fn rule_denial(
    branch: Seq<char>,
    is_deletion: bool,
    is_force_push: bool,
    rule: ProtectionRule,
    role: Seq<char>,
) -> Option<Seq<char>> {
    if !role_maintains(role) {
        Some("Branch '"@ + branch + "' is protected. Only maintainers and owners can push."@)
    } else if is_deletion && !rule.allow_deletion {
        Some("Branch '"@ + branch + "' is protected. Deletion is not allowed."@)
    } else if is_force_push && !rule.allow_force_push {
        Some("Branch '"@ + branch + "' is protected. Force push is not allowed."@)
    } else {
        None
    }
}

/// The first denial among the rules whose pattern matches the branch.
pub open spec fn rules_denial(
    branch: Seq<char>,
    is_deletion: bool,
    is_force_push: bool,
    rules: Seq<ProtectionRule>,
    role: Seq<char>,
) -> Option<Seq<char>>
    decreases rules.len(),
{
    if rules.len() == 0 {
        None
    } else if !pattern_matches(branch, rules[0].branch_pattern@) {
        rules_denial(branch, is_deletion, is_force_push, rules.drop_first(), role)
    } else {
        match rule_denial(branch, is_deletion, is_force_push, rules[0], role) {
            Some(m) => Some(m),
            None => rules_denial(branch, is_deletion, is_force_push, rules.drop_first(), role),
        }
    }
}

/// Some rule's pattern matches the branch.
pub open spec fn some_rule_matches(branch: Seq<char>, rules: Seq<ProtectionRule>) -> bool {
    exists|i: int| 0 <= i < rules.len() && pattern_matches(branch, #[trigger] rules[i].branch_pattern@)
}

/// Whether any protection rule covers the branch (the user's role is only
/// needed when one does).
pub fn any_rule_matches(branch: &str, rules: &Vec<ProtectionRule>) -> (r: bool)
    ensures
        r == some_rule_matches(branch@, rules@),
{
    let mut i: usize = 0;
    while i < rules.len()
        invariant
            i <= rules.len(),
            forall|j: int| 0 <= j < i ==> !pattern_matches(branch@, #[trigger] rules@[j].branch_pattern@),
        decreases rules.len() - i,
    {
        if branch_matches_pattern(branch, rules[i].branch_pattern.as_str()) {
            return true;
        }
        i = i + 1;
    }
    false
}

/// Checks a push to a branch against the project's protection rules, in
/// order: on a matching rule only owners and maintainers may push, a
/// deletion needs the rule to allow deletion and a force push needs it to
/// allow force pushes. Gives the first denial message, if any.
pub fn protected_branch_denial(
    branch: &str,
    is_deletion: bool,
    is_force_push: bool,
    rules: &Vec<ProtectionRule>,
    role: &str,
) -> (r: Option<String>)
    ensures
        match r {
            Some(m) => rules_denial(branch@, is_deletion, is_force_push, rules@, role@) == Some(m@),
            None => rules_denial(branch@, is_deletion, is_force_push, rules@, role@) is None,
        },
{
    let maintains = role_can_maintain(role);
    let mut i: usize = 0;
    assert(rules@.skip(0) =~= rules@);
    while i < rules.len()
        invariant
            i <= rules.len(),
            maintains == role_maintains(role@),
            rules_denial(branch@, is_deletion, is_force_push, rules@, role@) == rules_denial(
                branch@,
                is_deletion,
                is_force_push,
                rules@.skip(i as int),
                role@,
            ),
        decreases rules.len() - i,
    {
        proof {
            assert(rules@.skip(i as int).drop_first() =~= rules@.skip(i + 1));
            assert(rules@.skip(i as int)[0] == rules@[i as int]);
        }
        let rule = &rules[i];
        if branch_matches_pattern(branch, rule.branch_pattern.as_str()) {
            if !maintains {
                return Some(join3("Branch '", branch, "' is protected. Only maintainers and owners can push."));
            }
            if is_deletion && !rule.allow_deletion {
                return Some(join3("Branch '", branch, "' is protected. Deletion is not allowed."));
            }
            if is_force_push && !rule.allow_force_push {
                return Some(join3("Branch '", branch, "' is protected. Force push is not allowed."));
            }
        }
        i = i + 1;
    }
    None
}

// ---------------------------------------------------------------------------
// Laws
// ---------------------------------------------------------------------------

/// A caller who may push may also clone and fetch.
pub proof fn law_write_scope_implies_read(t: TokenView)
    requires
        token_can_write(t),
    ensures
        token_can_read(t),
{
    if let Some(v) = t.scopes {
        let i = choose|i: int| 0 <= i < v.len() && is_repo_write_scope(#[trigger] v[i]);
        assert(is_repo_read_scope(v[i]));
    }
}

/// A push over HTTP goes ahead only for an authenticated caller whose token
/// may write; without valid credentials it never does.
pub proof fn law_push_needs_authenticated_writer(credential: CredentialView)
    ensures
        spec_http_token_gate(true, credential) matches GateView::Proceed(t) ==> token_authenticated(t)
            && token_can_write(t),
        credential is Missing || credential is Rejected ==> !(spec_http_token_gate(true, credential) is Proceed),
{
}

/// The owner of a project may read and write it, whatever its visibility.
pub proof fn law_owner_has_full_access(user_id: int, visibility: Seq<char>, membership: Option<Seq<char>>)
    requires
        user_id != 0,
    ensures
        spec_repo_access(user_id, user_id, visibility, membership) == (RepoAccess { can_access: true, can_write: true }),
{
}

/// Write access comes with read access, and an anonymous caller never
/// writes and reads only public projects.
pub proof fn law_repo_access_consistent(user_id: int, owner_id: int, visibility: Seq<char>, membership: Option<Seq<char>>)
    ensures
        spec_repo_access(user_id, owner_id, visibility, membership).can_write ==> spec_repo_access(
            user_id,
            owner_id,
            visibility,
            membership,
        ).can_access,
        user_id == 0 ==> !spec_repo_access(user_id, owner_id, visibility, membership).can_write
            && spec_repo_access(user_id, owner_id, visibility, membership).can_access == (visibility == "public"@),
{
}

/// Only maintainers and owners get past a branch that some rule protects:
/// when such a branch is pushed to without a denial, the pusher's role
/// maintains.
pub proof fn law_protected_branch_needs_maintainer(
    branch: Seq<char>,
    is_deletion: bool,
    is_force_push: bool,
    rules: Seq<ProtectionRule>,
    role: Seq<char>,
)
    requires
        some_rule_matches(branch, rules),
        rules_denial(branch, is_deletion, is_force_push, rules, role) is None,
    ensures
        role_maintains(role),
    decreases rules.len(),
{
    if pattern_matches(branch, rules[0].branch_pattern@) {
        assert(rule_denial(branch, is_deletion, is_force_push, rules[0], role) is None);
    } else {
        let i = choose|i: int| 0 <= i < rules.len() && pattern_matches(branch, #[trigger] rules[i].branch_pattern@);
        assert(i != 0);
        assert(rules.drop_first()[i - 1] == rules[i]);
        law_protected_branch_needs_maintainer(branch, is_deletion, is_force_push, rules.drop_first(), role);
    }
}

/// The answer to a ref update check of the pre-receive hook.
pub struct RefUpdateResponse {
    pub allowed: bool,
    pub message: String,
}

/// A ref update check: an unknown project is refused ("Project not found");
/// a ref that is no branch is allowed; a branch update is checked against
/// the protection rules, where a force push is one that is neither a
/// creation nor a deletion and that the ancestry check found.
pub fn ref_update_response(
    project_found: bool,
    change: &RefChange,
    force_detected: bool,
    rules: &Vec<ProtectionRule>,
    role: &str,
) -> (r: RefUpdateResponse)
    ensures
        !project_found ==> !r.allowed && r.message@ == "Project not found"@,
        project_found && !change.is_branch ==> r.allowed && r.message@.len() == 0,
        project_found && change.is_branch ==> match rules_denial(
            change.branch@,
            change.is_deletion,
            !(change.is_creation || change.is_deletion) && force_detected,
            rules@,
            role@,
        ) {
            Some(m) => !r.allowed && r.message@ == m,
            None => r.allowed && r.message@.len() == 0,
        },
{
    if !project_found {
        return RefUpdateResponse { allowed: false, message: owned("Project not found") };
    }
    if !change.is_branch {
        return RefUpdateResponse { allowed: true, message: String::new() };
    }
    let force = if change.is_creation || change.is_deletion {
        false
    } else {
        force_detected
    };
    match protected_branch_denial(change.branch.as_str(), change.is_deletion, force, rules, role) {
        Some(m) => RefUpdateResponse { allowed: false, message: m },
        None => RefUpdateResponse { allowed: true, message: String::new() },
    }
}

} // verus!

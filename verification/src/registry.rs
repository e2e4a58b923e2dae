//! Package registries (Docker, npm, Cargo): the request and response types
//! of the internal registry API and the decisions around publishing and
//! registry tokens.
use vstd::prelude::*;
use crate::error::AppError;
use crate::login::{bcrypt_verdict, bcrypt_verify};
use crate::internal::{internal_token_accepted, spec_token_accepted};
use crate::oauth::{opt_str_view, opt_view, string_views};
use crate::text::{chars_of, join2, join3, owned, str_eq, string_of};
use crate::tokens::PAT_PREFIX;
use crate::ids::{new_uuid_simple, parse_uuid, uuid_parsed, uuid_simple_text};

verus! {

// ---------------------------------------------------------------------------
// Requests and responses
// ---------------------------------------------------------------------------

/// Opens a Docker blob upload.
pub struct CreateUploadSessionRequest {
    pub project_id: i64,
    /// The uploading user's UUID.
    pub user_id: String,
    pub digest: Option<String>,
    pub temp_path: String,
}

/// Progress of a Docker blob upload.
pub struct UpdateUploadProgressRequest {
    pub uploaded_bytes: i64,
}

/// Records a Docker blob.
pub struct CreateDockerBlobRequest {
    pub project_id: i64,
    pub digest: String,
    pub media_type: Option<String>,
    pub size: i64,
    pub file_path: String,
}

/// Looks up a Docker manifest by tag or by digest.
pub struct DockerManifestQuery {
    pub tag: Option<String>,
    pub digest: Option<String>,
}

/// The tags of a Docker image.
pub struct DockerTagListResponse {
    pub name: String,
    pub tags: Vec<String>,
}

/// The Docker images of a project.
pub struct DockerCatalogResponse {
    pub repositories: Vec<String>,
}

/// Selects an npm package version, by version or by tag.
pub struct NpmPackageQuery {
    pub version: Option<String>,
    pub tag: Option<String>,
}

/// The kinds of packages the registry stores.
#[derive(PartialEq, Eq, Structural, Debug, Clone, Copy)]
pub enum PackageType {
    Docker,
    Npm,
    Cargo,
}

impl PackageType {
    /// How the kind is stored: `docker`, `npm` or `cargo`.
    pub fn as_str(&self) -> (r: &'static str)
        ensures
            *self == PackageType::Docker ==> r@ == "docker"@,
            *self == PackageType::Npm ==> r@ == "npm"@,
            *self == PackageType::Cargo ==> r@ == "cargo"@,
    {
        match self {
            PackageType::Docker => "docker",
            PackageType::Npm => "npm",
            PackageType::Cargo => "cargo",
        }
    }
}

/// A stored package version. Times are in seconds since the epoch; the
/// metadata is JSON text.
pub struct Package {
    pub id: i64,
    pub project_id: i64,
    pub name: String,
    pub package_type: PackageType,
    pub version: String,
    pub status: String,
    pub metadata: String,
    pub created_at: i64,
    pub updated_at: i64,
}

/// A file of a stored package version.
pub struct PackageFile {
    pub id: i64,
    pub package_id: i64,
    pub file_name: String,
    pub file_path: String,
    pub file_size: i64,
    pub file_sha256: String,
    pub created_at: i64,
}

/// The npm metadata of a stored package version; repository and
/// dependencies are JSON text.
pub struct NpmPackageMetadata {
    pub package_id: i64,
    pub dist_tag: String,
    pub tarball_sha512: Option<String>,
    pub npm_readme: Option<String>,
    pub npm_keywords: Option<Vec<String>>,
    pub npm_license: Option<String>,
    pub npm_repository: Option<String>,
    pub npm_dependencies: Option<String>,
    pub npm_dev_dependencies: Option<String>,
    pub npm_peer_dependencies: Option<String>,
    pub created_at: i64,
}

/// An npm package version with its metadata and file, where they exist.
pub struct NpmPackageInfoResponse {
    pub package: Package,
    pub metadata: Option<NpmPackageMetadata>,
    pub file: Option<PackageFile>,
}

/// The filter of a project's package list: one kind, or all.
pub struct ListPackagesQuery {
    pub package_type: Option<PackageType>,
}

/// The statement listing a project's packages (`$1` the project, `$2` the
/// kind when one is asked for) and the kind bound to `$2`.
pub fn package_list_sql(q: &ListPackagesQuery) -> (r: (&'static str, Option<&'static str>))
    ensures
        match q.package_type {
            Some(t) => r.0@ == "SELECT * FROM packages WHERE project_id = $1 AND package_type = $2 AND status = 'default' ORDER BY name, created_at DESC"@
                && (r.1 matches Some(k) && (t == PackageType::Docker ==> k@ == "docker"@) && (t == PackageType::Npm
                ==> k@ == "npm"@) && (t == PackageType::Cargo ==> k@ == "cargo"@)),
            None => r.0@ == "SELECT * FROM packages WHERE project_id = $1 AND status = 'default' ORDER BY package_type, name, created_at DESC"@
                && r.1 is None,
        },
{
    match q.package_type {
        Some(t) => (
            "SELECT * FROM packages WHERE project_id = $1 AND package_type = $2 AND status = 'default' ORDER BY name, created_at DESC",
            Some(t.as_str()),
        ),
        None => (
            "SELECT * FROM packages WHERE project_id = $1 AND status = 'default' ORDER BY package_type, name, created_at DESC",
            None,
        ),
    }
}

/// Which version of an npm package is asked for.
pub enum NpmVersionChoice {
    /// This version.
    Version(String),
    /// The version a dist-tag points at; `explicit` when the tag was asked
    /// for, not the default `latest`.
    Tag { tag: String, explicit: bool },
}

/// The version asked for: the version when given, else the tag when given,
/// else the `latest` tag.
pub fn npm_version_choice(q: &NpmPackageQuery) -> (r: NpmVersionChoice)
    ensures
        match q.version {
            Some(v) => r matches NpmVersionChoice::Version(x) && x@ == v@,
            None => match q.tag {
                Some(t) => r matches NpmVersionChoice::Tag { tag, explicit } && tag@ == t@ && explicit,
                None => r matches NpmVersionChoice::Tag { tag, explicit } && tag@ == "latest"@ && !explicit,
            },
        },
{
    match &q.version {
        Some(v) => NpmVersionChoice::Version(owned(v.as_str())),
        None => match &q.tag {
            Some(t) => NpmVersionChoice::Tag { tag: owned(t.as_str()), explicit: true },
            None => NpmVersionChoice::Tag { tag: owned("latest"), explicit: false },
        },
    }
}

/// The error when the tag asked for points nowhere: an explicit tag names
/// itself, the default one only the package.
pub fn npm_tag_not_found(tag: &str, explicit: bool, name: &str) -> (e: AppError)
    ensures
        explicit ==> (e matches AppError::NotFound(m) && m@ == "Tag "@ + tag@ + " not found for package "@ + name@),
        !explicit ==> (e matches AppError::NotFound(m) && m@ == "Package "@ + name@ + " not found"@),
{
    if explicit {
        let a = join3("Tag ", tag, " not found for package ");
        AppError::NotFound(join2(a.as_str(), name))
    } else {
        AppError::NotFound(join3("Package ", name, " not found"))
    }
}

/// The error when the version asked for is not stored.
pub fn npm_version_not_found(name: &str, version: &str) -> (e: AppError)
    ensures
        e matches AppError::NotFound(m) && m@ == "Package "@ + name@ + "@"@ + version@ + " not found"@,
{
    let a = join3("Package ", name, "@");
    AppError::NotFound(join3(a.as_str(), version, " not found"))
}

/// Points an npm dist-tag at a version.
pub struct UpdateNpmDistTagRequest {
    pub project_id: i64,
    pub package_name: String,
    pub tag: String,
    pub version: String,
}

/// `npm login` credentials.
pub struct NpmLoginRequest {
    pub username: String,
    pub password: String,
}

/// The answer to `npm login`.
pub struct NpmLoginResponse {
    pub ok: bool,
    pub token: String,
    pub username: String,
}

/// The answer to `npm whoami`.
pub struct NpmWhoamiResponse {
    pub username: String,
}

/// An npm search.
pub struct NpmSearchQuery {
    pub q: Option<String>,
    pub limit: Option<i32>,
    pub offset: Option<i32>,
}

/// Links of an npm search result.
pub struct NpmSearchResultLinks {
    pub npm: Option<String>,
    pub homepage: Option<String>,
    pub repository: Option<String>,
    pub bugs: Option<String>,
}

/// The publisher of an npm search result.
pub struct NpmSearchPublisher {
    pub username: String,
    pub email: Option<String>,
}

/// One npm search result.
pub struct NpmSearchResultItem {
    pub name: String,
    pub scope: Option<String>,
    pub version: String,
    pub description: Option<String>,
    pub keywords: Option<Vec<String>>,
    pub date: String,
    pub links: NpmSearchResultLinks,
    pub publisher: Option<NpmSearchPublisher>,
}

/// A dependency as written in the Cargo index.
pub struct CargoIndexDependency {
    pub name: String,
    pub req: String,
    pub features: Vec<String>,
    pub optional: bool,
    pub default_features: bool,
    pub target: Option<String>,
    pub kind: String,
    pub registry: Option<String>,
    pub package: Option<String>,
}

/// A dependency of a published crate.
pub struct CreateCargoDependency {
    pub name: String,
    pub version_req: String,
    pub features: Vec<String>,
    pub optional: bool,
    pub default_features: bool,
    pub target: Option<String>,
    pub kind: String,
    pub registry: Option<String>,
    pub package: Option<String>,
}

/// Checks a Cargo token for an operation on a project.
pub struct VerifyCargoTokenRequest {
    pub token: String,
    pub project_id: i64,
    /// `publish`, `yank` or `owners`.
    pub required_scope: String,
}

/// Whether a Cargo token may do what was asked, and whose it is.
pub struct VerifyCargoTokenResponse {
    pub valid: bool,
    pub user_id: Option<String>,
    pub username: Option<String>,
    pub scopes: Vec<String>,
}

/// Yanks or unyanks a crate version.
pub struct YankCargoRequest {
    pub user_id: String,
}

/// An owner of a crate.
pub struct CargoOwner {
    pub id: String,
    pub login: String,
    pub name: Option<String>,
}

/// Adds or removes crate owners.
pub struct ModifyCargoOwnersRequest {
    /// The acting user.
    pub user_id: String,
    /// The user names to add or remove.
    pub users: Vec<String>,
}

/// A crate search.
pub struct CargoSearchQuery {
    pub q: Option<String>,
    pub per_page: Option<i64>,
}

/// One crate of a search.
pub struct CargoCrateSummary {
    pub name: String,
    pub max_version: String,
    pub description: Option<String>,
}

// ---------------------------------------------------------------------------
// Decisions
// ---------------------------------------------------------------------------

/// Only callers that present the shell secret may use the internal
/// registry API; others are unauthorized.
pub fn check_registry_token(header: Option<&str>, secret: &str) -> (r: Result<(), AppError>)
    ensures
        r is Ok <==> spec_token_accepted(opt_str_view(header), secret@),
        r matches Err(e) ==> e matches AppError::Unauthorized(m) && m@ == "Invalid internal token"@,
{
    if internal_token_accepted(header, secret) {
        Ok(())
    } else {
        Err(AppError::unauthorized("Invalid internal token"))
    }
}

/// The page size of an npm search: 20 by default, at most 100.
pub open spec fn npm_search_limit_of(limit: Option<i32>) -> i32 {
    let l = match limit {
        Some(l) => l,
        None => 20,
    };
    if l < 100 {
        l
    } else {
        100
    }
}

/// The search text, page size and offset of an npm search.
pub fn npm_search_window(q: &NpmSearchQuery) -> (r: (String, i32, i32))
    ensures
        r.0@ == (match q.q {
            Some(t) => t@,
            None => Seq::<char>::empty(),
        }),
        r.1 == npm_search_limit_of(q.limit),
        r.2 == (match q.offset {
            Some(o) => o,
            None => 0,
        }),
{
    let term = match &q.q {
        Some(t) => owned(t.as_str()),
        None => String::new(),
    };
    let l = match q.limit {
        Some(l) => l,
        None => 20,
    };
    let limit = if l < 100 {
        l
    } else {
        100
    };
    let offset = match q.offset {
        Some(o) => o,
        None => 0,
    };
    (term, limit, offset)
}

/// The search text and page size of a crate search: 10 by default, at most
/// 100.
pub fn cargo_search_window(q: &CargoSearchQuery) -> (r: (String, i64))
    ensures
        r.0@ == (match q.q {
            Some(t) => t@,
            None => Seq::<char>::empty(),
        }),
        r.1 == (match q.per_page {
            Some(p) => if p < 100 {
                p
            } else {
                100
            },
            None => 10,
        }),
{
    let term = match &q.q {
        Some(t) => owned(t.as_str()),
        None => String::new(),
    };
    let limit = match q.per_page {
        Some(p) => if p < 100 {
            p
        } else {
            100
        },
        None => 10,
    };
    (term, limit)
}

/// The error for a crate version that was already published.
pub fn crate_version_conflict(name: &str, version: &str) -> (e: AppError)
    ensures
        e matches AppError::Conflict(m) && m@ == "Crate "@ + name@ + " version "@ + version@ + " already exists"@,
{
    let a = join3("Crate ", name, " version ");
    AppError::Conflict(join3(a.as_str(), version, " already exists"))
}

/// The checks before a crate version is stored, in order: a version that
/// exists already is a conflict; then the publishing user's id must be a
/// UUID.
pub fn cargo_publish_check(version_exists: bool, name: &str, version: &str, user_id: &str) -> (r: Result<u128, AppError>)
    ensures
        version_exists ==> (r matches Err(AppError::Conflict(m)) && m@ == "Crate "@ + name@ + " version "@ + version@
            + " already exists"@),
        !version_exists ==> match uuid_parsed(user_id@) {
            Some(u) => r == Ok::<u128, AppError>(u),
            None => r matches Err(AppError::BadRequest(m)) && m@ == "Invalid user_id UUID"@,
        },
{
    if version_exists {
        return Err(crate_version_conflict(name, version));
    }
    request_user_uuid(user_id)
}

/// The file a crate version is stored as: `<name>-<version>.crate`.
pub fn crate_file_name(name: &str, version: &str) -> (r: String)
    ensures
        r@ == name@ + "-"@ + version@ + ".crate"@,
{
    let a = join3(name, "-", version);
    join2(a.as_str(), ".crate")
}

/// The error for an npm package version that was already published.
pub fn npm_version_conflict(name: &str, version: &str) -> (e: AppError)
    ensures
        e matches AppError::Conflict(m) && m@ == "Package "@ + name@ + " version "@ + version@ + " already exists"@,
{
    let a = join3("Package ", name, " version ");
    AppError::Conflict(join3(a.as_str(), version, " already exists"))
}

/// A package name with each `/` (of a scope) turned into `-`.
pub open spec fn unscoped(name: Seq<char>) -> Seq<char> {
    name.map_values(|c: char| if c == '/' { '-' } else { c })
}

/// The file an npm package version is stored as:
/// `<name with / as ->-<version>.tgz`.
pub fn npm_file_name(name: &str, version: &str) -> (r: String)
    ensures
        r@ == unscoped(name@) + "-"@ + version@ + ".tgz"@,
{
    let cs = chars_of(name);
    let mut out: Vec<char> = Vec::new();
    let mut i: usize = 0;
    while i < cs.len()
        invariant
            i <= cs.len(),
            cs@ == name@,
            out@ =~= unscoped(cs@.take(i as int)),
        decreases cs.len() - i,
    {
        let c = cs[i];
        if c == '/' {
            out.push('-');
        } else {
            out.push(c);
        }
        proof {
            assert(cs@.take(i + 1) =~= cs@.take(i as int).push(c));
        }
        i = i + 1;
    }
    proof {
        assert(cs@.take(cs@.len() as int) =~= cs@);
    }
    let base = string_of(&out);
    let a = join3(base.as_str(), "-", version);
    join2(a.as_str(), ".tgz")
}

/// The password check of `npm login`: a wrong password is unauthorized, a
/// hash that cannot be read an internal error (without its details).
pub fn npm_password_check(password: &str, hash: &str) -> (r: Result<(), AppError>)
    ensures
        match bcrypt_verdict(password@, hash@) {
            Ok(true) => r is Ok,
            Ok(false) => r matches Err(AppError::Unauthorized(m)) && m@ == "Invalid credentials"@,
            Err(_) => r matches Err(AppError::InternalError(m)) && m@ == "Password verification failed"@,
        },
{
    match bcrypt_verify(password, hash) {
        Ok(true) => Ok(()),
        Ok(false) => Err(AppError::unauthorized("Invalid credentials")),
        Err(_) => Err(AppError::internal("Password verification failed")),
    }
}

/// The `links` value stored for a crate: empty when it has none.
pub fn crate_links(links: &Option<String>) -> (r: String)
    ensures
        r@ == (match *links {
            Some(l) => l@,
            None => Seq::<char>::empty(),
        }),
{
    match links {
        Some(l) => owned(l.as_str()),
        None => String::new(),
    }
}

/// The texts of a list of strings, and whether it holds `s`.
fn holds(list: &Vec<String>, s: &str) -> (r: bool)
    ensures
        r == string_views(list@).contains(s@),
{
    let mut i: usize = 0;
    while i < list.len()
        invariant
            i <= list.len(),
            forall|j: int| 0 <= j < i ==> (#[trigger] list@[j])@ != s@,
        decreases list.len() - i,
    {
        if str_eq(list[i].as_str(), s) {
            assert(string_views(list@)[i as int] == s@);
            return true;
        }
        i = i + 1;
    }
    proof {
        if string_views(list@).contains(s@) {
            let k = choose|k: int| 0 <= k < string_views(list@).len() && string_views(list@)[k] == s@;
            assert(list@[k]@ == s@);
        }
    }
    false
}

/// The Cargo scopes a personal access token stands for: all of them when
/// it may write to registries (`write_registry` or `api`), none otherwise.
pub open spec fn pat_cargo_scopes(scopes: Seq<Seq<char>>) -> Option<Seq<Seq<char>>> {
    if scopes.contains("write_registry"@) || scopes.contains("api"@) {
        Some(seq!["publish"@, "yank"@, "owners"@])
    } else {
        None
    }
}

/// The Cargo scopes of a personal access token used with Cargo.
pub fn cargo_scopes_of_pat(scopes: &Vec<String>) -> (r: Option<Vec<String>>)
    ensures
        match r {
            Some(v) => pat_cargo_scopes(string_views(scopes@)) == Some(string_views(v@)),
            None => pat_cargo_scopes(string_views(scopes@)) is None,
        },
{
    if holds(scopes, "write_registry") || holds(scopes, "api") {
        let mut v: Vec<String> = Vec::new();
        v.push(owned("publish"));
        v.push(owned("yank"));
        v.push(owned("owners"));
        assert(string_views(v@) =~= seq!["publish"@, "yank"@, "owners"@]);
        Some(v)
    } else {
        None
    }
}

/// Whether a token that was found is a personal access token: it has the
/// token prefix.
pub fn is_pat(token: &str) -> (r: bool)
    ensures
        r == crate::text::has_prefix(token@, PAT_PREFIX@),
{
    let t = crate::text::chars_of(token);
    let p = crate::text::chars_of(PAT_PREFIX);
    crate::text::starts_with(&t, &p)
}

/// A Cargo token may do an operation when one of its scopes is the one
/// required or `*`, and its user may write to the project.
pub open spec fn cargo_token_allows(scopes: Seq<Seq<char>>, required: Seq<char>, project_access: bool) -> bool {
    (scopes.contains(required) || scopes.contains("*"@)) && project_access
}

/// The verdict on a Cargo token: valid with its user and scopes when it
/// may do the operation, else invalid with nothing more.
pub fn cargo_token_verdict(
    found: Option<(String, String, Vec<String>)>,
    required: &str,
    project_access: bool,
) -> (r: VerifyCargoTokenResponse)
    ensures
        match found {
            Some((id, name, scopes)) => if cargo_token_allows(string_views(scopes@), required@, project_access) {
                r.valid && opt_view(r.user_id) == Some(id@) && opt_view(r.username) == Some(name@)
                    && r.scopes@ == scopes@
            } else {
                !r.valid && r.user_id is None && r.username is None && r.scopes@.len() == 0
            },
            None => !r.valid && r.user_id is None && r.username is None && r.scopes@.len() == 0,
        },
{
    match found {
        Some((id, name, scopes)) => {
            let allowed = (holds(&scopes, required) || holds(&scopes, "*")) && project_access;
            if allowed {
                VerifyCargoTokenResponse { valid: true, user_id: Some(id), username: Some(name), scopes }
            } else {
                VerifyCargoTokenResponse { valid: false, user_id: None, username: None, scopes: Vec::new() }
            }
        },
        None => VerifyCargoTokenResponse { valid: false, user_id: None, username: None, scopes: Vec::new() },
    }
}

/// A personal access token that may write to registries passes every Cargo
/// scope check on a project its user may write to.
pub proof fn law_registry_pat_covers_cargo(scopes: Seq<Seq<char>>, required: Seq<char>)
    requires
        scopes.contains("write_registry"@),
        required == "publish"@ || required == "yank"@ || required == "owners"@,
    ensures
        pat_cargo_scopes(scopes) is Some,
        cargo_token_allows(pat_cargo_scopes(scopes)->0, required, true),
{
    let s = seq!["publish"@, "yank"@, "owners"@];
    if required == "publish"@ {
        assert(s[0] == required);
    } else if required == "yank"@ {
        assert(s[1] == required);
    } else {
        assert(s[2] == required);
    }
}

/// The user named by the `user_id` of a registry request, as a UUID; a
/// text that is no UUID is a bad request.
pub fn request_user_uuid(user_id: &str) -> (r: Result<u128, AppError>)
    ensures
        match uuid_parsed(user_id@) {
            Some(u) => r == Ok::<u128, AppError>(u),
            None => r matches Err(AppError::BadRequest(m)) && m@ == "Invalid user_id UUID"@,
        },
{
    match parse_uuid(user_id) {
        Some(u) => Ok(u),
        None => Err(AppError::bad_request("Invalid user_id UUID")),
    }
}

/// A new token for `npm login`: `gitfox-npm_` and a random UUID written
/// without hyphens.
pub fn new_npm_token() -> (r: String)
    ensures
        exists|n: u128| r@ == "gitfox-npm_"@ + uuid_simple_text(n),
{
    let u = new_uuid_simple();
    join2("gitfox-npm_", u.as_str())
}

} // verus!

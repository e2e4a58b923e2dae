//! Editing files of a repository from the web: the request types, who may
//! write, the commit signature and the actions of a batch commit; raw file
//! downloads.
use vstd::prelude::*;
use vstd::string::StringSliceAdditionalSpecFns;
use crate::auth::{role_can_write, role_writes};
use crate::oauth::opt_str_view;
use crate::error::AppError;
use crate::git_http::{base64_decode_standard, base64_standard_decoded};
use crate::text::{chars_of, join2, join3, last_index, owned, rfind_char, slice_chars, string_of};

verus! {

/// The path of a project: `/{namespace}/{project}`.
pub struct ProjectPath {
    pub namespace: String,
    pub project: String,
}

/// The path of a file in a project.
pub struct FilePath {
    pub namespace: String,
    pub project: String,
    pub filepath: String,
}

/// The path of a blob in a project.
pub struct BlobPath {
    pub namespace: String,
    pub project: String,
    pub sha: String,
}

/// Creates a file on a branch.
pub struct CreateFileRequest {
    pub branch: String,
    pub content: String,
    pub commit_message: String,
}

/// Replaces the content of a file on a branch.
pub struct UpdateFileRequest {
    pub branch: String,
    pub content: String,
    pub commit_message: String,
}

/// Deletes a file on a branch.
pub struct DeleteFileRequest {
    pub branch: String,
    pub commit_message: String,
}

/// Several file changes in one commit.
pub struct BatchCommitRequest {
    pub branch: String,
    pub commit_message: String,
    pub actions: Vec<FileAction>,
}

/// One change of a batch commit.
pub struct FileAction {
    /// `create`, `update` or `delete`.
    pub action: String,
    pub file_path: String,
    pub content: Option<String>,
}

/// The commit that a change made.
pub struct CommitResponse {
    pub sha: String,
}

/// Who wrote or committed a change, and when.
pub struct Signature {
    pub name: String,
    pub email: String,
    /// Seconds since the Unix epoch.
    pub timestamp: i64,
    pub timezone: String,
}

/// The seconds elapsed since the Unix epoch by the system clock (zero when
/// the clock is set before it), through `std::time::SystemTime`. Nothing is
/// promised of the value: it is the time.
#[verifier::external_body]
fn unix_time_secs() -> (r: u64) {
    std::time::SystemTime::now().duration_since(std::time::UNIX_EPOCH).unwrap_or_default().as_secs()
}

/// The signature of a change made at `timestamp`, in UTC.
pub fn signature_at(name: &str, email: &str, timestamp: i64) -> (s: Signature)
    ensures
        s.name@ == name@,
        s.email@ == email@,
        s.timestamp == timestamp,
        s.timezone@ == "+0000"@,
{
    Signature { name: owned(name), email: owned(email), timestamp, timezone: owned("+0000") }
}

/// The signature of a change made now.
pub fn make_signature(name: &str, email: &str) -> (s: Signature)
    ensures
        s.name@ == name@,
        s.email@ == email@,
        s.timezone@ == "+0000"@,
{
    let secs = unix_time_secs();
    signature_at(name, email, secs as i64)
}

/// The email that commits made from the web are signed with.
pub fn commit_email(username: &str) -> (r: String)
    ensures
        r@ == username@ + "@gitfox.local"@,
{
    join2(username, "@gitfox.local")
}

/// Who may change the files of a project: its owner, a member whose role
/// writes, or a member of its group with developer access or more.
pub open spec fn may_write_project(user_id: i64, owner_id: i64, role: Option<Seq<char>>, group_write: bool) -> bool {
    user_id == owner_id || (role matches Some(r) && role_writes(r)) || group_write
}

/// Whether a user may change the files of a project.
pub fn project_write_access(user_id: i64, owner_id: i64, role: Option<&str>, group_write: bool) -> (r: bool)
    ensures
        r == may_write_project(user_id, owner_id, opt_str_view(role), group_write),
{
    if user_id == owner_id {
        return true;
    }
    match role {
        Some(r) if role_can_write(r) => true,
        _ => group_write,
    }
}

/// One change of a commit as the Git service receives it.
pub struct CommitAction {
    pub action: String,
    pub path: String,
    /// The new content, as bytes (empty when there is none).
    pub content: Vec<u8>,
    pub previous_path: String,
    /// The file mode: a regular file (`0o100644`).
    pub mode: u32,
    pub expected_blob_id: String,
}

/// A file change becomes a commit action for a regular file, with its
/// content as UTF-8 bytes.
pub open spec fn action_converted(a: FileAction, c: CommitAction) -> bool {
    &&& c.action@ == a.action@
    &&& c.path@ == a.file_path@
    &&& c.content@ == (match a.content {
        Some(t) => vstd::utf8::encode_utf8(t@),
        None => Seq::<u8>::empty(),
    })
    &&& c.previous_path@ == Seq::<char>::empty()
    &&& c.mode == 0o100644
    &&& c.expected_blob_id@ == Seq::<char>::empty()
}

/// The UTF-8 bytes of a text.
fn bytes_of(s: &str) -> (r: Vec<u8>)
    ensures
        r@ == s.spec_bytes(),
{
    let b = s.as_bytes();
    let mut out: Vec<u8> = Vec::new();
    let mut i: usize = 0;
    while i < b.len()
        invariant
            b@ == s.spec_bytes(),
            i <= b.len(),
            out@ == b@.take(i as int),
        decreases b.len() - i,
    {
        out.push(b[i]);
        assert(b@.take(i + 1) =~= b@.take(i as int).push(b@[i as int]));
        i = i + 1;
    }
    assert(b@.take(b@.len() as int) =~= b@);
    out
}

/// The commit actions of a batch commit, one per file change, in order.
pub fn commit_actions(actions: &Vec<FileAction>) -> (r: Vec<CommitAction>)
    ensures
        r@.len() == actions@.len(),
        forall|i: int| 0 <= i < r@.len() ==> action_converted(actions@[i], #[trigger] r@[i]),
{
    let mut out: Vec<CommitAction> = Vec::new();
    let mut i: usize = 0;
    while i < actions.len()
        invariant
            i <= actions.len(),
            out@.len() == i,
            forall|k: int| 0 <= k < i ==> action_converted(actions@[k], #[trigger] out@[k]),
        decreases actions.len() - i,
    {
        let a = &actions[i];
        let content = match &a.content {
            Some(t) => bytes_of(t.as_str()),
            None => Vec::new(),
        };
        out.push(
            CommitAction {
                action: owned(a.action.as_str()),
                path: owned(a.file_path.as_str()),
                content,
                previous_path: String::new(),
                mode: 0o100644,
                expected_blob_id: String::new(),
            },
        );
        i = i + 1;
    }
    out
}

// ---------------------------------------------------------------------------
// Raw file downloads
// ---------------------------------------------------------------------------

/// The media type that mime_guess guesses first for a path (from its
/// extension), as text.
pub uninterp spec fn mime_guess_first(path: Seq<char>) -> Option<Seq<char>>;

/// The first media type guessed for a path (`mime_guess::from_path`, then
/// `first`), written as text. The guess is named.
#[verifier::external_body]
fn guess_mime(path: &str) -> (r: Option<String>)
    ensures
        match r {
            Some(m) => mime_guess_first(path@) == Some(m@),
            None => mime_guess_first(path@) is None,
        },
{
    match mime_guess::from_path(path).first() {
        Some(m) => Some(m.to_string()),
        None => None,
    }
}

/// The last segment of a path: what follows its last `/`.
pub open spec fn file_name_of(path: Seq<char>) -> Seq<char> {
    match last_index(path, '/') {
        Some(i) => path.skip(i + 1),
        None => path,
    }
}

/// A file sent as it is stored: its media type, its disposition header and
/// its bytes.
pub struct RawFile {
    pub content_type: String,
    pub content_disposition: String,
    pub body: Vec<u8>,
}

/// The media type of a raw file: the guess from its path, else
/// `application/octet-stream` for binary and `text/plain` for text files.
pub open spec fn raw_content_type(path: Seq<char>, is_binary: bool) -> Seq<char> {
    match mime_guess_first(path) {
        Some(m) => m,
        None => if is_binary { "application/octet-stream"@ } else { "text/plain"@ },
    }
}

/// The disposition of a raw file: binary files are attachments, text files
/// inline, each with the file's name.
pub open spec fn raw_disposition(path: Seq<char>, is_binary: bool) -> Seq<char> {
    (if is_binary { "attachment"@ } else { "inline"@ }) + "; filename=\""@ + file_name_of(path) + "\""@
}

/// The raw download of a file whose content the repository gave as text
/// (binary content in standard base64). Content that does not decode is an
/// internal error.
pub fn raw_file(filepath: &str, is_binary: bool, content: &str) -> (r: Result<RawFile, AppError>)
    ensures
        is_binary ==> match base64_standard_decoded(content@) {
            Ok(bytes) => r matches Ok(f) && f.body@ == bytes,
            Err(e) => r matches Err(AppError::InternalError(m)) && m@ == "Base64 decode error: "@ + e,
        },
        !is_binary ==> (r matches Ok(f) && f.body@ == content.spec_bytes()),
        r matches Ok(f) ==> f.content_type@ == raw_content_type(filepath@, is_binary) && f.content_disposition@
            == raw_disposition(filepath@, is_binary),
{
    let body = if is_binary {
        match base64_decode_standard(content) {
            Ok(b) => b,
            Err(e) => {
                return Err(AppError::InternalError(join2("Base64 decode error: ", e.as_str())));
            },
        }
    } else {
        vstd::slice::slice_to_vec(content.as_bytes())
    };
    let content_type = match guess_mime(filepath) {
        Some(m) => m,
        None => if is_binary {
            owned("application/octet-stream")
        } else {
            owned("text/plain")
        },
    };
    let cs = chars_of(filepath);
    let name = match rfind_char(&cs, '/') {
        Some(i) => string_of(&slice_chars(&cs, i + 1, cs.len())),
        None => owned(filepath),
    };
    proof {
        if let Some(i) = last_index(filepath@, '/') {
            assert(cs@.subrange(i + 1, cs@.len() as int) =~= filepath@.skip(i + 1));
        }
    }
    let kind = if is_binary { "attachment" } else { "inline" };
    let mut disposition = join3(kind, "; filename=\"", name.as_str());
    disposition.append("\"");
    Ok(RawFile { content_type, content_disposition: disposition, body })
}

} // verus!

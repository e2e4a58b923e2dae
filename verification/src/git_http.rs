//! Git smart-HTTP helpers: reading a repository path, the pkt-line framing
//! of the ref advertisement, the service names, Basic credentials and the
//! write permission of a user.
use vstd::prelude::*;
use base64::Engine;
use vstd::utf8::{decode_utf8, valid_utf8};
use vstd::string::StringSliceAdditionalSpecFns;
use crate::auth::{opt_view, role_writes, role_can_write};
use crate::error::AppError;
use crate::text::{chars_of, has_prefix, hex_of, join3, last_index, push_char, rfind_char, slice_chars, starts_with, str_eq, string_of, trim_end_all, trim_end_matches, u128_to_hex, zero_pad};

verus! {

/// Namespace and project of a Git URL path: every trailing `.git` removed,
/// then cut at the last `/`; both parts must be non-empty.
pub open spec fn spec_git_path(full_path: Seq<char>) -> Option<(Seq<char>, Seq<char>)> {
    let p = trim_end_all(full_path, ".git"@);
    match last_index(p, '/') {
        Some(i) => if i > 0 && i + 1 < p.len() {
            Some((p.take(i), p.skip(i + 1)))
        } else {
            None
        },
        None => None,
    }
}

/// The error message for a Git path that cannot be read.
pub open spec fn git_path_error(full_path: Seq<char>) -> Seq<char> {
    if last_index(trim_end_all(full_path, ".git"@), '/') is Some {
        "Invalid git path"@
    } else {
        "Invalid git path: missing namespace"@
    }
}

/// Reads `namespace/.../project(.git)` into namespace and project name, e.g.
/// `group/sub/repo.git` into `group/sub` and `repo`.
pub fn parse_git_path(full_path: &str) -> (r: Result<(String, String), AppError>)
    ensures
        match r {
            Ok((ns, p)) => spec_git_path(full_path@) == Some((ns@, p@)),
            Err(e) => spec_git_path(full_path@) is None && (e matches AppError::BadRequest(m) && m@
                == git_path_error(full_path@)),
        },
{
    let cs = chars_of(full_path);
    let git = chars_of(".git");
    let p = trim_end_matches(&cs, &git);
    match rfind_char(&p, '/') {
        Some(pos) => {
            if pos == 0 || pos + 1 >= p.len() {
                Err(AppError::bad_request("Invalid git path"))
            } else {
                let ns = slice_chars(&p, 0, pos);
                let project = slice_chars(&p, pos + 1, p.len());
                proof {
                    assert(ns@ =~= p@.take(pos as int));
                    assert(project@ =~= p@.skip(pos + 1));
                }
                Ok((string_of(&ns), string_of(&project)))
            }
        },
        None => Err(AppError::bad_request("Invalid git path: missing namespace")),
    }
}

/// The pkt-line framing of `data`: its length in UTF-8 bytes plus four, as
/// at least four lowercase hexadecimal digits, then the data.
pub open spec fn pkt_line_of(data: &str) -> Seq<char> {
    zero_pad(hex_of(((data.spec_bytes().len() as usize) + 4) as nat), 4) + data@
}

/// Frames `data` as a Git pkt-line.
pub fn pkt_line(data: &str) -> (r: String)
    ensures
        r@ == pkt_line_of(data),
{
    let n = data.len();
    let len: u128 = n as u128 + 4;
    let digits = u128_to_hex(len);
    let mut out = String::new();
    let mut k = digits.len();
    while k < 4
        invariant
            digits.len() <= k,
            k <= 4 || k == digits.len(),
            out@ == Seq::new((k - digits.len()) as nat, |i: int| '0'),
        decreases 4 - k,
    {
        push_char(&mut out, '0');
        assert(out@ =~= Seq::new((k + 1 - digits.len()) as nat, |i: int| '0'));
        k = k + 1;
    }
    let mut i: usize = 0;
    let ghost pad = out@;
    while i < digits.len()
        invariant
            i <= digits.len(),
            out@ == pad + digits@.take(i as int),
        decreases digits.len() - i,
    {
        push_char(&mut out, digits[i]);
        assert(digits@.take(i + 1) =~= digits@.take(i as int).push(digits@[i as int]));
        i = i + 1;
    }
    out.append(data);
    proof {
        assert(digits@.take(digits.len() as int) =~= digits@);
        if digits.len() >= 4 {
            assert(pad =~= Seq::<char>::empty());
            assert(pad + digits@ =~= digits@);
        } else {
            assert(k == 4);
        }
        assert(out@ =~= pkt_line_of(data));
    }
    out
}

/// The service a ref-advertisement request asks for, when it is one of the
/// two Git services.
pub open spec fn spec_info_refs_service(service: Option<Seq<char>>) -> Option<Seq<char>> {
    match service {
        Some(s) => if s == "git-upload-pack"@ || s == "git-receive-pack"@ {
            Some(s)
        } else {
            None
        },
        None => None,
    }
}

/// Accepts `git-upload-pack` and `git-receive-pack`, refuses anything else.
pub fn info_refs_service(service: Option<&str>) -> (r: Option<&'static str>)
    ensures
        opt_view(r) == spec_info_refs_service(opt_view(service)),
{
    match service {
        Some(s) => {
            if str_eq(s, "git-upload-pack") {
                Some("git-upload-pack")
            } else if str_eq(s, "git-receive-pack") {
                Some("git-receive-pack")
            } else {
                None
            }
        },
        None => None,
    }
}

/// The content type of a service's ref advertisement.
pub fn advertisement_content_type(service: &str) -> (r: String)
    ensures
        r@ == "application/x-"@ + service@ + "-advertisement"@,
{
    join3("application/x-", service, "-advertisement")
}

/// The start of a ref advertisement: the pkt-line `# service=<s>\n`, then a
/// flush packet `0000`.
pub fn advertisement_preamble(service: &str) -> (r: String)
    ensures
        exists|line: &str| #[trigger] line@ == "# service="@ + service@ + "\n"@ && r@ == pkt_line_of(line) + "0000"@,
{
    let line = join3("# service=", service, "\n");
    let l = line.as_str();
    let mut out = pkt_line(l);
    out.append("0000");
    assert(l@ == "# service="@ + service@ + "\n"@ && out@ == pkt_line_of(l) + "0000"@);
    out
}

/// Whether a user may push to a project: always its owner, otherwise only
/// owner, maintainer and developer members.
pub open spec fn spec_write_permission(user_id: int, owner_id: int, membership: Option<Seq<char>>) -> bool {
    if user_id == owner_id {
        true
    } else {
        match membership {
            Some(role) => role_writes(role),
            None => false,
        }
    }
}

/// Whether a user may push to a project.
pub fn write_permission(user_id: i64, owner_id: i64, membership: Option<&str>) -> (r: bool)
    ensures
        r == spec_write_permission(user_id as int, owner_id as int, opt_view(membership)),
{
    if user_id == owner_id {
        return true;
    }
    match membership {
        Some(role) => role_can_write(role),
        None => false,
    }
}

/// The query of an info/refs request: the service asked for.
pub struct InfoRefsQuery {
    pub service: Option<String>,
}

// ---------------------------------------------------------------------------
// Basic credentials
// ---------------------------------------------------------------------------

/// What `base64::engine::general_purpose::STANDARD.decode` gives for a
/// text: the decoded bytes, or the text of the decode error.
pub uninterp spec fn base64_standard_decoded(text: Seq<char>) -> Result<Seq<u8>, Seq<char>>;

/// Decodes standard base64 with the base64 crate (`STANDARD.decode`). The
/// contract names the outcome; which texts decode to what is left to the
/// crate.
#[verifier::external_body]
pub(crate) fn base64_decode_standard(text: &str) -> (r: Result<Vec<u8>, String>)
    ensures
        match r {
            Ok(b) => base64_standard_decoded(text@) == Ok::<Seq<u8>, Seq<char>>(b@),
            Err(m) => base64_standard_decoded(text@) == Err::<Seq<u8>, Seq<char>>(m@),
        },
{
    match base64::engine::general_purpose::STANDARD.decode(text) {
        Ok(b) => Ok(b),
        Err(e) => Err(e.to_string()),
    }
}

/// The text of the error that `String::from_utf8` reports for bytes that
/// are not valid UTF-8 (where the bad sequence starts, and how long it is).
pub uninterp spec fn utf8_error_text(bytes: Seq<u8>) -> Seq<char>;

/// Reads bytes as UTF-8 text (`String::from_utf8`): text exactly when the
/// bytes are valid UTF-8, and then the characters they encode; otherwise the
/// text of the error, which is named.
#[verifier::external_body]
pub(crate) fn utf8_string(bytes: Vec<u8>) -> (r: Result<String, String>)
    ensures
        r is Ok <==> valid_utf8(bytes@),
        r matches Ok(s) ==> s@ == decode_utf8(bytes@),
        r matches Err(m) ==> m@ == utf8_error_text(bytes@),
{
    match String::from_utf8(bytes) {
        Ok(s) => Ok(s),
        Err(e) => Err(e.to_string()),
    }
}

/// The first `:` of the decoded credentials, which separates user name and
/// password (the password may hold more).
pub open spec fn split_credentials(text: Seq<char>) -> Option<(Seq<char>, Seq<char>)> {
    match crate::text::first_index(text, ':') {
        Some(i) => Some((text.take(i), text.skip(i + 1))),
        None => None,
    }
}

/// User name and password of an `Authorization: Basic <base64>` header.
pub open spec fn spec_basic_credentials(header: Seq<char>) -> Option<(Seq<char>, Seq<char>)> {
    if !has_prefix(header, "Basic "@) {
        None
    } else {
        match base64_standard_decoded(header.skip(6)) {
            Ok(bytes) => if valid_utf8(bytes) {
                split_credentials(decode_utf8(bytes))
            } else {
                None
            },
            Err(_) => None,
        }
    }
}

/// Reads user name and password from a Basic authorization header.
pub fn basic_credentials(header: &str) -> (r: Option<(String, String)>)
    ensures
        match r {
            Some((u, p)) => spec_basic_credentials(header@) == Some((u@, p@)),
            None => spec_basic_credentials(header@) is None,
        },
{
    let cs = chars_of(header);
    let prefix = chars_of("Basic ");
    proof {
        reveal_strlit("Basic ");
    }
    if !starts_with(&cs, &prefix) {
        return None;
    }
    let encoded = string_of(&slice_chars(&cs, 6, cs.len()));
    assert(cs@.subrange(6, cs@.len() as int) =~= header@.skip(6));
    let bytes = match base64_decode_standard(encoded.as_str()) {
        Ok(b) => b,
        Err(_) => return None,
    };
    let text = match utf8_string(bytes) {
        Ok(t) => t,
        Err(_) => return None,
    };
    let tc = chars_of(text.as_str());
    match crate::text::find_char(&tc, ':') {
        Some(i) => {
            let user = slice_chars(&tc, 0, i);
            let pass = slice_chars(&tc, i + 1, tc.len());
            proof {
                assert(user@ =~= tc@.take(i as int));
                assert(pass@ =~= tc@.skip(i + 1));
            }
            Some((string_of(&user), string_of(&pass)))
        },
        None => None,
    }
}

/// A Git path that reads gives back, joined with `/`, the path without its
/// trailing `.git`.
pub proof fn law_git_path_round_trip(full_path: Seq<char>)
    requires
        spec_git_path(full_path) is Some,
    ensures
        match spec_git_path(full_path) {
            Some((ns, project)) => ns + "/"@ + project == trim_end_all(full_path, ".git"@),
            None => false,
        },
{
    let p = trim_end_all(full_path, ".git"@);
    crate::text::lemma_last_index(p, '/');
    let i = last_index(p, '/')->0;
    assert(p.take(i) + "/"@ + p.skip(i + 1) =~= p) by {
        reveal_strlit("/");
    }
}

} // verus!

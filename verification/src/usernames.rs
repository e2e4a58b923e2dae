//! The user name given to someone who signs in through an external
//! provider for the first time: a cleaned version of the provider's user
//! name, made unique with a numbered suffix.
use vstd::prelude::*;
use vstd::string::StringSliceAdditionalSpecFns;
use vstd::utf8::{decode_utf8, is_char_boundary};
use crate::config::{lowercase_text, lowercased};
use crate::error::AppError;
use crate::text::{chars_of, decimal_of, join2, join3, owned, string_of, u64_to_decimal};

verus! {

/// What `char::is_alphanumeric` answers for a character (Unicode letters
/// and numbers).
pub uninterp spec fn alphanumeric(c: char) -> bool;

/// An ASCII letter or digit.
pub open spec fn ascii_alphanumeric(c: char) -> bool {
    ('0' <= c <= '9') || ('A' <= c <= 'Z') || ('a' <= c <= 'z')
}

/// Whether a character is a letter or number: for ASCII, a letter or
/// digit; else what the Unicode tables say.
pub open spec fn letter_or_number(c: char) -> bool {
    if (c as int) < 128 {
        ascii_alphanumeric(c)
    } else {
        alphanumeric(c)
    }
}

/// Whether a character is a Unicode letter or number
/// (`char::is_alphanumeric`). The answer is named; for an ASCII character
/// it is whether it is a letter or a digit (the ASCII characters in the
/// Unicode alphabetic and numeric classes).
#[verifier::external_body]
fn is_alphanumeric(c: char) -> (r: bool)
    ensures
        r == alphanumeric(c),
        (c as int) < 128 ==> r == ascii_alphanumeric(c),
{
    c.is_alphanumeric()
}

/// The characters of `s` that may stand in a user name: letters, numbers
/// and `_`.
pub open spec fn kept_chars(s: Seq<char>) -> Seq<char>
    decreases s.len(),
{
    if s.len() == 0 {
        Seq::empty()
    } else if letter_or_number(s.last()) || s.last() == '_' {
        kept_chars(s.drop_last()).push(s.last())
    } else {
        kept_chars(s.drop_last())
    }
}

/// At most the first `n` characters of `s`.
pub open spec fn first_n(s: Seq<char>, n: nat) -> Seq<char> {
    if s.len() <= n {
        s
    } else {
        s.take(n as int)
    }
}

/// How many bytes of the provider's user id the fallback name keeps.
pub open spec fn uid_cut(uid: &str) -> int {
    if uid.spec_bytes().len() < 8 {
        uid.spec_bytes().len() as int
    } else {
        8
    }
}

/// The name of a user without a usable provider user name: `user_` and
/// the first (at most) eight bytes of the provider's user id.
pub open spec fn uid_fallback(uid: &str) -> Seq<char> {
    "user_"@ + decode_utf8(uid.spec_bytes().take(uid_cut(uid)))
}

/// A name cleaned for use as a user name: lower case, only letters,
/// numbers and `_`, at most 30 characters.
pub open spec fn cleaned(name: Seq<char>) -> Seq<char> {
    first_n(kept_chars(lowercase_text(name)), 30)
}

/// The base of a new user name: the provider's user name (else the
/// fallback) cleaned, or the fallback when nothing is left of it.
pub open spec fn username_base_of(external: Option<Seq<char>>, uid: &str) -> Seq<char> {
    let base = match external {
        Some(e) => e,
        None => uid_fallback(uid),
    };
    if cleaned(base).len() == 0 {
        uid_fallback(uid)
    } else {
        cleaned(base)
    }
}

fn cleaned_name(name: &str) -> (r: String)
    ensures
        r@ == cleaned(name@),
{
    let lower = lowercased(name);
    let cs = chars_of(lower.as_str());
    let mut out: Vec<char> = Vec::new();
    let mut i: usize = 0;
    while i < cs.len()
        invariant
            cs@ == lowercase_text(name@),
            i <= cs.len(),
            out@ == kept_chars(cs@.take(i as int)),
        decreases cs.len() - i,
    {
        assert(cs@.take(i + 1).drop_last() =~= cs@.take(i as int));
        let c = cs[i];
        if is_alphanumeric(c) || c == '_' {
            out.push(c);
        }
        i = i + 1;
    }
    assert(cs@.take(cs@.len() as int) =~= cs@);
    if out.len() <= 30 {
        string_of(&out)
    } else {
        let head = crate::text::slice_chars(&out, 0, 30);
        assert(head@ =~= out@.take(30));
        string_of(&head)
    }
}

fn fallback_name(uid: &str) -> (r: String)
    requires
        uid.spec_bytes().len() <= usize::MAX,
        is_char_boundary(uid.spec_bytes(), uid_cut(uid)),
    ensures
        r@ == uid_fallback(uid),
{
    let n = uid.len();
    let cut: usize = if n < 8 {
        n
    } else {
        8
    };
    assert(cut as int == uid_cut(uid));
    let (head, _) = uid.split_at(cut);
    proof {
        vstd::utf8::encode_utf8_decode_utf8(head@);
        assert(head.spec_bytes() =~= uid.spec_bytes().take(uid_cut(uid)));
    }
    join2("user_", head)
}

/// The base of the user name of someone who signs in through a provider
/// for the first time.
pub fn username_base(external: Option<&str>, uid: &str) -> (r: String)
    requires
        uid.spec_bytes().len() <= usize::MAX,
        is_char_boundary(uid.spec_bytes(), uid_cut(uid)) || (external matches Some(e) && cleaned(e@).len() > 0),
    ensures
        r@ == username_base_of(match external {
            Some(e) => Some(e@),
            None => None,
        }, uid),
{
    let base = match external {
        Some(e) => owned(e),
        None => fallback_name(uid),
    };
    let clean = cleaned_name(base.as_str());
    if clean.as_str().is_empty() {
        fallback_name(uid)
    } else {
        clean
    }
}

/// The user name tried at a step: the base, then the base with `_1`, `_2`
/// and so on.
pub open spec fn username_candidate_of(base: Seq<char>, suffix: nat) -> Seq<char> {
    if suffix == 0 {
        base
    } else {
        base + "_"@ + decimal_of(suffix)
    }
}

/// Writes the user name tried at a step.
pub fn username_candidate(base: &str, suffix: u32) -> (r: String)
    ensures
        r@ == username_candidate_of(base@, suffix as nat),
{
    if suffix == 0 {
        owned(base)
    } else {
        let d = string_of(&u64_to_decimal(suffix as u64));
        join3(base, "_", d.as_str())
    }
}

/// What follows the check of a candidate user name.
pub enum UsernameStep {
    /// The name is free: take it.
    Take(String),
    /// The name is taken: try the next one, at this suffix.
    Try { name: String, suffix: u32 },
}

/// The step after checking the candidate at `suffix`: a free name is
/// taken; a taken one leads to the next suffix, and after the base and the
/// suffixes up to 999 the search gives up.
pub fn next_username_step(base: &str, suffix: u32, taken: bool) -> (r: Result<UsernameStep, AppError>)
    requires
        suffix < 1000,
    ensures
        !taken ==> (r matches Ok(UsernameStep::Take(n)) && n@ == username_candidate_of(base@, suffix as nat)),
        taken && suffix + 1 < 1000 ==> (r matches Ok(UsernameStep::Try { name, suffix: s }) && s == suffix + 1
            && name@ == username_candidate_of(base@, (suffix + 1) as nat)),
        taken && suffix + 1 >= 1000 ==> (r matches Err(AppError::InternalError(m)) && m@
            == "Failed to generate unique username"@),
{
    if !taken {
        return Ok(UsernameStep::Take(username_candidate(base, suffix)));
    }
    let next = suffix + 1;
    if next >= 1000 {
        return Err(AppError::internal("Failed to generate unique username"));
    }
    Ok(UsernameStep::Try { name: username_candidate(base, next), suffix: next })
}

} // verus!

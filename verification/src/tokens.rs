//! Personal access tokens: what a set of scopes grants, how a token is made,
//! stored and recognised, and when it expires.
use vstd::prelude::*;
use vstd::string::StringSliceAdditionalSpecFns;
use crate::crypto::{hash_token, random_hex_token, sha256_hex};
use crate::error::AppError;
use crate::text::{chars_of, decimal_of, has_prefix, hex_lower, join3, replace_all, replace_chars,
    starts_with, string_of, u64_to_decimal};

verus! {

/// The prefix of every personal access token.
pub const PAT_PREFIX: &'static str = "gitfox-pat_";

/// The texts of a list of scopes.
pub open spec fn scope_views(scopes: Seq<String>) -> Seq<Seq<char>> {
    scopes.map_values(|s: String| s@)
}

/// Whether a list of scopes grants `required`: `admin` grants everything,
/// a `read_` scope is granted by its `write_` counterpart, and any scope is
/// granted by itself.
pub open spec fn scope_grants(scopes: Seq<Seq<char>>, required: Seq<char>) -> bool {
    ||| scopes.contains("admin"@)
    ||| (has_prefix(required, "read_"@) && scopes.contains(replace_all(required, "read_"@, "write_"@)))
    ||| scopes.contains(required)
}

/// Whether `s` is one of `scopes`.
fn listed(scopes: &[String], s: &str) -> (r: bool)
    ensures
        r == scope_views(scopes@).contains(s@),
{
    let mut i: usize = 0;
    while i < scopes.len()
        invariant
            i <= scopes.len(),
            forall|j: int| 0 <= j < i ==> (#[trigger] scopes@[j])@ != s@,
        decreases scopes.len() - i,
    {
        if crate::text::str_eq(scopes[i].as_str(), s) {
            proof {
                assert(scope_views(scopes@)[i as int] == s@);
            }
            return true;
        }
        i = i + 1;
    }
    proof {
        if scope_views(scopes@).contains(s@) {
            let k = choose|k: int| 0 <= k < scope_views(scopes@).len() && scope_views(scopes@)[k] == s@;
            assert(scopes@[k]@ == s@);
        }
    }
    false
}

/// Whether a token with these scopes may do what `required` names.
pub fn has_scope(scopes: &[String], required: &str) -> (r: bool)
    ensures
        r == scope_grants(scope_views(scopes@), required@),
{
    if listed(scopes, "admin") {
        return true;
    }
    let req = chars_of(required);
    let read = chars_of("read_");
    proof {
        reveal_strlit("read_");
    }
    if starts_with(&req, &read) {
        let write = chars_of("write_");
        let w = replace_chars(&req, &read, &write);
        let ws = string_of(&w);
        if listed(scopes, ws.as_str()) {
            return true;
        }
    }
    listed(scopes, required)
}

/// `read_` followed by `x`, with every `read_` turned into `write_`, is
/// `write_` followed by `x` so turned.
pub proof fn lemma_replace_read_prefix(x: Seq<char>)
    ensures
        replace_all("read_"@ + x, "read_"@, "write_"@) == "write_"@ + replace_all(x, "read_"@, "write_"@),
{
    reveal_strlit("read_");
    let s = "read_"@ + x;
    assert(has_prefix(s, "read_"@)) by {
        assert(s.take(5) =~= "read_"@);
    }
    assert(s.skip(5) =~= x);
}

/// The `admin` scope grants every scope.
pub proof fn law_admin_grants_all(scopes: Seq<Seq<char>>, required: Seq<char>)
    requires
        scopes.contains("admin"@),
    ensures
        scope_grants(scopes, required),
{
}

/// A scope is granted by itself.
pub proof fn law_scope_grants_itself(scopes: Seq<Seq<char>>, required: Seq<char>)
    requires
        scopes.contains(required),
    ensures
        scope_grants(scopes, required),
{
}

/// Write access implies read access: `write_x` grants `read_x`, for every
/// `x` that holds no `read_` of its own.
pub proof fn law_write_grants_read(scopes: Seq<Seq<char>>, x: Seq<char>)
    requires
        scopes.contains("write_"@ + x),
        replace_all(x, "read_"@, "write_"@) == x,
    ensures
        scope_grants(scopes, "read_"@ + x),
{
    reveal_strlit("read_");
    lemma_replace_read_prefix(x);
    assert(("read_"@ + x).take(5) =~= "read_"@);
}

/// More scopes never grant less: what a list grants, every list that holds
/// all of its scopes grants too.
pub proof fn law_scopes_monotone(fewer: Seq<Seq<char>>, more: Seq<Seq<char>>, required: Seq<char>)
    requires
        forall|s: Seq<char>| fewer.contains(s) ==> more.contains(s),
        scope_grants(fewer, required),
    ensures
        scope_grants(more, required),
{
    if fewer.contains("admin"@) {
        assert(more.contains("admin"@));
    } else if has_prefix(required, "read_"@) && fewer.contains(replace_all(required, "read_"@, "write_"@)) {
        assert(more.contains(replace_all(required, "read_"@, "write_"@)));
    } else {
        assert(more.contains(required));
    }
}

/// A new personal access token: the prefix, then 32 random bytes in
/// hexadecimal.
pub fn generate_token() -> (r: String)
    ensures
        exists|b: Seq<u8>| b.len() == 32 && r@ == PAT_PREFIX@ + hex_lower(b),
{
    random_hex_token(PAT_PREFIX)
}

/// The stored hash of a presented token, when it has the token prefix; a
/// text without the prefix is no personal access token.
pub fn pat_lookup_hash(token: &str) -> (r: Option<String>)
    ensures
        match r {
            Some(h) => has_prefix(token@, PAT_PREFIX@) && h@ == sha256_hex(token),
            None => !has_prefix(token@, PAT_PREFIX@),
        },
{
    let t = chars_of(token);
    let p = chars_of(PAT_PREFIX);
    if starts_with(&t, &p) {
        Some(hash_token(token))
    } else {
        None
    }
}

/// The characters of `s` after the first `k`, or none when `s` is shorter.
pub open spec fn skip_chars(s: Seq<char>, k: int) -> Seq<char> {
    if k >= s.len() {
        Seq::empty()
    } else {
        s.skip(k)
    }
}

/// What is kept of a token to show it later: its characters after the
/// first `n - 4`, where `n` is its length in bytes (the last four of an
/// ASCII token).
pub fn token_last_four(token: &str) -> (r: String)
    requires
        4 <= token.spec_bytes().len() <= usize::MAX,
    ensures
        r@ == skip_chars(token@, token.spec_bytes().len() - 4),
{
    let cs = chars_of(token);
    let n = token.len();
    let k = n - 4;
    if k >= cs.len() {
        return String::new();
    }
    let mut out = String::new();
    let mut i = k;
    while i < cs.len()
        invariant
            k <= i <= cs.len(),
            out@ == cs@.subrange(k as int, i as int),
        decreases cs.len() - i,
    {
        crate::text::push_char(&mut out, cs[i]);
        assert(cs@.subrange(k as int, i + 1) =~= cs@.subrange(k as int, i as int).push(cs@[i as int]));
        i = i + 1;
    }
    assert(cs@.subrange(k as int, cs@.len() as int) =~= cs@.skip(k as int));
    out
}

/// When a new token expires, in days from now (`None`: never), or why the
/// request is refused: `0` days asks for a token that never expires; more
/// days than a positive maximum is refused; with no request, a positive
/// default applies.
pub open spec fn pat_expiry(requested: Option<u32>, max_days: u32, default_days: u32) -> Result<Option<u32>, Seq<char>> {
    match requested {
        Some(d) => if d == 0 {
            Ok(None)
        } else if max_days > 0 && d > max_days {
            Err("Expiration cannot exceed "@ + decimal_of(max_days as nat) + " days"@)
        } else {
            Ok(Some(d))
        },
        None => if default_days > 0 {
            Ok(Some(default_days))
        } else {
            Ok(None)
        },
    }
}

/// The lifetime of a new token in days, or the bad-request error that
/// refuses it.
pub fn pat_expiry_days(requested: Option<u32>, max_days: u32, default_days: u32) -> (r: Result<Option<u32>, AppError>)
    ensures
        match pat_expiry(requested, max_days, default_days) {
            Ok(d) => r == Ok::<Option<u32>, AppError>(d),
            Err(m) => r matches Err(AppError::BadRequest(msg)) && msg@ == m,
        },
{
    match requested {
        Some(d) => {
            if d == 0 {
                Ok(None)
            } else if max_days > 0 && d > max_days {
                let digits = u64_to_decimal(max_days as u64);
                let n = string_of(&digits);
                Err(AppError::BadRequest(join3("Expiration cannot exceed ", n.as_str(), " days")))
            } else {
                Ok(Some(d))
            }
        },
        None => {
            if default_days > 0 {
                Ok(Some(default_days))
            } else {
                Ok(None)
            }
        },
    }
}

} // verus!

//! Git LFS file locks: the paging of lock listings, which locks a listing
//! selects, whose locks they are, and what an unlock request is answered.
use vstd::prelude::*;
use crate::text::{chars_of, i64_to_decimal, parse_in_range, parse_integer, signed_decimal_of, string_of};

verus! {

/// The most locks one page of a listing holds.
pub const LOCK_PAGE_MAX: i32 = 100;

/// The page size of a lock listing: the requested one, at most 100; 100
/// when none (zero or less) is requested.
pub open spec fn spec_lock_page_limit(limit: i32) -> i32 {
    if limit > 0 {
        if limit < LOCK_PAGE_MAX { limit } else { LOCK_PAGE_MAX }
    } else {
        LOCK_PAGE_MAX
    }
}

/// The page size of a lock listing.
pub fn lock_page_limit(limit: i32) -> (r: i32)
    ensures
        r == spec_lock_page_limit(limit),
        1 <= r <= LOCK_PAGE_MAX,
{
    if limit > 0 {
        if limit < LOCK_PAGE_MAX { limit } else { LOCK_PAGE_MAX }
    } else {
        LOCK_PAGE_MAX
    }
}

/// The lock id after which a listing goes on: the cursor read as a 64-bit
/// integer, 0 when it is not one.
pub open spec fn spec_lock_cursor(cursor: Seq<char>) -> int {
    match parse_in_range(cursor, true, i64::MIN as int, i64::MAX as int) {
        Some(v) => v,
        None => 0,
    }
}

/// Reads the cursor of a lock listing.
pub fn lock_cursor(cursor: &str) -> (r: i64)
    ensures
        r as int == spec_lock_cursor(cursor@),
{
    let cs = chars_of(cursor);
    match parse_integer(&cs, true, i64::MIN as i128, i64::MAX as i128) {
        Some(v) => v as i64,
        None => 0,
    }
}

/// Which locks a listing selects.
#[derive(PartialEq, Eq, Debug)]
pub enum LockSelection {
    /// The locks of one path, from the cursor on.
    ByPath(String),
    /// The lock with this id.
    ById(i64),
    /// All locks of the project, from the cursor on.
    All,
}

/// Chooses the locks a listing returns: by path when one is given, else by
/// id when one is given (`None` when that id is not an integer, which is
/// answered as an invalid argument), else all locks.
pub fn lock_selection(path: &str, id: &str) -> (r: Option<LockSelection>)
    ensures
        path@.len() > 0 ==> (r matches Some(LockSelection::ByPath(p)) && p@ == path@),
        path@.len() == 0 && id@.len() > 0 ==> match parse_in_range(id@, true, i64::MIN as int, i64::MAX as int) {
            Some(n) => r == Some(LockSelection::ById(n as i64)),
            None => r is None,
        },
        path@.len() == 0 && id@.len() == 0 ==> r == Some(LockSelection::All),
{
    if !path.is_empty() {
        Some(LockSelection::ByPath(path.to_string()))
    } else if !id.is_empty() {
        let cs = chars_of(id);
        match parse_integer(&cs, true, i64::MIN as i128, i64::MAX as i128) {
            Some(n) => Some(LockSelection::ById(n as i64)),
            None => None,
        }
    } else {
        Some(LockSelection::All)
    }
}

/// The cursor of the next page: the last lock id of a full page, empty
/// when the page is not full (no more locks).
pub open spec fn spec_next_cursor(ids: Seq<i64>, limit: i32) -> Seq<char> {
    if ids.len() == limit && ids.len() > 0 {
        signed_decimal_of(ids.last() as int)
    } else {
        Seq::empty()
    }
}

/// The cursor that goes with a page of lock ids.
pub fn next_cursor(ids: &Vec<i64>, limit: i32) -> (r: String)
    ensures
        r@ == spec_next_cursor(ids@, limit),
{
    if ids.len() > 0 && limit >= 0 && ids.len() == limit as usize {
        let d = i64_to_decimal(ids[ids.len() - 1]);
        string_of(&d)
    } else {
        String::new()
    }
}

/// The ids of the locks (`(id, owner)` pairs) that `user_id` holds.
pub open spec fn locks_of(locks: Seq<(i64, i64)>, user_id: i64) -> Seq<i64>
    decreases locks.len(),
{
    if locks.len() == 0 {
        Seq::empty()
    } else {
        let rest = locks_of(locks.drop_last(), user_id);
        if locks.last().1 == user_id { rest.push(locks.last().0) } else { rest }
    }
}

/// The ids of the locks that others than `user_id` hold.
pub open spec fn locks_not_of(locks: Seq<(i64, i64)>, user_id: i64) -> Seq<i64>
    decreases locks.len(),
{
    if locks.len() == 0 {
        Seq::empty()
    } else {
        let rest = locks_not_of(locks.drop_last(), user_id);
        if locks.last().1 != user_id { rest.push(locks.last().0) } else { rest }
    }
}

/// Splits a page of locks, given as `(id, owner)` pairs, into the user's
/// own (`ours`) and the others' (`theirs`), each in the page's order.
pub fn split_locks(locks: &Vec<(i64, i64)>, user_id: i64) -> (r: (Vec<i64>, Vec<i64>))
    ensures
        r.0@ == locks_of(locks@, user_id),
        r.1@ == locks_not_of(locks@, user_id),
        r.0@.len() + r.1@.len() == locks@.len(),
{
    let mut ours: Vec<i64> = Vec::new();
    let mut theirs: Vec<i64> = Vec::new();
    let mut i: usize = 0;
    while i < locks.len()
        invariant
            i <= locks.len(),
            ours@ == locks_of(locks@.take(i as int), user_id),
            theirs@ == locks_not_of(locks@.take(i as int), user_id),
            ours@.len() + theirs@.len() == i,
        decreases locks.len() - i,
    {
        let (id, owner) = locks[i];
        proof {
            assert(locks@.take(i + 1).drop_last() =~= locks@.take(i as int));
            assert(locks@.take(i + 1).last() == locks@[i as int]);
        }
        if owner == user_id {
            ours.push(id);
        } else {
            theirs.push(id);
        }
        i = i + 1;
    }
    proof {
        assert(locks@.take(locks@.len() as int) =~= locks@);
    }
    (ours, theirs)
}

/// What an unlock request is answered.
#[derive(PartialEq, Eq, Structural, Debug, Clone, Copy)]
pub enum UnlockStep {
    /// No such lock in the project: "Lock not found".
    NotFound,
    /// The lock is someone else's and no force was asked: "Lock owned by
    /// another user. Use force to delete."
    OwnedByOther,
    /// The lock is deleted.
    Delete,
}

/// The answer to an unlock: the lock's owner (`None` when there is no such
/// lock), the user asking, and whether the user forces the unlock.
pub open spec fn spec_unlock_step(owner: Option<i64>, user_id: i64, force: bool) -> UnlockStep {
    match owner {
        None => UnlockStep::NotFound,
        Some(o) => if o != user_id && !force { UnlockStep::OwnedByOther } else { UnlockStep::Delete },
    }
}

/// Decides an unlock request.
pub fn unlock_step(owner: Option<i64>, user_id: i64, force: bool) -> (r: UnlockStep)
    ensures
        r == spec_unlock_step(owner, user_id, force),
{
    match owner {
        None => UnlockStep::NotFound,
        Some(o) => if o != user_id && !force { UnlockStep::OwnedByOther } else { UnlockStep::Delete },
    }
}

impl UnlockStep {
    /// The message of the answer; empty for a deletion.
    pub fn message(&self) -> (m: &'static str)
        ensures
            *self == UnlockStep::NotFound ==> m@ == "Lock not found"@,
            *self == UnlockStep::OwnedByOther ==> m@ == "Lock owned by another user. Use force to delete."@,
            *self == UnlockStep::Delete ==> m@ == ""@,
    {
        match self {
            UnlockStep::NotFound => "Lock not found",
            UnlockStep::OwnedByOther => "Lock owned by another user. Use force to delete.",
            UnlockStep::Delete => "",
        }
    }
}

/// The ref a new lock is recorded with: none for an empty ref.
pub fn lock_ref_name(ref_name: &str) -> (r: Option<String>)
    ensures
        ref_name@.len() == 0 ==> r is None,
        ref_name@.len() > 0 ==> (r matches Some(s) && s@ == ref_name@),
{
    if ref_name.is_empty() {
        None
    } else {
        Some(ref_name.to_string())
    }
}

/// Nobody but its owner removes a lock without forcing it.
pub proof fn law_only_owner_unlocks_without_force(owner: i64, user_id: i64)
    requires
        owner != user_id,
    ensures
        spec_unlock_step(Some(owner), user_id, false) == UnlockStep::OwnedByOther,
        spec_unlock_step(Some(owner), user_id, true) == UnlockStep::Delete,
        spec_unlock_step(Some(owner), owner, false) == UnlockStep::Delete,
{
}

} // verus!

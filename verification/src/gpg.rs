//! Reading the colon-delimited key listing of `gpg --with-colons` into a
//! parsed public key, and classifying the status lines of `gpg --verify`.
use vstd::prelude::*;
use crate::error::AppError;
use crate::text::{chars_of, join3, owned, parse_integer, parse_in_range, split_char, split_on,
    string_of, first_index, find_char, has_char, contains_char, slice_chars, str_eq, has_prefix, starts_with};

verus! {

// ---------------------------------------------------------------------------
// Lines
// ---------------------------------------------------------------------------

/// A line with one trailing carriage return removed.
pub open spec fn strip_cr(l: Seq<char>) -> Seq<char> {
    if l.len() > 0 && l.last() == '\r' {
        l.drop_last()
    } else {
        l
    }
}

/// The lines of a text as `str::lines` gives them: cut at `\n`, a `\r`
/// just before a `\n` removed, no empty line after a final `\n`.
pub open spec fn lines_of(s: Seq<char>) -> Seq<Seq<char>> {
    let parts = split_char(s, '\n');
    let body = parts.drop_last().map_values(|p: Seq<char>| strip_cr(p));
    if parts.last().len() == 0 {
        body
    } else {
        body.push(parts.last())
    }
}

/// The views of a sequence of character vectors.
pub open spec fn vec_views(v: Seq<Vec<char>>) -> Seq<Seq<char>> {
    v.map_values(|x: Vec<char>| x@)
}

fn strip_cr_exec(l: &Vec<char>) -> (r: Vec<char>)
    ensures
        r@ == strip_cr(l@),
{
    if l.len() > 0 && l[l.len() - 1] == '\r' {
        let r = slice_chars(l, 0, l.len() - 1);
        assert(r@ =~= l@.drop_last());
        r
    } else {
        l.clone()
    }
}

/// The lines of a text (`str::lines`).
pub fn lines(s: &Vec<char>) -> (r: Vec<Vec<char>>)
    ensures
        vec_views(r@) == lines_of(s@),
{
    let parts = split_on(s, '\n');
    proof {
        crate::text::lemma_split_nonempty(s@, '\n');
    }
    let ghost sp = split_char(s@, '\n');
    let mut out: Vec<Vec<char>> = Vec::new();
    let mut i: usize = 0;
    while i < parts.len() - 1
        invariant
            parts@.len() == sp.len(),
            sp.len() >= 1,
            forall|k: int| 0 <= k < parts@.len() ==> #[trigger] parts@[k]@ == sp[k],
            i + 1 <= parts@.len(),
            out@.len() == i,
            vec_views(out@) == sp.drop_last().take(i as int).map_values(|p: Seq<char>| strip_cr(p)),
        decreases parts.len() - i,
    {
        let l = strip_cr_exec(&parts[i]);
        let ghost prev = vec_views(out@);
        let ghost prev_out = out@;
        out.push(l);
        proof {
            assert(sp.drop_last()[i as int] == sp[i as int]);
            assert(parts@[i as int]@ == sp[i as int]);
            let t = sp.drop_last().take(i + 1).map_values(|p: Seq<char>| strip_cr(p));
            assert(t.len() == i + 1);
            assert forall|k: int| 0 <= k < i + 1 implies vec_views(out@)[k] == t[k] by {
                if k < i {
                    assert(out@[k] == prev_out[k]);
                    assert(vec_views(out@)[k] == prev[k]);
                } else {
                    assert(out@[k] == l);
                }
            }
            assert(vec_views(out@) =~= t);
        }
        i = i + 1;
    }
    proof {
        assert(sp.drop_last().take(i as int) =~= sp.drop_last());
    }
    let last = &parts[parts.len() - 1];
    if last.len() > 0 {
        out.push(last.clone());
        proof {
            assert(vec_views(out@) =~= lines_of(s@));
        }
    }
    out
}

// ---------------------------------------------------------------------------
// Key model
// ---------------------------------------------------------------------------

/// A subkey of a parsed GPG key. Times are UNIX seconds.
pub struct ParsedGpgSubkey {
    pub key_id: String,
    pub fingerprint: String,
    pub algorithm: String,
    pub key_size: Option<i32>,
    pub created_at: Option<i64>,
    pub expires_at: Option<i64>,
    pub can_sign: bool,
    pub can_encrypt: bool,
}

/// A subkey as seen by the contracts.
pub struct SubkeyView {
    pub key_id: Seq<char>,
    pub fingerprint: Seq<char>,
    pub algorithm: Seq<char>,
    pub key_size: Option<i32>,
    pub created_at: Option<i64>,
    pub expires_at: Option<i64>,
    pub can_sign: bool,
    pub can_encrypt: bool,
}

impl View for ParsedGpgSubkey {
    type V = SubkeyView;

    open spec fn view(&self) -> SubkeyView {
        SubkeyView {
            key_id: self.key_id@,
            fingerprint: self.fingerprint@,
            algorithm: self.algorithm@,
            key_size: self.key_size,
            created_at: self.created_at,
            expires_at: self.expires_at,
            can_sign: self.can_sign,
            can_encrypt: self.can_encrypt,
        }
    }
}

/// A public key read from `gpg --with-colons --with-fingerprint`. Times are
/// UNIX seconds.
pub struct ParsedGpgKey {
    pub fingerprint: String,
    pub primary_key_id: String,
    pub algorithm: String,
    pub key_size: Option<i32>,
    pub created_at: Option<i64>,
    pub expires_at: Option<i64>,
    pub emails: Vec<String>,
    pub can_sign: bool,
    pub can_encrypt: bool,
    pub can_certify: bool,
    pub subkeys: Vec<ParsedGpgSubkey>,
}

/// The views of a sequence of subkeys.
pub open spec fn subkey_views(v: Seq<ParsedGpgSubkey>) -> Seq<SubkeyView> {
    v.map_values(|k: ParsedGpgSubkey| k@)
}

/// The views of a sequence of strings.
pub open spec fn string_views(v: Seq<String>) -> Seq<Seq<char>> {
    v.map_values(|s: String| s@)
}

/// The state of a scan through the listing.
pub struct ScanView {
    pub fingerprint: Seq<char>,
    pub primary_key_id: Seq<char>,
    pub algorithm: Seq<char>,
    pub key_size: Option<i32>,
    pub created_at: Option<i64>,
    pub expires_at: Option<i64>,
    pub emails: Seq<Seq<char>>,
    pub can_sign: bool,
    pub can_encrypt: bool,
    pub can_certify: bool,
    pub subkeys: Seq<SubkeyView>,
    pub current: Option<SubkeyView>,
    pub in_subkey: bool,
}

/// What chrono's `Utc.timestamp_opt(secs, 0)` answers: whether the number
/// of seconds is a representable UTC time.
pub uninterp spec fn utc_timestamp_exists(secs: i64) -> bool;

/// Asks chrono whether `secs` seconds since the UNIX epoch is a UTC time it
/// can represent (`TimeZone::timestamp_opt` on `Utc`, then `single`). The
/// contract names the answer; the range chrono accepts is left to chrono.
#[verifier::external_body]
fn utc_timestamp_ok(secs: i64) -> (r: bool)
    ensures
        r == utc_timestamp_exists(secs),
{
    chrono::TimeZone::timestamp_opt(&chrono::Utc, secs, 0).single().is_some()
}

/// The time a timestamp field gives: when it reads as a number, that number
/// if it is a representable time and nothing otherwise; when it does not
/// read as a number, the previous value.
pub open spec fn time_field(f: Seq<char>, prev: Option<i64>) -> Option<i64> {
    match parse_in_range(f, true, i64::MIN as int, i64::MAX as int) {
        Some(ts) => if utc_timestamp_exists(ts as i64) {
            Some(ts as i64)
        } else {
            None
        },
        None => prev,
    }
}

/// A key-size field read as an `i32`.
pub open spec fn size_field(f: Seq<char>) -> Option<i32> {
    match parse_in_range(f, true, i32::MIN as int, i32::MAX as int) {
        Some(v) => Some(v as i32),
        None => None,
    }
}

/// The name of a GPG public-key algorithm number.
pub open spec fn algorithm_name(code: Seq<char>) -> Seq<char> {
    if code == "1"@ || code == "2"@ || code == "3"@ {
        "RSA"@
    } else if code == "16"@ {
        "Elgamal"@
    } else if code == "17"@ {
        "DSA"@
    } else if code == "18"@ {
        "ECDH"@
    } else if code == "19"@ {
        "ECDSA"@
    } else if code == "22"@ {
        "EdDSA"@
    } else {
        "Unknown("@ + code + ")"@
    }
}

/// The capability letters include `c` in either case.
pub open spec fn has_cap(caps: Seq<char>, lower: char, upper: char) -> bool {
    has_char(caps, lower) || has_char(caps, upper)
}

/// A fresh subkey before its fields are read.
pub open spec fn empty_subkey() -> SubkeyView {
    SubkeyView {
        key_id: Seq::empty(),
        fingerprint: Seq::empty(),
        algorithm: Seq::empty(),
        key_size: None,
        created_at: None,
        expires_at: None,
        can_sign: false,
        can_encrypt: false,
    }
}

/// The subkey that a `sub` record with the given fields describes.
pub open spec fn subkey_of(fields: Seq<Seq<char>>) -> SubkeyView {
    if fields.len() > 11 {
        SubkeyView {
            key_id: fields[4],
            fingerprint: Seq::empty(),
            algorithm: algorithm_name(fields[3]),
            key_size: size_field(fields[2]),
            created_at: time_field(fields[5], None),
            expires_at: if fields[6].len() > 0 {
                time_field(fields[6], None)
            } else {
                None
            },
            can_sign: has_cap(fields[11], 's', 'S'),
            can_encrypt: has_cap(fields[11], 'e', 'E'),
        }
    } else {
        empty_subkey()
    }
}

/// The e-mail address inside the angle brackets of a user id, if both are
/// present.
pub open spec fn uid_email(uid: Seq<char>) -> Option<Seq<char>> {
    match (first_index(uid, '<'), first_index(uid, '>')) {
        (Some(a), Some(b)) => Some(uid.subrange(a + 1, b)),
        _ => None,
    }
}

/// The scan after one record (the fields of one line).
pub open spec fn scan_record(st: ScanView, fields: Seq<Seq<char>>) -> ScanView {
    let tag = fields[0];
    if tag == "pub"@ {
        let st2 = if fields.len() > 11 {
            ScanView {
                key_size: size_field(fields[2]),
                algorithm: algorithm_name(fields[3]),
                primary_key_id: fields[4],
                created_at: time_field(fields[5], st.created_at),
                expires_at: if fields[6].len() > 0 {
                    time_field(fields[6], st.expires_at)
                } else {
                    st.expires_at
                },
                can_sign: has_cap(fields[11], 's', 'S'),
                can_encrypt: has_cap(fields[11], 'e', 'E'),
                can_certify: has_cap(fields[11], 'c', 'C'),
                ..st
            }
        } else {
            st
        };
        ScanView { in_subkey: false, ..st2 }
    } else if tag == "fpr"@ {
        if fields.len() > 9 {
            if st.in_subkey {
                match st.current {
                    Some(sk) => ScanView {
                        current: Some(SubkeyView { fingerprint: fields[9], ..sk }),
                        ..st
                    },
                    None => st,
                }
            } else {
                ScanView { fingerprint: fields[9], ..st }
            }
        } else {
            st
        }
    } else if tag == "uid"@ {
        if fields.len() > 9 {
            match uid_email(fields[9]) {
                Some(e) => if st.emails.contains(e) {
                    st
                } else {
                    ScanView { emails: st.emails.push(e), ..st }
                },
                None => st,
            }
        } else {
            st
        }
    } else if tag == "sub"@ {
        let subkeys = match st.current {
            Some(sk) => st.subkeys.push(sk),
            None => st.subkeys,
        };
        ScanView { subkeys, current: Some(subkey_of(fields)), in_subkey: true, ..st }
    } else {
        st
    }
}

/// The scan after the given lines.
pub open spec fn scan_lines(st: ScanView, ls: Seq<Seq<char>>) -> ScanView
    decreases ls.len(),
{
    if ls.len() == 0 {
        st
    } else {
        scan_record(scan_lines(st, ls.drop_last()), split_char(ls.last(), ':'))
    }
}

/// The scan before any line.
pub open spec fn initial_scan() -> ScanView {
    ScanView {
        fingerprint: Seq::empty(),
        primary_key_id: Seq::empty(),
        algorithm: Seq::empty(),
        key_size: None,
        created_at: None,
        expires_at: None,
        emails: Seq::empty(),
        can_sign: false,
        can_encrypt: false,
        can_certify: false,
        subkeys: Seq::empty(),
        current: None,
        in_subkey: false,
    }
}

/// The scan of a whole listing, with the last open subkey closed.
pub open spec fn final_scan(output: Seq<char>) -> ScanView {
    let st = scan_lines(initial_scan(), lines_of(output));
    match st.current {
        Some(sk) => ScanView { subkeys: st.subkeys.push(sk), current: None, ..st },
        None => st,
    }
}

/// Every user id of the listing that holds both angle brackets has its first
/// `<` before its first `>` (otherwise taking the address out of it fails).
pub open spec fn uids_well_formed(output: Seq<char>) -> bool {
    forall|i: int|
        0 <= i < lines_of(output).len() ==> {
            let f = #[trigger] split_char(lines_of(output)[i], ':');
            (f[0] == "uid"@ && f.len() > 9) ==> match (first_index(f[9], '<'), first_index(f[9], '>')) {
                (Some(a), Some(b)) => a < b,
                _ => true,
            }
        }
}

/// A key as seen by the contracts, before the subkeys are closed.
pub open spec fn key_matches_scan(k: ParsedGpgKey, st: ScanView) -> bool {
    &&& k.fingerprint@ == st.fingerprint
    &&& k.primary_key_id@ == st.primary_key_id
    &&& k.algorithm@ == st.algorithm
    &&& k.key_size == st.key_size
    &&& k.created_at == st.created_at
    &&& k.expires_at == st.expires_at
    &&& string_views(k.emails@) == st.emails
    &&& k.can_sign == st.can_sign
    &&& k.can_encrypt == st.can_encrypt
    &&& k.can_certify == st.can_certify
    &&& subkey_views(k.subkeys@) == st.subkeys
}

// ---------------------------------------------------------------------------
// Executable scan
// ---------------------------------------------------------------------------

struct Scan {
    key: ParsedGpgKey,
    current: Option<ParsedGpgSubkey>,
    in_subkey: bool,
}

spec fn opt_subkey_view(o: Option<ParsedGpgSubkey>) -> Option<SubkeyView> {
    match o {
        Some(k) => Some(k@),
        None => None,
    }
}

spec fn scan_view_of(s: Scan) -> ScanView {
    ScanView {
        fingerprint: s.key.fingerprint@,
        primary_key_id: s.key.primary_key_id@,
        algorithm: s.key.algorithm@,
        key_size: s.key.key_size,
        created_at: s.key.created_at,
        expires_at: s.key.expires_at,
        emails: string_views(s.key.emails@),
        can_sign: s.key.can_sign,
        can_encrypt: s.key.can_encrypt,
        can_certify: s.key.can_certify,
        subkeys: subkey_views(s.key.subkeys@),
        current: opt_subkey_view(s.current),
        in_subkey: s.in_subkey,
    }
}

/// The human-readable name of a GPG algorithm number.
pub fn algorithm_from_code(code: &str) -> (r: String)
    ensures
        r@ == algorithm_name(code@),
{
    if str_eq(code, "1") || str_eq(code, "2") || str_eq(code, "3") {
        owned("RSA")
    } else if str_eq(code, "16") {
        owned("Elgamal")
    } else if str_eq(code, "17") {
        owned("DSA")
    } else if str_eq(code, "18") {
        owned("ECDH")
    } else if str_eq(code, "19") {
        owned("ECDSA")
    } else if str_eq(code, "22") {
        owned("EdDSA")
    } else {
        join3("Unknown(", code, ")")
    }
}

fn read_time(f: &Vec<char>, prev: Option<i64>) -> (r: Option<i64>)
    ensures
        r == time_field(f@, prev),
{
    match parse_integer(f, true, i64::MIN as i128, i64::MAX as i128) {
        Some(v) => {
            let ts = v as i64;
            if utc_timestamp_ok(ts) {
                Some(ts)
            } else {
                None
            }
        },
        None => prev,
    }
}

fn read_size(f: &Vec<char>) -> (r: Option<i32>)
    ensures
        r == size_field(f@),
{
    match parse_integer(f, true, i32::MIN as i128, i32::MAX as i128) {
        Some(v) => Some(v as i32),
        None => None,
    }
}

fn cap(caps: &Vec<char>, lower: char, upper: char) -> (r: bool)
    ensures
        r == has_cap(caps@, lower, upper),
{
    contains_char(caps, lower) || contains_char(caps, upper)
}

fn algorithm_of_field(f: &Vec<char>) -> (r: String)
    ensures
        r@ == algorithm_name(f@),
{
    let s = string_of(f);
    algorithm_from_code(s.as_str())
}

fn new_subkey(fields: &Vec<Vec<char>>) -> (r: ParsedGpgSubkey)
    requires
        fields@.len() >= 1,
    ensures
        r@ == subkey_of(vec_views(fields@)),
{
    let ghost fv = vec_views(fields@);
    if fields.len() > 11 {
        let expires_at = if fields[6].len() > 0 {
            read_time(&fields[6], None)
        } else {
            None
        };
        ParsedGpgSubkey {
            key_id: string_of(&fields[4]),
            fingerprint: String::new(),
            algorithm: algorithm_of_field(&fields[3]),
            key_size: read_size(&fields[2]),
            created_at: read_time(&fields[5], None),
            expires_at,
            can_sign: cap(&fields[11], 's', 'S'),
            can_encrypt: cap(&fields[11], 'e', 'E'),
        }
    } else {
        ParsedGpgSubkey {
            key_id: String::new(),
            fingerprint: String::new(),
            algorithm: String::new(),
            key_size: None,
            created_at: None,
            expires_at: None,
            can_sign: false,
            can_encrypt: false,
        }
    }
}

fn contains_string(v: &Vec<String>, s: &String) -> (r: bool)
    ensures
        r == string_views(v@).contains(s@),
{
    let mut i: usize = 0;
    while i < v.len()
        invariant
            i <= v.len(),
            forall|j: int| 0 <= j < i ==> v@[j]@ != s@,
        decreases v.len() - i,
    {
        if v[i] == *s {
            assert(string_views(v@)[i as int] == s@);
            return true;
        }
        i = i + 1;
    }
    proof {
        if string_views(v@).contains(s@) {
            let k = choose|k: int| 0 <= k < string_views(v@).len() && string_views(v@)[k] == s@;
            assert(v@[k]@ == s@);
        }
    }
    false
}

fn tag_is(f: &Vec<char>, tag: &str) -> (r: bool)
    ensures
        r == (f@ == tag@),
{
    let s = string_of(f);
    str_eq(s.as_str(), tag)
}

fn scan_record_exec(st: &mut Scan, fields: Vec<Vec<char>>)
    requires
        fields@.len() >= 1,
        vec_views(fields@)[0] == "uid"@ && fields@.len() > 9 ==> match (
            first_index(fields@[9]@, '<'),
            first_index(fields@[9]@, '>'),
        ) {
            (Some(a), Some(b)) => a < b,
            _ => true,
        },
    ensures
        scan_view_of(*final(st)) == scan_record(scan_view_of(*old(st)), vec_views(fields@)),
{
    let ghost fv = vec_views(fields@);
    let ghost before = scan_view_of(*st);
    assert(fv[0] == fields@[0]@);
    if tag_is(&fields[0], "pub") {
        if fields.len() > 11 {
            assert(fv[2] == fields@[2]@ && fv[3] == fields@[3]@ && fv[4] == fields@[4]@);
            assert(fv[5] == fields@[5]@ && fv[6] == fields@[6]@ && fv[11] == fields@[11]@);
            st.key.key_size = read_size(&fields[2]);
            st.key.algorithm = algorithm_of_field(&fields[3]);
            st.key.primary_key_id = string_of(&fields[4]);
            st.key.created_at = read_time(&fields[5], st.key.created_at);
            if fields[6].len() > 0 {
                st.key.expires_at = read_time(&fields[6], st.key.expires_at);
            }
            st.key.can_sign = cap(&fields[11], 's', 'S');
            st.key.can_encrypt = cap(&fields[11], 'e', 'E');
            st.key.can_certify = cap(&fields[11], 'c', 'C');
        }
        st.in_subkey = false;
    } else if tag_is(&fields[0], "fpr") {
        if fields.len() > 9 {
            assert(fv[9] == fields@[9]@);
            if st.in_subkey {
                match &mut st.current {
                    Some(sk) => {
                        sk.fingerprint = string_of(&fields[9]);
                    },
                    None => {},
                }
            } else {
                st.key.fingerprint = string_of(&fields[9]);
            }
        }
    } else if tag_is(&fields[0], "uid") {
        if fields.len() > 9 {
            assert(fv[9] == fields@[9]@);
            let uid = &fields[9];
            let start = find_char(uid, '<');
            let end = find_char(uid, '>');
            match (start, end) {
                (Some(a), Some(b)) => {
                    let email = string_of(&slice_chars(uid, a + 1, b));
                    if !contains_string(&st.key.emails, &email) {
                        st.key.emails.push(email);
                        proof {
                            assert(string_views(st.key.emails@) =~= before.emails.push(
                                uid@.subrange(a + 1, b as int),
                            ));
                        }
                    }
                },
                _ => {},
            }
        }
    } else if tag_is(&fields[0], "sub") {
        let prev = st.current.take();
        match prev {
            Some(sk) => {
                st.key.subkeys.push(sk);
                proof {
                    assert(subkey_views(st.key.subkeys@) =~= before.subkeys.push(before.current->0));
                }
            },
            None => {},
        }
        st.current = Some(new_subkey(&fields));
        st.in_subkey = true;
    }
}

/// Reads the key listing of `gpg --with-colons --with-fingerprint
/// --list-keys`: the primary key's algorithm, size, id, times and
/// capabilities from its `pub` record, its fingerprint from the `fpr` record
/// that follows, the e-mail addresses of the `uid` records (each once), and
/// each `sub` record as a subkey with the fingerprint that follows it. A
/// listing without a primary fingerprint is refused.
pub fn parse_gpg_colon_output(output: &str) -> (r: Result<ParsedGpgKey, AppError>)
    requires
        uids_well_formed(output@),
    ensures
        final_scan(output@).fingerprint.len() == 0 <==> r is Err,
        r matches Err(e) ==> e matches AppError::BadRequest(m) && m@ == "Could not extract fingerprint from GPG key"@,
        r matches Ok(k) ==> key_matches_scan(k, final_scan(output@)),
{
    let cs = chars_of(output);
    let ls = lines(&cs);
    let mut st = Scan {
        key: ParsedGpgKey {
            fingerprint: String::new(),
            primary_key_id: String::new(),
            algorithm: String::new(),
            key_size: None,
            created_at: None,
            expires_at: None,
            emails: Vec::new(),
            can_sign: false,
            can_encrypt: false,
            can_certify: false,
            subkeys: Vec::new(),
        },
        current: None,
        in_subkey: false,
    };
    proof {
        assert(string_views(st.key.emails@) =~= Seq::<Seq<char>>::empty());
        assert(subkey_views(st.key.subkeys@) =~= Seq::<SubkeyView>::empty());
        assert(scan_view_of(st) == initial_scan());
        assert(lines_of(output@).take(0) =~= Seq::<Seq<char>>::empty());
    }
    let ghost all = lines_of(output@);
    let mut i: usize = 0;
    while i < ls.len()
        invariant
            i <= ls@.len(),
            vec_views(ls@) == all,
            all == lines_of(output@),
            uids_well_formed(output@),
            scan_view_of(st) == scan_lines(initial_scan(), all.take(i as int)),
        decreases ls.len() - i,
    {
        let line = &ls[i];
        let fields = split_on(line, ':');
        proof {
            crate::text::lemma_split_nonempty(all[i as int], ':');
            assert(all[i as int] == ls@[i as int]@);
            let f = split_char(all[i as int], ':');
            assert(vec_views(fields@) =~= f);
            assert(all.take(i + 1).drop_last() =~= all.take(i as int));
            assert(all.take(i + 1).last() == all[i as int]);
            if f[0] == "uid"@ && f.len() > 9 {
                assert(fields@[9]@ == f[9]);
            }
        }
        scan_record_exec(&mut st, fields);
        i = i + 1;
    }
    proof {
        assert(all.take(ls@.len() as int) =~= all);
    }
    let ghost before_close = scan_view_of(st);
    match st.current.take() {
        Some(sk) => {
            st.key.subkeys.push(sk);
            proof {
                assert(subkey_views(st.key.subkeys@) =~= before_close.subkeys.push(before_close.current->0));
            }
        },
        None => {},
    }
    if st.key.fingerprint.as_str().is_empty() {
        return Err(AppError::BadRequest(owned("Could not extract fingerprint from GPG key")));
    }
    Ok(st.key)
}

// ---------------------------------------------------------------------------
// Signature verification status
// ---------------------------------------------------------------------------

/// `needle` occurs in `hay`.
pub open spec fn has_substring(hay: Seq<char>, needle: Seq<char>) -> bool {
    exists|i: int| 0 <= i && i + needle.len() <= hay.len() && #[trigger] hay.subrange(i, i + needle.len()) == needle
}

/// Whether `needle` occurs in `hay` (`str::contains`).
pub fn contains_chars(hay: &Vec<char>, needle: &Vec<char>) -> (r: bool)
    ensures
        r == has_substring(hay@, needle@),
{
    if needle.len() > hay.len() {
        return false;
    }
    let last = hay.len() - needle.len();
    let mut i: usize = 0;
    loop
        invariant
            needle.len() <= hay.len(),
            last == hay.len() - needle.len(),
            i <= last,
            forall|j: int| 0 <= j < i ==> #[trigger] hay@.subrange(j, j + needle@.len()) != needle@,
        decreases last - i,
    {
        if crate::text::matches_at(hay, i, needle) {
            assert(hay@.skip(i as int).take(needle@.len() as int) =~= hay@.subrange(i as int, i + needle@.len()));
            return true;
        }
        assert(hay@.skip(i as int).take(needle@.len() as int) =~= hay@.subrange(i as int, i + needle@.len()));
        if i == last {
            return false;
        }
        i = i + 1;
    }
}

/// A character with the Unicode `White_Space` property (`char::is_whitespace`).
pub open spec fn is_white_space(c: char) -> bool {
    ('\u{9}' <= c <= '\u{d}') || c == ' ' || c == '\u{85}' || c == '\u{a0}' || c == '\u{1680}'
        || ('\u{2000}' <= c <= '\u{200a}') || c == '\u{2028}' || c == '\u{2029}' || c == '\u{202f}'
        || c == '\u{205f}' || c == '\u{3000}'
}

/// Whether a character is white space in the Unicode sense.
pub fn white_space(c: char) -> (r: bool)
    ensures
        r == is_white_space(c),
{
    ('\u{9}' <= c && c <= '\u{d}') || c == ' ' || c == '\u{85}' || c == '\u{a0}' || c == '\u{1680}'
        || ('\u{2000}' <= c && c <= '\u{200a}') || c == '\u{2028}' || c == '\u{2029}'
        || c == '\u{202f}' || c == '\u{205f}' || c == '\u{3000}'
}

/// The words of a text, as `str::split_whitespace` gives them.
pub open spec fn words_of(s: Seq<char>) -> Seq<Seq<char>>
    decreases s.len(),
{
    if s.len() == 0 {
        Seq::empty()
    } else {
        let w = words_of(s.drop_last());
        let c = s.last();
        if is_white_space(c) {
            w
        } else if s.len() >= 2 && !is_white_space(s[s.len() - 2]) {
            w.update(w.len() - 1, w.last().push(c))
        } else {
            w.push(seq![c])
        }
    }
}

/// The words of a text (`str::split_whitespace`).
pub fn words(s: &Vec<char>) -> (r: Vec<Vec<char>>)
    ensures
        vec_views(r@) == words_of(s@),
{
    let mut out: Vec<Vec<char>> = Vec::new();
    let mut i: usize = 0;
    while i < s.len()
        invariant
            i <= s.len(),
            vec_views(out@) == words_of(s@.take(i as int)),
            i >= 1 && !is_white_space(s@[i - 1]) ==> out@.len() >= 1,
        decreases s.len() - i,
    {
        let c = s[i];
        let ghost prev = vec_views(out@);
        let ghost prev_out = out@;
        proof {
            assert(s@.take(i + 1).drop_last() =~= s@.take(i as int));
            assert(s@.take(i + 1).last() == c);
            if i >= 1 {
                assert(s@.take(i + 1)[i - 1] == s@[i - 1]);
            }
        }
        if white_space(c) {
        } else if i >= 1 && !white_space(s[i - 1]) {
            let last = out.len() - 1;
            let mut w = out.pop().unwrap();
            w.push(c);
            out.push(w);
            proof {
                let t = prev.update(prev.len() - 1, prev.last().push(c));
                assert forall|k: int| 0 <= k < t.len() implies vec_views(out@)[k] == t[k] by {
                    if k < last {
                        assert(out@[k] == prev_out[k]);
                    }
                }
                assert(vec_views(out@) =~= t);
            }
        } else {
            let mut w: Vec<char> = Vec::new();
            w.push(c);
            out.push(w);
            proof {
                let t = prev.push(seq![c]);
                assert forall|k: int| 0 <= k < t.len() implies vec_views(out@)[k] == t[k] by {
                    if k < prev.len() {
                        assert(out@[k] == prev_out[k]);
                    } else {
                        assert(out@[k]@ =~= seq![c]);
                    }
                }
                assert(vec_views(out@) =~= t);
            }
        }
        i = i + 1;
    }
    assert(s@.take(s.len() as int) =~= s@);
    out
}

/// What the status lines of `gpg --verify --status-fd 1` say of a signature.
pub struct SignatureScan {
    /// A `GOODSIG` line was seen.
    pub good_sig: bool,
    /// The signing key id: every `GOODSIG` line that has one sets it (so a
    /// later `GOODSIG` replaces what came before, a `VALIDSIG` id too); a
    /// `VALIDSIG` line that has one sets it only while none is set.
    pub key_id: Option<String>,
}

/// The scan state over status lines: good signature seen, key id.
pub open spec fn status_step(st: (bool, Option<Seq<char>>), line: Seq<char>) -> (bool, Option<Seq<char>>) {
    let parts = words_of(line);
    if has_substring(line, "[GNUPG:] GOODSIG"@) {
        (true, if parts.len() > 2 { Some(parts[2]) } else { st.1 })
    } else if has_substring(line, "[GNUPG:] VALIDSIG"@) {
        (st.0, if parts.len() > 2 && st.1 is None { Some(parts[2]) } else { st.1 })
    } else {
        st
    }
}

/// The scan over the given status lines.
pub open spec fn status_scan(ls: Seq<Seq<char>>) -> (bool, Option<Seq<char>>)
    decreases ls.len(),
{
    if ls.len() == 0 {
        (false, None)
    } else {
        status_step(status_scan(ls.drop_last()), ls.last())
    }
}

/// Reads the status output of a signature check: whether the signature is
/// good and the id of the key that made it.
pub fn scan_signature_status(stdout: &str) -> (r: SignatureScan)
    ensures
        r.good_sig == status_scan(lines_of(stdout@)).0,
        match r.key_id {
            Some(k) => status_scan(lines_of(stdout@)).1 == Some(k@),
            None => status_scan(lines_of(stdout@)).1 is None,
        },
{
    let cs = chars_of(stdout);
    let ls = lines(&cs);
    let good_pat = chars_of("[GNUPG:] GOODSIG");
    let valid_pat = chars_of("[GNUPG:] VALIDSIG");
    let ghost all = lines_of(stdout@);
    let mut good = false;
    let mut key_id: Option<String> = None;
    let mut i: usize = 0;
    assert(all.take(0) =~= Seq::<Seq<char>>::empty());
    while i < ls.len()
        invariant
            i <= ls@.len(),
            vec_views(ls@) == all,
            good_pat@ == "[GNUPG:] GOODSIG"@,
            valid_pat@ == "[GNUPG:] VALIDSIG"@,
            good == status_scan(all.take(i as int)).0,
            match key_id {
                Some(k) => status_scan(all.take(i as int)).1 == Some(k@),
                None => status_scan(all.take(i as int)).1 is None,
            },
        decreases ls.len() - i,
    {
        let line = &ls[i];
        proof {
            assert(all.take(i + 1).drop_last() =~= all.take(i as int));
            assert(all.take(i + 1).last() == all[i as int]);
            assert(all[i as int] == ls@[i as int]@);
        }
        if contains_chars(line, &good_pat) {
            good = true;
            let parts = words(line);
            if parts.len() > 2 {
                assert(vec_views(parts@)[2] == parts@[2]@);
                key_id = Some(string_of(&parts[2]));
            }
        } else if contains_chars(line, &valid_pat) {
            let parts = words(line);
            if parts.len() > 2 && key_id.is_none() {
                assert(vec_views(parts@)[2] == parts@[2]@);
                key_id = Some(string_of(&parts[2]));
            }
        }
        i = i + 1;
    }
    assert(all.take(ls@.len() as int) =~= all);
    SignatureScan { good_sig: good, key_id }
}

/// The status of a signature that is not good, from the whole status
/// output.
pub open spec fn spec_failed_signature_status(out: Seq<char>) -> Seq<char> {
    if has_substring(out, "NODATA"@) || has_substring(out, "NO_PUBKEY"@) {
        "unknown_key"@
    } else if has_substring(out, "BADSIG"@) {
        "bad_signature"@
    } else if has_substring(out, "EXPKEYSIG"@) {
        "expired_key"@
    } else if has_substring(out, "REVKEYSIG"@) {
        "revoked_key"@
    } else {
        "unknown_key"@
    }
}

/// Classifies a signature that is not good: unknown key, bad signature,
/// expired key or revoked key, by the words of the status output.
pub fn failed_signature_status(stdout: &str) -> (r: &'static str)
    ensures
        r@ == spec_failed_signature_status(stdout@),
{
    let cs = chars_of(stdout);
    if contains_chars(&cs, &chars_of("NODATA")) || contains_chars(&cs, &chars_of("NO_PUBKEY")) {
        "unknown_key"
    } else if contains_chars(&cs, &chars_of("BADSIG")) {
        "bad_signature"
    } else if contains_chars(&cs, &chars_of("EXPKEYSIG")) {
        "expired_key"
    } else if contains_chars(&cs, &chars_of("REVKEYSIG")) {
        "revoked_key"
    } else {
        "unknown_key"
    }
}

/// A character with ASCII letters mapped to lower case.
pub open spec fn ascii_lower(c: char) -> char {
    if 'A' <= c <= 'Z' {
        ((c as int) + 32) as char
    } else {
        c
    }
}

/// Two texts are equal when ASCII letters are compared without case
/// (`str::eq_ignore_ascii_case`).
pub open spec fn eq_ignore_ascii_case(a: Seq<char>, b: Seq<char>) -> bool {
    a.len() == b.len() && forall|i: int| 0 <= i < a.len() ==> ascii_lower(#[trigger] a[i]) == ascii_lower(b[i])
}

fn lower_char(c: char) -> (r: char)
    ensures
        r == ascii_lower(c),
{
    if 'A' <= c && c <= 'Z' {
        (((c as u32) + 32) as u8) as char
    } else {
        c
    }
}

/// Whether two strings are equal up to ASCII case.
pub fn equal_ignoring_ascii_case(a: &str, b: &str) -> (r: bool)
    ensures
        r == eq_ignore_ascii_case(a@, b@),
{
    let x = chars_of(a);
    let y = chars_of(b);
    if x.len() != y.len() {
        return false;
    }
    let mut i: usize = 0;
    while i < x.len()
        invariant
            x.len() == y.len(),
            x@ == a@,
            y@ == b@,
            i <= x.len(),
            forall|j: int| 0 <= j < i ==> ascii_lower(#[trigger] x@[j]) == ascii_lower(y@[j]),
        decreases x.len() - i,
    {
        if lower_char(x[i]) != lower_char(y[i]) {
            return false;
        }
        i = i + 1;
    }
    true
}

/// Some e-mail address of the key is the committer's, up to ASCII case.
pub open spec fn some_email_matches(emails: Seq<Seq<char>>, committer: Seq<char>) -> bool {
    exists|i: int| 0 <= i < emails.len() && eq_ignore_ascii_case(#[trigger] emails[i], committer)
}

/// Whether one of the key's e-mail addresses is the committer's.
pub fn email_matches(emails: &Vec<String>, committer: &str) -> (r: bool)
    ensures
        r == some_email_matches(string_views(emails@), committer@),
{
    let mut i: usize = 0;
    while i < emails.len()
        invariant
            i <= emails.len(),
            forall|j: int| 0 <= j < i ==> !eq_ignore_ascii_case(#[trigger] string_views(emails@)[j], committer@),
        decreases emails.len() - i,
    {
        if equal_ignoring_ascii_case(emails[i].as_str(), committer) {
            assert(string_views(emails@)[i as int] == emails@[i as int]@);
            return true;
        }
        assert(string_views(emails@)[i as int] == emails@[i as int]@);
        i = i + 1;
    }
    false
}

/// The verdict on a good signature made by a key of a known user: a revoked
/// or expired key fails; otherwise a matching e-mail is `verified` with a
/// verified key and `unverified` without, and another e-mail fails.
pub open spec fn spec_signer_verdict(revoked: bool, expired: bool, email_ok: bool, key_verified: bool) -> (
    bool,
    Seq<char>,
) {
    if revoked {
        (false, "revoked_key"@)
    } else if expired {
        (false, "expired_key"@)
    } else if email_ok && key_verified {
        (true, "verified"@)
    } else if email_ok {
        (true, "unverified"@)
    } else {
        (false, "bad_email"@)
    }
}

/// Judges a good signature by the state of the key that made it.
pub fn signer_verdict(revoked: bool, expired: bool, email_ok: bool, key_verified: bool) -> (r: (
    bool,
    &'static str,
))
    ensures
        (r.0, r.1@) == spec_signer_verdict(revoked, expired, email_ok, key_verified),
{
    if revoked {
        (false, "revoked_key")
    } else if expired {
        (false, "expired_key")
    } else if email_ok && key_verified {
        (true, "verified")
    } else if email_ok {
        (true, "unverified")
    } else {
        (false, "bad_email")
    }
}

// ---------------------------------------------------------------------------
// Adding a key
// ---------------------------------------------------------------------------

/// A text without its leading and trailing white space (`str::trim`).
pub open spec fn trimmed(s: Seq<char>) -> Seq<char>
    decreases s.len(),
{
    if s.len() > 0 && is_white_space(s[0]) {
        trimmed(s.drop_first())
    } else if s.len() > 0 && is_white_space(s.last()) {
        trimmed(s.drop_last())
    } else {
        s
    }
}

/// Removes leading and trailing white space.
pub fn trim_white_space(s: &str) -> (r: String)
    ensures
        r@ == trimmed(s@),
{
    let cs = chars_of(s);
    let mut start: usize = 0;
    assert(cs@.subrange(0, cs@.len() as int) =~= cs@);
    while start < cs.len() && white_space(cs[start])
        invariant
            start <= cs.len(),
            trimmed(cs@) == trimmed(cs@.subrange(start as int, cs@.len() as int)),
        decreases cs.len() - start,
    {
        assert(cs@.subrange(start as int, cs@.len() as int)[0] == cs@[start as int]);
        assert(cs@.subrange(start as int, cs@.len() as int).drop_first() =~= cs@.subrange(start + 1, cs@.len() as int));
        start = start + 1;
    }
    let mut end: usize = cs.len();
    while end > start && white_space(cs[end - 1])
        invariant
            start <= end <= cs.len(),
            trimmed(cs@) == trimmed(cs@.subrange(start as int, end as int)),
            start < end ==> !is_white_space(cs@[start as int]),
            start < cs.len() ==> !is_white_space(cs@[start as int]),
        decreases end - start,
    {
        let ghost cur = cs@.subrange(start as int, end as int);
        assert(cur[0] == cs@[start as int]);
        assert(cur.last() == cs@[end - 1]);
        assert(cur.drop_last() =~= cs@.subrange(start as int, end - 1));
        end = end - 1;
    }
    proof {
        let cur = cs@.subrange(start as int, end as int);
        if cur.len() > 0 {
            assert(cur[0] == cs@[start as int]);
            assert(cur.last() == cs@[end - 1]);
        }
    }
    string_of(&slice_chars(&cs, start, end))
}

/// The first line of an ASCII-armored public key.
pub open spec fn armor_header() -> Seq<char> {
    "-----BEGIN PGP PUBLIC KEY BLOCK-----"@
}

/// The key text as stored (trimmed), when it is an ASCII-armored public key;
/// anything else is a bad request.
pub fn armored_public_key(key: &str) -> (r: Result<String, AppError>)
    ensures
        has_prefix(trimmed(key@), armor_header()) ==> (r matches Ok(k) && k@ == trimmed(key@)),
        !has_prefix(trimmed(key@), armor_header()) ==> (r matches Err(AppError::BadRequest(m)) && m@
            == "Invalid GPG key format. Please provide an ASCII-armored public key."@),
{
    let t = trim_white_space(key);
    let tc = chars_of(t.as_str());
    let header = chars_of("-----BEGIN PGP PUBLIC KEY BLOCK-----");
    if starts_with(&tc, &header) {
        Ok(t)
    } else {
        Err(AppError::bad_request("Invalid GPG key format. Please provide an ASCII-armored public key."))
    }
}

/// A new key is verified when one of its e-mail addresses is one of the
/// user's, up to ASCII case.
pub open spec fn key_emails_verified(key_emails: Seq<Seq<char>>, user_emails: Seq<Seq<char>>) -> bool {
    exists|i: int| 0 <= i < key_emails.len() && some_email_matches(user_emails, #[trigger] key_emails[i])
}

/// Whether a new key is verified for its user.
pub fn key_verified_for_user(key_emails: &Vec<String>, user_emails: &Vec<String>) -> (r: bool)
    ensures
        r == key_emails_verified(string_views(key_emails@), string_views(user_emails@)),
{
    let mut i: usize = 0;
    while i < key_emails.len()
        invariant
            i <= key_emails.len(),
            forall|j: int| 0 <= j < i ==> !some_email_matches(string_views(user_emails@), #[trigger] string_views(key_emails@)[j]),
        decreases key_emails.len() - i,
    {
        assert(string_views(key_emails@)[i as int] == key_emails@[i as int]@);
        if email_matches(user_emails, key_emails[i].as_str()) {
            return true;
        }
        i = i + 1;
    }
    false
}

/// A key expired when its expiry is before now (both instants in
/// nanoseconds since the Unix epoch).
pub fn key_expired(expires_at: Option<i128>, now: i128) -> (r: bool)
    ensures
        r == (match expires_at {
            Some(e) => e < now,
            None => false,
        }),
{
    match expires_at {
        Some(e) => e < now,
        None => false,
    }
}

/// What was found for the key that made a good signature: its user, the
/// emails of the key, and whether it is revoked, verified and when it
/// expires (in nanoseconds since the Unix epoch).
pub struct SignerFacts {
    pub user_id: i64,
    pub username: String,
    pub emails: Vec<String>,
    pub revoked: bool,
    pub verified: bool,
    pub expires_at: Option<i128>,
}

/// The verdict on a commit signature: valid, status, signing key id, and
/// the signer's user id and name when the key is known.
pub struct SignatureVerdict {
    pub valid: bool,
    pub status: String,
    pub key_id: Option<String>,
    pub user_id: Option<i64>,
    pub username: Option<String>,
}

/// The verdict on a signature from gpg's status output, what was found for
/// its key (only looked for when the output names one), the committer's
/// email and the time (nanoseconds since the Unix epoch): a failed check
/// gives its reason; a good signature by a key nobody registered is valid
/// but unverified; by a registered key the key's state and emails decide.
pub open spec fn spec_signature_verdict(
    stdout: Seq<char>,
    signer: Option<(int, Seq<char>, Seq<Seq<char>>, bool, bool, Option<i128>)>,
    committer: Seq<char>,
    now: i128,
) -> (bool, Seq<char>, Option<Seq<char>>, Option<int>, Option<Seq<char>>) {
    let (good, kid) = status_scan(lines_of(stdout));
    if !good {
        (false, spec_failed_signature_status(stdout), kid, None, None)
    } else {
        match (kid, signer) {
            (Some(_), Some((uid, name, emails, revoked, verified, expires))) => {
                let expired = match expires {
                    Some(e) => e < now,
                    None => false,
                };
                let (valid, status) = spec_signer_verdict(revoked, expired, some_email_matches(emails, committer), verified);
                (valid, status, kid, Some(uid), Some(name))
            },
            _ => (true, "unverified"@, kid, None, None),
        }
    }
}

/// Decides a commit signature.
pub fn signature_verdict(stdout: &str, signer: Option<SignerFacts>, committer_email: &str, now: i128) -> (r:
    SignatureVerdict)
    ensures
        ({
            let v = spec_signature_verdict(
                stdout@,
                match signer {
                    Some(s) => Some((s.user_id as int, s.username@, string_views(s.emails@), s.revoked, s.verified, s.expires_at)),
                    None => None,
                },
                committer_email@,
                now,
            );
            &&& r.valid == v.0
            &&& r.status@ == v.1
            &&& (match r.key_id { Some(k) => v.2 == Some(k@), None => v.2 is None })
            &&& (match r.user_id { Some(u) => v.3 == Some(u as int), None => v.3 is None })
            &&& (match r.username { Some(n) => v.4 == Some(n@), None => v.4 is None })
        }),
{
    let scan = scan_signature_status(stdout);
    if !scan.good_sig {
        let status = failed_signature_status(stdout);
        return SignatureVerdict { valid: false, status: owned(status), key_id: scan.key_id, user_id: None, username: None };
    }
    if scan.key_id.is_some() {
        if let Some(s) = signer {
            let expired = key_expired(s.expires_at, now);
            let email_ok = email_matches(&s.emails, committer_email);
            let (valid, status) = signer_verdict(s.revoked, expired, email_ok, s.verified);
            return SignatureVerdict {
                valid,
                status: owned(status),
                key_id: scan.key_id,
                user_id: Some(s.user_id),
                username: Some(s.username),
            };
        }
    }
    SignatureVerdict { valid: true, status: owned("unverified"), key_id: scan.key_id, user_id: None, username: None }
}

/// A timestamp field that gpg filled in with a number of seconds that is a
/// representable time.
pub open spec fn timestamp_given(f: Seq<char>, secs: i64) -> bool {
    &&& f.len() > 0
    &&& parse_in_range(f, true, i64::MIN as int, i64::MAX as int) == Some(secs as int)
    &&& utc_timestamp_exists(secs)
}

/// A `sub` record opens a new subkey and closes the one before: the new
/// subkey has the record's key id (field 4), no fingerprint yet, its
/// creation time from field 5 and its expiry from field 6 when they are
/// given, no expiry when field 6 is empty, and the capabilities of field
/// 11; the subkeys read before are kept, with the one that was open added.
pub proof fn law_sub_record(st: ScanView, fields: Seq<Seq<char>>, created: i64, expires: i64)
    requires
        fields.len() > 11,
        fields[0] == "sub"@,
    ensures
        ({
            let next = scan_record(st, fields);
            &&& next.in_subkey
            &&& next.current is Some
            &&& next.current->0.key_id == fields[4]
            &&& next.current->0.fingerprint.len() == 0
            &&& (timestamp_given(fields[5], created) ==> next.current->0.created_at == Some(created))
            &&& (timestamp_given(fields[6], expires) ==> next.current->0.expires_at == Some(expires))
            &&& (fields[6].len() == 0 ==> next.current->0.expires_at is None)
            &&& next.current->0.can_sign == (has_char(fields[11], 's') || has_char(fields[11], 'S'))
            &&& next.current->0.can_encrypt == (has_char(fields[11], 'e') || has_char(fields[11], 'E'))
            &&& next.subkeys == (match st.current {
                Some(sk) => st.subkeys.push(sk),
                None => st.subkeys,
            })
            &&& next.primary_key_id == st.primary_key_id
            &&& next.created_at == st.created_at
            &&& next.expires_at == st.expires_at
        }),
{
    reveal_strlit("sub");
    reveal_strlit("pub");
    reveal_strlit("fpr");
    reveal_strlit("uid");
    assert("sub"@[0] != "pub"@[0]);
    assert("sub"@[0] != "fpr"@[0]);
    assert("sub"@[0] != "uid"@[0]);
}

/// A `pub` record describes the primary key: its key id (field 4), its
/// creation time from field 5 and its expiry from field 6 when they are
/// given, and the capabilities of field 11; what follows is no longer a
/// subkey, and the subkeys read so far are kept.
pub proof fn law_pub_record(st: ScanView, fields: Seq<Seq<char>>, created: i64, expires: i64)
    requires
        fields.len() > 11,
        fields[0] == "pub"@,
    ensures
        ({
            let next = scan_record(st, fields);
            &&& !next.in_subkey
            &&& next.primary_key_id == fields[4]
            &&& (timestamp_given(fields[5], created) ==> next.created_at == Some(created))
            &&& (timestamp_given(fields[6], expires) ==> next.expires_at == Some(expires))
            &&& (fields[6].len() == 0 ==> next.expires_at == st.expires_at)
            &&& next.can_sign == (has_char(fields[11], 's') || has_char(fields[11], 'S'))
            &&& next.can_encrypt == (has_char(fields[11], 'e') || has_char(fields[11], 'E'))
            &&& next.can_certify == (has_char(fields[11], 'c') || has_char(fields[11], 'C'))
            &&& next.subkeys == st.subkeys
            &&& next.current == st.current
        }),
{
}

/// The records of the lines of a listing.
pub open spec fn records_of(output: Seq<char>) -> Seq<Seq<Seq<char>>> {
    lines_of(output).map_values(|l: Seq<char>| split_char(l, ':'))
}

/// In a listing whose last subkey is described by a `sub` record followed
/// by nothing or by its `fpr` record, the parse's last subkey has the
/// record's key id, its creation time (field 5) and its expiry (field 6)
/// when they are given, and the fingerprint of the `fpr` record.
pub proof fn law_last_subkey(output: Seq<char>, with_fpr: bool, created: i64, expires: i64)
    requires
        ({
            let rs = records_of(output);
            let n = rs.len();
            let sub = if with_fpr { rs[n - 2] } else { rs[n - 1] };
            &&& n >= (if with_fpr { 2int } else { 1int })
            &&& sub.len() > 11
            &&& sub[0] == "sub"@
            &&& with_fpr ==> rs[n - 1].len() > 9 && rs[n - 1][0] == "fpr"@
        }),
    ensures
        ({
            let rs = records_of(output);
            let n = rs.len();
            let sub = if with_fpr { rs[n - 2] } else { rs[n - 1] };
            let last = final_scan(output).subkeys.last();
            &&& final_scan(output).subkeys.len() > 0
            &&& last.key_id == sub[4]
            &&& (timestamp_given(sub[5], created) ==> last.created_at == Some(created))
            &&& (timestamp_given(sub[6], expires) ==> last.expires_at == Some(expires))
            &&& (sub[6].len() == 0 ==> last.expires_at is None)
            &&& (with_fpr ==> last.fingerprint == rs[n - 1][9])
        }),
{
    let ls = lines_of(output);
    let n = ls.len() as int;
    assert(records_of(output).len() == n);
    if with_fpr {
        let before = scan_lines(initial_scan(), ls.drop_last().drop_last());
        let sub = split_char(ls[n - 2], ':');
        let fpr = split_char(ls[n - 1], ':');
        assert(records_of(output)[n - 2] == sub);
        assert(records_of(output)[n - 1] == fpr);
        assert(ls.drop_last().last() == ls[n - 2]);
        law_sub_record(before, sub, created, expires);
        let mid = scan_record(before, sub);
        assert(scan_lines(initial_scan(), ls.drop_last()) == mid);
        reveal_strlit("fpr");
        reveal_strlit("pub");
        reveal_strlit("sub");
        assert("fpr"@[0] != "pub"@[0]);
        assert(scan_lines(initial_scan(), ls) == scan_record(mid, fpr));
    } else {
        let before = scan_lines(initial_scan(), ls.drop_last());
        let sub = split_char(ls[n - 1], ':');
        assert(records_of(output)[n - 1] == sub);
        law_sub_record(before, sub, created, expires);
        assert(scan_lines(initial_scan(), ls) == scan_record(before, sub));
    }
}

/// An `fpr` record gives its fingerprint (field 9) to the open subkey when
/// it follows a `sub` record, and to the primary key otherwise; nothing
/// else changes.
pub proof fn law_fpr_record(st: ScanView, fields: Seq<Seq<char>>)
    requires
        fields.len() > 9,
        fields[0] == "fpr"@,
    ensures
        ({
            let next = scan_record(st, fields);
            &&& (st.in_subkey && st.current is Some) ==> next.current == Some(
                SubkeyView { fingerprint: fields[9], ..st.current->0 },
            ) && next.fingerprint == st.fingerprint
            &&& !st.in_subkey ==> next.fingerprint == fields[9] && next.current == st.current
            &&& next.subkeys == st.subkeys
            &&& next.primary_key_id == st.primary_key_id
            &&& next.emails == st.emails
        }),
{
    reveal_strlit("fpr");
    reveal_strlit("pub");
    assert("fpr"@[0] != "pub"@[0]);
}

/// A `uid` record adds the address between its first `<` and first `>`
/// (field 9) to the key's emails, once: an address already listed, or a
/// user id without both brackets, adds nothing.
pub proof fn law_uid_record(st: ScanView, fields: Seq<Seq<char>>, a: int, b: int)
    requires
        fields.len() > 9,
        fields[0] == "uid"@,
        first_index(fields[9], '<') == Some(a),
        first_index(fields[9], '>') == Some(b),
    ensures
        ({
            let next = scan_record(st, fields);
            let e = fields[9].subrange(a + 1, b);
            &&& st.emails.contains(e) ==> next.emails == st.emails
            &&& !st.emails.contains(e) ==> next.emails == st.emails.push(e)
            &&& next.subkeys == st.subkeys && next.current == st.current
            &&& next.fingerprint == st.fingerprint
        }),
{
    reveal_strlit("uid");
    reveal_strlit("pub");
    reveal_strlit("fpr");
    assert("uid"@[0] != "pub"@[0]);
    assert("uid"@[0] != "fpr"@[0]);
}

} // verus!

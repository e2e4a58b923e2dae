//! Random and parsed UUIDs, through the uuid crate, and their simple
//! writing: 32 lowercase hexadecimal digits.
use vstd::prelude::*;
use crate::text::{hex_of, u128_to_hex, zero_pad};

verus! {

/// Whether a UUID value is a random one: version 4 (bits 76..80 hold 4)
/// with the RFC 4122 variant (bits 62..64 hold `10`).
pub open spec fn is_v4(n: u128) -> bool {
    (n >> 76u128) & 0xf == 4 && (n >> 62u128) & 0x3 == 2
}

/// A new random (version 4) UUID from `uuid::Uuid::new_v4`, as its 128-bit
/// big-endian value: its version and variant bits are set, the other bits
/// are random.
#[verifier::external_body]
fn random_uuid_v4() -> (r: u128)
    ensures
        is_v4(r),
{
    uuid::Uuid::new_v4().as_u128()
}

/// What `uuid::Uuid::parse_str` reads from a text, as the 128-bit value of
/// the UUID; `None` when the text is no UUID.
pub uninterp spec fn uuid_parsed(text: Seq<char>) -> Option<u128>;

/// Reads a UUID in any of the forms the uuid crate accepts (simple,
/// hyphenated, URN, braced). The contract names the result; which texts
/// are UUIDs is left to the crate, except that the simple writing of a
/// value reads back as that value.
#[verifier::external_body]
fn parse_uuid_value(text: &str) -> (r: Option<u128>)
    ensures
        r == uuid_parsed(text@),
        r is Some || !(exists|n: u128| text@ == #[trigger] uuid_simple_text(n)),
        r matches Some(v) ==> (forall|n: u128| text@ == #[trigger] uuid_simple_text(n) ==> v == n),
{
    match uuid::Uuid::parse_str(text) {
        Ok(u) => Some(u.as_u128()),
        Err(_) => None,
    }
}

/// The simple writing of a UUID: its value in lowercase hexadecimal,
/// padded with zeros to 32 digits.
pub open spec fn uuid_simple_text(n: u128) -> Seq<char> {
    zero_pad(hex_of(n as nat), 32)
}

/// Writes a UUID in the simple form.
pub fn uuid_simple(n: u128) -> (r: String)
    ensures
        r@ == uuid_simple_text(n),
{
    let digits = u128_to_hex(n);
    let mut out = String::new();
    let mut k: usize = digits.len();
    proof {
        lemma_hex_of_short(n as nat);
    }
    while k < 32
        invariant
            digits@ == hex_of(n as nat),
            digits@.len() <= 32,
            digits@.len() <= k <= 32,
            out@ == Seq::new((k - digits@.len()) as nat, |i: int| '0'),
        decreases 32 - k,
    {
        crate::text::push_char(&mut out, '0');
        assert(out@ =~= Seq::new((k + 1 - digits@.len()) as nat, |i: int| '0'));
        k = k + 1;
    }
    let mut i: usize = 0;
    let ghost zeros = out@;
    while i < digits.len()
        invariant
            i <= digits.len(),
            out@ == zeros + digits@.take(i as int),
        decreases digits.len() - i,
    {
        crate::text::push_char(&mut out, digits[i]);
        assert(digits@.take(i + 1) =~= digits@.take(i as int).push(digits@[i as int]));
        i = i + 1;
    }
    assert(digits@.take(digits@.len() as int) =~= digits@);
    proof {
        if digits@.len() >= 32 {
            assert(zeros =~= Seq::<char>::empty());
        }
    }
    out
}

/// 16 to the power `k`.
spec fn pow16(k: nat) -> nat
    decreases k,
{
    if k == 0 {
        1
    } else {
        16 * pow16((k - 1) as nat)
    }
}

/// The hexadecimal writing of a number below 2^128 has at most 32 digits.
proof fn lemma_hex_of_short(n: nat)
    requires
        n <= u128::MAX,
    ensures
        hex_of(n).len() <= 32,
{
    reveal_with_fuel(pow16, 33);
    assert(pow16(32) == 0x1_0000_0000_0000_0000_0000_0000_0000_0000nat);
    lemma_hex_of_len(n, 32);
}

/// A number below 16^k is written with at most k hexadecimal digits.
proof fn lemma_hex_of_len(n: nat, k: nat)
    requires
        k >= 1,
        n < pow16(k),
    ensures
        hex_of(n).len() <= k,
    decreases k,
{
    if n >= 16 {
        if k == 1 {
            assert(pow16(1) == 16) by {
                reveal_with_fuel(pow16, 2);
            }
        } else {
            assert(n / 16 < pow16((k - 1) as nat)) by (nonlinear_arith)
                requires
                    n < 16 * pow16((k - 1) as nat),
            ;
            lemma_hex_of_len(n / 16, (k - 1) as nat);
        }
    }
}

/// A new random UUID in the simple form.
pub fn new_uuid_simple() -> (r: String)
    ensures
        exists|n: u128| is_v4(n) && r@ == #[trigger] uuid_simple_text(n),
{
    let n = random_uuid_v4();
    uuid_simple(n)
}

/// The value of a UUID written in a text, if it is one.
pub fn parse_uuid(text: &str) -> (r: Option<u128>)
    ensures
        r == uuid_parsed(text@),
        forall|n: u128| text@ == #[trigger] uuid_simple_text(n) ==> r == Some(n),
{
    parse_uuid_value(text)
}

} // verus!

//! The identifier codec.
//!
//! A task identity is a universally-unique 128-bit value. It encodes
//! to its canonical hyphenated textual form (five groups of lowercase
//! hexadecimal digits, 8-4-4-4-12, separated by hyphens), and decodes
//! from any form the standard identifier component accepts: simple,
//! hyphenated, braced, or URN-prefixed, in either hexadecimal case.

use vstd::prelude::*;
use vstd::arithmetic::power::pow;
use vstd::arithmetic::div_mod::lemma_div_denominator;
use vstd::arithmetic::div_mod::lemma_basic_div;
use crate::text::{is_hex_digit, hex_val, hex_digit_char, lemma_hex_digit_char_val};
use crate::model::TaskId;

verus! {

/// 16 raised to `k`.
pub open spec fn pow16(k: nat) -> int {
    pow(16, k)
}

/// The 32 hexadecimal digits of `v`, most significant first, lowercase.
pub open spec fn hex_digits(v: u128) -> Seq<char> {
    Seq::new(32, |i: int| hex_digit_char((v as int / pow16((31 - i) as nat)) % 16))
}

/// Value spelled by a big-endian sequence of hexadecimal digit characters.
pub open spec fn hex_val_of(s: Seq<char>) -> int
    decreases s.len(),
{
    if s.len() == 0 {
        0
    } else {
        hex_val_of(s.drop_last()) * 16 + hex_val(s.last())
    }
}

pub open spec fn all_hex(s: Seq<char>) -> bool {
    forall|i: int| 0 <= i < s.len() ==> is_hex_digit(#[trigger] s[i])
}

/// The canonical hyphenated textual form of `v`.
pub open spec fn spec_uuid_text(v: u128) -> Seq<char> {
    let h = hex_digits(v);
    h.subrange(0, 8) + seq!['-'] + h.subrange(8, 12) + seq!['-'] + h.subrange(12, 16) + seq!['-']
        + h.subrange(16, 20) + seq!['-'] + h.subrange(20, 32)
}

/// The 32 hexadecimal positions of a 36-character hyphenated form.
pub open spec fn strip_hyphens(s: Seq<char>) -> Seq<char> {
    s.subrange(0, 8) + s.subrange(9, 13) + s.subrange(14, 18) + s.subrange(19, 23) + s.subrange(
        24,
        36,
    )
}

/// Parse of the 36-character hyphenated layout: hyphens at positions
/// 8, 13, 18 and 23, hexadecimal digits everywhere else.
pub open spec fn spec_parse_hyphenated(s: Seq<char>) -> Option<u128> {
    if s[8] == '-' && s[13] == '-' && s[18] == '-' && s[23] == '-' && all_hex(strip_hyphens(s)) {
        Some(hex_val_of(strip_hyphens(s)) as u128)
    } else {
        None
    }
}

/// Case-insensitive match of the nine-character `urn:uuid:` prefix.
pub open spec fn is_urn_prefix(s: Seq<char>) -> bool {
    &&& (s[0] == 'u' || s[0] == 'U')
    &&& (s[1] == 'r' || s[1] == 'R')
    &&& (s[2] == 'n' || s[2] == 'N')
    &&& s[3] == ':'
    &&& (s[4] == 'u' || s[4] == 'U')
    &&& (s[5] == 'u' || s[5] == 'U')
    &&& (s[6] == 'i' || s[6] == 'I')
    &&& (s[7] == 'd' || s[7] == 'D')
    &&& s[8] == ':'
}

/// The identifier grammar: exactly the strings the identifier
/// component accepts, and the 128-bit value each one spells.
pub open spec fn spec_parse_uuid(s: Seq<char>) -> Option<u128> {
    if s.len() == 32 {
        if all_hex(s) {
            Some(hex_val_of(s) as u128)
        } else {
            None
        }
    } else if s.len() == 36 {
        spec_parse_hyphenated(s)
    } else if s.len() == 38 && s[0] == '{' && s[37] == '}' {
        spec_parse_hyphenated(s.subrange(1, 37))
    } else if s.len() == 45 && is_urn_prefix(s.subrange(0, 9)) {
        spec_parse_hyphenated(s.subrange(9, 45))
    } else {
        None
    }
}

/// The identifier named by `s`, if the identifier grammar accepts it.
pub open spec fn spec_parse_task_id(s: Seq<char>) -> Option<TaskId> {
    match spec_parse_uuid(s) {
        Some(v) => Some(TaskId(v)),
        None => None,
    }
}

/// Relies on `uuid::Uuid::parse_str` (read through `Uuid::as_u128`):
/// it accepts exactly the simple, hyphenated, braced and URN-prefixed
/// hexadecimal forms, and returns the big-endian 128-bit value that
/// the hexadecimal digits spell.
#[verifier::external_body]
pub(crate) fn uuid_parse(s: &str) -> (r: Option<u128>)
    ensures
        r == spec_parse_uuid(s@),
{
    match uuid::Uuid::parse_str(s) {
        Ok(u) => Some(u.as_u128()),
        Err(_) => None,
    }
}

/// Relies on `uuid::Uuid::hyphenated` (built with `Uuid::from_u128`):
/// it spells the 128-bit value as 32 lowercase hexadecimal digits,
/// most significant first, with hyphens after groups of 8, 4, 4 and 4.
#[verifier::external_body]
pub(crate) fn uuid_hyphenated(v: u128) -> (r: String)
    ensures
        r@ == spec_uuid_text(v),
{
    uuid::Uuid::from_u128(v).hyphenated().to_string()
}

/// Encodes an identity as its canonical hyphenated textual form.
pub fn encode_task_id(id: &TaskId) -> (r: String)
    ensures
        r@ == spec_uuid_text(id.0),
{
    uuid_hyphenated(id.0)
}

/// Decodes an identity, validating against the identifier grammar.
pub fn parse_task_id(s: &str) -> (r: Option<TaskId>)
    ensures
        r == spec_parse_task_id(s@),
{
    match uuid_parse(s) {
        Some(v) => Some(TaskId(v)),
        None => None,
    }
}

/// `pow16(32)` is one past the largest 128-bit value.
proof fn lemma_pow16_32()
    ensures
        pow16(0) == 1,
        pow16(32) == 0x100000000000000000000000000000000,
{
    reveal_with_fuel(vstd::arithmetic::power::pow, 33);
}

/// The value spelled by the first `k` hexadecimal digits of `v`.
proof fn lemma_hex_prefix_val(v: u128, k: int)
    requires
        0 <= k <= 32,
    ensures
        hex_val_of(hex_digits(v).subrange(0, k)) == v as int / pow16((32 - k) as nat),
    decreases k,
{
    let h = hex_digits(v);
    lemma_pow16_32();
    if k == 0 {
        assert(h.subrange(0, 0).len() == 0);
        lemma_basic_div(v as int, pow16(32));
    } else {
        lemma_hex_prefix_val(v, k - 1);
        let p = pow16((32 - k) as nat);
        let nib = (v as int / p) % 16;
        vstd::arithmetic::power::lemma_pow_positive(16, (32 - k) as nat);
        assert(h.subrange(0, k).drop_last() =~= h.subrange(0, k - 1));
        assert(h.subrange(0, k).last() == h[k - 1]);
        assert(h[k - 1] == hex_digit_char(nib));
        lemma_hex_digit_char_val(nib);
        assert(pow16((32 - (k - 1)) as nat) == 16 * p) by {
            vstd::arithmetic::power::lemma_pow_adds(16, 1nat, (32 - k) as nat);
            vstd::arithmetic::power::lemma_pow1(16);
        }
        lemma_div_denominator(v as int, p, 16);
        assert(hex_val_of(h.subrange(0, k)) == (v as int / (p * 16)) * 16 + (v as int / p) % 16);
        assert(v as int / p == ((v as int / p) / 16) * 16 + (v as int / p) % 16);
    }
}

/// The identifier codec round-trips: the grammar accepts the
/// canonical hyphenated form of any value and recovers that value.
pub proof fn lemma_uuid_round_trip(v: u128)
    ensures
        spec_parse_uuid(spec_uuid_text(v)) == Some(v),
{
    let h = hex_digits(v);
    let s = spec_uuid_text(v);
    assert(s.len() == 36);
    assert(s[8] == '-');
    assert(s[13] == '-');
    assert(s[18] == '-');
    assert(s[23] == '-');
    assert(strip_hyphens(s) =~= h);
    assert forall|i: int| 0 <= i < 32 implies is_hex_digit(#[trigger] h[i]) by {
        vstd::arithmetic::power::lemma_pow_positive(16, (31 - i) as nat);
        lemma_hex_digit_char_val((v as int / pow16((31 - i) as nat)) % 16);
    }
    lemma_hex_prefix_val(v, 32);
    assert(h.subrange(0, 32) =~= h);
    lemma_pow16_32();
    assert(hex_val_of(h) == v as int);
}

} // verus!

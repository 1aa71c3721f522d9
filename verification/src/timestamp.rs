//! The fixed compact timestamp codec.
//!
//! Timestamps travel as exactly 16 characters, `YYYYMMDDTHHMMSSZ`: a
//! four-digit year, two digits each for month, day, hour, minute and
//! second, the literal separator `T` and the literal trailing `Z`
//! (always UTC, no sub-second precision). Decoding is strict: any
//! deviation from this layout, or a calendar-invalid date, is rejected.

use vstd::prelude::*;
use crate::text::{is_digit, digit_val, digit_char, digit_of, digit_str, lemma_digit_char_val};

verus! {

/// A UTC instant, held as its calendar fields.
#[derive(Clone, Copy, Debug, PartialEq, Eq, Structural)]
pub struct Timestamp {
    pub year: u16,
    pub month: u8,
    pub day: u8,
    pub hour: u8,
    pub minute: u8,
    pub second: u8,
}

/// Leap years of the proleptic Gregorian calendar.
pub open spec fn leap_year(y: int) -> bool {
    y % 4 == 0 && (y % 100 != 0 || y % 400 == 0)
}

/// Number of days in a month of the proleptic Gregorian calendar.
pub open spec fn days_in_month(y: int, m: int) -> int {
    if m == 2 {
        if leap_year(y) {
            29
        } else {
            28
        }
    } else if m == 4 || m == 6 || m == 9 || m == 11 {
        30
    } else {
        31
    }
}

impl Timestamp {
    /// A calendar-valid instant that the 16-character layout can carry.
    pub open spec fn wf(self) -> bool {
        &&& self.year <= 9999
        &&& 1 <= self.month <= 12
        &&& 1 <= self.day <= days_in_month(self.year as int, self.month as int)
        &&& self.hour <= 23
        &&& self.minute <= 59
        &&& self.second <= 59
    }
}

/// The 16 characters that encode `t`.
pub open spec fn spec_fmt_timestamp(t: Timestamp) -> Seq<char> {
    let y = t.year as int;
    let mo = t.month as int;
    let d = t.day as int;
    let h = t.hour as int;
    let mi = t.minute as int;
    let s = t.second as int;
    seq![
        digit_char(y / 1000),
        digit_char((y / 100) % 10),
        digit_char((y / 10) % 10),
        digit_char(y % 10),
        digit_char(mo / 10),
        digit_char(mo % 10),
        digit_char(d / 10),
        digit_char(d % 10),
        'T',
        digit_char(h / 10),
        digit_char(h % 10),
        digit_char(mi / 10),
        digit_char(mi % 10),
        digit_char(s / 10),
        digit_char(s % 10),
        'Z',
    ]
}

/// The strict parse of the 16-character layout: `Some` exactly on
/// strings of that shape that name a calendar-valid instant.
pub open spec fn spec_parse_timestamp(s: Seq<char>) -> Option<Timestamp> {
    if s.len() == 16 && is_digit(s[0]) && is_digit(s[1]) && is_digit(s[2]) && is_digit(s[3])
        && is_digit(s[4]) && is_digit(s[5]) && is_digit(s[6]) && is_digit(s[7]) && s[8] == 'T'
        && is_digit(s[9]) && is_digit(s[10]) && is_digit(s[11]) && is_digit(s[12]) && is_digit(
        s[13],
    ) && is_digit(s[14]) && s[15] == 'Z' {
        let t = Timestamp {
            year: (digit_val(s[0]) * 1000 + digit_val(s[1]) * 100 + digit_val(s[2]) * 10
                + digit_val(s[3])) as u16,
            month: (digit_val(s[4]) * 10 + digit_val(s[5])) as u8,
            day: (digit_val(s[6]) * 10 + digit_val(s[7])) as u8,
            hour: (digit_val(s[9]) * 10 + digit_val(s[10])) as u8,
            minute: (digit_val(s[11]) * 10 + digit_val(s[12])) as u8,
            second: (digit_val(s[13]) * 10 + digit_val(s[14])) as u8,
        };
        if t.wf() {
            Some(t)
        } else {
            None
        }
    } else {
        None
    }
}

/// Number of days in the month, as executable code.
pub fn days_in_month_of(y: u16, m: u8) -> (r: u8)
    requires
        1 <= m <= 12,
    ensures
        r as int == days_in_month(y as int, m as int),
{
    if m == 2 {
        if y % 4 == 0 && (y % 100 != 0 || y % 400 == 0) {
            29
        } else {
            28
        }
    } else if m == 4 || m == 6 || m == 9 || m == 11 {
        30
    } else {
        31
    }
}

/// Appends the two-digit zero-padded form of `v`.
fn push_two_digits(out: &mut String, v: u8)
    requires
        v <= 99,
    ensures
        final(out)@ == old(out)@ + seq![digit_char(v as int / 10), digit_char(v as int % 10)],
{
    out.append(digit_str(v / 10));
    out.append(digit_str(v % 10));
    proof {
        assert(out@ =~= old(out)@ + seq![digit_char(v as int / 10), digit_char(v as int % 10)]);
    }
}

/// Encodes `t` in the fixed `YYYYMMDDTHHMMSSZ` layout.
pub fn encode_timestamp(t: &Timestamp) -> (r: String)
    requires
        t.wf(),
    ensures
        r@ == spec_fmt_timestamp(*t),
{
    let mut out = String::new();
    out.append(digit_str((t.year / 1000) as u8));
    out.append(digit_str(((t.year / 100) % 10) as u8));
    out.append(digit_str(((t.year / 10) % 10) as u8));
    out.append(digit_str((t.year % 10) as u8));
    push_two_digits(&mut out, t.month);
    push_two_digits(&mut out, t.day);
    out.append("T");
    push_two_digits(&mut out, t.hour);
    push_two_digits(&mut out, t.minute);
    push_two_digits(&mut out, t.second);
    out.append("Z");
    proof {
        reveal_strlit("T");
        reveal_strlit("Z");
        assert(out@ =~= spec_fmt_timestamp(*t));
    }
    out
}

/// The strict parse of the fixed layout; `None` on any deviation.
pub fn parse_timestamp(s: &str) -> (r: Option<Timestamp>)
    ensures
        r == spec_parse_timestamp(s@),
{
    if s.unicode_len() != 16 {
        return None;
    }
    if s.get_char(8) != 'T' || s.get_char(15) != 'Z' {
        return None;
    }
    let d0 = match digit_of(s.get_char(0)) {
        Some(d) => d,
        None => {
            return None;
        },
    };
    let d1 = match digit_of(s.get_char(1)) {
        Some(d) => d,
        None => {
            return None;
        },
    };
    let d2 = match digit_of(s.get_char(2)) {
        Some(d) => d,
        None => {
            return None;
        },
    };
    let d3 = match digit_of(s.get_char(3)) {
        Some(d) => d,
        None => {
            return None;
        },
    };
    let d4 = match digit_of(s.get_char(4)) {
        Some(d) => d,
        None => {
            return None;
        },
    };
    let d5 = match digit_of(s.get_char(5)) {
        Some(d) => d,
        None => {
            return None;
        },
    };
    let d6 = match digit_of(s.get_char(6)) {
        Some(d) => d,
        None => {
            return None;
        },
    };
    let d7 = match digit_of(s.get_char(7)) {
        Some(d) => d,
        None => {
            return None;
        },
    };
    let d9 = match digit_of(s.get_char(9)) {
        Some(d) => d,
        None => {
            return None;
        },
    };
    let d10 = match digit_of(s.get_char(10)) {
        Some(d) => d,
        None => {
            return None;
        },
    };
    let d11 = match digit_of(s.get_char(11)) {
        Some(d) => d,
        None => {
            return None;
        },
    };
    let d12 = match digit_of(s.get_char(12)) {
        Some(d) => d,
        None => {
            return None;
        },
    };
    let d13 = match digit_of(s.get_char(13)) {
        Some(d) => d,
        None => {
            return None;
        },
    };
    let d14 = match digit_of(s.get_char(14)) {
        Some(d) => d,
        None => {
            return None;
        },
    };
    let t = Timestamp {
        year: d0 as u16 * 1000 + d1 as u16 * 100 + d2 as u16 * 10 + d3 as u16,
        month: d4 * 10 + d5,
        day: d6 * 10 + d7,
        hour: d9 * 10 + d10,
        minute: d11 * 10 + d12,
        second: d13 * 10 + d14,
    };
    if t.month < 1 || t.month > 12 {
        return None;
    }
    if t.day < 1 || t.day > days_in_month_of(t.year, t.month) {
        return None;
    }
    if t.hour > 23 || t.minute > 59 || t.second > 59 {
        return None;
    }
    Some(t)
}

/// A four-digit value is recovered from its four digits.
proof fn lemma_four_digits(y: int)
    requires
        0 <= y <= 9999,
    ensures
        (y / 1000) * 1000 + ((y / 100) % 10) * 100 + ((y / 10) % 10) * 10 + y % 10 == y,
        0 <= y / 1000 <= 9,
        0 <= (y / 100) % 10 <= 9,
        0 <= (y / 10) % 10 <= 9,
        0 <= y % 10 <= 9,
{
    vstd::arithmetic::div_mod::lemma_div_denominator(y, 10, 10);
    vstd::arithmetic::div_mod::lemma_div_denominator(y, 100, 10);
    assert(y == (y / 10) * 10 + y % 10);
    assert(y / 10 == ((y / 10) / 10) * 10 + (y / 10) % 10);
    assert(y / 100 == ((y / 100) / 10) * 10 + (y / 100) % 10);
}

/// A two-digit value is recovered from its two digits.
proof fn lemma_two_digits(v: int)
    requires
        0 <= v <= 99,
    ensures
        (v / 10) * 10 + v % 10 == v,
        0 <= v / 10 <= 9,
        0 <= v % 10 <= 9,
{
}

/// The timestamp codec round-trips: the strict parse of the encoded
/// form of any calendar-valid instant yields that instant back.
pub proof fn lemma_timestamp_round_trip(t: Timestamp)
    requires
        t.wf(),
    ensures
        spec_parse_timestamp(spec_fmt_timestamp(t)) == Some(t),
{
    let s = spec_fmt_timestamp(t);
    let y = t.year as int;
    lemma_four_digits(y);
    lemma_two_digits(t.month as int);
    lemma_two_digits(t.day as int);
    lemma_two_digits(t.hour as int);
    lemma_two_digits(t.minute as int);
    lemma_two_digits(t.second as int);
    lemma_digit_char_val(y / 1000);
    lemma_digit_char_val((y / 100) % 10);
    lemma_digit_char_val((y / 10) % 10);
    lemma_digit_char_val(y % 10);
    lemma_digit_char_val(t.month as int / 10);
    lemma_digit_char_val(t.month as int % 10);
    lemma_digit_char_val(t.day as int / 10);
    lemma_digit_char_val(t.day as int % 10);
    lemma_digit_char_val(t.hour as int / 10);
    lemma_digit_char_val(t.hour as int % 10);
    lemma_digit_char_val(t.minute as int / 10);
    lemma_digit_char_val(t.minute as int % 10);
    lemma_digit_char_val(t.second as int / 10);
    lemma_digit_char_val(t.second as int % 10);
    assert(digit_val(s[0]) * 1000 + digit_val(s[1]) * 100 + digit_val(s[2]) * 10 + digit_val(s[3])
        == y);
    assert(spec_parse_timestamp(s) == Some(t));
}

} // verus!

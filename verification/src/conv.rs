//! Conversions between bytes, text and numbers that the standard library
//! performs, stated as the standard library documents them.

use vstd::prelude::*;
use vstd::utf8::{decode_utf8, valid_utf8};

verus! {

/// The value of one digit in the given radix (`0-9`, then `a-z` or `A-Z`).
pub open spec fn digit_value(c: char, radix: nat) -> Option<nat> {
    let d: int = if '0' <= c && c <= '9' {
        c as int - '0' as int
    } else if 'a' <= c && c <= 'z' {
        c as int - 'a' as int + 10
    } else if 'A' <= c && c <= 'Z' {
        c as int - 'A' as int + 10
    } else {
        99
    };
    if d < radix {
        Some(d as nat)
    } else {
        None
    }
}

/// The value of a non-empty run of digits, most significant first.
pub open spec fn digits_value(s: Seq<char>, radix: nat) -> Option<nat>
    decreases s.len(),
{
    if s.len() == 0 {
        Some(0)
    } else {
        match (digits_value(s.drop_last(), radix), digit_value(s.last(), radix)) {
            (Some(v), Some(d)) => Some(v * radix + d),
            _ => None,
        }
    }
}

/// An unsigned number as `from_str_radix` reads it: an optional `+`, then
/// at least one digit of the radix.
pub open spec fn unsigned_value(s: Seq<char>, radix: nat) -> Option<nat> {
    let digits = if s.len() > 0 && s[0] == '+' {
        s.drop_first()
    } else {
        s
    };
    if digits.len() == 0 {
        None
    } else {
        digits_value(digits, radix)
    }
}

/// `u32::from_str_radix(s, radix)`, successful results only.
pub open spec fn u32_in_radix(s: Seq<char>, radix: nat) -> Option<u32> {
    match unsigned_value(s, radix) {
        Some(v) => if v <= u32::MAX {
            Some(v as u32)
        } else {
            None
        },
        None => None,
    }
}

/// `s.parse::<usize>()`, successful results only.
pub open spec fn usize_of(s: Seq<char>) -> Option<usize> {
    match unsigned_value(s, 10) {
        Some(v) => if v <= usize::MAX {
            Some(v as usize)
        } else {
            None
        },
        None => None,
    }
}

/// `s.parse::<u64>()`, successful results only.
pub open spec fn u64_of(s: Seq<char>) -> Option<u64> {
    match unsigned_value(s, 10) {
        Some(v) => if v <= u64::MAX {
            Some(v as u64)
        } else {
            None
        },
        None => None,
    }
}

/// Whether `n` is a Unicode scalar value, as `char::from_u32` accepts.
pub open spec fn is_scalar_value(n: u32) -> bool {
    n < 0xD800 || (0xE000 <= n && n <= 0x10FFFF)
}

/// `u32::from_str_radix(s, radix)` for a radix in `2..=36`.
#[verifier::external_body]
pub fn parse_u32_radix(s: &str, radix: u32) -> (r: Option<u32>)
    requires
        2 <= radix <= 36,
    ensures
        r == u32_in_radix(s@, radix as nat),
{
    u32::from_str_radix(s, radix).ok()
}

/// `s.parse::<usize>()`.
#[verifier::external_body]
pub fn parse_usize(s: &str) -> (r: Option<usize>)
    ensures
        r == usize_of(s@),
{
    s.parse::<usize>().ok()
}

/// `s.parse::<u64>()`.
#[verifier::external_body]
pub fn parse_u64(s: &str) -> (r: Option<u64>)
    ensures
        r == u64_of(s@),
{
    s.parse::<u64>().ok()
}

/// `std::str::from_utf8`: the text that `bytes` encode, when they are
/// valid UTF-8.
#[verifier::external_body]
pub fn utf8_str(bytes: &[u8]) -> (r: Option<&str>)
    ensures
        r is Some <==> valid_utf8(bytes@),
        r matches Some(s) ==> s@ == decode_utf8(bytes@),
{
    std::str::from_utf8(bytes).ok()
}

/// `char::from_u32`: the character with scalar value `n`, if there is one.
#[verifier::external_body]
pub fn char_from_u32(n: u32) -> (r: Option<char>)
    ensures
        r is Some <==> is_scalar_value(n),
        r matches Some(c) ==> c == n as char && c as u32 == n,
{
    char::from_u32(n)
}

} // verus!

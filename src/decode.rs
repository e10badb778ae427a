//! Decoding of wire scalars: strings `0x` followed by hexadecimal digits,
//! each standing for one field element of the calling proof system.
use crate::json::JsonValue;
use vstd::prelude::*;
use vstd::string::*;
use vstd::utf8::*;

verus! {

/// The value of an ASCII hexadecimal digit, either case.
pub open spec fn hex_digit_value(b: u8) -> Option<nat> {
    if 0x30 <= b <= 0x39 {
        Some((b - 0x30) as nat)
    } else if 0x61 <= b <= 0x66 {
        Some((b - 0x61 + 10) as nat)
    } else if 0x41 <= b <= 0x46 {
        Some((b - 0x41 + 10) as nat)
    } else {
        None
    }
}

/// The number that the digits `d` spell in base 16; `None` if one is no digit.
pub open spec fn digits_value(d: Seq<u8>) -> Option<nat>
    decreases d.len(),
{
    if d.len() == 0 {
        Some(0)
    } else {
        match (digits_value(d.drop_last()), hex_digit_value(d.last())) {
            (Some(a), Some(x)) => Some(a * 16 + x),
            _ => None,
        }
    }
}

/// Digits that hold a byte which is no hexadecimal digit spell no number.
pub proof fn lemma_non_digit_spoils(d: Seq<u8>, j: int)
    requires
        0 <= j < d.len(),
        hex_digit_value(d[j]) is None,
    ensures
        digits_value(d) is None,
    decreases d.len(),
{
    if j < d.len() - 1 {
        lemma_non_digit_spoils(d.drop_last(), j);
    }
}

/// A base-16 number in text: one or more digits and nothing else.
pub open spec fn hex_number(t: Seq<u8>) -> Option<nat> {
    if t.len() == 0 {
        None
    } else {
        digits_value(t)
    }
}

/// The number after the first two bytes of `b`, if it is at most `max`; else 0.
pub open spec fn number_after_prefix(b: Seq<u8>, max: nat) -> nat {
    if b.len() >= 2 {
        match hex_number(b.skip(2)) {
            Some(v) => if v <= max { v } else { 0 },
            None => 0,
        }
    } else {
        0
    }
}

/// The byte that a wire scalar stands for: 0 when it is no string or no
/// number that fits.
pub open spec fn scalar_byte(v: JsonValue) -> u8 {
    match v {
        JsonValue::Str(s) => number_after_prefix(encode_utf8(s@), 0xff) as u8,
        _ => 0,
    }
}

/// The 64-bit integer that a wire scalar stands for, with 0 in place of a
/// value that is no string or no number that fits.
pub open spec fn scalar_u64(v: JsonValue) -> u64 {
    match v {
        JsonValue::Str(s) => number_after_prefix(encode_utf8(s@), 0xffff_ffff_ffff_ffff) as u64,
        _ => 0,
    }
}

/// Whether the text `b` begins with `0x`.
pub open spec fn has_hex_prefix(b: Seq<u8>) -> bool {
    b.len() >= 2 && b[0] == 0x30 && b[1] == 0x78
}

/// The character that a wire scalar stands for: the Unicode scalar value of
/// the number after `0x`, or the null character where there is none.
pub open spec fn scalar_char(v: JsonValue) -> char {
    match v {
        JsonValue::Str(s) => {
            let b = encode_utf8(s@);
            if has_hex_prefix(b) {
                match hex_number(b.skip(2)) {
                    Some(n) => if n <= 0xffff_ffff && is_scalar(n as u32) {
                        (n as u32) as char
                    } else {
                        '\0'
                    },
                    None => '\0',
                }
            } else {
                '\0'
            }
        },
        _ => '\0',
    }
}

/// The string that a sequence of wire scalars spells, one character each.
pub open spec fn scalars_text(items: Seq<JsonValue>) -> Seq<char> {
    items.map_values(|v: JsonValue| scalar_char(v))
}

/// Parses `b[start..]` as a base-16 number no larger than `max`.
fn parse_hex(b: &[u8], start: usize, max: u64) -> (r: Option<u64>)
    requires
        start <= b@.len(),
        max >= 15,
    ensures
        match hex_number(b@.skip(start as int)) {
            Some(v) => if v <= max {
                r == Some(v as u64)
            } else {
                r is None
            },
            None => r is None,
        },
{
    let n = b.len();
    if start == n {
        return None;
    }
    assert(b@.skip(start as int) =~= b@.subrange(start as int, n as int));
    let mut acc: u64 = 0;
    let mut bad = false;
    let mut over = false;
    let mut i: usize = start;
    assert(b@.subrange(start as int, start as int).len() == 0);
    while i < n
        invariant
            start <= i <= n,
            n == b@.len(),
            max >= 15,
            bad == (digits_value(b@.subrange(start as int, i as int)) is None),
            !bad && !over ==> digits_value(b@.subrange(start as int, i as int)) == Some(acc as nat)
                && acc <= max,
            !bad && over ==> digits_value(b@.subrange(start as int, i as int)).unwrap() > max,
        decreases n - i,
    {
        let c = b[i];
        let ghost prev = b@.subrange(start as int, i as int);
        let ghost next = b@.subrange(start as int, i + 1);
        assert(next.drop_last() =~= prev);
        assert(next.last() == c);
        let d: u64 = if 0x30 <= c && c <= 0x39 {
            (c - 0x30) as u64
        } else if 0x61 <= c && c <= 0x66 {
            (c - 0x61 + 10) as u64
        } else if 0x41 <= c && c <= 0x46 {
            (c - 0x41 + 10) as u64
        } else {
            bad = true;
            0
        };
        if !bad && !over {
            if acc > (max - d) / 16 {
                assert(acc * 16 + d > max) by (nonlinear_arith)
                    requires
                        acc > (max - d) / 16,
                        d <= 15,
                        max >= 15,
                ;
                over = true;
            } else {
                assert(acc * 16 + d <= max) by (nonlinear_arith)
                    requires
                        acc <= (max - d) / 16,
                        d <= 15,
                        max >= 15,
                ;
                acc = acc * 16 + d;
            }
        }
        i = i + 1;
    }
    assert(b@.subrange(start as int, n as int) =~= b@.subrange(start as int, i as int));
    if bad || over {
        None
    } else {
        Some(acc)
    }
}

/// Relies on char::from_u32: `Some` exactly for a Unicode scalar value, and
/// then the character with that code.
#[verifier::external_body]
fn char_from_u32(n: u32) -> (r: Option<char>)
    ensures
        r == if is_scalar(n) {
            Some(n as char)
        } else {
            None
        },
{
    char::from_u32(n)
}

/// Relies on String::push: appends one character.
#[verifier::external_body]
fn push_char(s: &mut String, c: char)
    ensures
        final(s)@ == old(s)@.push(c),
{
    s.push(c)
}

/// Decodes a wire scalar into a byte; 0 where it is malformed or too large.
pub fn hex_to_u8(hex_string: &JsonValue) -> (r: u8)
    ensures
        r == scalar_byte(*hex_string),
{
    match hex_string.as_str() {
        Some(s) => {
            let b = s.as_str().as_bytes();
            if b.len() < 2 {
                return 0;
            }
            match parse_hex(b, 2, 0xff) {
                Some(v) => v as u8,
                None => 0,
            }
        },
        None => 0,
    }
}

/// Decodes a wire scalar into a 64-bit integer; 0 where it is malformed or
/// too large.
pub fn hex_to_u64(hex_string: &JsonValue) -> (r: u64)
    ensures
        r == scalar_u64(*hex_string),
{
    match hex_string.as_str() {
        Some(s) => {
            let b = s.as_str().as_bytes();
            if b.len() < 2 {
                return 0;
            }
            match parse_hex(b, 2, 0xffff_ffff_ffff_ffff) {
                Some(v) => v,
                None => 0,
            }
        },
        None => 0,
    }
}

/// Decodes a wire scalar into a character; the null character where it does
/// not begin with `0x`, is malformed, or is no Unicode scalar value.
pub fn hex_to_char(hex_string: &JsonValue) -> (r: char)
    ensures
        r == scalar_char(*hex_string),
{
    match hex_string.as_str() {
        Some(s) => {
            let b = s.as_str().as_bytes();
            if b.len() < 2 || b[0] != 0x30 || b[1] != 0x78 {
                return '\0';
            }
            match parse_hex(b, 2, 0xffff_ffff) {
                Some(v) => match char_from_u32(v as u32) {
                    Some(c) => c,
                    None => '\0',
                },
                None => '\0',
            }
        },
        None => '\0',
    }
}

/// Decodes each wire scalar of `items` into a character, in order.
pub fn hex_to_string(items: &Vec<JsonValue>) -> (r: String)
    ensures
        r@ == scalars_text(items@),
{
    let mut out = String::new();
    let mut i: usize = 0;
    while i < items.len()
        invariant
            i <= items@.len(),
            out@ =~= scalars_text(items@.take(i as int)),
        decreases items@.len() - i,
    {
        let c = hex_to_char(&items[i]);
        push_char(&mut out, c);
        assert(items@.take(i + 1) =~= items@.take(i as int).push(items@[i as int]));
        i = i + 1;
    }
    assert(items@.take(i as int) =~= items@);
    out
}

/// Decodes each wire scalar of `items` into a byte, in order.
pub fn hex_to_bytes(items: &Vec<JsonValue>) -> (r: Vec<u8>)
    ensures
        r@ == items@.map_values(|v: JsonValue| scalar_byte(v)),
{
    let mut out: Vec<u8> = Vec::new();
    let mut i: usize = 0;
    while i < items.len()
        invariant
            i <= items@.len(),
            out@ =~= items@.take(i as int).map_values(|v: JsonValue| scalar_byte(v)),
        decreases items@.len() - i,
    {
        out.push(hex_to_u8(&items[i]));
        assert(items@.take(i + 1) =~= items@.take(i as int).push(items@[i as int]));
        i = i + 1;
    }
    assert(items@.take(i as int) =~= items@);
    out
}

/// Decodes each wire scalar of `items` into a 64-bit integer, in order.
pub fn hex_to_u64s(items: &Vec<JsonValue>) -> (r: Vec<u64>)
    ensures
        r@ == items@.map_values(|v: JsonValue| scalar_u64(v)),
{
    let mut out: Vec<u64> = Vec::new();
    let mut i: usize = 0;
    while i < items.len()
        invariant
            i <= items@.len(),
            out@ =~= items@.take(i as int).map_values(|v: JsonValue| scalar_u64(v)),
        decreases items@.len() - i,
    {
        out.push(hex_to_u64(&items[i]));
        assert(items@.take(i + 1) =~= items@.take(i as int).push(items@[i as int]));
        i = i + 1;
    }
    assert(items@.take(i as int) =~= items@);
    out
}

} // verus!

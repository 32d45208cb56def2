use vstd::prelude::*;

verus! {

/// The character that stands in for a code point that may not be output.
pub const CHAR_REPLACEMENT: char = '\u{FFFD}';

/// A non-fatal problem noticed while decoding a reference.
#[derive(Clone, Copy, Debug, PartialEq, Eq, Structural)]
pub enum ParseError {
    /// A numeric reference without digits, or without its closing `;`.
    MalformedNumeric,
    /// A numeric reference to zero, a surrogate, or beyond the last scalar value.
    InvalidCodepoint,
    /// A numeric reference to a control character or a noncharacter.
    DisallowedCodepoint,
}

pub open spec fn is_dec_digit(c: char) -> bool {
    '0' <= c && c <= '9'
}

pub open spec fn is_hex_digit(c: char) -> bool {
    is_dec_digit(c) || ('a' <= c && c <= 'f') || ('A' <= c && c <= 'F')
}

/// A digit of the radix chosen by `hex`.
pub open spec fn is_radix_digit(c: char, hex: bool) -> bool {
    if hex {
        is_hex_digit(c)
    } else {
        is_dec_digit(c)
    }
}

pub open spec fn radix(hex: bool) -> nat {
    if hex {
        16
    } else {
        10
    }
}

/// The value of one hexadecimal (or decimal) digit.
pub open spec fn digit_value(c: char) -> nat {
    if is_dec_digit(c) {
        (c as int - '0' as int) as nat
    } else if 'a' <= c && c <= 'f' {
        (c as int - 'a' as int + 10) as nat
    } else {
        (c as int - 'A' as int + 10) as nat
    }
}

/// The number that the digit string `s` writes in the radix chosen by `hex`.
pub open spec fn digits_value(s: Seq<char>, hex: bool) -> nat
    decreases s.len(),
{
    if s.len() == 0 {
        0
    } else {
        digits_value(s.drop_last(), hex) * radix(hex) + digit_value(s.last())
    }
}

/// The length of the run of digits at the start of `s`.
pub open spec fn digit_run(s: Seq<char>, hex: bool) -> nat
    decreases s.len(),
{
    if s.len() > 0 && is_radix_digit(s[0], hex) {
        1 + digit_run(s.drop_first(), hex)
    } else {
        0
    }
}

/// A value parsed as a `u32`: one that does not fit counts as zero.
pub open spec fn code_value(v: nat) -> nat {
    if v <= u32::MAX {
        v
    } else {
        0
    }
}

/// The code points that the legacy table corrects.
pub open spec fn is_legacy_remapped(n: nat) -> bool {
    0x80 <= n && n <= 0x9F
}

/// Where a legacy code point goes: its Windows-1252 meaning, or itself where
/// that code page leaves it undefined.
pub open spec fn legacy_char(n: nat) -> char {
    if n == 0x80 { '\u{20AC}' }
    else if n == 0x82 { '\u{201A}' }
    else if n == 0x83 { '\u{0192}' }
    else if n == 0x84 { '\u{201E}' }
    else if n == 0x85 { '\u{2026}' }
    else if n == 0x86 { '\u{2020}' }
    else if n == 0x87 { '\u{2021}' }
    else if n == 0x88 { '\u{02C6}' }
    else if n == 0x89 { '\u{2030}' }
    else if n == 0x8A { '\u{0160}' }
    else if n == 0x8B { '\u{2039}' }
    else if n == 0x8C { '\u{0152}' }
    else if n == 0x8E { '\u{017D}' }
    else if n == 0x91 { '\u{2018}' }
    else if n == 0x92 { '\u{2019}' }
    else if n == 0x93 { '\u{201C}' }
    else if n == 0x94 { '\u{201D}' }
    else if n == 0x95 { '\u{2022}' }
    else if n == 0x96 { '\u{2013}' }
    else if n == 0x97 { '\u{2014}' }
    else if n == 0x98 { '\u{02DC}' }
    else if n == 0x99 { '\u{2122}' }
    else if n == 0x9A { '\u{0161}' }
    else if n == 0x9B { '\u{203A}' }
    else if n == 0x9C { '\u{0153}' }
    else if n == 0x9E { '\u{017E}' }
    else if n == 0x9F { '\u{0178}' }
    else if n == 0x81 { '\u{0081}' }
    else if n == 0x8D { '\u{008D}' }
    else if n == 0x8F { '\u{008F}' }
    else if n == 0x90 { '\u{0090}' }
    else { '\u{009D}' }
}

pub open spec fn is_surrogate(n: nat) -> bool {
    0xD800 <= n && n <= 0xDFFF
}

/// Values that are replaced: zero, surrogates, and those past U+10FFFF.
pub open spec fn is_invalid_codepoint(n: nat) -> bool {
    n == 0 || is_surrogate(n) || n > 0x10FFFF
}

/// Control characters and noncharacters, which are dropped.
pub open spec fn is_disallowed_codepoint(n: nat) -> bool {
    (0x01 <= n && n <= 0x08) || n == 0x0B || (0x0E <= n && n <= 0x1F) || (0x7F <= n && n
        <= 0x9F) || (0xFDD0 <= n && n <= 0xFDEF) || (n <= 0x10FFFF && n % 0x10000 >= 0xFFFE)
}

/// The character whose scalar value is `n`.
pub open spec fn scalar_char(n: nat) -> char {
    (n as u32) as char
}

/// The text that a numeric reference to `n` decodes to.
pub open spec fn numeric_text(n: nat) -> Seq<char> {
    if is_legacy_remapped(n) {
        seq![legacy_char(n)]
    } else if is_invalid_codepoint(n) {
        seq![CHAR_REPLACEMENT]
    } else if is_disallowed_codepoint(n) {
        Seq::empty()
    } else {
        seq![scalar_char(n)]
    }
}

/// The problem reported for a numeric reference to `n`, if any.
pub open spec fn numeric_error(n: nat) -> Option<ParseError> {
    if is_legacy_remapped(n) {
        None
    } else if is_invalid_codepoint(n) {
        Some(ParseError::InvalidCodepoint)
    } else if is_disallowed_codepoint(n) {
        Some(ParseError::DisallowedCodepoint)
    } else {
        None
    }
}

/// Whether `c` is a digit of the radix chosen by `hex`.
pub fn is_digit_of(c: char, hex: bool) -> (r: bool)
    ensures
        r == is_radix_digit(c, hex),
{
    if hex {
        ('0' <= c && c <= '9') || ('a' <= c && c <= 'f') || ('A' <= c && c <= 'F')
    } else {
        '0' <= c && c <= '9'
    }
}

/// The value of the hexadecimal (or decimal) digit `c`.
pub fn digit_of(c: char) -> (r: u32)
    requires
        is_hex_digit(c),
    ensures
        r as nat == digit_value(c),
        r < 16,
{
    if '0' <= c && c <= '9' {
        (c as u32) - ('0' as u32)
    } else if 'a' <= c && c <= 'f' {
        (c as u32) - ('a' as u32) + 10
    } else {
        (c as u32) - ('A' as u32) + 10
    }
}

/// A run of `n` digits followed by a non-digit, or by the end, is what `digit_run` measures.
pub proof fn lemma_digit_run(s: Seq<char>, hex: bool, n: nat)
    requires
        n <= s.len(),
        forall|j: int| 0 <= j < n ==> is_radix_digit(#[trigger] s[j], hex),
        n == s.len() || !is_radix_digit(s[n as int], hex),
    ensures
        digit_run(s, hex) == n,
    decreases n,
{
    if n > 0 {
        let t = s.drop_first();
        assert forall|j: int| 0 <= j < (n - 1) as nat implies is_radix_digit(#[trigger] t[j], hex) by {
            assert(t[j] == s[j + 1]);
        }
        lemma_digit_run(t, hex, (n - 1) as nat);
    }
}

/// Relies on char::from_u32: `Some` exactly for Unicode scalar values, holding
/// the character with that value.
#[verifier::external_body]
fn char_from_u32(n: u32) -> (r: Option<char>)
    ensures
        r.is_some() == (n <= 0x10FFFF && !(0xD800 <= n && n <= 0xDFFF)),
        r matches Some(c) ==> c as u32 == n,
{
    char::from_u32(n)
}

/// Looks `n` up in the legacy table.
pub fn legacy_remap(n: u32) -> (r: Option<char>)
    ensures
        r == (if is_legacy_remapped(n as nat) {
            Some(legacy_char(n as nat))
        } else {
            None
        }),
{
    let c = match n {
        0x80 => '\u{20AC}',
        0x82 => '\u{201A}',
        0x83 => '\u{0192}',
        0x84 => '\u{201E}',
        0x85 => '\u{2026}',
        0x86 => '\u{2020}',
        0x87 => '\u{2021}',
        0x88 => '\u{02C6}',
        0x89 => '\u{2030}',
        0x8A => '\u{0160}',
        0x8B => '\u{2039}',
        0x8C => '\u{0152}',
        0x8E => '\u{017D}',
        0x91 => '\u{2018}',
        0x92 => '\u{2019}',
        0x93 => '\u{201C}',
        0x94 => '\u{201D}',
        0x95 => '\u{2022}',
        0x96 => '\u{2013}',
        0x97 => '\u{2014}',
        0x98 => '\u{02DC}',
        0x99 => '\u{2122}',
        0x9A => '\u{0161}',
        0x9B => '\u{203A}',
        0x9C => '\u{0153}',
        0x9E => '\u{017E}',
        0x9F => '\u{0178}',
        0x81 => '\u{0081}',
        0x8D => '\u{008D}',
        0x8F => '\u{008F}',
        0x90 => '\u{0090}',
        0x9D => '\u{009D}',
        _ => {
            return None;
        },
    };
    Some(c)
}

/// Whether `codepoint` is a control character or a noncharacter.
pub fn in_reserved_number_range(codepoint: u32) -> (r: bool)
    ensures
        r == is_disallowed_codepoint(codepoint as nat),
{
    (0x0001 <= codepoint && codepoint <= 0x0008) || codepoint == 0x000B || (0x000E <= codepoint
        && codepoint <= 0x001F) || (0x007F <= codepoint && codepoint <= 0x009F) || (0xFDD0
        <= codepoint && codepoint <= 0xFDEF) || (codepoint <= 0x10FFFF && codepoint % 0x10000
        >= 0xFFFE)
}

/// Decides what a numeric reference to `n` decodes to, and which problem it reports.
pub fn numeric_outcome(n: u32) -> (r: (Vec<char>, Option<ParseError>))
    ensures
        r.0@ == numeric_text(n as nat),
        r.1 == numeric_error(n as nat),
{
    if let Some(c) = legacy_remap(n) {
        return (vec![c], None);
    }
    if n == 0 || (0xD800 <= n && n <= 0xDFFF) || n > 0x10FFFF {
        return (vec![CHAR_REPLACEMENT], Some(ParseError::InvalidCodepoint));
    }
    if in_reserved_number_range(n) {
        return (Vec::new(), Some(ParseError::DisallowedCodepoint));
    }
    let c = match char_from_u32(n) {
        Some(c) => c,
        None => CHAR_REPLACEMENT,
    };
    proof {
        vstd::utf8::char_u32_cast(c, n);
    }
    assert(c == scalar_char(n as nat));
    let r = (vec![c], None);
    assert(r.0@ =~= numeric_text(n as nat));
    r
}

} // verus!

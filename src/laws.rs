use vstd::prelude::*;

use crate::named::{is_ascii_alphanumeric, lemma_names_alphanumeric, named_value};
use crate::numeric::{
    ParseError,
    code_value,
    digits_value,
    is_dec_digit,
    is_hex_digit,
    lemma_digit_run,
    numeric_error,
    numeric_text,
};
use crate::tokenizer::{
    DecodeOutcome,
    decode_reference,
    failure,
    is_name_terminator,
    lemma_terminator_index,
    longest_name_prefix,
};

verus! {

/// `longest_name_prefix(s, n)` is a name of the table when it is not zero, and
/// no longer prefix of `s` up to length `n` is one.
pub proof fn lemma_longest_name_prefix(s: Seq<char>, n: nat)
    requires
        n <= s.len(),
    ensures
        longest_name_prefix(s, n) <= n,
        longest_name_prefix(s, n) > 0 ==> named_value(s.take(longest_name_prefix(s, n) as int)).is_some(),
        forall|j: int|
            longest_name_prefix(s, n) < j <= n ==> named_value(#[trigger] s.take(j)).is_none(),
    decreases n,
{
    if n > 0 && named_value(s.take(n as int)).is_none() {
        lemma_longest_name_prefix(s, (n - 1) as nat);
    }
}

/// Whatever makes a decode fail, it consumes nothing: the cursor is left right
/// after the `&`.
pub proof fn lemma_failure_consumes_nothing(rest: Seq<char>, disallowed: Option<char>, in_attribute: bool)
    ensures
        decode_reference(rest, disallowed, in_attribute).text.is_none() ==> decode_reference(
            rest,
            disallowed,
            in_attribute,
        ).consumed == 0,
{
}

/// `#`, a string of decimal digits and `;` decode to the text for the digits'
/// value (after the legacy, invalid and disallowed cases), and take up all of it.
pub proof fn lemma_decimal_reference(
    digits: Seq<char>,
    after: Seq<char>,
    disallowed: Option<char>,
    in_attribute: bool,
)
    requires
        digits.len() > 0,
        forall|i: int| 0 <= i < digits.len() ==> is_dec_digit(#[trigger] digits[i]),
        disallowed != Some('#'),
    ensures
        decode_reference(seq!['#'] + digits + seq![';'] + after, disallowed, in_attribute) == (
        DecodeOutcome {
            text: Some(numeric_text(code_value(digits_value(digits, false)))),
            consumed: digits.len() + 2,
            error: numeric_error(code_value(digits_value(digits, false))),
        }),
{
    let rest = seq!['#'] + digits + seq![';'] + after;
    assert(rest[1] == digits[0]);
    let tail = rest.skip(1);
    assert(tail =~= digits + seq![';'] + after);
    assert(tail[digits.len() as int] == ';');
    assert forall|j: int| 0 <= j < digits.len() implies crate::numeric::is_radix_digit(
        #[trigger] tail[j],
        false,
    ) by {
        assert(tail[j] == digits[j]);
    }
    lemma_digit_run(tail, false, digits.len());
    assert(tail.take(digits.len() as int) =~= digits);
}

/// `#x` (or `#X`), a string of hexadecimal digits and `;` decode to the text
/// for the digits' value, and take up all of it.
pub proof fn lemma_hex_reference(
    marker: char,
    digits: Seq<char>,
    after: Seq<char>,
    disallowed: Option<char>,
    in_attribute: bool,
)
    requires
        marker == 'x' || marker == 'X',
        digits.len() > 0,
        forall|i: int| 0 <= i < digits.len() ==> is_hex_digit(#[trigger] digits[i]),
        disallowed != Some('#'),
    ensures
        decode_reference(seq!['#', marker] + digits + seq![';'] + after, disallowed, in_attribute)
            == (DecodeOutcome {
            text: Some(numeric_text(code_value(digits_value(digits, true)))),
            consumed: digits.len() + 3,
            error: numeric_error(code_value(digits_value(digits, true))),
        }),
{
    let rest = seq!['#', marker] + digits + seq![';'] + after;
    assert(rest[1] == marker);
    let tail = rest.skip(2);
    assert(tail =~= digits + seq![';'] + after);
    assert(tail[digits.len() as int] == ';');
    assert forall|j: int| 0 <= j < digits.len() implies crate::numeric::is_radix_digit(
        #[trigger] tail[j],
        true,
    ) by {
        assert(tail[j] == digits[j]);
    }
    lemma_digit_run(tail, true, digits.len());
    assert(tail.take(digits.len() as int) =~= digits);
}

/// `#;` holds no digits: the decode fails with a parse error and consumes nothing.
pub proof fn lemma_no_digits(after: Seq<char>, disallowed: Option<char>, in_attribute: bool)
    requires
        disallowed != Some('#'),
    ensures
        decode_reference(seq!['#', ';'] + after, disallowed, in_attribute) == failure(
            Some(ParseError::MalformedNumeric),
        ),
{
    let rest = seq!['#', ';'] + after;
    let tail = rest.skip(1);
    assert(tail[0] == ';');
    lemma_digit_run(tail, false, 0);
}

/// A name of the table followed by a terminator decodes to that name's text.
proof fn lemma_name_then_terminator(
    name: Seq<char>,
    t: char,
    after: Seq<char>,
    disallowed: Option<char>,
    in_attribute: bool,
)
    requires
        named_value(name).is_some(),
        is_name_terminator(t),
        disallowed != Some(name[0]),
    ensures
        decode_reference(name + seq![t] + after, disallowed, in_attribute) == (DecodeOutcome {
            text: Some(named_value(name).unwrap()),
            consumed: if t == ';' {
                name.len() + 1
            } else {
                name.len() as nat
            },
            error: None,
        }),
{
    lemma_names_alphanumeric(name);
    let rest = name + seq![t] + after;
    let k = name.len();
    assert(rest[0] == name[0]);
    assert(is_ascii_alphanumeric(name[0]));
    assert forall|j: int| 0 <= j < k implies !is_name_terminator(#[trigger] rest[j]) by {
        assert(rest[j] == name[j]);
        assert(is_ascii_alphanumeric(name[j]));
    }
    assert(rest[k as int] == t);
    lemma_terminator_index(rest, k);
    assert(rest.take(k as int) =~= name);
    assert(longest_name_prefix(rest, k) == k);
    assert(rest.subrange(k as int, k as int) =~= Seq::<char>::empty());
    assert(named_value(name).unwrap() + Seq::<char>::empty() =~= named_value(name).unwrap());
}

/// A name of the table followed by `;` decodes to that name's text and takes up
/// the `;` too.
pub proof fn lemma_name_then_semicolon(
    name: Seq<char>,
    after: Seq<char>,
    disallowed: Option<char>,
    in_attribute: bool,
)
    requires
        named_value(name).is_some(),
        disallowed != Some(name[0]),
    ensures
        decode_reference(name + seq![';'] + after, disallowed, in_attribute) == (DecodeOutcome {
            text: Some(named_value(name).unwrap()),
            consumed: name.len() + 1,
            error: None,
        }),
{
    lemma_name_then_terminator(name, ';', after, disallowed, in_attribute);
}

/// A name of the table followed by a space, `&` or `<` decodes to that name's
/// text and leaves the terminator unread.
pub proof fn lemma_name_then_other_terminator(
    name: Seq<char>,
    t: char,
    after: Seq<char>,
    disallowed: Option<char>,
    in_attribute: bool,
)
    requires
        named_value(name).is_some(),
        t == ' ' || t == '&' || t == '<',
        disallowed != Some(name[0]),
    ensures
        decode_reference(name + seq![t] + after, disallowed, in_attribute) == (DecodeOutcome {
            text: Some(named_value(name).unwrap()),
            consumed: name.len() as nat,
            error: None,
        }),
{
    lemma_name_then_terminator(name, t, after, disallowed, in_attribute);
}

/// A name of the table that the input ends right after, with no terminator,
/// fails to decode: the `&` and the name are then taken literally.
pub proof fn lemma_name_at_end_fails(name: Seq<char>, disallowed: Option<char>, in_attribute: bool)
    requires
        named_value(name).is_some(),
    ensures
        decode_reference(name, disallowed, in_attribute) == failure(None),
{
    lemma_names_alphanumeric(name);
    let k = name.len();
    assert(is_ascii_alphanumeric(name[0]));
    assert forall|j: int| 0 <= j < k implies !is_name_terminator(#[trigger] name[j]) by {
        assert(is_ascii_alphanumeric(name[j]));
    }
    lemma_terminator_index(name, k);
    assert(name.take(k as int) =~= name);
    assert(longest_name_prefix(name, k) == k);
}

/// Text that is not numeric and that no name of the table starts fails to
/// decode, reports nothing and consumes nothing.
pub proof fn lemma_unknown_reference(rest: Seq<char>, disallowed: Option<char>, in_attribute: bool)
    requires
        rest.len() > 0 ==> rest[0] != '#',
        forall|j: int| 0 < j <= rest.len() ==> named_value(#[trigger] rest.take(j)).is_none(),
    ensures
        decode_reference(rest, disallowed, in_attribute) == failure(None),
{
    if rest.len() > 0 {
        let k = crate::tokenizer::terminator_index(rest);
        lemma_terminator_index_bound(rest);
        lemma_longest_name_prefix(rest, k);
    }
}

/// `terminator_index` never passes the end.
proof fn lemma_terminator_index_bound(s: Seq<char>)
    ensures
        crate::tokenizer::terminator_index(s) <= s.len(),
    decreases s.len(),
{
    if s.len() > 0 && !is_name_terminator(s[0]) {
        lemma_terminator_index_bound(s.drop_first());
    }
}

/// Where a name of the table extends a shorter one, a reference spelling the
/// longer name decodes to the longer name's text, not to the shorter one's
/// followed by the remainder.
pub proof fn lemma_longest_match(
    short: Seq<char>,
    long: Seq<char>,
    after: Seq<char>,
    disallowed: Option<char>,
    in_attribute: bool,
)
    requires
        named_value(short).is_some(),
        named_value(long).is_some(),
        short.len() < long.len(),
        long.take(short.len() as int) == short,
        disallowed != Some(long[0]),
    ensures
        decode_reference(long + seq![';'] + after, disallowed, in_attribute).text == Some(
            named_value(long).unwrap(),
        ),
        decode_reference(long + seq![';'] + after, disallowed, in_attribute).consumed == long.len()
            + 1,
{
    lemma_name_then_semicolon(long, after, disallowed, in_attribute);
}

} // verus!

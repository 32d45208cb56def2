use vstd::prelude::*;

use crate::named::{
    MAX_NAME_LEN,
    is_alphanumeric,
    is_ascii_alphanumeric,
    lemma_names_alphanumeric,
    lookup_named,
    named_value,
};
use crate::numeric::{
    ParseError,
    code_value,
    digit_of,
    digit_run,
    digits_value,
    is_digit_of,
    is_radix_digit,
    lemma_digit_run,
    numeric_error,
    numeric_outcome,
    numeric_text,
    radix,
};

verus! {

/// What decoding one reference does, as a function of the text that follows its `&`.
pub struct DecodeOutcome {
    /// The decoded text; `None` when the `&` is to be taken literally.
    pub text: Option<Seq<char>>,
    /// How many characters after the `&` the reference takes up.
    pub consumed: nat,
    /// The problem reported, if any.
    pub error: Option<ParseError>,
}

/// A decode that fails: nothing is consumed and the `&` stands for itself.
pub open spec fn failure(error: Option<ParseError>) -> DecodeOutcome {
    DecodeOutcome { text: None, consumed: 0, error }
}

/// The problems that an outcome adds to the diagnostics.
pub open spec fn reported(error: Option<ParseError>) -> Seq<ParseError> {
    match error {
        Some(e) => seq![e],
        None => Seq::empty(),
    }
}

/// Characters after which an `&` cannot start a reference.
pub open spec fn is_blocked_start(c: char, disallowed: Option<char>) -> bool {
    c == '\t' || c == '\n' || c == '\x0C' || c == ' ' || c == '<' || c == '&' || disallowed
        == Some(c)
}

/// Characters that end the name of a named reference.
pub open spec fn is_name_terminator(c: char) -> bool {
    c == ';' || c == ' ' || c == '&' || c == '<'
}

/// The index of the first terminator in `s`, or its length when there is none.
pub open spec fn terminator_index(s: Seq<char>) -> nat
    decreases s.len(),
{
    if s.len() == 0 || is_name_terminator(s[0]) {
        0
    } else {
        1 + terminator_index(s.drop_first())
    }
}

/// The length of the longest prefix of `s`, no longer than `n`, that is a name
/// of the table; zero when there is none.
pub open spec fn longest_name_prefix(s: Seq<char>, n: nat) -> nat
    decreases n,
{
    if n == 0 {
        0
    } else if named_value(s.take(n as int)).is_some() {
        n
    } else {
        longest_name_prefix(s, (n - 1) as nat)
    }
}

pub open spec fn is_hex_marker(c: char) -> bool {
    c == 'x' || c == 'X'
}

/// A numeric reference: `rest` starts with `#`.
pub open spec fn decode_numeric(rest: Seq<char>) -> DecodeOutcome {
    let hex = rest.len() > 1 && is_hex_marker(rest[1]);
    let start: int = if hex {
        2
    } else {
        1
    };
    let digits = rest.skip(start);
    let n = digit_run(digits, hex);
    if n == 0 || n >= digits.len() || digits[n as int] != ';' {
        failure(Some(ParseError::MalformedNumeric))
    } else {
        let v = code_value(digits_value(digits.take(n as int), hex));
        DecodeOutcome {
            text: Some(numeric_text(v)),
            consumed: (start + n + 1) as nat,
            error: numeric_error(v),
        }
    }
}

/// A named reference: the longest name that starts `rest` before its first
/// terminator, followed by the rest of the text up to that terminator. A name
/// that the input ends right after, with neither a terminator nor more text, is
/// left as it stands, as is one inside an attribute that is followed by `=` or
/// a letter or digit.
pub open spec fn decode_named(rest: Seq<char>, in_attribute: bool) -> DecodeOutcome {
    let k = terminator_index(rest);
    let m = longest_name_prefix(rest, k);
    if m == 0 || (m == k && k == rest.len()) || (in_attribute && m < k && (rest[m as int] == '=' || is_ascii_alphanumeric(
        rest[m as int],
    ))) {
        failure(None)
    } else {
        DecodeOutcome {
            text: Some(named_value(rest.take(m as int)).unwrap() + rest.subrange(m as int, k as int)),
            consumed: if k < rest.len() && rest[k as int] == ';' {
                k + 1
            } else {
                k
            },
            error: None,
        }
    }
}

/// The reference that starts `rest`, the text right after an `&`.
pub open spec fn decode_reference(rest: Seq<char>, disallowed: Option<char>, in_attribute: bool) -> DecodeOutcome {
    if rest.len() == 0 || is_blocked_start(rest[0], disallowed) {
        failure(None)
    } else if rest[0] == '#' {
        decode_numeric(rest)
    } else {
        decode_named(rest, in_attribute)
    }
}

/// A run of `n` characters without a terminator, followed by a terminator or by
/// the end, is what `terminator_index` measures.
pub proof fn lemma_terminator_index(s: Seq<char>, n: nat)
    requires
        n <= s.len(),
        forall|j: int| 0 <= j < n ==> !is_name_terminator(#[trigger] s[j]),
        n == s.len() || is_name_terminator(s[n as int]),
    ensures
        terminator_index(s) == n,
    decreases n,
{
    if n > 0 {
        let t = s.drop_first();
        assert forall|j: int| 0 <= j < (n - 1) as nat implies !is_name_terminator(#[trigger] t[j]) by {
            assert(t[j] == s[j + 1]);
        }
        lemma_terminator_index(t, (n - 1) as nat);
    }
}

/// A cursor over the input text, with the buffer that receives decoded text and
/// the parse errors reported so far.
pub struct Tokenizer {
    input: Vec<char>,
    pos: usize,
    consumed: Vec<char>,
    errors: Vec<ParseError>,
}

/// A tokenizer as a value: the input, the cursor's index in it, the buffer's
/// contents and the parse errors reported so far.
pub struct TokenizerView {
    pub input: Seq<char>,
    pub pos: nat,
    pub consumed: Seq<char>,
    pub errors: Seq<ParseError>,
}

impl View for Tokenizer {
    type V = TokenizerView;

    closed spec fn view(&self) -> TokenizerView {
        TokenizerView {
            input: self.input@,
            pos: self.pos as nat,
            consumed: self.consumed@,
            errors: self.errors@,
        }
    }
}

/// Relies on String::push: appends one character.
#[verifier::external_body]
fn push_char(s: &mut String, c: char)
    ensures
        final(s)@ == old(s)@.push(c),
{
    s.push(c);
}

/// Appends the characters of `s` to `buf`.
fn append_str(buf: &mut Vec<char>, s: &str)
    ensures
        final(buf)@ == old(buf)@ + s@,
{
    let n = s.unicode_len();
    let mut i: usize = 0;
    while i < n
        invariant
            n == s@.len(),
            i <= n,
            buf@ == old(buf)@ + s@.take(i as int),
        decreases n - i,
    {
        buf.push(s.get_char(i));
        i += 1;
        assert(s@.take(i as int) =~= s@.take(i - 1).push(s@[i - 1]));
    }
    assert(s@.take(n as int) =~= s@);
}

impl Tokenizer {
    pub open spec fn wf(&self) -> bool {
        self@.pos <= self@.input.len()
    }

    /// The reference that starts at the cursor.
    pub open spec fn pending_reference(&self, disallowed: Option<char>, in_attribute: bool) -> DecodeOutcome {
        decode_reference(self@.input.skip(self@.pos as int), disallowed, in_attribute)
    }

    /// Decodes the character reference that follows an `&` which the cursor has
    /// just passed. On success the decoded text is returned and left in the
    /// buffer, and the cursor has moved past the reference; on failure `None` is
    /// returned, the buffer is empty and the cursor is back right after the `&`,
    /// which then stands for itself. `disallowed_terminator` is one more
    /// character that cannot start a reference; `as_attribute` marks a reference
    /// inside an attribute value.
    pub fn consume_character_reference(
        &mut self,
        disallowed_terminator: Option<char>,
        as_attribute: bool,
    ) -> (r: Option<String>)
        requires
            old(self).wf(),
        ensures
            final(self).wf(),
            final(self)@.input == old(self)@.input,
            ({
                let out = old(self).pending_reference(disallowed_terminator, as_attribute);
                &&& r.is_some() == out.text.is_some()
                &&& r matches Some(s) ==> s@ == out.text.unwrap()
                &&& final(self)@.pos == old(self)@.pos + out.consumed
                &&& final(self)@.errors == old(self)@.errors + reported(out.error)
                &&& final(self)@.consumed == (if out.text is Some {
                    out.text.unwrap()
                } else {
                    Seq::empty()
                })
            }),
    {
        self.consumed = Vec::new();
        if self.pos >= self.input.len() {
            assert(self@.errors =~= old(self)@.errors + reported(None));
            return None;
        }
        let c = self.input[self.pos];
        let blocked = match disallowed_terminator {
            Some(d) => d == c,
            None => false,
        };
        if c == '\t' || c == '\n' || c == '\x0C' || c == ' ' || c == '<' || c == '&' || blocked {
            assert(self@.errors =~= old(self)@.errors + reported(None));
            return None;
        }
        if c == '#' {
            if self.consume_number() {
                return Some(self.get_consumed_str());
            }
            return None;
        }
        if self.consume_anything_else(as_attribute) {
            assert(self@.errors =~= old(self)@.errors + reported(None));
            return Some(self.get_consumed_str());
        }
        assert(self@.errors =~= old(self)@.errors + reported(None));
        None
    }

    /// Decodes the numeric reference whose `#` is at the cursor. On success the
    /// cursor moves past its `;` and the buffer holds the decoded text; on failure
    /// the cursor stays put and a parse error is reported.
    fn consume_number(&mut self) -> (r: bool)
        requires
            old(self).wf(),
            old(self)@.pos < old(self)@.input.len(),
            old(self)@.input[old(self)@.pos as int] == '#',
            old(self)@.consumed.len() == 0,
        ensures
            final(self).wf(),
            final(self)@.input == old(self)@.input,
            ({
                let out = decode_numeric(old(self)@.input.skip(old(self)@.pos as int));
                &&& r == out.text.is_some()
                &&& final(self)@.pos == old(self)@.pos + out.consumed
                &&& final(self)@.errors == old(self)@.errors + reported(out.error)
                &&& final(self)@.consumed == (if r {
                    out.text.unwrap()
                } else {
                    Seq::empty()
                })
            }),
    {
        let ghost rest = self@.input.skip(self.pos as int);
        let start = self.pos;
        let len = self.input.len();
        let mut p: usize = start + 1;
        let mut hex = false;
        if p < len && (self.input[p] == 'x' || self.input[p] == 'X') {
            hex = true;
            p = p + 1;
        }
        let digits_start = p;
        let ghost digits = rest.skip(digits_start - start);
        assert(digits =~= self.input@.subrange(digits_start as int, len as int));
        let mut value: u32 = 0;
        let mut overflow = false;
        while p < len && is_digit_of(self.input[p], hex)
            invariant
                len == self.input@.len(),
                digits_start <= p <= len,
                digits =~= self.input@.subrange(digits_start as int, len as int),
                forall|j: int| 0 <= j < p - digits_start ==> is_radix_digit(#[trigger] digits[j], hex),
                overflow == (digits_value(digits.take(p - digits_start), hex) > u32::MAX),
                !overflow ==> value == digits_value(digits.take(p - digits_start), hex),
            decreases len - p,
        {
            let d = digit_of(self.input[p]);
            let ghost before = digits.take(p - digits_start);
            let ghost after = digits.take(p + 1 - digits_start);
            assert(after.drop_last() =~= before);
            assert(after.last() == self.input@[p as int]);
            let r: u64 = if hex { 16 } else { 10 };
            assert(r == radix(hex));
            if !overflow {
                let next: u64 = (value as u64) * r + (d as u64);
                if next > u32::MAX as u64 {
                    overflow = true;
                } else {
                    value = next as u32;
                }
            } else {
                let ghost old_value = digits_value(before, hex);
                assert(old_value * radix(hex) + d >= old_value) by (nonlinear_arith)
                    requires
                        radix(hex) >= 1,
                ;
            }
            p = p + 1;
        }
        let n = p - digits_start;
        proof {
            lemma_digit_run(digits, hex, n as nat);
        }
        if n == 0 || p >= len || self.input[p] != ';' {
            self.errors.push(ParseError::MalformedNumeric);
            return false;
        }
        let code = if overflow {
            0
        } else {
            value
        };
        let (text, error) = numeric_outcome(code);
        self.consumed = text;
        if let Some(e) = error {
            self.errors.push(e);
        }
        self.pos = p + 1;
        proof {
            assert(digits.take(n as int) =~= digits.take(p - digits_start));
        }
        true
    }

    /// Decodes the named reference that starts at the cursor: the longest name of
    /// the table before the first terminator wins, and what follows it up to the
    /// terminator is passed through. A `;` terminator is consumed, the others are
    /// not. A bare name at the end of the input fails. On failure the cursor
    /// stays put and the buffer stays empty.
    fn consume_anything_else(&mut self, as_attribute: bool) -> (r: bool)
        requires
            old(self).wf(),
            old(self)@.consumed.len() == 0,
        ensures
            final(self).wf(),
            final(self)@.input == old(self)@.input,
            final(self)@.errors == old(self)@.errors,
            ({
                let out = decode_named(old(self)@.input.skip(old(self)@.pos as int), as_attribute);
                &&& r == out.text.is_some()
                &&& final(self)@.pos == old(self)@.pos + out.consumed
                &&& final(self)@.consumed == (if r {
                    out.text.unwrap()
                } else {
                    Seq::empty()
                })
            }),
    {
        let ghost rest = self@.input.skip(self.pos as int);
        let start = self.pos;
        let len = self.input.len();
        let mut i: usize = 0;
        let mut best: usize = 0;
        let mut best_value: &'static str = "";
        while start + i < len && !(self.input[start + i] == ';' || self.input[start + i] == ' '
            || self.input[start + i] == '&' || self.input[start + i] == '<')
            invariant
                len == self.input@.len(),
                start <= len,
                start + i <= len,
                rest =~= self.input@.subrange(start as int, len as int),
                forall|j: int| 0 <= j < i ==> !is_name_terminator(#[trigger] rest[j]),
                best == longest_name_prefix(rest, i as nat),
                best <= i,
                best > 0 ==> best_value@ == named_value(rest.take(best as int)).unwrap(),
            decreases len - start - i,
        {
            i = i + 1;
            assert(rest.take(i as int) =~= self.input@.subrange(start as int, start + i));
            if i <= MAX_NAME_LEN {
                if let Some(v) = lookup_named(&self.input, start, i) {
                    best = i;
                    best_value = v;
                }
            } else {
                proof {
                    if named_value(rest.take(i as int)).is_some() {
                        lemma_names_alphanumeric(rest.take(i as int));
                    }
                }
            }
        }
        proof {
            lemma_terminator_index(rest, i as nat);
        }
        if best == 0 || (best == i && start + i == len) {
            return false;
        }
        if as_attribute && best < i && (self.input[start + best] == '='
            || is_alphanumeric(self.input[start + best])) {
            return false;
        }
        let mut text: Vec<char> = Vec::new();
        append_str(&mut text, best_value);
        let mut j: usize = best;
        while j < i
            invariant
                len == self.input@.len(),
                start + i <= len,
                best <= j <= i,
                rest =~= self.input@.subrange(start as int, len as int),
                text@ == best_value@ + rest.subrange(best as int, j as int),
            decreases i - j,
        {
            text.push(self.input[start + j]);
            j = j + 1;
            assert(rest.subrange(best as int, j as int) =~= rest.subrange(best as int, j - 1).push(
                rest[j - 1],
            ));
        }
        self.consumed = text;
        if start + i < len && self.input[start + i] == ';' {
            self.pos = start + i + 1;
        } else {
            self.pos = start + i;
        }
        true
    }

    /// A cursor at the start of `text`.
    pub fn new(text: &str) -> (r: Tokenizer)
        ensures
            r.wf(),
            r@.input == text@,
            r@.pos == 0,
            r@.consumed.len() == 0,
            r@.errors.len() == 0,
    {
        let mut input: Vec<char> = Vec::new();
        append_str(&mut input, text);
        Tokenizer { input, pos: 0, consumed: Vec::new(), errors: Vec::new() }
    }

    /// Reads the character at the cursor and moves past it.
    pub fn read_char(&mut self) -> (r: Option<char>)
        requires
            old(self).wf(),
        ensures
            final(self).wf(),
            final(self)@.input == old(self)@.input,
            final(self)@.consumed == old(self)@.consumed,
            final(self)@.errors == old(self)@.errors,
            old(self)@.pos < old(self)@.input.len() ==> r == Some(old(self)@.input[old(self)@.pos as int])
                && final(self)@.pos == old(self)@.pos + 1,
            old(self)@.pos == old(self)@.input.len() ==> r.is_none() && final(self)@.pos == old(self)@.pos,
    {
        if self.pos < self.input.len() {
            let c = self.input[self.pos];
            self.pos = self.pos + 1;
            Some(c)
        } else {
            None
        }
    }

    /// The number of characters read so far.
    pub fn position(&self) -> (r: usize)
        ensures
            r == self@.pos,
    {
        self.pos
    }

    /// The parse errors reported so far, oldest first.
    pub fn errors(&self) -> (r: &Vec<ParseError>)
        ensures
            r@ == self@.errors,
    {
        &self.errors
    }

    /// The text that the last decode left in the buffer.
    pub fn get_consumed_str(&self) -> (r: String)
        ensures
            r@ == self@.consumed,
    {
        let mut s = String::new();
        let mut i: usize = 0;
        while i < self.consumed.len()
            invariant
                i <= self.consumed@.len(),
                s@ == self.consumed@.take(i as int),
            decreases self.consumed@.len() - i,
        {
            push_char(&mut s, self.consumed[i]);
            i += 1;
            assert(self.consumed@.take(i as int) =~= self.consumed@.take(i - 1).push(
                self.consumed@[i - 1],
            ));
        }
        assert(self.consumed@.take(i as int) =~= self.consumed@);
        s
    }
}

} // verus!

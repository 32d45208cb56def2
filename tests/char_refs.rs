use charref::numeric::ParseError;
use charref::tokenizer::Tokenizer;

struct Decoded {
    text: Option<String>,
    position: usize,
    errors: Vec<ParseError>,
    buffer: String,
}

fn decode_with(input: &str, disallowed: Option<char>, as_attribute: bool) -> Decoded {
    let mut t = Tokenizer::new(input);
    assert_eq!(t.read_char(), Some('&'));
    let text = t.consume_character_reference(disallowed, as_attribute);
    Decoded {
        text,
        position: t.position(),
        errors: t.errors().clone(),
        buffer: t.get_consumed_str(),
    }
}

fn decode(input: &str) -> Decoded {
    decode_with(input, None, false)
}

fn assert_literal(d: &Decoded) {
    assert_eq!(d.text, None);
    assert_eq!(d.position, 1);
    assert_eq!(d.buffer, "");
}

#[test]
fn decimal_line_feed() {
    let d = decode("&#10;");
    assert_eq!(d.text.as_deref(), Some("\n"));
    assert_eq!(d.position, 5);
    assert!(d.errors.is_empty());
    assert_eq!(d.buffer, "\n");
}

#[test]
fn hex_beef() {
    let d = decode("&#xbeef;");
    assert_eq!(d.text.as_deref(), Some("\u{BEEF}"));
    assert_eq!(d.position, 8);
    assert!(d.errors.is_empty());
}

#[test]
fn hex_upper_marker() {
    let d = decode("&#XA9;");
    assert_eq!(d.text.as_deref(), Some("\u{A9}"));
}

#[test]
fn hex_zero_is_replaced() {
    let d = decode("&#x0;");
    assert_eq!(d.text.as_deref(), Some("\u{FFFD}"));
    assert_eq!(d.errors, vec![ParseError::InvalidCodepoint]);
}

#[test]
fn decimal_zero_is_replaced() {
    let d = decode("&#0;");
    assert_eq!(d.text.as_deref(), Some("\u{FFFD}"));
    assert_eq!(d.errors, vec![ParseError::InvalidCodepoint]);
}

#[test]
fn named_copy() {
    let d = decode("&copy;");
    assert_eq!(d.text.as_deref(), Some("\u{A9}"));
    assert_eq!(d.position, 6);
    assert!(d.errors.is_empty());
}

#[test]
fn named_notin_is_longest_match() {
    let d = decode("&notin;");
    assert_eq!(d.text.as_deref(), Some("\u{2208}"));
    assert_eq!(d.position, 7);
}

#[test]
fn named_not_followed_by_tail() {
    let d = decode("&notit;");
    assert_eq!(d.text.as_deref(), Some("\u{AC}it"));
    assert_eq!(d.position, 7);
}

#[test]
fn named_copysr_is_longest_match() {
    let d = decode("&copysr;");
    assert_eq!(d.text.as_deref(), Some("\u{2117}"));
}

#[test]
fn named_at_end_of_input_keeps_tail() {
    let d = decode("&copya");
    assert_eq!(d.text.as_deref(), Some("\u{A9}a"));
    assert_eq!(d.position, 6);
}

#[test]
fn named_at_end_of_input_is_literal() {
    let d = decode("&copy");
    assert_literal(&d);
    assert!(d.errors.is_empty());
}

#[test]
fn named_then_semicolon_then_end() {
    let d = decode("&not;");
    assert_eq!(d.text.as_deref(), Some("\u{AC}"));
    assert_eq!(d.position, 5);
}

#[test]
fn named_then_space_leaves_space() {
    let d = decode("&copy rest");
    assert_eq!(d.text.as_deref(), Some("\u{A9}"));
    assert_eq!(d.position, 5);
}

#[test]
fn named_then_ampersand_leaves_it() {
    let d = decode("&copy&");
    assert_eq!(d.text.as_deref(), Some("\u{A9}"));
    assert_eq!(d.position, 5);
}

#[test]
fn named_with_tail_then_semicolon() {
    let d = decode("&copyThing;");
    assert_eq!(d.text.as_deref(), Some("\u{A9}Thing"));
    assert_eq!(d.position, 11);
}

#[test]
fn named_with_tail_then_space() {
    let d = decode("&copya b");
    assert_eq!(d.text.as_deref(), Some("\u{A9}a"));
    assert_eq!(d.position, 6);
}

#[test]
fn named_two_scalars() {
    let d = decode("&ThickSpace;");
    assert_eq!(d.text.as_deref(), Some("\u{205F}\u{200A}"));
}

#[test]
fn named_upper_case_name() {
    let d = decode("&COPY;");
    assert_eq!(d.text.as_deref(), Some("\u{A9}"));
}

#[test]
fn named_common_entities() {
    let cases = [
        ("&lt;", "<"),
        ("&gt;", ">"),
        ("&amp;", "&"),
        ("&quot;", "\""),
        ("&apos;", "'"),
        ("&raquo;", "\u{BB}"),
        ("&laquo;", "\u{AB}"),
        ("&euro;", "\u{20AC}"),
        ("&reg;", "\u{AE}"),
        ("&not;", "\u{AC}"),
        ("&semi;", ";"),
        ("&commat;", "@"),
    ];
    for (input, expected) in cases {
        let d = decode(input);
        assert_eq!(d.text.as_deref(), Some(expected), "{}", input);
        assert_eq!(d.position, input.chars().count());
    }
}

#[test]
fn named_letters_and_symbols() {
    let cases = [
        ("&eacute;", "\u{E9}"),
        ("&Omega;", "\u{3A9}"),
        ("&rarr;", "\u{2192}"),
        ("&ne;", "\u{2260}"),
        ("&hearts;", "\u{2665}"),
        ("&sigmaf;", "\u{3C2}"),
        ("&sigma;", "\u{3C3}"),
    ];
    for (input, expected) in cases {
        let d = decode(input);
        assert_eq!(d.text.as_deref(), Some(expected), "{}", input);
    }
}

#[test]
fn unknown_name_is_literal() {
    let d = decode("&unknown;");
    assert_literal(&d);
    assert!(d.errors.is_empty());
}

#[test]
fn unknown_name_at_end_is_literal() {
    let d = decode("&xxx");
    assert_literal(&d);
}

#[test]
fn empty_name_is_literal() {
    let d = decode("&;");
    assert_literal(&d);
}

#[test]
fn no_digits_fails() {
    let d = decode("&#;");
    assert_literal(&d);
    assert_eq!(d.errors, vec![ParseError::MalformedNumeric]);
}

#[test]
fn hex_marker_without_digits_fails() {
    let d = decode("&#x;");
    assert_literal(&d);
    assert_eq!(d.errors, vec![ParseError::MalformedNumeric]);
}

#[test]
fn missing_semicolon_fails() {
    let d = decode("&#12a");
    assert_literal(&d);
    assert_eq!(d.errors, vec![ParseError::MalformedNumeric]);
}

#[test]
fn numeric_at_end_of_input_fails() {
    let d = decode("&#12");
    assert_literal(&d);
    assert_eq!(d.errors, vec![ParseError::MalformedNumeric]);
}

#[test]
fn end_of_input_is_literal() {
    let d = decode("&");
    assert_literal(&d);
    assert!(d.errors.is_empty());
}

#[test]
fn blocked_starts_are_literal() {
    for input in ["&\t", "&\n", "&\u{C}", "& ", "&<", "&&"] {
        let d = decode(input);
        assert_literal(&d);
    }
}

#[test]
fn disallowed_terminator_is_literal() {
    let d = decode_with("&\"", Some('"'), false);
    assert_literal(&d);
    let d = decode_with("&copy;", Some('c'), false);
    assert_literal(&d);
}

#[test]
fn control_code_point_is_dropped() {
    let d = decode("&#x10;");
    assert_eq!(d.text.as_deref(), Some(""));
    assert_eq!(d.position, 6);
    assert_eq!(d.errors, vec![ParseError::DisallowedCodepoint]);
}

#[test]
fn disallowed_code_points_are_dropped() {
    for input in ["&#x0001;", "&#x0008;", "&#0008;", "&#8;", "&#11;", "&#31;", "&#x007F;", "&#xFDD0;", "&#xFFFE;", "&#x1FFFF;", "&#x10FFFF;"] {
        let d = decode(input);
        assert_eq!(d.text.as_deref(), Some(""), "{}", input);
        assert_eq!(d.errors, vec![ParseError::DisallowedCodepoint], "{}", input);
    }
}

#[test]
fn tab_is_kept() {
    let d = decode("&#x0009;");
    assert_eq!(d.text.as_deref(), Some("\t"));
    assert!(d.errors.is_empty());
}

#[test]
fn legacy_code_points_are_remapped() {
    let d = decode("&#128;");
    assert_eq!(d.text.as_deref(), Some("\u{20AC}"));
    assert!(d.errors.is_empty());
    let d = decode("&#x9F;");
    assert_eq!(d.text.as_deref(), Some("\u{178}"));
    let d = decode("&#x81;");
    assert_eq!(d.text.as_deref(), Some("\u{81}"));
}

#[test]
fn surrogate_is_replaced() {
    let d = decode("&#xD800;");
    assert_eq!(d.text.as_deref(), Some("\u{FFFD}"));
    assert_eq!(d.errors, vec![ParseError::InvalidCodepoint]);
    let d = decode("&#xDFFF;");
    assert_eq!(d.text.as_deref(), Some("\u{FFFD}"));
}

#[test]
fn beyond_last_scalar_is_replaced() {
    let d = decode("&#9999999;");
    assert_eq!(d.text.as_deref(), Some("\u{FFFD}"));
    assert_eq!(d.errors, vec![ParseError::InvalidCodepoint]);
    let d = decode("&#x110000;");
    assert_eq!(d.text.as_deref(), Some("\u{FFFD}"));
}

#[test]
fn overflow_counts_as_zero() {
    let d = decode("&#xdeadbeef0;");
    assert_eq!(d.text.as_deref(), Some("\u{FFFD}"));
    assert_eq!(d.errors, vec![ParseError::InvalidCodepoint]);
    let d = decode("&#99999999999999999999;");
    assert_eq!(d.text.as_deref(), Some("\u{FFFD}"));
}

#[test]
fn plain_code_points() {
    let cases = [("&#169;", "\u{A9}"), ("&#xA9;", "\u{A9}"), ("&#60;", "<"), ("&#x3C;", "<"), ("&#x1F600;", "\u{1F600}"), ("&#13;", "\r")];
    for (input, expected) in cases {
        let d = decode(input);
        assert_eq!(d.text.as_deref(), Some(expected), "{}", input);
        assert!(d.errors.is_empty());
    }
}

#[test]
fn attribute_name_followed_by_equals_is_literal() {
    let d = decode_with("&copy=x", None, true);
    assert_literal(&d);
    let d = decode_with("&copy=x", None, false);
    assert_eq!(d.text.as_deref(), Some("\u{A9}=x"));
}

#[test]
fn attribute_name_followed_by_letter_is_literal() {
    let d = decode_with("&copya;", None, true);
    assert_literal(&d);
}

#[test]
fn attribute_terminated_name_decodes() {
    let d = decode_with("&copy;", None, true);
    assert_eq!(d.text.as_deref(), Some("\u{A9}"));
    let d = decode_with("&copy!", None, true);
    assert_eq!(d.text.as_deref(), Some("\u{A9}!"));
}

#[test]
fn reading_continues_after_reference() {
    let mut t = Tokenizer::new("&lt;b");
    assert_eq!(t.read_char(), Some('&'));
    assert_eq!(t.consume_character_reference(None, false).as_deref(), Some("<"));
    assert_eq!(t.read_char(), Some('b'));
    assert_eq!(t.read_char(), None);
}

#[test]
fn failure_clears_buffer() {
    let mut t = Tokenizer::new("&copy;&#;");
    assert_eq!(t.read_char(), Some('&'));
    assert!(t.consume_character_reference(None, false).is_some());
    assert_eq!(t.get_consumed_str(), "\u{A9}");
    assert_eq!(t.read_char(), Some('&'));
    assert_eq!(t.consume_character_reference(None, false), None);
    assert_eq!(t.get_consumed_str(), "");
    assert_eq!(t.position(), 7);
}

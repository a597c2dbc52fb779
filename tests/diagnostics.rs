use syntax_errors::errors::error_kinds::{
    ExpectedEscape, ExpectedIdentifier, ExpectedToken, InvalidEscape, InvalidIdentifier,
    UnexpectedToken,
};
use syntax_errors::errors::Error;
use syntax_errors::position::nth_char;

fn no_identifier_is_valid(_: &String) -> bool {
    false
}

fn starts_with_letter(s: &String) -> bool {
    s.chars().next().map_or(false, |c| c.is_alphabetic())
}

#[test]
fn expected_token_scenario() {
    let e = ExpectedToken::new("let x = 5".to_string(), 4, "'='".to_string());
    assert_eq!(e.to_string(), "Expected '=' let {here}x = 5");
}

#[test]
fn unexpected_token_scenario() {
    let e = UnexpectedToken::new("foo#bar".to_string(), 3);
    assert_eq!(e.to_string(), "Unexpected token # foo{here}");
}

#[test]
fn expected_identifier_splits_at_index() {
    let e = ExpectedIdentifier::new("let = 5".to_string(), 4);
    assert_eq!(e.to_string(), "Expected identifier let {here}= 5");
}

#[test]
fn expected_identifier_at_start() {
    let e = ExpectedIdentifier::new("= 5".to_string(), 0);
    assert_eq!(e.to_string(), "Expected identifier {here}= 5");
}

#[test]
fn expected_identifier_at_last_byte() {
    let e = ExpectedIdentifier::new("let x".to_string(), 4);
    assert_eq!(e.to_string(), "Expected identifier let {here}x");
}

#[test]
fn expected_identifier_after_multibyte_text() {
    let e = ExpectedIdentifier::new("é = 1".to_string(), 2);
    assert_eq!(e.to_string(), "Expected identifier é{here} = 1");
}

#[test]
fn expected_escape_replaces_one_char() {
    let e = ExpectedEscape::new("say \"a\"b\"".to_string(), 6, "\\\"".to_string());
    assert_eq!(
        e.to_string(),
        "Expected escape sequence \\\" instead of \" in say \"a{here}b\""
    );
}

#[test]
fn expected_escape_on_multibyte_char() {
    let e = ExpectedEscape::new("a→b".to_string(), 1, "\\u{2192}".to_string());
    assert_eq!(e.to_string(), "Expected escape sequence \\u{2192} instead of → in a{here}b");
}

#[test]
fn unexpected_multibyte_token() {
    let e = UnexpectedToken::new("x = €5".to_string(), 4);
    assert_eq!(e.to_string(), "Unexpected token € x = {here}");
}

#[test]
fn unexpected_token_at_start() {
    let e = UnexpectedToken::new("@a".to_string(), 0);
    assert_eq!(e.to_string(), "Unexpected token @ {here}");
}

#[test]
fn invalid_escape_quotes_line() {
    let e = InvalidEscape::new("\"a\\qb\"".to_string(), "\\q".to_string());
    assert_eq!(e.to_string(), "Invalid escape sequence \\q in \"a\\qb\"");
}

#[test]
fn invalid_identifier_quotes_line() {
    let e = InvalidIdentifier::new("let 9x = 1".to_string(), "9x".to_string(), starts_with_letter);
    assert_eq!(e.to_string(), "Invalid identifier 9x in let 9x = 1");
}

#[test]
fn invalid_identifier_with_plain_rule() {
    let e = InvalidIdentifier::new("a-b".to_string(), "a-b".to_string(), no_identifier_is_valid);
    assert_eq!(e.to_string(), "Invalid identifier a-b in a-b");
}

#[test]
fn error_renders_like_its_kind() {
    let cases = vec![
        (
            Error::ExpectedIdentifier(ExpectedIdentifier::new("let = 5".to_string(), 4)),
            "Expected identifier let {here}= 5",
        ),
        (
            Error::ExpectedToken(ExpectedToken::new("let x = 5".to_string(), 4, "'='".to_string())),
            "Expected '=' let {here}x = 5",
        ),
        (
            Error::ExpectedEscape(ExpectedEscape::new("a\tb".to_string(), 1, "\\t".to_string())),
            "Expected escape sequence \\t instead of \t in a{here}b",
        ),
        (
            Error::UnexpectedToken(UnexpectedToken::new("foo#bar".to_string(), 3)),
            "Unexpected token # foo{here}",
        ),
        (
            Error::InvalidEscape(InvalidEscape::new("x\\y".to_string(), "\\y".to_string())),
            "Invalid escape sequence \\y in x\\y",
        ),
        (
            Error::InvalidIdentifier(InvalidIdentifier::new(
                "1a b".to_string(),
                "1a".to_string(),
                starts_with_letter,
            )),
            "Invalid identifier 1a in 1a b",
        ),
    ];
    for (e, expected) in cases {
        assert_eq!(e.to_string(), expected);
    }
}

#[test]
fn rendering_twice_gives_same_text() {
    let e = Error::ExpectedEscape(ExpectedEscape::new("a→b".to_string(), 1, "\\u{2192}".to_string()));
    let first = e.to_string();
    let second = e.to_string();
    assert_eq!(first, second);
    let k = ExpectedIdentifier::new("let = 5".to_string(), 4);
    assert_eq!(k.to_string(), k.to_string());
}

#[test]
fn nth_char_ascii() {
    assert_eq!(nth_char("foo#bar", 3), '#');
    assert_eq!(nth_char("foo#bar", 0), 'f');
    assert_eq!(nth_char("foo#bar", 6), 'r');
}

#[test]
fn nth_char_multibyte() {
    let s = "aé€𝄞z";
    assert_eq!(nth_char(s, 0), 'a');
    assert_eq!(nth_char(s, 1), 'é');
    assert_eq!(nth_char(s, 3), '€');
    assert_eq!(nth_char(s, 6), '𝄞');
    assert_eq!(nth_char(s, 10), 'z');
}

#[test]
fn index_inside_a_character_is_not_renderable() {
    assert!(!ExpectedIdentifier::new("é".to_string(), 1).is_renderable());
    assert!(!ExpectedToken::new("a€".to_string(), 2, "x".to_string()).is_renderable());
    assert!(!Error::ExpectedIdentifier(ExpectedIdentifier::new("é".to_string(), 1)).is_renderable());
}

#[test]
fn index_at_a_character_start_is_renderable() {
    assert!(ExpectedIdentifier::new("é!".to_string(), 2).is_renderable());
    assert!(ExpectedToken::new("a€".to_string(), 1, "x".to_string()).is_renderable());
    assert!(Error::UnexpectedToken(UnexpectedToken::new("é".to_string(), 0)).is_renderable());
    assert!(Error::InvalidEscape(InvalidEscape::new("\\z".to_string(), "\\z".to_string())).is_renderable());
}

use typewriter::error::ParseError;
use typewriter::token::Token;
use typewriter::tokenizer::tokenize;

fn text(s: &str) -> Token {
    Token::StringLiteral(s.to_string())
}

fn name(s: &str) -> Token {
    Token::Identifier(s.to_string())
}

#[test]
fn empty_input_has_no_tokens() {
    assert_eq!(tokenize(""), Ok(vec![]));
}

#[test]
fn whitespace_is_dropped() {
    assert_eq!(tokenize(" \t\r\n ; \n"), Ok(vec![Token::Semicolon]));
}

#[test]
fn punctuation_maps_to_its_tokens() {
    assert_eq!(
        tokenize("[](),;"),
        Ok(vec![
            Token::LeftBracket,
            Token::RightBracket,
            Token::LeftParen,
            Token::RightParen,
            Token::Comma,
            Token::Semicolon,
        ])
    );
}

#[test]
fn string_literal_keeps_its_content() {
    assert_eq!(tokenize("\"hello, world\""), Ok(vec![text("hello, world")]));
}

#[test]
fn known_escapes_are_resolved() {
    assert_eq!(tokenize("\"a\\nb\\tc\\rd\\\\e\\\"f\""), Ok(vec![text("a\nb\tc\rd\\e\"f")]));
}

#[test]
fn unknown_escape_stays_with_its_backslash() {
    assert_eq!(tokenize("\"a\\qb\""), Ok(vec![text("a\\qb")]));
}

#[test]
fn unterminated_string_is_accepted() {
    assert_eq!(tokenize("\"abc"), Ok(vec![text("abc")]));
}

#[test]
fn backslash_at_end_of_input_is_dropped() {
    assert_eq!(tokenize("\"ab\\"), Ok(vec![text("ab")]));
}

#[test]
fn string_may_hold_slashes_and_line_feeds() {
    assert_eq!(tokenize("\"a // b\nc\";"), Ok(vec![text("a // b\nc"), Token::Semicolon]));
}

#[test]
fn numeral_becomes_a_number() {
    assert_eq!(tokenize("250"), Ok(vec![Token::Number(250)]));
    assert_eq!(tokenize("0"), Ok(vec![Token::Number(0)]));
    assert_eq!(tokenize("007"), Ok(vec![Token::Number(7)]));
}

#[test]
fn largest_numeral_fits() {
    assert_eq!(tokenize("18446744073709551615"), Ok(vec![Token::Number(u64::MAX)]));
}

#[test]
fn numeral_beyond_64_bits_is_an_error() {
    assert_eq!(
        tokenize("1; 18446744073709551616;"),
        Err(ParseError::UnexpectedToken("18446744073709551616".to_string()))
    );
    assert_eq!(
        tokenize("99999999999999999999999999"),
        Err(ParseError::UnexpectedToken("99999999999999999999999999".to_string()))
    );
}

#[test]
fn numeral_ends_at_the_first_other_character() {
    assert_eq!(tokenize("12ab"), Ok(vec![Token::Number(12), name("ab")]));
}

#[test]
fn identifier_may_hold_digits_underscores_and_colons() {
    assert_eq!(tokenize("Key::Return"), Ok(vec![name("Key::Return")]));
    assert_eq!(tokenize("_a1_b2"), Ok(vec![name("_a1_b2")]));
    assert_eq!(tokenize("F12,"), Ok(vec![name("F12"), Token::Comma]));
}

#[test]
fn identifier_goes_on_over_letters_beyond_ascii() {
    assert_eq!(tokenize("A\u{e9}\u{663}]"), Ok(vec![name("A\u{e9}\u{663}"), Token::RightBracket]));
}

#[test]
fn identifier_stops_at_a_symbol_beyond_ascii() {
    assert_eq!(tokenize("A\u{20ac}"), Err(ParseError::UnexpectedToken("\u{20ac}".to_string())));
}

#[test]
fn identifier_cannot_begin_beyond_ascii() {
    assert_eq!(tokenize("\u{e9}"), Err(ParseError::UnexpectedToken("\u{e9}".to_string())));
}

#[test]
fn identifier_cannot_begin_with_a_colon() {
    assert_eq!(tokenize(":A"), Err(ParseError::UnexpectedToken(":".to_string())));
}

#[test]
fn comment_runs_to_the_end_of_its_line() {
    assert_eq!(
        tokenize("1; // one ; \"two\" $\n2;"),
        Ok(vec![Token::Number(1), Token::Semicolon, Token::Number(2), Token::Semicolon])
    );
}

#[test]
fn comment_at_end_of_input_needs_no_line_feed() {
    assert_eq!(tokenize("1; // done"), Ok(vec![Token::Number(1), Token::Semicolon]));
    assert_eq!(tokenize("//"), Ok(vec![]));
}

#[test]
fn comment_does_not_swallow_the_next_line() {
    assert_eq!(
        tokenize("[A]; // chord\n\"next\";"),
        Ok(vec![
            Token::LeftBracket,
            name("A"),
            Token::RightBracket,
            Token::Semicolon,
            text("next"),
            Token::Semicolon,
        ])
    );
}

#[test]
fn comment_separates_numerals() {
    assert_eq!(tokenize("12//c\n34"), Ok(vec![Token::Number(12), Token::Number(34)]));
}

#[test]
fn single_slash_is_an_error() {
    assert_eq!(tokenize("1 / 2"), Err(ParseError::UnexpectedToken("/".to_string())));
    assert_eq!(tokenize("/"), Err(ParseError::UnexpectedToken("/".to_string())));
}

#[test]
fn dollar_sign_is_an_error() {
    assert_eq!(tokenize("\"a\"; $ 5;"), Err(ParseError::UnexpectedToken("$".to_string())));
}

#[test]
fn first_error_wins() {
    assert_eq!(tokenize("# $"), Err(ParseError::UnexpectedToken("#".to_string())));
}

#[test]
fn tokens_are_described_as_error_messages_show_them() {
    assert_eq!(text("a\"b").description(), "String(\"a\\\"b\")");
    assert_eq!(name("Ctrl").description(), "Identifier(\"Ctrl\")");
    assert_eq!(Token::Number(1234567890).description(), "Number(1234567890)");
    assert_eq!(Token::Number(0).description(), "Number(0)");
    assert_eq!(Token::LeftBracket.description(), "LeftBracket");
    assert_eq!(Token::RightBracket.description(), "RightBracket");
    assert_eq!(Token::LeftParen.description(), "LeftParen");
    assert_eq!(Token::RightParen.description(), "RightParen");
    assert_eq!(Token::Comma.description(), "Comma");
    assert_eq!(Token::Semicolon.description(), "Semicolon");
}

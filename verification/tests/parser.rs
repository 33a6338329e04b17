use typewriter::error::ParseError;
use typewriter::keys::KeyCode;
use typewriter::parser::{parse_actions, Action, DEFAULT_DELAY_MS};
use typewriter::token::Token;
use typewriter::tokenizer::tokenize;

fn parse(source: &str) -> Result<Vec<Action>, ParseError> {
    let tokens = tokenize(source)?;
    parse_actions(&tokens)
}

fn typed(text: &str, delay_ms: u64) -> Action {
    Action::TypeText { text: text.to_string(), delay_ms }
}

fn chord(keys: &[KeyCode]) -> Action {
    Action::TypeChord { keys: keys.to_vec() }
}

fn invalid(hint: &str) -> Result<Vec<Action>, ParseError> {
    Err(ParseError::InvalidSyntax(hint.to_string()))
}

fn unexpected(description: &str) -> Result<Vec<Action>, ParseError> {
    Err(ParseError::UnexpectedToken(description.to_string()))
}

#[test]
fn default_delay_is_fifty_milliseconds() {
    assert_eq!(DEFAULT_DELAY_MS, 50);
}

#[test]
fn plain_string_types_with_default_delay() {
    assert_eq!(parse("\"hi\";"), Ok(vec![typed("hi", 50)]));
}

#[test]
fn tuple_types_with_its_delay() {
    assert_eq!(parse("(\"hi\", 10);"), Ok(vec![typed("hi", 10)]));
    assert_eq!(parse("(\"hi\",0);"), Ok(vec![typed("hi", 0)]));
}

#[test]
fn number_sleeps() {
    assert_eq!(parse("250;"), Ok(vec![Action::Sleep { duration_ms: 250 }]));
}

#[test]
fn chord_of_two_letters() {
    assert_eq!(parse("[A, B];"), Ok(vec![chord(&[KeyCode::KeyA, KeyCode::KeyB])]));
}

#[test]
fn chord_keeps_source_order() {
    assert_eq!(
        parse("[Key::ControlLeft, Shift, KeyC, F5];"),
        Ok(vec![chord(&[KeyCode::ControlLeft, KeyCode::ShiftLeft, KeyCode::KeyC, KeyCode::F5])])
    );
}

#[test]
fn chord_may_repeat_a_key() {
    assert_eq!(parse("[A, A];"), Ok(vec![chord(&[KeyCode::KeyA, KeyCode::KeyA])]));
}

#[test]
fn chord_may_end_with_a_comma() {
    assert_eq!(parse("[A, B,];"), Ok(vec![chord(&[KeyCode::KeyA, KeyCode::KeyB])]));
}

#[test]
fn empty_chord_is_accepted() {
    assert_eq!(parse("[];"), Ok(vec![chord(&[])]));
}

#[test]
fn empty_input_has_no_actions() {
    assert_eq!(parse(""), Ok(vec![]));
    assert_eq!(parse_actions(&[]), Ok(vec![]));
}

#[test]
fn spare_semicolons_are_skipped() {
    assert_eq!(parse(";"), Ok(vec![]));
    assert_eq!(parse(";; 1;; ;\"a\";;"), Ok(vec![Action::Sleep { duration_ms: 1 }, typed("a", 50)]));
}

#[test]
fn statements_come_out_in_order() {
    assert_eq!(
        parse("[Cmd, Space]; 300; (\"Chro\", 40); 80; [Enter]; \"done\";"),
        Ok(vec![
            chord(&[KeyCode::MetaLeft, KeyCode::Space]),
            Action::Sleep { duration_ms: 300 },
            typed("Chro", 40),
            Action::Sleep { duration_ms: 80 },
            chord(&[KeyCode::Return]),
            typed("done", 50),
        ])
    );
}

#[test]
fn string_followed_by_comma_hints_at_the_tuple() {
    assert_eq!(
        parse("\"a\", 5;"),
        invalid("String followed by comma - use parentheses for tuple: (\"text\", delay)")
    );
}

#[test]
fn string_followed_by_another_token_is_unexpected() {
    assert_eq!(parse("\"a\" 5;"), unexpected("Number(5)"));
    assert_eq!(parse("\"a\" \"b\\\"c\";"), unexpected("String(\"b\\\"c\")"));
    assert_eq!(parse("\"a\" Ctrl;"), unexpected("Identifier(\"Ctrl\")"));
    assert_eq!(parse("\"a\" [A];"), unexpected("LeftBracket"));
    assert_eq!(parse("\"a\" ];"), unexpected("RightBracket"));
    assert_eq!(parse("\"a\" (\"b\", 1);"), unexpected("LeftParen"));
    assert_eq!(parse("\"a\" );"), unexpected("RightParen"));
}

#[test]
fn string_at_end_of_input_is_unexpected_end() {
    assert_eq!(parse("\"a\""), Err(ParseError::UnexpectedEnd));
}

#[test]
fn statement_cannot_begin_with_these_tokens() {
    assert_eq!(parse("A;"), unexpected("Identifier(\"A\")"));
    assert_eq!(parse(", 1;"), unexpected("Comma"));
    assert_eq!(parse("];"), unexpected("RightBracket"));
    assert_eq!(parse(");"), unexpected("RightParen"));
}

#[test]
fn tuple_cut_short_is_unexpected_end() {
    assert_eq!(parse("("), Err(ParseError::UnexpectedEnd));
    assert_eq!(parse("(\"a\""), Err(ParseError::UnexpectedEnd));
    assert_eq!(parse("(\"a\","), Err(ParseError::UnexpectedEnd));
    assert_eq!(parse("(\"a\", 5"), Err(ParseError::UnexpectedEnd));
    assert_eq!(parse("(\"a\", 5)"), Err(ParseError::UnexpectedEnd));
}

#[test]
fn tuple_with_a_wrong_token_is_invalid_syntax() {
    assert_eq!(parse("(5, 5);"), invalid("Expected string in tuple"));
    assert_eq!(parse("(\"a\" 5);"), invalid("Expected comma in tuple"));
    assert_eq!(parse("(\"a\", \"b\");"), invalid("Expected number for delay"));
    assert_eq!(parse("(\"a\", 5;"), invalid("Expected ) after delay"));
    assert_eq!(parse("(\"a\", 5, 6);"), invalid("Expected ) after delay"));
    assert_eq!(parse("(\"a\", 5) 1;"), invalid("Expected semicolon after tuple"));
}

#[test]
fn number_at_end_of_input_is_unexpected_end() {
    assert_eq!(parse("250"), Err(ParseError::UnexpectedEnd));
    assert_eq!(parse("1; 5"), Err(ParseError::UnexpectedEnd));
}

#[test]
fn number_followed_by_another_token_is_invalid_syntax() {
    assert_eq!(parse("5 6;"), invalid("Expected semicolon after number"));
    assert_eq!(parse("5 \"a\";"), invalid("Expected semicolon after number"));
    assert_eq!(parse("5 ]"), invalid("Expected semicolon after number"));
}

#[test]
fn chord_cut_short_is_unexpected_end() {
    assert_eq!(parse("["), Err(ParseError::UnexpectedEnd));
    assert_eq!(parse("[A"), Err(ParseError::UnexpectedEnd));
    assert_eq!(parse("[A,"), Err(ParseError::UnexpectedEnd));
}

#[test]
fn chord_at_end_of_input_is_unexpected_end() {
    assert_eq!(parse("[A]"), Err(ParseError::UnexpectedEnd));
    assert_eq!(parse("[]"), Err(ParseError::UnexpectedEnd));
    assert_eq!(parse("1; [A, B,]"), Err(ParseError::UnexpectedEnd));
}

#[test]
fn chord_with_a_wrong_token_is_invalid_syntax() {
    assert_eq!(parse("[5];"), invalid("Expected key identifier in array"));
    assert_eq!(parse("[,];"), invalid("Expected key identifier in array"));
    assert_eq!(parse("[A,,B];"), invalid("Expected key identifier in array"));
    assert_eq!(parse("[A B];"), invalid("Expected comma or ] in key array"));
    assert_eq!(parse("[A;"), invalid("Expected comma or ] in key array"));
}

#[test]
fn chord_followed_by_another_token_is_invalid_syntax() {
    assert_eq!(parse("[A] 5;"), invalid("Expected semicolon after key array"));
    assert_eq!(parse("[] [A];"), invalid("Expected semicolon after key array"));
}

#[test]
fn unknown_key_is_reported_by_name() {
    assert_eq!(parse("[Foo];"), Err(ParseError::UnknownKey("Foo".to_string())));
    assert_eq!(parse("[A, Key::Bar, B];"), Err(ParseError::UnknownKey("Bar".to_string())));
}

#[test]
fn unknown_key_comes_before_a_later_syntax_error() {
    assert_eq!(parse("[Foo B];"), Err(ParseError::UnknownKey("Foo".to_string())));
}

#[test]
fn unknown_key_beyond_ascii_is_reported_whole() {
    assert_eq!(parse("[A\u{e9}];"), Err(ParseError::UnknownKey("A\u{e9}".to_string())));
}

#[test]
fn first_error_ends_the_parse() {
    assert_eq!(parse("1; [Foo]; (5);"), Err(ParseError::UnknownKey("Foo".to_string())));
    assert_eq!(parse("1; 2 3; [Foo];"), invalid("Expected semicolon after number"));
}

#[test]
fn tokens_can_be_parsed_without_a_source_text() {
    let tokens = vec![
        Token::LeftParen,
        Token::StringLiteral("x".to_string()),
        Token::Comma,
        Token::Number(7),
        Token::RightParen,
        Token::Semicolon,
    ];
    assert_eq!(parse_actions(&tokens), Ok(vec![typed("x", 7)]));
}

#[test]
fn canonical_text_reads_back() {
    let actions = vec![
        typed("say \"hi\" \\ bye", 50),
        typed("slow", 120),
        Action::Sleep { duration_ms: 0 },
        chord(&[KeyCode::ControlLeft, KeyCode::AltGr, KeyCode::Num7, KeyCode::F12]),
        chord(&[]),
        Action::Sleep { duration_ms: u64::MAX },
    ];
    let source = "\"say \\\"hi\\\" \\\\ bye\";\n(\"slow\", 120);\n0;\n\
                  [ControlLeft, AltRight, Num7, F12];\n[];\n18446744073709551615;\n";
    assert_eq!(parse(source), Ok(actions));
}

#[test]
fn tuple_with_the_default_delay_equals_the_plain_string() {
    assert_eq!(parse("(\"a\", 50);"), parse("\"a\";"));
}

#[test]
fn comments_do_not_change_the_actions() {
    let with_comments = "// open the launcher\n[Cmd, Space]; // chord\n300; // wait\n\
                         \"not // a comment\"; // but this is\n(\"x\", 5);//end";
    let without = "\n[Cmd, Space]; \n300; \n\"not // a comment\"; \n(\"x\", 5);";
    assert_eq!(parse(with_comments), parse(without));
    assert_eq!(
        parse(with_comments),
        Ok(vec![
            chord(&[KeyCode::MetaLeft, KeyCode::Space]),
            Action::Sleep { duration_ms: 300 },
            typed("not // a comment", 50),
            typed("x", 5),
        ])
    );
}

#[test]
fn comments_do_not_change_the_error() {
    assert_eq!(parse("1; // fine\n[Foo]; // bad"), parse("1; \n[Foo]; "));
    assert_eq!(parse("1 // no semicolon\n2;"), invalid("Expected semicolon after number"));
}

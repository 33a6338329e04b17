use typewriter::error::ParseError;

#[test]
fn unexpected_token_message() {
    let error = ParseError::UnexpectedToken("$".to_string());
    assert_eq!(error.message(), "Unexpected token: $");
}

#[test]
fn unknown_key_message() {
    let error = ParseError::UnknownKey("Foo".to_string());
    assert_eq!(error.message(), "Unknown key: Foo");
}

#[test]
fn invalid_syntax_message() {
    let error = ParseError::InvalidSyntax("Expected ) after delay".to_string());
    assert_eq!(error.message(), "Invalid syntax: Expected ) after delay");
}

#[test]
fn unexpected_end_message() {
    assert_eq!(ParseError::UnexpectedEnd.message(), "Unexpected end of input");
}

#[test]
fn message_of_an_empty_payload() {
    assert_eq!(ParseError::UnknownKey(String::new()).message(), "Unknown key: ");
}

//! The lexical tokens of the script language.

use crate::text::{debug_quote, debug_quoted, decimal, decimal_string};
use vstd::prelude::*;
use vstd::string::StringExecFns;

verus! {

/// One lexical token. Tokens carry their content and no position.
#[derive(Debug, PartialEq, Eq)]
pub enum Token {
    /// The content of a string literal, escapes already resolved.
    StringLiteral(String),
    /// A decimal numeral.
    Number(u64),
    LeftBracket,
    RightBracket,
    LeftParen,
    RightParen,
    Comma,
    Semicolon,
    /// A key name, possibly with a namespace in front.
    Identifier(String),
}

/// The mathematical value of a [`Token`].
pub enum TokenView {
    StringLiteral(Seq<char>),
    Number(u64),
    LeftBracket,
    RightBracket,
    LeftParen,
    RightParen,
    Comma,
    Semicolon,
    Identifier(Seq<char>),
}

impl View for Token {
    type V = TokenView;

    open spec fn view(&self) -> TokenView {
        match self {
            Token::StringLiteral(text) => TokenView::StringLiteral(text@),
            Token::Number(n) => TokenView::Number(*n),
            Token::LeftBracket => TokenView::LeftBracket,
            Token::RightBracket => TokenView::RightBracket,
            Token::LeftParen => TokenView::LeftParen,
            Token::RightParen => TokenView::RightParen,
            Token::Comma => TokenView::Comma,
            Token::Semicolon => TokenView::Semicolon,
            Token::Identifier(name) => TokenView::Identifier(name@),
        }
    }
}

impl Clone for Token {
    fn clone(&self) -> (copy: Self)
        ensures
            copy@ == self@,
    {
        match self {
            Token::StringLiteral(text) => Token::StringLiteral(text.clone()),
            Token::Number(n) => Token::Number(*n),
            Token::LeftBracket => Token::LeftBracket,
            Token::RightBracket => Token::RightBracket,
            Token::LeftParen => Token::LeftParen,
            Token::RightParen => Token::RightParen,
            Token::Comma => Token::Comma,
            Token::Semicolon => Token::Semicolon,
            Token::Identifier(name) => Token::Identifier(name.clone()),
        }
    }
}

/// The values of a sequence of tokens.
pub open spec fn token_views(tokens: Seq<Token>) -> Seq<TokenView> {
    Seq::new(tokens.len(), |i: int| tokens[i]@)
}

impl TokenView {
    /// How an error message shows this token: the name of its kind (`String`
    /// for a string literal), followed for the three kinds with content by
    /// the content in parentheses, a number in decimal and a text quoted as
    /// `Debug` quotes it.
    pub open spec fn description(self) -> Seq<char> {
        match self {
            TokenView::StringLiteral(text) => "String("@ + debug_quoted(text) + ")"@,
            TokenView::Number(n) => "Number("@ + decimal(n as nat) + ")"@,
            TokenView::LeftBracket => "LeftBracket"@,
            TokenView::RightBracket => "RightBracket"@,
            TokenView::LeftParen => "LeftParen"@,
            TokenView::RightParen => "RightParen"@,
            TokenView::Comma => "Comma"@,
            TokenView::Semicolon => "Semicolon"@,
            TokenView::Identifier(name) => "Identifier("@ + debug_quoted(name) + ")"@,
        }
    }
}

impl Token {
    /// How an error message shows this token.
    pub fn description(&self) -> (text: String)
        ensures
            text@ == self@.description(),
    {
        match self {
            Token::StringLiteral(text) => {
                let quoted = debug_quote(text.as_str());
                String::from_str("String(").concat(quoted.as_str()).concat(")")
            },
            Token::Number(n) => {
                let digits = decimal_string(*n);
                String::from_str("Number(").concat(digits.as_str()).concat(")")
            },
            Token::LeftBracket => String::from_str("LeftBracket"),
            Token::RightBracket => String::from_str("RightBracket"),
            Token::LeftParen => String::from_str("LeftParen"),
            Token::RightParen => String::from_str("RightParen"),
            Token::Comma => String::from_str("Comma"),
            Token::Semicolon => String::from_str("Semicolon"),
            Token::Identifier(name) => {
                let quoted = debug_quote(name.as_str());
                String::from_str("Identifier(").concat(quoted.as_str()).concat(")")
            },
        }
    }
}

} // verus!

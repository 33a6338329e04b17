//! The errors that tokenizing and parsing a script can end in.

use vstd::prelude::*;
use vstd::string::StringExecFns;

verus! {

/// Why a script was rejected. Parsing stops at the first error, so a value
/// describes one offending place and carries its text.
#[derive(Debug, PartialEq, Eq)]
pub enum ParseError {
    /// A character or token that cannot stand where it was found.
    UnexpectedToken(String),
    /// An identifier in a chord that names no key.
    UnknownKey(String),
    /// A statement that breaks the grammar, with a hint.
    InvalidSyntax(String),
    /// The input ended in the middle of a statement.
    UnexpectedEnd,
}

/// The mathematical value of a [`ParseError`].
pub enum ParseErrorView {
    UnexpectedToken(Seq<char>),
    UnknownKey(Seq<char>),
    InvalidSyntax(Seq<char>),
    UnexpectedEnd,
}

impl View for ParseError {
    type V = ParseErrorView;

    open spec fn view(&self) -> ParseErrorView {
        match self {
            ParseError::UnexpectedToken(t) => ParseErrorView::UnexpectedToken(t@),
            ParseError::UnknownKey(k) => ParseErrorView::UnknownKey(k@),
            ParseError::InvalidSyntax(s) => ParseErrorView::InvalidSyntax(s@),
            ParseError::UnexpectedEnd => ParseErrorView::UnexpectedEnd,
        }
    }
}

impl Clone for ParseError {
    fn clone(&self) -> (copy: Self)
        ensures
            copy@ == self@,
    {
        match self {
            ParseError::UnexpectedToken(t) => ParseError::UnexpectedToken(t.clone()),
            ParseError::UnknownKey(k) => ParseError::UnknownKey(k.clone()),
            ParseError::InvalidSyntax(s) => ParseError::InvalidSyntax(s.clone()),
            ParseError::UnexpectedEnd => ParseError::UnexpectedEnd,
        }
    }
}

impl ParseErrorView {
    /// The message shown to the user for this error.
    pub open spec fn message(self) -> Seq<char> {
        match self {
            ParseErrorView::UnexpectedToken(t) => "Unexpected token: "@ + t,
            ParseErrorView::UnknownKey(k) => "Unknown key: "@ + k,
            ParseErrorView::InvalidSyntax(s) => "Invalid syntax: "@ + s,
            ParseErrorView::UnexpectedEnd => "Unexpected end of input"@,
        }
    }
}

impl ParseError {
    /// The message shown to the user for this error: the kind of error, then
    /// the offending text.
    pub fn message(&self) -> (text: String)
        ensures
            text@ == self@.message(),
    {
        match self {
            ParseError::UnexpectedToken(t) => String::from_str("Unexpected token: ").concat(
                t.as_str(),
            ),
            ParseError::UnknownKey(k) => String::from_str("Unknown key: ").concat(k.as_str()),
            ParseError::InvalidSyntax(s) => String::from_str("Invalid syntax: ").concat(
                s.as_str(),
            ),
            ParseError::UnexpectedEnd => String::from_str("Unexpected end of input"),
        }
    }
}

} // verus!

//! The tokenizer: from the characters of a script to its tokens.
//!
//! The lexical grammar is given by [`scan`], which reads one lexeme at the
//! front of a text, and [`lex`], which repeats it. All functions that read a
//! text read it from its first character on and say how many characters they
//! took.

use crate::error::{ParseError, ParseErrorView};
use crate::text::{
    chars_of, decimal_value, digit_value, is_alphanumeric, is_ascii_digit, is_ascii_letter,
    push_char, string_of, unicode_alphanumeric,
};
use crate::token::{token_views, Token, TokenView};
use vstd::prelude::*;

verus! {

/// Space, tab, carriage return and line feed separate tokens and are dropped.
pub open spec fn is_whitespace(c: char) -> bool {
    c == ' ' || c == '\t' || c == '\n' || c == '\r'
}

/// An identifier begins with an ASCII letter or an underscore.
pub open spec fn is_identifier_start(c: char) -> bool {
    is_ascii_letter(c) || c == '_'
}

/// An identifier goes on over letters, digits, underscores and colons.
/// Beyond ASCII, a letter or digit is what Unicode calls alphanumeric.
pub open spec fn is_identifier_part(c: char) -> bool {
    is_ascii_letter(c) || is_ascii_digit(c) || c == '_' || c == ':' || (c as u32 >= 0x80
        && unicode_alphanumeric(c))
}

/// The token that a punctuation character stands for.
pub open spec fn punctuation(c: char) -> Option<TokenView> {
    if c == '[' {
        Some(TokenView::LeftBracket)
    } else if c == ']' {
        Some(TokenView::RightBracket)
    } else if c == '(' {
        Some(TokenView::LeftParen)
    } else if c == ')' {
        Some(TokenView::RightParen)
    } else if c == ',' {
        Some(TokenView::Comma)
    } else if c == ';' {
        Some(TokenView::Semicolon)
    } else {
        None
    }
}

/// Whether `text` begins with the two slashes that open a comment.
pub open spec fn opens_comment(text: Seq<char>) -> bool {
    text.len() >= 2 && text[0] == '/' && text[1] == '/'
}

/// The length of a comment's body, `text` beginning after the two slashes:
/// up to and including the first line feed, or all of `text` if it has none.
pub open spec fn comment_length(text: Seq<char>) -> nat
    decreases text.len(),
{
    if text.len() == 0 {
        0
    } else if text[0] == '\n' {
        1
    } else {
        1 + comment_length(text.skip(1))
    }
}

/// The number of decimal digits that `text` begins with.
pub open spec fn digit_run(text: Seq<char>) -> nat
    decreases text.len(),
{
    if text.len() > 0 && is_ascii_digit(text[0]) {
        1 + digit_run(text.skip(1))
    } else {
        0
    }
}

/// The number of identifier characters that `text` begins with.
pub open spec fn identifier_run(text: Seq<char>) -> nat
    decreases text.len(),
{
    if text.len() > 0 && is_identifier_part(text[0]) {
        1 + identifier_run(text.skip(1))
    } else {
        0
    }
}

/// What a backslash and the character `c` after it stand for in a string
/// literal. A pair that is no known escape stands for itself.
pub open spec fn unescape(c: char) -> Seq<char> {
    if c == 'n' {
        seq!['\n']
    } else if c == 't' {
        seq!['\t']
    } else if c == 'r' {
        seq!['\r']
    } else if c == '\\' {
        seq!['\\']
    } else if c == '"' {
        seq!['"']
    } else {
        seq!['\\', c]
    }
}

/// The content and the length of a string literal, `text` beginning after
/// the opening quote. The length counts the closing quote. A literal that
/// the end of `text` cuts short is taken as it stands, and so is a backslash
/// that is the last character.
pub open spec fn string_literal(text: Seq<char>) -> (Seq<char>, nat)
    decreases text.len(),
{
    if text.len() == 0 {
        (Seq::empty(), 0)
    } else if text[0] == '"' {
        (Seq::empty(), 1)
    } else if text[0] == '\\' {
        if text.len() == 1 {
            (Seq::empty(), 1)
        } else {
            let rest = string_literal(text.skip(2));
            (unescape(text[1]) + rest.0, 2 + rest.1)
        }
    } else {
        let rest = string_literal(text.skip(1));
        (seq![text[0]] + rest.0, 1 + rest.1)
    }
}

/// What reading one lexeme yields: its token, unless it is whitespace or a
/// comment, and the number of characters it is made of.
pub struct Lexeme {
    pub token: Option<TokenView>,
    pub length: nat,
}

/// The lexeme at the front of `text`, which is not empty. A numeral that
/// does not fit in 64 bits, and a character that begins no lexeme, are
/// errors that carry the offending text.
pub open spec fn scan(text: Seq<char>) -> Result<Lexeme, ParseErrorView>
    recommends
        text.len() > 0,
{
    let c = text[0];
    if is_whitespace(c) {
        Ok(Lexeme { token: None, length: 1 })
    } else if opens_comment(text) {
        Ok(Lexeme { token: None, length: 2 + comment_length(text.skip(2)) })
    } else if c == '"' {
        let literal = string_literal(text.skip(1));
        Ok(Lexeme { token: Some(TokenView::StringLiteral(literal.0)), length: 1 + literal.1 })
    } else if is_ascii_digit(c) {
        let numeral = text.take(digit_run(text) as int);
        if decimal_value(numeral) <= u64::MAX {
            Ok(
                Lexeme {
                    token: Some(TokenView::Number(decimal_value(numeral) as u64)),
                    length: numeral.len(),
                },
            )
        } else {
            Err(ParseErrorView::UnexpectedToken(numeral))
        }
    } else if punctuation(c) is Some {
        Ok(Lexeme { token: punctuation(c), length: 1 })
    } else if is_identifier_start(c) {
        let name = text.take(identifier_run(text) as int);
        Ok(Lexeme { token: Some(TokenView::Identifier(name)), length: name.len() })
    } else {
        Err(ParseErrorView::UnexpectedToken(seq![c]))
    }
}

/// The tokens of a lexeme: one or none.
pub open spec fn lexeme_tokens(lexeme: Lexeme) -> Seq<TokenView> {
    match lexeme.token {
        Some(token) => seq![token],
        None => Seq::empty(),
    }
}

/// `tokens` in front of what `rest` holds, or the error of `rest`.
pub open spec fn prepend_tokens(
    tokens: Seq<TokenView>,
    rest: Result<Seq<TokenView>, ParseErrorView>,
) -> Result<Seq<TokenView>, ParseErrorView> {
    match rest {
        Ok(more) => Ok(tokens + more),
        Err(error) => Err(error),
    }
}

/// The tokens of `text`, lexeme after lexeme, or the error of the first
/// lexeme that has one.
pub open spec fn lex(text: Seq<char>) -> Result<Seq<TokenView>, ParseErrorView>
    decreases text.len(),
    via lex_terminates
{
    if text.len() == 0 {
        Ok(Seq::empty())
    } else {
        match scan(text) {
            Err(error) => Err(error),
            Ok(lexeme) => prepend_tokens(
                lexeme_tokens(lexeme),
                lex(text.skip(lexeme.length as int)),
            ),
        }
    }
}

#[via_fn]
proof fn lex_terminates(text: Seq<char>) {
    if text.len() > 0 {
        lemma_lexeme_length(text);
    }
}

/// A comment's body ends within the text.
pub proof fn lemma_comment_length(text: Seq<char>)
    ensures
        comment_length(text) <= text.len(),
    decreases text.len(),
{
    if text.len() > 0 && text[0] != '\n' {
        lemma_comment_length(text.skip(1));
    }
}

/// A run of digits ends within the text and holds digits only.
pub proof fn lemma_digit_run(text: Seq<char>)
    ensures
        digit_run(text) <= text.len(),
        forall|i: int| 0 <= i < digit_run(text) ==> is_ascii_digit(#[trigger] text[i]),
        digit_run(text) < text.len() ==> !is_ascii_digit(text[digit_run(text) as int]),
    decreases text.len(),
{
    if text.len() > 0 && is_ascii_digit(text[0]) {
        lemma_digit_run(text.skip(1));
        assert forall|i: int| 0 <= i < digit_run(text) implies is_ascii_digit(
            #[trigger] text[i],
        ) by {
            if i > 0 {
                assert(text[i] == text.skip(1)[i - 1]);
            }
        }
    }
}

/// A run of identifier characters ends within the text and holds identifier
/// characters only.
pub proof fn lemma_identifier_run(text: Seq<char>)
    ensures
        identifier_run(text) <= text.len(),
        forall|i: int| 0 <= i < identifier_run(text) ==> is_identifier_part(#[trigger] text[i]),
        identifier_run(text) < text.len() ==> !is_identifier_part(
            text[identifier_run(text) as int],
        ),
    decreases text.len(),
{
    if text.len() > 0 && is_identifier_part(text[0]) {
        lemma_identifier_run(text.skip(1));
        assert forall|i: int| 0 <= i < identifier_run(text) implies is_identifier_part(
            #[trigger] text[i],
        ) by {
            if i > 0 {
                assert(text[i] == text.skip(1)[i - 1]);
            }
        }
    }
}

/// A string literal ends within the text.
pub proof fn lemma_string_literal_length(text: Seq<char>)
    ensures
        string_literal(text).1 <= text.len(),
    decreases text.len(),
{
    if text.len() == 0 || text[0] == '"' {
    } else if text[0] == '\\' {
        if text.len() > 1 {
            lemma_string_literal_length(text.skip(2));
        }
    } else {
        lemma_string_literal_length(text.skip(1));
    }
}

/// A lexeme is made of at least one character and ends within the text.
pub proof fn lemma_lexeme_length(text: Seq<char>)
    requires
        text.len() > 0,
    ensures
        scan(text) matches Ok(lexeme) ==> 0 < lexeme.length <= text.len(),
{
    lemma_comment_length(text.skip(2));
    lemma_string_literal_length(text.skip(1));
    lemma_digit_run(text);
    lemma_identifier_run(text);
}

/// The value of a token that may be absent.
pub open spec fn optional_token_view(token: Option<Token>) -> Option<TokenView> {
    match token {
        Some(token) => Some(token@),
        None => None,
    }
}

fn is_whitespace_char(c: char) -> (yes: bool)
    ensures
        yes == is_whitespace(c),
{
    c == ' ' || c == '\t' || c == '\n' || c == '\r'
}

fn is_letter_char(c: char) -> (yes: bool)
    ensures
        yes == is_ascii_letter(c),
{
    (c >= 'a' && c <= 'z') || (c >= 'A' && c <= 'Z')
}

fn is_digit_char(c: char) -> (yes: bool)
    ensures
        yes == is_ascii_digit(c),
{
    c >= '0' && c <= '9'
}

fn is_identifier_start_char(c: char) -> (yes: bool)
    ensures
        yes == is_identifier_start(c),
{
    is_letter_char(c) || c == '_'
}

fn is_identifier_part_char(c: char) -> (yes: bool)
    ensures
        yes == is_identifier_part(c),
{
    is_letter_char(c) || is_digit_char(c) || c == '_' || c == ':' || (c as u32 >= 0x80
        && is_alphanumeric(c))
}

fn punctuation_token(c: char) -> (token: Option<Token>)
    ensures
        optional_token_view(token) == punctuation(c),
{
    if c == '[' {
        Some(Token::LeftBracket)
    } else if c == ']' {
        Some(Token::RightBracket)
    } else if c == '(' {
        Some(Token::LeftParen)
    } else if c == ')' {
        Some(Token::RightParen)
    } else if c == ',' {
        Some(Token::Comma)
    } else if c == ';' {
        Some(Token::Semicolon)
    } else {
        None
    }
}

/// The value of the decimal digit `c`.
fn digit_value_of(c: char) -> (d: u64)
    requires
        is_ascii_digit(c),
    ensures
        d == digit_value(c),
        d < 10,
{
    (c as u32 - '0' as u32) as u64
}

/// Finds the end of the comment whose body begins at `chars[start]`.
fn skip_comment(chars: &Vec<char>, start: usize) -> (end: usize)
    requires
        start <= chars.len(),
    ensures
        start <= end <= chars.len(),
        end - start == comment_length(chars@.skip(start as int)),
{
    let mut i: usize = start;
    while i < chars.len()
        invariant
            start <= i <= chars.len(),
            comment_length(chars@.skip(start as int)) == (i - start) + comment_length(
                chars@.skip(i as int),
            ),
        decreases chars.len() - i,
    {
        let c = chars[i];
        assert(chars@.skip(i as int).skip(1) == chars@.skip(i + 1));
        i += 1;
        if c == '\n' {
            return i;
        }
    }
    i
}

/// Appends to `text` what a backslash and `c` stand for.
fn push_unescaped(text: &mut String, c: char)
    ensures
        final(text)@ == old(text)@ + unescape(c),
{
    if c == 'n' {
        push_char(text, '\n');
    } else if c == 't' {
        push_char(text, '\t');
    } else if c == 'r' {
        push_char(text, '\r');
    } else if c == '\\' {
        push_char(text, '\\');
    } else if c == '"' {
        push_char(text, '"');
    } else {
        push_char(text, '\\');
        push_char(text, c);
    }
    assert(text@ == old(text)@ + unescape(c));
}

/// Reads the string literal whose content begins at `chars[start]`. Gives
/// the content and the position after the literal.
fn read_string(chars: &Vec<char>, start: usize) -> (result: (String, usize))
    requires
        start <= chars.len(),
    ensures
        start <= result.1 <= chars.len(),
        string_literal(chars@.skip(start as int)) == (result.0@, (result.1 - start) as nat),
{
    let ghost all = chars@;
    let mut text = String::new();
    let mut i: usize = start;
    assert(text@ + string_literal(all.skip(i as int)).0 == string_literal(all.skip(i as int)).0);
    while i < chars.len()
        invariant
            all == chars@,
            start <= i <= chars.len(),
            string_literal(all.skip(start as int)) == (
                text@ + string_literal(all.skip(i as int)).0,
                ((i - start) + string_literal(all.skip(i as int)).1) as nat,
            ),
        decreases chars.len() - i,
    {
        let ghost here = all.skip(i as int);
        let ghost before = text@;
        let c = chars[i];
        if c == '"' {
            assert(before + Seq::<char>::empty() == before);
            return (text, i + 1);
        }
        if c == '\\' {
            if i + 1 < chars.len() {
                let next = chars[i + 1];
                assert(here.skip(2) == all.skip(i + 2));
                assert(before + (unescape(next) + string_literal(all.skip(i + 2)).0) == (before
                    + unescape(next)) + string_literal(all.skip(i + 2)).0);
                push_unescaped(&mut text, next);
                i += 2;
            } else {
                assert(before + Seq::<char>::empty() == before);
                return (text, i + 1);
            }
        } else {
            assert(here.skip(1) == all.skip(i + 1));
            assert(before + (seq![c] + string_literal(all.skip(i + 1)).0) == before.push(c)
                + string_literal(all.skip(i + 1)).0);
            push_char(&mut text, c);
            i += 1;
        }
    }
    assert(text@ + Seq::<char>::empty() == text@);
    (text, i)
}

/// Appending a digit to a numeral cannot make its value smaller.
proof fn lemma_decimal_value_grows(digits: Seq<char>)
    requires
        digits.len() > 0,
    ensures
        decimal_value(digits.drop_last()) <= decimal_value(digits),
{
}

/// Reads the numeral that begins at `chars[start]`. Gives its value, unless
/// that does not fit in 64 bits, and the position after the numeral.
fn read_number(chars: &Vec<char>, start: usize) -> (result: (Option<u64>, usize))
    requires
        start <= chars.len(),
    ensures
        start <= result.1 <= chars.len(),
        result.1 - start == digit_run(chars@.skip(start as int)),
        match result.0 {
            Some(value) => value == decimal_value(
                chars@.subrange(start as int, result.1 as int),
            ),
            None => decimal_value(chars@.subrange(start as int, result.1 as int)) > u64::MAX,
        },
{
    let ghost all = chars@;
    let mut value: u64 = 0;
    let mut fits = true;
    let mut i: usize = start;
    while i < chars.len() && is_digit_char(chars[i])
        invariant
            all == chars@,
            start <= i <= chars.len(),
            digit_run(all.skip(start as int)) == (i - start) + digit_run(all.skip(i as int)),
            fits ==> value == decimal_value(all.subrange(start as int, i as int)),
            !fits ==> decimal_value(all.subrange(start as int, i as int)) > u64::MAX,
        decreases chars.len() - i,
    {
        let digit = digit_value_of(chars[i]);
        proof {
            let longer = all.subrange(start as int, i + 1);
            assert(longer.drop_last() == all.subrange(start as int, i as int));
            assert(longer.last() == all[i as int]);
            lemma_decimal_value_grows(longer);
            assert(all.skip(i as int).skip(1) == all.skip(i + 1));
        }
        if fits {
            match value.checked_mul(10) {
                Some(tens) => match tens.checked_add(digit) {
                    Some(sum) => {
                        value = sum;
                    },
                    None => {
                        fits = false;
                    },
                },
                None => {
                    fits = false;
                },
            }
        }
        i += 1;
    }
    if fits {
        (Some(value), i)
    } else {
        (None, i)
    }
}

/// Finds the end of the identifier that begins at `chars[start]`.
fn skip_identifier(chars: &Vec<char>, start: usize) -> (end: usize)
    requires
        start <= chars.len(),
    ensures
        start <= end <= chars.len(),
        end - start == identifier_run(chars@.skip(start as int)),
{
    let mut i: usize = start;
    while i < chars.len() && is_identifier_part_char(chars[i])
        invariant
            start <= i <= chars.len(),
            identifier_run(chars@.skip(start as int)) == (i - start) + identifier_run(
                chars@.skip(i as int),
            ),
        decreases chars.len() - i,
    {
        assert(chars@.skip(i as int).skip(1) == chars@.skip(i + 1));
        i += 1;
    }
    i
}

/// Reads the lexeme that begins at `chars[i]`. Gives its token, if it has
/// one, and the position after it.
fn read_lexeme(chars: &Vec<char>, i: usize) -> (result: Result<(Option<Token>, usize), ParseError>)
    requires
        i < chars.len(),
    ensures
        match result {
            Ok((token, next)) => i < next <= chars.len() && scan(chars@.skip(i as int)) == Ok::<
                _,
                ParseErrorView,
            >(Lexeme { token: optional_token_view(token), length: (next - i) as nat }),
            Err(error) => scan(chars@.skip(i as int)) == Err::<Lexeme, _>(error@),
        },
{
    let ghost here = chars@.skip(i as int);
    let c = chars[i];
    proof {
        lemma_lexeme_length(here);
    }
    if is_whitespace_char(c) {
        Ok((None, i + 1))
    } else if c == '/' && i + 1 < chars.len() && chars[i + 1] == '/' {
        assert(here.skip(2) == chars@.skip(i + 2));
        let end = skip_comment(chars, i + 2);
        Ok((None, end))
    } else if c == '"' {
        assert(here.skip(1) == chars@.skip(i + 1));
        let (text, end) = read_string(chars, i + 1);
        Ok((Some(Token::StringLiteral(text)), end))
    } else if is_digit_char(c) {
        let (value, end) = read_number(chars, i);
        assert(here.take(end - i) == chars@.subrange(i as int, end as int));
        match value {
            Some(value) => Ok((Some(Token::Number(value)), end)),
            None => Err(ParseError::UnexpectedToken(string_of(chars, i, end))),
        }
    } else if let Some(token) = punctuation_token(c) {
        Ok((Some(token), i + 1))
    } else if is_identifier_start_char(c) {
        let end = skip_identifier(chars, i);
        assert(here.take(end - i) == chars@.subrange(i as int, end as int));
        Ok((Some(Token::Identifier(string_of(chars, i, end))), end))
    } else {
        let mut text = String::new();
        push_char(&mut text, c);
        assert(text@ == seq![c]);
        Err(ParseError::UnexpectedToken(text))
    }
}

/// Splits the text of a script into tokens.
///
/// Whitespace separates tokens. A comment runs from `//` through the end of
/// its line. A string literal stands between double quotes, with the escapes
/// `\n`, `\t`, `\r`, `\\` and `\"`; another character after a backslash stays
/// with its backslash, and a literal that the input cuts short is accepted.
/// A numeral is a run of decimal digits and must fit in 64 bits. The
/// punctuation is `[ ] ( ) , ;`. An identifier begins with an ASCII letter
/// or `_` and goes on over letters, digits, `_` and `:`. Anything else is an
/// error, and the first error ends the scan.
pub fn tokenize(input: &str) -> (result: Result<Vec<Token>, ParseError>)
    ensures
        match result {
            Ok(tokens) => lex(input@) == Ok::<_, ParseErrorView>(token_views(tokens@)),
            Err(error) => lex(input@) == Err::<Seq<TokenView>, _>(error@),
        },
{
    let chars = chars_of(input);
    let ghost all = chars@;
    let mut tokens: Vec<Token> = Vec::new();
    let mut i: usize = 0;
    assert(all.skip(0) == all);
    assert(token_views(tokens@) == Seq::<TokenView>::empty());
    proof {
        lemma_prepend_no_token(lex(all));
    }
    while i < chars.len()
        invariant
            all == chars@,
            all == input@,
            i <= chars.len(),
            lex(all) == prepend_tokens(token_views(tokens@), lex(all.skip(i as int))),
        decreases chars.len() - i,
    {
        let ghost here = all.skip(i as int);
        let ghost before = token_views(tokens@);
        match read_lexeme(&chars, i) {
            Err(error) => {
                return Err(error);
            },
            Ok((token, next)) => {
                proof {
                    assert(here.skip(next - i) == all.skip(next as int));
                }
                match token {
                    Some(token) => {
                        tokens.push(token);
                        proof {
                            assert(token_views(tokens@) == before.push(token@));
                            lemma_prepend_tokens_twice(
                                before,
                                seq![token@],
                                lex(all.skip(next as int)),
                            );
                            assert(before + seq![token@] == before.push(token@));
                        }
                    },
                    None => {
                        proof {
                            lemma_prepend_no_token(lex(all.skip(next as int)));
                        }
                    },
                }
                i = next;
            },
        }
    }
    proof {
        assert(token_views(tokens@) + Seq::<TokenView>::empty() == token_views(tokens@));
    }
    Ok(tokens)
}

/// Prepending no token changes nothing.
pub proof fn lemma_prepend_no_token(rest: Result<Seq<TokenView>, ParseErrorView>)
    ensures
        prepend_tokens(Seq::empty(), rest) == rest,
{
    if let Ok(more) = rest {
        assert(Seq::<TokenView>::empty() + more == more);
    }
}

/// Prepending in two steps is prepending the concatenation.
pub proof fn lemma_prepend_tokens_twice(
    first: Seq<TokenView>,
    second: Seq<TokenView>,
    rest: Result<Seq<TokenView>, ParseErrorView>,
)
    ensures
        prepend_tokens(first, prepend_tokens(second, rest)) == prepend_tokens(
            first + second,
            rest,
        ),
{
    if let Ok(more) = rest {
        assert(first + (second + more) == (first + second) + more);
    }
}

} // verus!

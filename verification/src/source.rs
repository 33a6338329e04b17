//! The canonical text of actions, and the proof that it reads back.
//!
//! Every action has a canonical statement: a text that the tokenizer and the
//! parser turn into that action again. A text typed with the default delay
//! is written as a plain string literal, any other as a tuple. The keys of a
//! chord are written under the first name that the alias table has for them.

use crate::error::ParseErrorView;
use crate::keys::{
    key_name, lemma_alias_spelling, lemma_key_name_resolves, lemma_resolved_keys_have_names,
    resolve_identifier, strip_namespace, KeyCode,
};
use crate::parser::{
    lemma_statement_length, parse_chord_keys, parse_script, parse_statement, parse_tokens,
    prepend_actions, token_at, ActionView, Statement, DEFAULT_DELAY_MS,
};
use crate::text::{decimal, decimal_value, digit_char, digit_value, is_ascii_digit};
use crate::token::TokenView;
use crate::tokenizer::{
    digit_run, identifier_run, is_identifier_part, is_identifier_start, is_whitespace,
    lemma_prepend_no_token, lemma_prepend_tokens_twice, lex, prepend_tokens, punctuation, scan,
    string_literal, unescape, Lexeme,
};
use vstd::prelude::*;

verus! {

/// How one character of a text is written inside a string literal: a double
/// quote and a backslash get a backslash in front.
pub open spec fn escape_char(c: char) -> Seq<char> {
    if c == '"' || c == '\\' {
        seq!['\\', c]
    } else {
        seq![c]
    }
}

/// How a text is written inside a string literal.
pub open spec fn escape(text: Seq<char>) -> Seq<char>
    decreases text.len(),
{
    if text.len() == 0 {
        Seq::empty()
    } else {
        escape_char(text[0]) + escape(text.skip(1))
    }
}

/// The string literal that stands for `text`.
pub open spec fn quote(text: Seq<char>) -> Seq<char> {
    seq!['"'] + escape(text) + seq!['"']
}

/// Whether `name` is spelled like an identifier.
pub open spec fn is_identifier(name: Seq<char>) -> bool {
    &&& name.len() > 0
    &&& is_identifier_start(name[0])
    &&& forall|i: int| 0 <= i < name.len() ==> is_identifier_part(#[trigger] name[i])
}

/// Whether `name` can stand for `key` in a chord.
pub open spec fn names_key(name: Seq<char>, key: KeyCode) -> bool {
    is_identifier(name) && resolve_identifier(name) == Ok::<KeyCode, ParseErrorView>(key)
}

/// Whether `text` is empty or begins with a character that `class` rejects.
pub open spec fn stops(text: Seq<char>, class: spec_fn(char) -> bool) -> bool {
    text.len() == 0 || !class(text[0])
}

/// Whitespace in front of a text adds no token.
pub proof fn lemma_lex_whitespace(c: char, rest: Seq<char>)
    requires
        is_whitespace(c),
    ensures
        lex(seq![c] + rest) == lex(rest),
{
    let text = seq![c] + rest;
    assert(text.skip(1) == rest);
    assert(scan(text) == Ok::<Lexeme, ParseErrorView>(Lexeme { token: None, length: 1 }));
    lemma_prepend_no_token(lex(rest));
}

/// A punctuation character in front of a text adds its token.
pub proof fn lemma_lex_punctuation(c: char, rest: Seq<char>)
    requires
        punctuation(c) is Some,
    ensures
        lex(seq![c] + rest) == prepend_tokens(seq![punctuation(c)->0], lex(rest)),
{
    let text = seq![c] + rest;
    assert(text.skip(1) == rest);
    assert(scan(text) == Ok::<Lexeme, ParseErrorView>(
        Lexeme { token: punctuation(c), length: 1 },
    ));
}

/// Reading a string literal gives back the text that was escaped.
pub proof fn lemma_string_literal_of_escape(text: Seq<char>, rest: Seq<char>)
    ensures
        string_literal(escape(text) + seq!['"'] + rest) == (text, escape(text).len() + 1),
    decreases text.len(),
{
    let body = escape(text) + seq!['"'] + rest;
    if text.len() == 0 {
        assert(body[0] == '"');
        assert(string_literal(body).0 == text);
    } else {
        let c = text[0];
        let tail = text.skip(1);
        let after = escape(tail) + seq!['"'] + rest;
        lemma_string_literal_of_escape(tail, rest);
        if c == '"' || c == '\\' {
            assert(body[0] == '\\');
            assert(body[1] == c);
            assert(body.skip(2) == after);
            assert(unescape(c) == seq![c]);
            assert(seq![c] + tail == text);
        } else {
            assert(body[0] == c);
            assert(body.skip(1) == after);
            assert(seq![c] + tail == text);
        }
    }
}

/// A quoted text in front of a text adds the string literal of that text.
pub proof fn lemma_lex_quote(text: Seq<char>, rest: Seq<char>)
    ensures
        lex(quote(text) + rest) == prepend_tokens(
            seq![TokenView::StringLiteral(text)],
            lex(rest),
        ),
{
    let all = quote(text) + rest;
    lemma_string_literal_of_escape(text, rest);
    assert(all[0] == '"');
    assert(all.skip(1) == escape(text) + seq!['"'] + rest);
    assert(all.skip(1 + escape(text).len() as int + 1) == rest);
}

/// The digits of a decimal numeral, and the number they denote.
pub proof fn lemma_decimal(n: nat)
    ensures
        decimal(n).len() > 0,
        forall|i: int| 0 <= i < decimal(n).len() ==> is_ascii_digit(#[trigger] decimal(n)[i]),
        decimal_value(decimal(n)) == n,
    decreases n,
{
    if n < 10 {
        let digits = decimal(n);
        assert(digits.drop_last().len() == 0);
        assert(decimal_value(digits.drop_last()) == 0);
        assert(digits.last() == digit_char(n));
        assert(digit_value(digit_char(n)) == n);
    } else {
        lemma_decimal(n / 10);
        let digits = decimal(n);
        assert(digits.drop_last() == decimal(n / 10));
        assert(digits.last() == digit_char(n % 10));
        assert(digit_value(digit_char(n % 10)) == n % 10);
        assert forall|i: int| 0 <= i < digits.len() implies is_ascii_digit(
            #[trigger] digits[i],
        ) by {
            if i < digits.len() - 1 {
                assert(digits[i] == decimal(n / 10)[i]);
            }
        }
    }
}

/// A run of digits in front of a text that does not go on with a digit is
/// the whole run of digits there.
pub proof fn lemma_digit_run_of(digits: Seq<char>, rest: Seq<char>)
    requires
        forall|i: int| 0 <= i < digits.len() ==> is_ascii_digit(#[trigger] digits[i]),
        stops(rest, |c: char| is_ascii_digit(c)),
    ensures
        digit_run(digits + rest) == digits.len(),
    decreases digits.len(),
{
    let text = digits + rest;
    if digits.len() == 0 {
        assert(text == rest);
    } else {
        assert(text[0] == digits[0]);
        assert(text.skip(1) == digits.skip(1) + rest);
        assert forall|i: int| 0 <= i < digits.skip(1).len() implies is_ascii_digit(
            #[trigger] digits.skip(1)[i],
        ) by {
            assert(digits.skip(1)[i] == digits[i + 1]);
        }
        lemma_digit_run_of(digits.skip(1), rest);
    }
}

/// The decimal numeral of a number that fits in 64 bits, in front of a text
/// that does not go on with a digit, adds that number.
pub proof fn lemma_lex_decimal(n: u64, rest: Seq<char>)
    requires
        stops(rest, |c: char| is_ascii_digit(c)),
    ensures
        lex(decimal(n as nat) + rest) == prepend_tokens(seq![TokenView::Number(n)], lex(rest)),
{
    let digits = decimal(n as nat);
    let text = digits + rest;
    lemma_decimal(n as nat);
    lemma_digit_run_of(digits, rest);
    assert(text[0] == digits[0]);
    assert(text.take(digits.len() as int) == digits);
    assert(text.skip(digits.len() as int) == rest);
    assert(scan(text) == Ok::<Lexeme, ParseErrorView>(
        Lexeme { token: Some(TokenView::Number(n)), length: digits.len() },
    ));
}

/// A run of identifier characters in front of a text that does not go on
/// with one is the whole run of identifier characters there.
pub proof fn lemma_identifier_run_of(name: Seq<char>, rest: Seq<char>)
    requires
        forall|i: int| 0 <= i < name.len() ==> is_identifier_part(#[trigger] name[i]),
        stops(rest, |c: char| is_identifier_part(c)),
    ensures
        identifier_run(name + rest) == name.len(),
    decreases name.len(),
{
    let text = name + rest;
    if name.len() == 0 {
        assert(text == rest);
    } else {
        assert(text[0] == name[0]);
        assert(text.skip(1) == name.skip(1) + rest);
        assert forall|i: int| 0 <= i < name.skip(1).len() implies is_identifier_part(
            #[trigger] name.skip(1)[i],
        ) by {
            assert(name.skip(1)[i] == name[i + 1]);
        }
        lemma_identifier_run_of(name.skip(1), rest);
    }
}

/// An identifier in front of a text that does not go on with an identifier
/// character adds that identifier.
pub proof fn lemma_lex_identifier(name: Seq<char>, rest: Seq<char>)
    requires
        is_identifier(name),
        stops(rest, |c: char| is_identifier_part(c)),
    ensures
        lex(name + rest) == prepend_tokens(seq![TokenView::Identifier(name)], lex(rest)),
{
    let text = name + rest;
    lemma_identifier_run_of(name, rest);
    assert(text[0] == name[0]);
    assert(text.take(name.len() as int) == name);
    assert(text.skip(name.len() as int) == rest);
    assert(scan(text) == Ok::<Lexeme, ParseErrorView>(
        Lexeme { token: Some(TokenView::Identifier(name)), length: name.len() },
    ));
}

/// The names of a chord as they are written: separated by a comma and a
/// space.
pub open spec fn name_list(names: Seq<Seq<char>>) -> Seq<char>
    decreases names.len(),
{
    if names.len() == 0 {
        Seq::empty()
    } else if names.len() == 1 {
        names[0]
    } else {
        names[0] + seq![',', ' '] + name_list(names.skip(1))
    }
}

/// The tokens of the names of a chord: identifiers with commas between them.
pub open spec fn name_tokens(names: Seq<Seq<char>>) -> Seq<TokenView>
    decreases names.len(),
{
    if names.len() == 0 {
        Seq::empty()
    } else if names.len() == 1 {
        seq![TokenView::Identifier(names[0])]
    } else {
        seq![TokenView::Identifier(names[0]), TokenView::Comma] + name_tokens(names.skip(1))
    }
}

/// The keys that a list of names stands for.
pub open spec fn named_keys(names: Seq<Seq<char>>) -> Seq<KeyCode> {
    Seq::new(names.len(), |i: int| resolve_identifier(names[i])->Ok_0)
}

/// A statement as it is written.
pub enum Written {
    /// A string literal: `"text";`
    Text { text: Seq<char> },
    /// A string literal with its delay: `("text", 10);`
    Tuple { text: Seq<char>, delay_ms: u64 },
    /// A sleep: `250;`
    Sleep { duration_ms: u64 },
    /// A chord: `[A, B];`
    Chord { names: Seq<Seq<char>> },
}

impl Written {
    /// Whether the statement is valid: in a chord every name is spelled like
    /// an identifier and names a key. The other statements are always valid.
    pub open spec fn valid(self) -> bool {
        match self {
            Written::Chord { names } => forall|i: int|
                0 <= i < names.len() ==> is_identifier(#[trigger] names[i]) && resolve_identifier(
                    names[i],
                ) is Ok,
            _ => true,
        }
    }

    /// The text of the statement.
    pub open spec fn source(self) -> Seq<char> {
        match self {
            Written::Text { text } => quote(text) + seq![';'],
            Written::Tuple { text, delay_ms } => seq!['('] + quote(text) + seq![',', ' ']
                + decimal(delay_ms as nat) + seq![')', ';'],
            Written::Sleep { duration_ms } => decimal(duration_ms as nat) + seq![';'],
            Written::Chord { names } => seq!['['] + name_list(names) + seq![']', ';'],
        }
    }

    /// The tokens of the statement.
    pub open spec fn tokens(self) -> Seq<TokenView> {
        match self {
            Written::Text { text } => seq![TokenView::StringLiteral(text), TokenView::Semicolon],
            Written::Tuple { text, delay_ms } => seq![
                TokenView::LeftParen,
                TokenView::StringLiteral(text),
                TokenView::Comma,
                TokenView::Number(delay_ms),
                TokenView::RightParen,
                TokenView::Semicolon,
            ],
            Written::Sleep { duration_ms } => seq![
                TokenView::Number(duration_ms),
                TokenView::Semicolon,
            ],
            Written::Chord { names } => seq![TokenView::LeftBracket] + name_tokens(names) + seq![
                TokenView::RightBracket,
                TokenView::Semicolon,
            ],
        }
    }

    /// The action that the statement stands for.
    pub open spec fn action(self) -> ActionView {
        match self {
            Written::Text { text } => ActionView::TypeText { text, delay_ms: DEFAULT_DELAY_MS },
            Written::Tuple { text, delay_ms } => ActionView::TypeText { text, delay_ms },
            Written::Sleep { duration_ms } => ActionView::Sleep { duration_ms },
            Written::Chord { names } => ActionView::TypeChord { keys: named_keys(names) },
        }
    }
}

/// The names of a chord and the bracket that closes it, in front of a text,
/// add the tokens of the names and the bracket.
pub proof fn lemma_lex_name_list(names: Seq<Seq<char>>, rest: Seq<char>)
    requires
        forall|i: int| 0 <= i < names.len() ==> is_identifier(#[trigger] names[i]),
    ensures
        lex(name_list(names) + seq![']'] + rest) == prepend_tokens(
            name_tokens(names) + seq![TokenView::RightBracket],
            lex(rest),
        ),
    decreases names.len(),
{
    let close = seq![']'] + rest;
    let closed = prepend_tokens(seq![TokenView::RightBracket], lex(rest));
    lemma_lex_punctuation(']', rest);
    if names.len() == 0 {
        assert(name_list(names) + seq![']'] + rest == close);
        assert(name_tokens(names) + seq![TokenView::RightBracket] == seq![
            TokenView::RightBracket,
        ]);
    } else if names.len() == 1 {
        assert(is_identifier(names[0]));
        assert(name_list(names) + seq![']'] + rest == names[0] + close);
        lemma_lex_identifier(names[0], close);
        lemma_prepend_tokens_twice(
            seq![TokenView::Identifier(names[0])],
            seq![TokenView::RightBracket],
            lex(rest),
        );
    } else {
        let tail = names.skip(1);
        assert forall|i: int| 0 <= i < tail.len() implies is_identifier(#[trigger] tail[i]) by {
            assert(tail[i] == names[i + 1]);
        }
        lemma_lex_name_list(tail, rest);
        let after = name_list(tail) + seq![']'] + rest;
        let spaced = seq![' '] + after;
        let separated = seq![','] + spaced;
        assert(is_identifier(names[0]));
        assert(name_list(names) + seq![']'] + rest == names[0] + separated);
        lemma_lex_identifier(names[0], separated);
        lemma_lex_punctuation(',', spaced);
        lemma_lex_whitespace(' ', after);
        let more = prepend_tokens(name_tokens(tail) + seq![TokenView::RightBracket], lex(rest));
        lemma_prepend_tokens_twice(
            seq![TokenView::Comma],
            name_tokens(tail) + seq![TokenView::RightBracket],
            lex(rest),
        );
        lemma_prepend_tokens_twice(
            seq![TokenView::Identifier(names[0])],
            seq![TokenView::Comma] + (name_tokens(tail) + seq![TokenView::RightBracket]),
            lex(rest),
        );
        assert(seq![TokenView::Identifier(names[0])] + (seq![TokenView::Comma] + (name_tokens(
            tail,
        ) + seq![TokenView::RightBracket])) == name_tokens(names) + seq![
            TokenView::RightBracket,
        ]);
    }
}

/// A valid statement in front of a text adds its tokens.
pub proof fn lemma_lex_statement(written: Written, rest: Seq<char>)
    requires
        written.valid(),
    ensures
        lex(written.source() + rest) == prepend_tokens(written.tokens(), lex(rest)),
{
    let end = seq![';'] + rest;
    let ended = prepend_tokens(seq![TokenView::Semicolon], lex(rest));
    lemma_lex_punctuation(';', rest);
    match written {
        Written::Text { text } => {
            assert(written.source() + rest == quote(text) + end);
            lemma_lex_quote(text, end);
            lemma_prepend_tokens_twice(
                seq![TokenView::StringLiteral(text)],
                seq![TokenView::Semicolon],
                lex(rest),
            );
            assert(seq![TokenView::StringLiteral(text)] + seq![TokenView::Semicolon]
                == written.tokens());
        },
        Written::Tuple { text, delay_ms } => {
            let closed = seq![')'] + end;
            let number = decimal(delay_ms as nat) + closed;
            let spaced = seq![' '] + number;
            let separated = seq![','] + spaced;
            let quoted = quote(text) + separated;
            assert(written.source() + rest == seq!['('] + quoted);
            lemma_lex_punctuation('(', quoted);
            lemma_lex_quote(text, separated);
            lemma_lex_punctuation(',', spaced);
            lemma_lex_whitespace(' ', number);
            lemma_lex_decimal(delay_ms, closed);
            lemma_lex_punctuation(')', end);
            let t5 = seq![TokenView::RightParen] + seq![TokenView::Semicolon];
            lemma_prepend_tokens_twice(
                seq![TokenView::RightParen],
                seq![TokenView::Semicolon],
                lex(rest),
            );
            let t4 = seq![TokenView::Number(delay_ms)] + t5;
            lemma_prepend_tokens_twice(seq![TokenView::Number(delay_ms)], t5, lex(rest));
            let t3 = seq![TokenView::Comma] + t4;
            lemma_prepend_tokens_twice(seq![TokenView::Comma], t4, lex(rest));
            let t2 = seq![TokenView::StringLiteral(text)] + t3;
            lemma_prepend_tokens_twice(seq![TokenView::StringLiteral(text)], t3, lex(rest));
            lemma_prepend_tokens_twice(seq![TokenView::LeftParen], t2, lex(rest));
            assert(seq![TokenView::LeftParen] + t2 == written.tokens());
        },
        Written::Sleep { duration_ms } => {
            assert(written.source() + rest == decimal(duration_ms as nat) + end);
            lemma_lex_decimal(duration_ms, end);
            lemma_prepend_tokens_twice(
                seq![TokenView::Number(duration_ms)],
                seq![TokenView::Semicolon],
                lex(rest),
            );
            assert(seq![TokenView::Number(duration_ms)] + seq![TokenView::Semicolon]
                == written.tokens());
        },
        Written::Chord { names } => {
            let listed = name_list(names) + seq![']'] + end;
            assert(written.source() + rest == seq!['['] + listed);
            lemma_lex_punctuation('[', listed);
            lemma_lex_name_list(names, end);
            let inner = name_tokens(names) + seq![TokenView::RightBracket];
            lemma_prepend_tokens_twice(inner, seq![TokenView::Semicolon], lex(rest));
            lemma_prepend_tokens_twice(
                seq![TokenView::LeftBracket],
                inner + seq![TokenView::Semicolon],
                lex(rest),
            );
            assert(seq![TokenView::LeftBracket] + (inner + seq![TokenView::Semicolon])
                == written.tokens());
        },
    }
}

/// The tokens of the names of a chord and of the bracket that closes it
/// are read as the keys that the names stand for.
pub proof fn lemma_parse_names(names: Seq<Seq<char>>, more: Seq<TokenView>)
    requires
        forall|i: int| 0 <= i < names.len() ==> resolve_identifier(#[trigger] names[i]) is Ok,
    ensures
        parse_chord_keys(name_tokens(names) + seq![TokenView::RightBracket] + more) == Ok::<
            _,
            ParseErrorView,
        >((named_keys(names), name_tokens(names).len() + 1)),
    decreases names.len(),
{
    let tokens = name_tokens(names) + seq![TokenView::RightBracket] + more;
    if names.len() == 0 {
        assert(tokens[0] == TokenView::RightBracket);
        assert(named_keys(names) == Seq::<KeyCode>::empty());
    } else if names.len() == 1 {
        assert(resolve_identifier(names[0]) is Ok);
        assert(tokens[0] == TokenView::Identifier(names[0]));
        assert(tokens[1] == TokenView::RightBracket);
        assert(named_keys(names) == seq![resolve_identifier(names[0])->Ok_0]);
    } else {
        let tail = names.skip(1);
        assert forall|i: int| 0 <= i < tail.len() implies resolve_identifier(
            #[trigger] tail[i],
        ) is Ok by {
            assert(tail[i] == names[i + 1]);
        }
        lemma_parse_names(tail, more);
        assert(resolve_identifier(names[0]) is Ok);
        assert(tokens[0] == TokenView::Identifier(names[0]));
        assert(tokens[1] == TokenView::Comma);
        assert(tokens.skip(2) == name_tokens(tail) + seq![TokenView::RightBracket] + more);
        assert(named_keys(names) == seq![resolve_identifier(names[0])->Ok_0] + named_keys(tail))
            by {
            assert forall|i: int| 0 < i < names.len() implies named_keys(names)[i] == named_keys(
                tail,
            )[i - 1] by {
                assert(tail[i - 1] == names[i]);
            }
        }
    }
}

/// The tokens of a valid statement in front of more tokens add its action.
pub proof fn lemma_parse_statement(written: Written, rest: Seq<TokenView>)
    requires
        written.valid(),
    ensures
        parse_tokens(written.tokens() + rest) == prepend_actions(
            seq![written.action()],
            parse_tokens(rest),
        ),
{
    let own = written.tokens();
    let tokens = own + rest;
    match written {
        Written::Chord { names } => {
            let close = seq![TokenView::Semicolon] + rest;
            lemma_parse_names(names, close);
            assert(tokens[0] == TokenView::LeftBracket);
            assert(tokens.skip(1) == name_tokens(names) + seq![TokenView::RightBracket] + close);
            assert(tokens[name_tokens(names).len() as int + 2] == TokenView::Semicolon);
        },
        Written::Text { text } => {
            assert(tokens[0] == TokenView::StringLiteral(text));
            assert(tokens[1] == TokenView::Semicolon);
        },
        Written::Tuple { text, delay_ms } => {
            assert(tokens[0] == TokenView::LeftParen);
            assert(tokens[1] == TokenView::StringLiteral(text));
            assert(tokens[2] == TokenView::Comma);
            assert(tokens[3] == TokenView::Number(delay_ms));
            assert(tokens[4] == TokenView::RightParen);
            assert(tokens[5] == TokenView::Semicolon);
        },
        Written::Sleep { duration_ms } => {
            assert(tokens[0] == TokenView::Number(duration_ms));
            assert(tokens[1] == TokenView::Semicolon);
        },
    }
    assert(parse_statement(tokens) == Ok::<Statement, ParseErrorView>(
        Statement { action: Some(written.action()), length: own.len() },
    ));
    assert(tokens.skip(own.len() as int) == rest);
}

/// Every valid single statement is read as exactly its action, with the
/// text, the delay, the duration or the keys that it was written with.
pub proof fn lemma_single_statement(written: Written)
    requires
        written.valid(),
    ensures
        parse_script(written.source()) == Ok::<_, ParseErrorView>(seq![written.action()]),
{
    let nothing = Seq::<char>::empty();
    lemma_lex_statement(written, nothing);
    assert(written.source() + nothing == written.source());
    assert(lex(nothing) == Ok::<_, ParseErrorView>(Seq::<TokenView>::empty()));
    assert(written.tokens() + Seq::<TokenView>::empty() == written.tokens());
    lemma_parse_statement(written, Seq::empty());
    assert(seq![written.action()] + Seq::<ActionView>::empty() == seq![written.action()]);
}

/// The text of a script: its statements, each on a line of its own.
pub open spec fn written_source(statements: Seq<Written>) -> Seq<char>
    decreases statements.len(),
{
    if statements.len() == 0 {
        Seq::empty()
    } else {
        statements[0].source() + seq!['\n'] + written_source(statements.skip(1))
    }
}

/// The tokens of a script.
pub open spec fn written_tokens(statements: Seq<Written>) -> Seq<TokenView>
    decreases statements.len(),
{
    if statements.len() == 0 {
        Seq::empty()
    } else {
        statements[0].tokens() + written_tokens(statements.skip(1))
    }
}

/// The actions that the statements of a script stand for.
pub open spec fn written_actions(statements: Seq<Written>) -> Seq<ActionView> {
    Seq::new(statements.len(), |i: int| statements[i].action())
}

/// A script of valid statements is read as the actions of its statements,
/// in their order.
pub proof fn lemma_script_reads_back(statements: Seq<Written>)
    requires
        forall|i: int| 0 <= i < statements.len() ==> (#[trigger] statements[i]).valid(),
    ensures
        lex(written_source(statements)) == Ok::<_, ParseErrorView>(written_tokens(statements)),
        parse_tokens(written_tokens(statements)) == Ok::<_, ParseErrorView>(
            written_actions(statements),
        ),
        parse_script(written_source(statements)) == Ok::<_, ParseErrorView>(
            written_actions(statements),
        ),
    decreases statements.len(),
{
    if statements.len() == 0 {
        assert(written_actions(statements) == Seq::<ActionView>::empty());
    } else {
        let first = statements[0];
        let tail = statements.skip(1);
        assert forall|i: int| 0 <= i < tail.len() implies (#[trigger] tail[i]).valid() by {
            assert(tail[i] == statements[i + 1]);
        }
        lemma_script_reads_back(tail);
        assert(first.valid());
        let next_line = seq!['\n'] + written_source(tail);
        assert(written_source(statements) == first.source() + next_line);
        lemma_lex_statement(first, next_line);
        lemma_lex_whitespace('\n', written_source(tail));
        lemma_parse_statement(first, written_tokens(tail));
        assert(written_actions(statements) == seq![first.action()] + written_actions(tail)) by {
            assert forall|i: int| 0 < i < statements.len() implies written_actions(
                statements,
            )[i] == written_actions(tail)[i - 1] by {
                assert(tail[i - 1] == statements[i]);
            }
        }
    }
}

/// Whether the alias table has a name for every key of the action.
pub open spec fn has_names(action: ActionView) -> bool {
    action matches ActionView::TypeChord { keys } ==> forall|i: int|
        0 <= i < keys.len() ==> key_name(#[trigger] keys[i]) is Some
}

/// The first names of `keys` in the alias table.
pub open spec fn key_names(keys: Seq<KeyCode>) -> Seq<Seq<char>> {
    Seq::new(keys.len(), |i: int| key_name(keys[i])->0)
}

/// The canonical statement of an action. A text with the default delay is
/// written as a plain string literal.
pub open spec fn canonical(action: ActionView) -> Written {
    match action {
        ActionView::TypeText { text, delay_ms } => if delay_ms == DEFAULT_DELAY_MS {
            Written::Text { text }
        } else {
            Written::Tuple { text, delay_ms }
        },
        ActionView::Sleep { duration_ms } => Written::Sleep { duration_ms },
        ActionView::TypeChord { keys } => Written::Chord { names: key_names(keys) },
    }
}

/// The canonical text of a sequence of actions: the canonical statement of
/// each, on a line of its own.
pub open spec fn script_source(actions: Seq<ActionView>) -> Seq<char> {
    written_source(Seq::new(actions.len(), |i: int| canonical(actions[i])))
}

/// The first name of a key in the alias table is spelled like an identifier
/// and names that key.
pub proof fn lemma_key_name(key: KeyCode)
    ensures
        key_name(key) matches Some(name) ==> names_key(name, key),
{
    lemma_alias_spelling();
    lemma_key_name_resolves(key);
}

/// The canonical statement of an action is valid and stands for the action.
pub proof fn lemma_canonical(action: ActionView)
    requires
        has_names(action),
    ensures
        canonical(action).valid(),
        canonical(action).action() == action,
{
    if let ActionView::TypeChord { keys } = action {
        let names = key_names(keys);
        assert forall|i: int| 0 <= i < names.len() implies is_identifier(#[trigger] names[i])
            && resolve_identifier(names[i]) == Ok::<KeyCode, ParseErrorView>(keys[i]) by {
            assert(key_name(keys[i]) is Some);
            lemma_key_name(keys[i]);
        }
        assert(named_keys(names) == keys);
    }
}

/// The round trip: the canonical text of a sequence of actions is read back
/// as that sequence. A text with the default delay, which the canonical text
/// writes without its delay, gets the default delay back.
pub proof fn lemma_round_trip(actions: Seq<ActionView>)
    requires
        forall|i: int| 0 <= i < actions.len() ==> has_names(#[trigger] actions[i]),
    ensures
        parse_script(script_source(actions)) == Ok::<_, ParseErrorView>(actions),
{
    let statements = Seq::new(actions.len(), |i: int| canonical(actions[i]));
    assert forall|i: int| 0 <= i < statements.len() implies (#[trigger] statements[i]).valid()
        && statements[i].action() == actions[i] by {
        assert(has_names(actions[i]));
        lemma_canonical(actions[i]);
    }
    lemma_script_reads_back(statements);
    assert(written_actions(statements) == actions);
}

/// The keys of a chord that was read from tokens have names.
pub proof fn lemma_chord_keys_have_names(tokens: Seq<TokenView>)
    ensures
        parse_chord_keys(tokens) matches Ok((keys, _)) ==> forall|i: int|
            0 <= i < keys.len() ==> key_name(#[trigger] keys[i]) is Some,
    decreases tokens.len(),
{
    if let Ok((keys, _)) = parse_chord_keys(tokens) {
        if let Some(TokenView::Identifier(name)) = token_at(tokens, 0) {
            lemma_resolved_keys_have_names(strip_namespace(name));
            if tokens.len() >= 2 {
                lemma_chord_keys_have_names(tokens.skip(2));
            }
        }
    }
}

/// Every action that was read from tokens has names for its keys.
pub proof fn lemma_parsed_actions_have_names(tokens: Seq<TokenView>)
    ensures
        parse_tokens(tokens) matches Ok(actions) ==> forall|i: int|
            0 <= i < actions.len() ==> has_names(#[trigger] actions[i]),
    decreases tokens.len(),
{
    if tokens.len() > 0 {
        if let Ok(statement) = parse_statement(tokens) {
            lemma_statement_length(tokens);
            lemma_chord_keys_have_names(tokens.skip(1));
            lemma_parsed_actions_have_names(tokens.skip(statement.length as int));
        }
    }
}

/// Whatever a script is read as, the canonical text of that is read as the
/// same again.
pub proof fn lemma_reparse(text: Seq<char>)
    ensures
        parse_script(text) matches Ok(actions) ==> parse_script(script_source(actions)) == Ok::<
            _,
            ParseErrorView,
        >(actions),
{
    if let Ok(tokens) = lex(text) {
        lemma_parsed_actions_have_names(tokens);
        if let Ok(actions) = parse_tokens(tokens) {
            lemma_round_trip(actions);
        }
    }
}

} // verus!

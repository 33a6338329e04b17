//! Comments, and the proof that they do not matter.
//!
//! [`strip_comments`] removes the comments of a script and leaves everything
//! else as it is, the line feed at the end of each comment included. The
//! script has the same tokens with and without its comments.

use crate::parser::parse_script;
use crate::source::{
    lemma_digit_run_of, lemma_identifier_run_of, lemma_lex_punctuation, lemma_lex_whitespace,
    stops,
};
use crate::text::is_ascii_digit;
use crate::tokenizer::{
    comment_length, digit_run, identifier_run, is_identifier_part, is_identifier_start,
    is_whitespace, lemma_comment_length, lemma_digit_run, lemma_identifier_run,
    lemma_lexeme_length, lemma_prepend_no_token, lemma_string_literal_length, lex, opens_comment,
    punctuation, scan, string_literal,
};
use vstd::prelude::*;

verus! {

/// What is left of a comment, `body` beginning after the two slashes: the
/// line feed that ended it, if one did.
pub open spec fn comment_remainder(body: Seq<char>) -> Seq<char> {
    let length = comment_length(body);
    if 0 < length <= body.len() && body[length - 1] == '\n' {
        seq!['\n']
    } else {
        Seq::empty()
    }
}

/// `text` without its comments. A comment begins with two slashes outside a
/// string literal and runs to the end of its line; the line feed stays.
pub open spec fn strip_comments(text: Seq<char>) -> Seq<char>
    decreases text.len(),
    via strip_comments_terminates
{
    if text.len() == 0 {
        Seq::empty()
    } else if opens_comment(text) {
        let body = text.skip(2);
        comment_remainder(body) + strip_comments(body.skip(comment_length(body) as int))
    } else if text[0] == '"' {
        let length = 1 + string_literal(text.skip(1)).1;
        text.take(length as int) + strip_comments(text.skip(length as int))
    } else {
        seq![text[0]] + strip_comments(text.skip(1))
    }
}

#[via_fn]
proof fn strip_comments_terminates(text: Seq<char>) {
    if text.len() > 0 {
        if opens_comment(text) {
            lemma_comment_length(text.skip(2));
        } else if text[0] == '"' {
            lemma_string_literal_length(text.skip(1));
        }
    }
}

/// A comment ends with a line feed or with the text.
pub proof fn lemma_comment_end(body: Seq<char>)
    ensures
        comment_length(body) <= body.len(),
        comment_length(body) == body.len() || (comment_length(body) > 0 && body[comment_length(
            body,
        ) - 1] == '\n'),
    decreases body.len(),
{
    if body.len() > 0 && body[0] != '\n' {
        lemma_comment_end(body.skip(1));
    }
}

/// A comment without a line feed in it, and the line feed after it, are
/// skipped together and nothing more: the tokens are those of the text on
/// the following line.
pub proof fn lemma_comment_skips_one_line(comment: Seq<char>, rest: Seq<char>)
    requires
        !comment.contains('\n'),
    ensures
        comment_length(comment + seq!['\n'] + rest) == comment.len() + 1,
        lex(seq!['/', '/'] + comment + seq!['\n'] + rest) == lex(rest),
{
    lemma_comment_line(comment, rest);
    let body = comment + seq!['\n'] + rest;
    let text = seq!['/', '/'] + comment + seq!['\n'] + rest;
    assert(text.skip(2) == body);
    assert(text.skip(2 + comment.len() as int + 1) == rest);
    lemma_prepend_no_token(lex(rest));
}

proof fn lemma_comment_line(comment: Seq<char>, rest: Seq<char>)
    requires
        !comment.contains('\n'),
    ensures
        comment_length(comment + seq!['\n'] + rest) == comment.len() + 1,
    decreases comment.len(),
{
    let body = comment + seq!['\n'] + rest;
    if comment.len() == 0 {
        assert(body[0] == '\n');
    } else {
        assert(comment[0] != '\n');
        assert(body[0] == comment[0]);
        let tail = comment.skip(1);
        assert(!tail.contains('\n')) by {
            if tail.contains('\n') {
                let i = choose|i: int| 0 <= i < tail.len() && tail[i] == '\n';
                assert(comment[i + 1] == '\n');
            }
        }
        assert(body.skip(1) == tail + seq!['\n'] + rest);
        lemma_comment_line(tail, rest);
    }
}

/// A string literal that ends before the text does is the same literal with
/// anything else after it.
pub proof fn lemma_string_literal_prefix(body: Seq<char>, more: Seq<char>)
    requires
        string_literal(body).1 < body.len(),
    ensures
        string_literal(body.take(string_literal(body).1 as int) + more) == string_literal(body),
    decreases body.len(),
{
    let length = string_literal(body).1;
    let cut = body.take(length as int) + more;
    lemma_string_literal_length(body);
    if body[0] == '"' {
        assert(cut[0] == '"');
    } else if body[0] == '\\' {
        let tail = body.skip(2);
        lemma_string_literal_length(tail);
        lemma_string_literal_prefix(tail, more);
        assert(cut[0] == '\\');
        assert(cut[1] == body[1]);
        assert(cut.skip(2) == tail.take(string_literal(tail).1 as int) + more);
    } else {
        let tail = body.skip(1);
        lemma_string_literal_length(tail);
        lemma_string_literal_prefix(tail, more);
        assert(cut[0] == body[0]);
        assert(cut.skip(1) == tail.take(string_literal(tail).1 as int) + more);
    }
}

/// How a text without its comments begins: as the text does, unless the
/// text begins with a comment; then with the line feed of that comment, or
/// not at all.
pub proof fn lemma_strip_head(text: Seq<char>)
    ensures
        text.len() == 0 ==> strip_comments(text).len() == 0,
        opens_comment(text) ==> strip_comments(text).len() == 0 || strip_comments(text)[0]
            == '\n',
        text.len() > 0 && !opens_comment(text) ==> strip_comments(text).len() > 0
            && strip_comments(text)[0] == text[0],
{
    if text.len() > 0 {
        if opens_comment(text) {
            let body = text.skip(2);
            lemma_comment_end(body);
            let rest = body.skip(comment_length(body) as int);
            if comment_remainder(body).len() == 0 {
                assert(rest.len() == 0);
                assert(strip_comments(rest).len() == 0);
            }
        } else if text[0] == '"' {
            lemma_string_literal_length(text.skip(1));
        }
    }
}

/// A text without its comments does not begin with a character of a class
/// that holds neither the slash nor the line feed, unless the text does.
pub proof fn lemma_strip_stops(text: Seq<char>, class: spec_fn(char) -> bool)
    requires
        stops(text, class),
        !class('\n'),
    ensures
        stops(strip_comments(text), class),
{
    lemma_strip_head(text);
}

/// Characters in front of a text that are neither slashes nor double quotes
/// stay as they are.
pub proof fn lemma_strip_plain_run(text: Seq<char>, length: nat)
    requires
        length <= text.len(),
        forall|i: int| 0 <= i < length ==> text[i] != '/' && text[i] != '"',
    ensures
        strip_comments(text) == text.take(length as int) + strip_comments(
            text.skip(length as int),
        ),
    decreases length,
{
    if length == 0 {
        assert(text.skip(0) == text);
        assert(text.take(0) + strip_comments(text) == strip_comments(text));
    } else {
        let tail = text.skip(1);
        assert forall|i: int| 0 <= i < length - 1 implies tail[i] != '/' && tail[i] != '"' by {
            assert(tail[i] == text[i + 1]);
        }
        lemma_strip_plain_run(tail, (length - 1) as nat);
        assert(tail.skip(length - 1) == text.skip(length as int));
        assert(seq![text[0]] + (tail.take(length - 1) + strip_comments(
            text.skip(length as int),
        )) == text.take(length as int) + strip_comments(text.skip(length as int)));
    }
}

/// A script has the same tokens, or the same error, with and without its
/// comments.
pub proof fn lemma_lex_without_comments(text: Seq<char>)
    ensures
        lex(strip_comments(text)) == lex(text),
    decreases text.len(),
{
    let stripped = strip_comments(text);
    if text.len() == 0 {
    } else {
        let c = text[0];
        lemma_lexeme_length(text);
        lemma_strip_head(text);
        if is_whitespace(c) {
            let rest = text.skip(1);
            lemma_lex_without_comments(rest);
            lemma_lex_whitespace(c, strip_comments(rest));
            lemma_prepend_no_token(lex(rest));
        } else if opens_comment(text) {
            let body = text.skip(2);
            let rest = body.skip(comment_length(body) as int);
            lemma_comment_length(body);
            lemma_lex_without_comments(rest);
            assert(text.skip(2 + comment_length(body) as int) == rest);
            lemma_prepend_no_token(lex(rest));
            if comment_remainder(body).len() == 0 {
                assert(stripped == strip_comments(rest));
            } else {
                lemma_lex_whitespace('\n', strip_comments(rest));
            }
        } else if c == '"' {
            let body = text.skip(1);
            let length = string_literal(body).1;
            let rest = text.skip(1 + length as int);
            lemma_string_literal_length(body);
            lemma_lex_without_comments(rest);
            let cut = body.take(length as int) + strip_comments(rest);
            assert(stripped.skip(1) == cut);
            if length < body.len() {
                lemma_string_literal_prefix(body, strip_comments(rest));
            } else {
                assert(strip_comments(rest).len() == 0) by {
                    lemma_strip_head(rest);
                }
                assert(cut == body);
            }
            assert(stripped[0] == '"');
            assert(stripped.skip(1 + length as int) == strip_comments(rest));
        } else if is_ascii_digit(c) {
            let length = digit_run(text);
            let rest = text.skip(length as int);
            lemma_digit_run(text);
            lemma_strip_plain_run(text, length);
            lemma_strip_stops(rest, |c: char| is_ascii_digit(c));
            lemma_digit_run_of(text.take(length as int), strip_comments(rest));
            assert(stripped.take(length as int) == text.take(length as int));
            assert(stripped.skip(length as int) == strip_comments(rest));
            assert(scan(stripped) == scan(text));
            lemma_lex_without_comments(rest);
        } else if punctuation(c) is Some {
            let rest = text.skip(1);
            lemma_lex_without_comments(rest);
            lemma_lex_punctuation(c, strip_comments(rest));
        } else if is_identifier_start(c) {
            let length = identifier_run(text);
            let rest = text.skip(length as int);
            lemma_identifier_run(text);
            lemma_strip_plain_run(text, length);
            lemma_strip_stops(rest, |c: char| is_identifier_part(c));
            lemma_identifier_run_of(text.take(length as int), strip_comments(rest));
            assert(stripped.take(length as int) == text.take(length as int));
            assert(stripped.skip(length as int) == strip_comments(rest));
            assert(scan(stripped) == scan(text));
            lemma_lex_without_comments(rest);
        } else {
            let rest = text.skip(1);
            lemma_strip_head(rest);
            assert(stripped == seq![c] + strip_comments(rest));
            assert(!opens_comment(stripped));
            assert(scan(stripped) == scan(text));
        }
    }
}

/// A script is read as the same actions, or fails with the same error, with
/// and without its comments.
pub proof fn lemma_parse_without_comments(text: Seq<char>)
    ensures
        parse_script(strip_comments(text)) == parse_script(text),
{
    lemma_lex_without_comments(text);
}

/// Removing the comments of a script a second time changes nothing.
pub proof fn lemma_strip_comments_idempotent(text: Seq<char>)
    ensures
        strip_comments(strip_comments(text)) == strip_comments(text),
    decreases text.len(),
{
    let stripped = strip_comments(text);
    if text.len() == 0 {
    } else if opens_comment(text) {
        let body = text.skip(2);
        let rest = body.skip(comment_length(body) as int);
        lemma_comment_length(body);
        lemma_strip_comments_idempotent(rest);
        if comment_remainder(body).len() == 0 {
            assert(stripped == strip_comments(rest));
        } else {
            assert(stripped == seq!['\n'] + strip_comments(rest));
            assert(stripped.skip(1) == strip_comments(rest));
        }
    } else if text[0] == '"' {
        let body = text.skip(1);
        let length = string_literal(body).1;
        let rest = text.skip(1 + length as int);
        lemma_string_literal_length(body);
        lemma_strip_comments_idempotent(rest);
        let cut = body.take(length as int) + strip_comments(rest);
        assert(stripped.skip(1) == cut);
        if length < body.len() {
            lemma_string_literal_prefix(body, strip_comments(rest));
        } else {
            assert(strip_comments(rest).len() == 0) by {
                lemma_strip_head(rest);
            }
            assert(cut == body);
        }
        assert(stripped[0] == '"');
        assert(stripped.take(1 + length as int) == text.take(1 + length as int));
        assert(stripped.skip(1 + length as int) == strip_comments(rest));
    } else {
        let rest = text.skip(1);
        lemma_strip_comments_idempotent(rest);
        lemma_strip_head(rest);
        assert(stripped == seq![text[0]] + strip_comments(rest));
        assert(!opens_comment(stripped));
        assert(stripped.skip(1) == strip_comments(rest));
    }
}

} // verus!

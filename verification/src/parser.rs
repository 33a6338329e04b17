//! The parser: from tokens to actions, statement by statement, in one forward
//! pass that stops at the first error.
//!
//! The grammar is given by [`parse_statement`], which reads one statement at
//! the front of a token sequence, and [`parse_tokens`], which repeats it.
//! [`run_script`] goes from the text of a script to the steps that carry it
//! out.

use crate::error::{ParseError, ParseErrorView};
use crate::keys::{parse_key, resolve_identifier, KeyCode};
use crate::token::{token_views, Token, TokenView};
use crate::tokenizer::{lex, tokenize};
use crate::typewriter::{append_chord, append_text, chord_steps, text_steps, Step};
use vstd::prelude::*;
use vstd::string::StringExecFns;

verus! {

/// The delay after each character of a text that is written without one.
pub const DEFAULT_DELAY_MS: u64 = 50;

/// One executable step of a script.
#[derive(Debug, PartialEq, Eq)]
pub enum Action {
    /// Type the characters of `text` in order, waiting `delay_ms` after each.
    TypeText { text: String, delay_ms: u64 },
    /// Do nothing for `duration_ms`.
    Sleep { duration_ms: u64 },
    /// Press the keys in order, then release them in the same order.
    TypeChord { keys: Vec<KeyCode> },
}

/// The mathematical value of an [`Action`].
pub enum ActionView {
    TypeText { text: Seq<char>, delay_ms: u64 },
    Sleep { duration_ms: u64 },
    TypeChord { keys: Seq<KeyCode> },
}

impl View for Action {
    type V = ActionView;

    open spec fn view(&self) -> ActionView {
        match self {
            Action::TypeText { text, delay_ms } => ActionView::TypeText {
                text: text@,
                delay_ms: *delay_ms,
            },
            Action::Sleep { duration_ms } => ActionView::Sleep { duration_ms: *duration_ms },
            Action::TypeChord { keys } => ActionView::TypeChord { keys: keys@ },
        }
    }
}

impl Clone for Action {
    fn clone(&self) -> (copy: Self)
        ensures
            copy@ == self@,
    {
        match self {
            Action::TypeText { text, delay_ms } => Action::TypeText {
                text: text.clone(),
                delay_ms: *delay_ms,
            },
            Action::Sleep { duration_ms } => Action::Sleep { duration_ms: *duration_ms },
            Action::TypeChord { keys } => {
                let copy = keys.clone();
                assert(copy@ == keys@);
                Action::TypeChord { keys: copy }
            },
        }
    }
}

/// The values of a sequence of actions.
pub open spec fn action_views(actions: Seq<Action>) -> Seq<ActionView> {
    Seq::new(actions.len(), |i: int| actions[i]@)
}

/// What reading one statement yields: its action, unless it is an empty
/// statement, and the number of tokens it is made of.
pub struct Statement {
    pub action: Option<ActionView>,
    pub length: nat,
}

/// The token at position `i`, if there is one.
pub open spec fn token_at(tokens: Seq<TokenView>, i: int) -> Option<TokenView> {
    if 0 <= i < tokens.len() {
        Some(tokens[i])
    } else {
        None
    }
}

pub open spec fn invalid_syntax<T>(hint: &str) -> Result<T, ParseErrorView> {
    Err(ParseErrorView::InvalidSyntax(hint@))
}

/// A statement that begins with the string literal `text`: a semicolon must
/// follow. A comma there gets a hint at the tuple form.
pub open spec fn parse_text_statement(text: Seq<char>, tokens: Seq<TokenView>) -> Result<
    Statement,
    ParseErrorView,
> {
    match token_at(tokens, 1) {
        None => Err(ParseErrorView::UnexpectedEnd),
        Some(TokenView::Semicolon) => Ok(
            Statement {
                action: Some(ActionView::TypeText { text, delay_ms: DEFAULT_DELAY_MS }),
                length: 2,
            },
        ),
        Some(TokenView::Comma) => invalid_syntax(
            "String followed by comma - use parentheses for tuple: (\"text\", delay)",
        ),
        Some(other) => Err(ParseErrorView::UnexpectedToken(other.description())),
    }
}

/// A statement that begins with `(`: a string literal, a comma, a number, `)`
/// and a semicolon must follow.
pub open spec fn parse_tuple_statement(tokens: Seq<TokenView>) -> Result<
    Statement,
    ParseErrorView,
> {
    match token_at(tokens, 1) {
        None => Err(ParseErrorView::UnexpectedEnd),
        Some(TokenView::StringLiteral(text)) => match token_at(tokens, 2) {
            None => Err(ParseErrorView::UnexpectedEnd),
            Some(TokenView::Comma) => match token_at(tokens, 3) {
                None => Err(ParseErrorView::UnexpectedEnd),
                Some(TokenView::Number(delay_ms)) => match token_at(tokens, 4) {
                    None => Err(ParseErrorView::UnexpectedEnd),
                    Some(TokenView::RightParen) => match token_at(tokens, 5) {
                        None => Err(ParseErrorView::UnexpectedEnd),
                        Some(TokenView::Semicolon) => Ok(
                            Statement {
                                action: Some(ActionView::TypeText { text, delay_ms }),
                                length: 6,
                            },
                        ),
                        Some(_) => invalid_syntax("Expected semicolon after tuple"),
                    },
                    Some(_) => invalid_syntax("Expected ) after delay"),
                },
                Some(_) => invalid_syntax("Expected number for delay"),
            },
            Some(_) => invalid_syntax("Expected comma in tuple"),
        },
        Some(_) => invalid_syntax("Expected string in tuple"),
    }
}

/// A statement that begins with the number `duration_ms`: a semicolon must
/// follow. The end of the tokens in its place is an unexpected end, as
/// everywhere inside a statement.
pub open spec fn parse_number_statement(duration_ms: u64, tokens: Seq<TokenView>) -> Result<
    Statement,
    ParseErrorView,
> {
    match token_at(tokens, 1) {
        None => Err(ParseErrorView::UnexpectedEnd),
        Some(TokenView::Semicolon) => Ok(
            Statement { action: Some(ActionView::Sleep { duration_ms }), length: 2 },
        ),
        Some(_) => invalid_syntax("Expected semicolon after number"),
    }
}

/// The inside of a chord, `tokens` beginning after the `[` or after a comma:
/// the keys up to the closing `]` and the number of tokens read, the `]`
/// included. Identifiers are separated by commas; a comma may stand before
/// the `]`.
pub open spec fn parse_chord_keys(tokens: Seq<TokenView>) -> Result<
    (Seq<KeyCode>, nat),
    ParseErrorView,
>
    decreases tokens.len(),
{
    match token_at(tokens, 0) {
        None => Err(ParseErrorView::UnexpectedEnd),
        Some(TokenView::RightBracket) => Ok((Seq::empty(), 1)),
        Some(TokenView::Identifier(name)) => match resolve_identifier(name) {
            Err(error) => Err(error),
            Ok(key) => match token_at(tokens, 1) {
                None => Err(ParseErrorView::UnexpectedEnd),
                Some(TokenView::Comma) => match parse_chord_keys(tokens.skip(2)) {
                    Err(error) => Err(error),
                    Ok((keys, length)) => Ok((seq![key] + keys, length + 2)),
                },
                Some(TokenView::RightBracket) => Ok((seq![key], 2)),
                Some(_) => invalid_syntax("Expected comma or ] in key array"),
            },
        },
        Some(_) => invalid_syntax("Expected key identifier in array"),
    }
}

/// A statement that begins with `[`: the keys, `]` and a semicolon must
/// follow. The end of the tokens in place of the semicolon is an unexpected
/// end.
pub open spec fn parse_chord_statement(tokens: Seq<TokenView>) -> Result<
    Statement,
    ParseErrorView,
> {
    match parse_chord_keys(tokens.skip(1)) {
        Err(error) => Err(error),
        Ok((keys, length)) => match token_at(tokens, 1 + length as int) {
            None => Err(ParseErrorView::UnexpectedEnd),
            Some(TokenView::Semicolon) => Ok(
                Statement { action: Some(ActionView::TypeChord { keys }), length: length + 2 },
            ),
            Some(_) => invalid_syntax("Expected semicolon after key array"),
        },
    }
}

/// The statement at the front of `tokens`, which is not empty. A semicolon
/// alone is an empty statement.
pub open spec fn parse_statement(tokens: Seq<TokenView>) -> Result<Statement, ParseErrorView>
    recommends
        tokens.len() > 0,
{
    match tokens[0] {
        TokenView::StringLiteral(text) => parse_text_statement(text, tokens),
        TokenView::LeftParen => parse_tuple_statement(tokens),
        TokenView::Number(duration_ms) => parse_number_statement(duration_ms, tokens),
        TokenView::LeftBracket => parse_chord_statement(tokens),
        TokenView::Semicolon => Ok(Statement { action: None, length: 1 }),
        other => Err(ParseErrorView::UnexpectedToken(other.description())),
    }
}

/// `actions` in front of what `rest` holds, or the error of `rest`.
pub open spec fn prepend_actions(
    actions: Seq<ActionView>,
    rest: Result<Seq<ActionView>, ParseErrorView>,
) -> Result<Seq<ActionView>, ParseErrorView> {
    match rest {
        Ok(more) => Ok(actions + more),
        Err(error) => Err(error),
    }
}

/// The actions of a statement: one or none.
pub open spec fn statement_actions(statement: Statement) -> Seq<ActionView> {
    match statement.action {
        Some(action) => seq![action],
        None => Seq::empty(),
    }
}

/// The actions that `tokens` describe, statement after statement, or the
/// error of the first statement that has one.
pub open spec fn parse_tokens(tokens: Seq<TokenView>) -> Result<Seq<ActionView>, ParseErrorView>
    decreases tokens.len(),
    via parse_tokens_terminates
{
    if tokens.len() == 0 {
        Ok(Seq::empty())
    } else {
        match parse_statement(tokens) {
            Err(error) => Err(error),
            Ok(statement) => prepend_actions(
                statement_actions(statement),
                parse_tokens(tokens.skip(statement.length as int)),
            ),
        }
    }
}

#[via_fn]
proof fn parse_tokens_terminates(tokens: Seq<TokenView>) {
    if tokens.len() > 0 {
        lemma_statement_length(tokens);
    }
}

/// The keys of a chord end within the tokens.
pub proof fn lemma_chord_keys_length(tokens: Seq<TokenView>)
    ensures
        parse_chord_keys(tokens) matches Ok((_, length)) ==> 0 < length <= tokens.len(),
    decreases tokens.len(),
{
    if tokens.len() >= 2 {
        lemma_chord_keys_length(tokens.skip(2));
    }
}

/// A chord that was read has no keys exactly if its brackets stand side by
/// side: nothing but an empty pair of brackets gives an empty chord.
pub proof fn lemma_empty_chord(tokens: Seq<TokenView>)
    ensures
        parse_chord_keys(tokens) matches Ok((keys, _)) ==> (keys.len() == 0 <==> token_at(
            tokens,
            0,
        ) == Some(TokenView::RightBracket)),
{
}

/// The inside of a chord that is cut short ends unexpectedly, and one that
/// is cut after its closing bracket is read as before.
pub proof fn lemma_chord_keys_cut_short(tokens: Seq<TokenView>, cut: int)
    requires
        parse_chord_keys(tokens) is Ok,
        0 <= cut <= tokens.len(),
    ensures
        cut < parse_chord_keys(tokens)->Ok_0.1 ==> parse_chord_keys(tokens.take(cut)) == Err::<
            (Seq<KeyCode>, nat),
            _,
        >(ParseErrorView::UnexpectedEnd),
        cut >= parse_chord_keys(tokens)->Ok_0.1 ==> parse_chord_keys(tokens.take(cut))
            == parse_chord_keys(tokens),
    decreases tokens.len(),
{
    let shorter = tokens.take(cut);
    lemma_chord_keys_length(tokens);
    if cut >= 1 {
        assert(shorter[0] == tokens[0]);
    }
    if cut >= 2 {
        assert(shorter[1] == tokens[1]);
        if tokens[0] is Identifier && tokens[1] is Comma {
            assert(shorter.skip(2) == tokens.skip(2).take(cut - 2));
            lemma_chord_keys_cut_short(tokens.skip(2), cut - 2);
        }
    }
}

/// A statement that is cut short anywhere ends unexpectedly: where the
/// tokens end inside a statement, the error is never one of syntax.
pub proof fn lemma_statement_cut_short(tokens: Seq<TokenView>, cut: int)
    requires
        tokens.len() > 0,
        parse_statement(tokens) is Ok,
        0 < cut < parse_statement(tokens)->Ok_0.length,
    ensures
        parse_statement(tokens.take(cut)) == Err::<Statement, _>(ParseErrorView::UnexpectedEnd),
{
    let shorter = tokens.take(cut);
    lemma_statement_length(tokens);
    assert(shorter[0] == tokens[0]);
    assert forall|i: int| 0 <= i < cut implies token_at(shorter, i) == token_at(tokens, i) by {
        assert(shorter[i] == tokens[i]);
    }
    if tokens[0] is LeftBracket {
        let inside = tokens.skip(1);
        assert(shorter.skip(1) == inside.take(cut - 1));
        lemma_chord_keys_length(inside);
        lemma_chord_keys_cut_short(inside, cut - 1);
    }
}

/// A statement is made of at least one token and ends within the tokens.
pub proof fn lemma_statement_length(tokens: Seq<TokenView>)
    requires
        tokens.len() > 0,
    ensures
        parse_statement(tokens) matches Ok(statement) ==> 0 < statement.length <= tokens.len(),
{
    lemma_chord_keys_length(tokens.skip(1));
}

/// The value of an action that may be absent.
pub open spec fn optional_action_view(action: Option<Action>) -> Option<ActionView> {
    match action {
        Some(action) => Some(action@),
        None => None,
    }
}

/// `keys` in front of the keys that `rest` holds, with `length` more tokens
/// read, or the error of `rest`.
pub open spec fn prepend_keys(
    keys: Seq<KeyCode>,
    length: nat,
    rest: Result<(Seq<KeyCode>, nat), ParseErrorView>,
) -> Result<(Seq<KeyCode>, nat), ParseErrorView> {
    match rest {
        Ok((more, more_length)) => Ok((keys + more, length + more_length)),
        Err(error) => Err(error),
    }
}

proof fn lemma_token_at_skip(tokens: Seq<TokenView>, from: int, i: int)
    requires
        0 <= from <= tokens.len(),
        0 <= i,
    ensures
        token_at(tokens.skip(from), i) == token_at(tokens, from + i),
{
}

fn syntax_error(hint: &str) -> (error: ParseError)
    ensures
        error@ == ParseErrorView::InvalidSyntax(hint@),
{
    ParseError::InvalidSyntax(String::from_str(hint))
}

fn unexpected_token(token: &Token) -> (error: ParseError)
    ensures
        error@ == ParseErrorView::UnexpectedToken(token@.description()),
{
    ParseError::UnexpectedToken(token.description())
}

/// Reads the inside of a chord from `tokens[start..]`. Gives the keys and the
/// position after the closing `]`.
fn read_chord_keys(tokens: &[Token], start: usize) -> (result: Result<
    (Vec<KeyCode>, usize),
    ParseError,
>)
    requires
        start <= tokens.len(),
    ensures
        match result {
            Ok((keys, end)) => start < end <= tokens.len() && parse_chord_keys(
                token_views(tokens@).skip(start as int),
            ) == Ok::<_, ParseErrorView>((keys@, (end - start) as nat)),
            Err(error) => parse_chord_keys(token_views(tokens@).skip(start as int)) == Err::<
                (Seq<KeyCode>, nat),
                _,
            >(error@),
        },
{
    let ghost all = token_views(tokens@);
    let mut keys: Vec<KeyCode> = Vec::new();
    let mut i: usize = start;
    assert(keys@ + Seq::<KeyCode>::empty() == Seq::<KeyCode>::empty());
    loop
        invariant
            all == token_views(tokens@),
            start <= i <= tokens.len(),
            parse_chord_keys(all.skip(start as int)) == prepend_keys(
                keys@,
                (i - start) as nat,
                parse_chord_keys(all.skip(i as int)),
            ),
        decreases tokens.len() - i,
    {
        let ghost here = all.skip(i as int);
        proof {
            lemma_token_at_skip(all, i as int, 0);
            lemma_token_at_skip(all, i as int, 1);
        }
        if i >= tokens.len() {
            return Err(ParseError::UnexpectedEnd);
        }
        match &tokens[i] {
            Token::Identifier(name) => {
                let key = match parse_key(name.as_str()) {
                    Ok(key) => key,
                    Err(error) => {
                        return Err(error);
                    },
                };
                if i + 1 >= tokens.len() {
                    return Err(ParseError::UnexpectedEnd);
                }
                match &tokens[i + 1] {
                    Token::Comma => {
                        proof {
                            assert(here.skip(2) == all.skip(i + 2));
                            let rest = parse_chord_keys(all.skip(i + 2));
                            if let Ok((more, _)) = rest {
                                assert(keys@.push(key) + more == keys@ + (seq![key] + more));
                            }
                        }
                        keys.push(key);
                        i += 2;
                    },
                    Token::RightBracket => {
                        proof {
                            assert(keys@.push(key) == keys@ + seq![key]);
                        }
                        keys.push(key);
                        return Ok((keys, i + 2));
                    },
                    _ => {
                        return Err(syntax_error("Expected comma or ] in key array"));
                    },
                }
            },
            Token::RightBracket => {
                proof {
                    assert(keys@ + Seq::<KeyCode>::empty() == keys@);
                }
                return Ok((keys, i + 1));
            },
            _ => {
                return Err(syntax_error("Expected key identifier in array"));
            },
        }
    }
}

/// Reads the statement that begins at `tokens[i]`. Gives its action, if it
/// has one, and the position after it.
fn read_statement(tokens: &[Token], i: usize) -> (result: Result<(Option<Action>, usize), ParseError>)
    requires
        i < tokens.len(),
    ensures
        match result {
            Ok((action, next)) => i < next <= tokens.len() && parse_statement(
                token_views(tokens@).skip(i as int),
            ) == Ok::<_, ParseErrorView>(
                Statement { action: optional_action_view(action), length: (next - i) as nat },
            ),
            Err(error) => parse_statement(token_views(tokens@).skip(i as int)) == Err::<
                Statement,
                _,
            >(error@),
        },
{
    let ghost all = token_views(tokens@);
    proof {
        lemma_token_at_skip(all, i as int, 0);
        lemma_token_at_skip(all, i as int, 1);
        lemma_token_at_skip(all, i as int, 2);
        lemma_token_at_skip(all, i as int, 3);
        lemma_token_at_skip(all, i as int, 4);
        lemma_token_at_skip(all, i as int, 5);
    }
    let n = tokens.len();
    match &tokens[i] {
        Token::StringLiteral(text) => {
            if i + 1 >= n {
                return Err(ParseError::UnexpectedEnd);
            }
            match &tokens[i + 1] {
                Token::Semicolon => Ok(
                    (
                        Some(Action::TypeText { text: text.clone(), delay_ms: DEFAULT_DELAY_MS }),
                        i + 2,
                    ),
                ),
                Token::Comma => Err(
                    syntax_error(
                        "String followed by comma - use parentheses for tuple: (\"text\", delay)",
                    ),
                ),
                other => Err(unexpected_token(other)),
            }
        },
        Token::LeftParen => {
            if i + 1 >= n {
                return Err(ParseError::UnexpectedEnd);
            }
            let text = match &tokens[i + 1] {
                Token::StringLiteral(text) => text.clone(),
                _ => {
                    return Err(syntax_error("Expected string in tuple"));
                },
            };
            if i + 2 >= n {
                return Err(ParseError::UnexpectedEnd);
            }
            match &tokens[i + 2] {
                Token::Comma => {},
                _ => {
                    return Err(syntax_error("Expected comma in tuple"));
                },
            }
            if i + 3 >= n {
                return Err(ParseError::UnexpectedEnd);
            }
            let delay_ms = match &tokens[i + 3] {
                Token::Number(delay_ms) => *delay_ms,
                _ => {
                    return Err(syntax_error("Expected number for delay"));
                },
            };
            if i + 4 >= n {
                return Err(ParseError::UnexpectedEnd);
            }
            match &tokens[i + 4] {
                Token::RightParen => {},
                _ => {
                    return Err(syntax_error("Expected ) after delay"));
                },
            }
            if i + 5 >= n {
                return Err(ParseError::UnexpectedEnd);
            }
            match &tokens[i + 5] {
                Token::Semicolon => Ok((Some(Action::TypeText { text, delay_ms }), i + 6)),
                _ => Err(syntax_error("Expected semicolon after tuple")),
            }
        },
        Token::Number(duration_ms) => {
            if i + 1 >= n {
                return Err(ParseError::UnexpectedEnd);
            }
            match &tokens[i + 1] {
                Token::Semicolon => Ok((Some(Action::Sleep { duration_ms: *duration_ms }), i + 2)),
                _ => Err(syntax_error("Expected semicolon after number")),
            }
        },
        Token::LeftBracket => {
            proof {
                assert(all.skip(i as int).skip(1) == all.skip(i + 1));
            }
            let (keys, end) = match read_chord_keys(tokens, i + 1) {
                Ok(read) => read,
                Err(error) => {
                    return Err(error);
                },
            };
            proof {
                lemma_token_at_skip(all, i as int, end - i);
            }
            if end >= n {
                return Err(ParseError::UnexpectedEnd);
            }
            match &tokens[end] {
                Token::Semicolon => Ok((Some(Action::TypeChord { keys }), end + 1)),
                _ => Err(syntax_error("Expected semicolon after key array")),
            }
        },
        Token::Semicolon => Ok((None, i + 1)),
        other => Err(unexpected_token(other)),
    }
}

/// Parses a token sequence into the actions it describes. Four statements
/// exist, each closed by a semicolon: a string literal (typed with the
/// default delay), a tuple of a string literal and a delay, a number (a
/// sleep), and a chord of key names in square brackets. A semicolon alone is
/// skipped. The first error ends the parse, and no action is returned then.
/// Where the tokens end inside a statement, the error is `UnexpectedEnd`;
/// a token that cannot stand where it is found gives one of the others.
pub fn parse_actions(tokens: &[Token]) -> (result: Result<Vec<Action>, ParseError>)
    ensures
        match result {
            Ok(actions) => parse_tokens(token_views(tokens@)) == Ok::<_, ParseErrorView>(
                action_views(actions@),
            ),
            Err(error) => parse_tokens(token_views(tokens@)) == Err::<Seq<ActionView>, _>(error@),
        },
{
    let ghost all = token_views(tokens@);
    let mut actions: Vec<Action> = Vec::new();
    let mut i: usize = 0;
    assert(all.skip(0) == all);
    assert(action_views(actions@) == Seq::<ActionView>::empty());
    proof {
        lemma_prepend_nothing(parse_tokens(all));
    }
    while i < tokens.len()
        invariant
            all == token_views(tokens@),
            i <= tokens.len(),
            parse_tokens(all) == prepend_actions(
                action_views(actions@),
                parse_tokens(all.skip(i as int)),
            ),
        decreases tokens.len() - i,
    {
        let ghost here = all.skip(i as int);
        let ghost before = action_views(actions@);
        match read_statement(tokens, i) {
            Err(error) => {
                return Err(error);
            },
            Ok((action, next)) => {
                proof {
                    assert(here.skip(next - i) == all.skip(next as int));
                }
                match action {
                    Some(action) => {
                        actions.push(action);
                        proof {
                            assert(action_views(actions@) == before.push(action@));
                            lemma_prepend_twice(
                                before,
                                seq![action@],
                                parse_tokens(all.skip(next as int)),
                            );
                            assert(before + seq![action@] == before.push(action@));
                        }
                    },
                    None => {
                        proof {
                            lemma_prepend_nothing(parse_tokens(all.skip(next as int)));
                        }
                    },
                }
                i = next;
            },
        }
    }
    proof {
        assert(action_views(actions@) + Seq::<ActionView>::empty() == action_views(actions@));
    }
    Ok(actions)
}

/// Prepending no action changes nothing.
pub proof fn lemma_prepend_nothing(rest: Result<Seq<ActionView>, ParseErrorView>)
    ensures
        prepend_actions(Seq::empty(), rest) == rest,
{
    if let Ok(more) = rest {
        assert(Seq::<ActionView>::empty() + more == more);
    }
}

/// Prepending in two steps is prepending the concatenation.
pub proof fn lemma_prepend_twice(
    first: Seq<ActionView>,
    second: Seq<ActionView>,
    rest: Result<Seq<ActionView>, ParseErrorView>,
)
    ensures
        prepend_actions(first, prepend_actions(second, rest)) == prepend_actions(
            first + second,
            rest,
        ),
{
    if let Ok(more) = rest {
        assert(first + (second + more) == (first + second) + more);
    }
}

/// The actions that the text of a script describes.
pub open spec fn parse_script(text: Seq<char>) -> Result<Seq<ActionView>, ParseErrorView> {
    match lex(text) {
        Ok(tokens) => parse_tokens(tokens),
        Err(error) => Err(error),
    }
}

/// The steps of one action.
pub open spec fn action_steps(action: ActionView) -> Seq<Step> {
    match action {
        ActionView::TypeText { text, delay_ms } => text_steps(text, delay_ms),
        ActionView::Sleep { duration_ms } => seq![Step::Wait(duration_ms)],
        ActionView::TypeChord { keys } => chord_steps(keys),
    }
}

/// The steps of a sequence of actions: those of each action, in order.
pub open spec fn script_steps(actions: Seq<ActionView>) -> Seq<Step>
    decreases actions.len(),
{
    if actions.len() == 0 {
        Seq::empty()
    } else {
        script_steps(actions.drop_last()) + action_steps(actions.last())
    }
}

/// Works out the steps that carry out `actions`, strictly in their order:
/// a text is typed character by character, a sleep is one wait, a chord
/// presses its keys and then releases them.
pub fn execute_actions(actions: &[Action]) -> (steps: Vec<Step>)
    ensures
        steps@ == script_steps(action_views(actions@)),
{
    let ghost all = action_views(actions@);
    let mut steps: Vec<Step> = Vec::new();
    let mut i: usize = 0;
    while i < actions.len()
        invariant
            all == action_views(actions@),
            i <= actions.len(),
            steps@ == script_steps(all.take(i as int)),
        decreases actions.len() - i,
    {
        proof {
            let longer = all.take(i + 1);
            assert(longer.drop_last() == all.take(i as int));
            assert(longer.last() == actions@[i as int]@);
        }
        match &actions[i] {
            Action::TypeText { text, delay_ms } => {
                append_text(&mut steps, text.as_str(), *delay_ms);
            },
            Action::Sleep { duration_ms } => {
                steps.push(Step::Wait(*duration_ms));
            },
            Action::TypeChord { keys } => {
                append_chord(&mut steps, keys);
            },
        }
        i += 1;
    }
    assert(all.take(i as int) == all);
    steps
}

/// Parses a script and works out the steps that carry it out. A script with
/// an error has no steps at all: the first error of the tokenizer or of the
/// parser is returned as it is.
pub fn run_script(script: &str) -> (result: Result<Vec<Step>, ParseError>)
    ensures
        match parse_script(script@) {
            Ok(actions) => result matches Ok(steps) && steps@ == script_steps(actions),
            Err(error) => result matches Err(found) && found@ == error,
        },
{
    let tokens = match tokenize(script) {
        Ok(tokens) => tokens,
        Err(error) => {
            return Err(error);
        },
    };
    let actions = match parse_actions(tokens.as_slice()) {
        Ok(actions) => actions,
        Err(error) => {
            return Err(error);
        },
    };
    Ok(execute_actions(actions.as_slice()))
}

} // verus!

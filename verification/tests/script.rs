use typewriter::error::ParseError;
use typewriter::keys::KeyCode;
use typewriter::parser::{execute_actions, run_script, Action};
use typewriter::typewriter::{sleep, type_chord, type_string, KeyEvent, Step};

fn key_down(key: KeyCode) -> Step {
    Step::Emit(KeyEvent::KeyPress(key))
}

fn key_up(key: KeyCode) -> Step {
    Step::Emit(KeyEvent::KeyRelease(key))
}

#[test]
fn chord_statement_presses_then_releases_in_order() {
    assert_eq!(
        run_script("[A, B, C];"),
        Ok(vec![
            key_down(KeyCode::KeyA),
            Step::Wait(50),
            key_down(KeyCode::KeyB),
            Step::Wait(50),
            key_down(KeyCode::KeyC),
            Step::Wait(50),
            key_up(KeyCode::KeyA),
            Step::Wait(50),
            key_up(KeyCode::KeyB),
            Step::Wait(50),
            key_up(KeyCode::KeyC),
            Step::Wait(50),
        ])
    );
}

#[test]
fn empty_chord_statement_does_nothing() {
    assert_eq!(run_script("[];"), Ok(vec![]));
}

#[test]
fn empty_script_does_nothing() {
    assert_eq!(run_script(""), Ok(vec![]));
    assert_eq!(run_script("// nothing here"), Ok(vec![]));
}

#[test]
fn sleep_statement_is_one_wait() {
    assert_eq!(run_script("250;"), Ok(vec![Step::Wait(250)]));
}

#[test]
fn plain_string_statement_types_with_default_delay() {
    assert_eq!(
        run_script("\"a\";"),
        Ok(vec![
            key_down(KeyCode::KeyA),
            Step::Wait(50),
            key_up(KeyCode::KeyA),
            Step::Wait(50),
            Step::Wait(50),
        ])
    );
}

#[test]
fn tuple_statement_types_with_its_delay() {
    assert_eq!(
        run_script("(\"a\", 9);"),
        Ok(vec![
            key_down(KeyCode::KeyA),
            Step::Wait(50),
            key_up(KeyCode::KeyA),
            Step::Wait(50),
            Step::Wait(9),
        ])
    );
}

#[test]
fn actions_run_strictly_in_order() {
    let mut expected = type_chord(vec![KeyCode::MetaLeft, KeyCode::Space]);
    expected.extend(sleep(300));
    expected.extend(type_string("Chro".to_string(), 40));
    expected.extend(type_chord(vec![KeyCode::Return]));
    assert_eq!(run_script("[Cmd, Space]; 300; (\"Chro\", 40); [Return];"), Ok(expected));
}

#[test]
fn execute_actions_concatenates_the_steps_of_each_action() {
    let actions = vec![
        Action::Sleep { duration_ms: 1 },
        Action::TypeChord { keys: vec![KeyCode::Tab] },
        Action::TypeText { text: "x".to_string(), delay_ms: 2 },
    ];
    let mut expected = sleep(1);
    expected.extend(type_chord(vec![KeyCode::Tab]));
    expected.extend(type_string("x".to_string(), 2));
    assert_eq!(execute_actions(&actions), expected);
    assert_eq!(execute_actions(&[]), vec![]);
}

#[test]
fn script_with_an_error_has_no_steps() {
    assert_eq!(
        run_script("[A]; \"a\", 5;"),
        Err(ParseError::InvalidSyntax(
            "String followed by comma - use parentheses for tuple: (\"text\", delay)".to_string()
        ))
    );
    assert_eq!(run_script("[A]; [Foo];"), Err(ParseError::UnknownKey("Foo".to_string())));
    assert_eq!(run_script("[A]; ("), Err(ParseError::UnexpectedEnd));
    assert_eq!(run_script("[A]; $"), Err(ParseError::UnexpectedToken("$".to_string())));
}

#[test]
fn tokenizer_error_comes_before_parser_error() {
    assert_eq!(run_script("[Foo]; $"), Err(ParseError::UnexpectedToken("$".to_string())));
}

#[test]
fn script_with_comments_runs_like_the_script_without() {
    assert_eq!(
        run_script("[A]; // press a\n10; // wait\n"),
        run_script("[A]; \n10; \n")
    );
}

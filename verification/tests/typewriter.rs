use typewriter::keys::KeyCode;
use typewriter::typewriter::{
    keys_for_char, send, sleep, type_char, type_chord, type_string, KeyEvent, Step,
    SETTLE_DELAY_MS,
};

fn press(key: KeyCode) -> Step {
    Step::Emit(KeyEvent::KeyPress(key))
}

fn release(key: KeyCode) -> Step {
    Step::Emit(KeyEvent::KeyRelease(key))
}

fn settle() -> Step {
    Step::Wait(50)
}

fn events(steps: &[Step]) -> Vec<KeyEvent> {
    let mut found = Vec::new();
    for step in steps {
        if let Step::Emit(event) = step {
            found.push(*event);
        }
    }
    found
}

#[test]
fn settle_delay_is_fifty_milliseconds() {
    assert_eq!(SETTLE_DELAY_MS, 50);
}

#[test]
fn sleep_is_one_wait() {
    assert_eq!(sleep(300), vec![Step::Wait(300)]);
    assert_eq!(sleep(0), vec![Step::Wait(0)]);
}

#[test]
fn send_is_followed_by_the_settle_delay() {
    assert_eq!(
        send(KeyEvent::KeyPress(KeyCode::Tab)),
        vec![Step::Emit(KeyEvent::KeyPress(KeyCode::Tab)), Step::Wait(50)]
    );
    assert_eq!(
        send(KeyEvent::KeyRelease(KeyCode::Tab)),
        vec![Step::Emit(KeyEvent::KeyRelease(KeyCode::Tab)), Step::Wait(50)]
    );
}

#[test]
fn chord_presses_all_then_releases_all_in_the_same_order() {
    let steps = type_chord(vec![KeyCode::KeyA, KeyCode::KeyB, KeyCode::KeyC]);
    assert_eq!(
        steps,
        vec![
            press(KeyCode::KeyA),
            settle(),
            press(KeyCode::KeyB),
            settle(),
            press(KeyCode::KeyC),
            settle(),
            release(KeyCode::KeyA),
            settle(),
            release(KeyCode::KeyB),
            settle(),
            release(KeyCode::KeyC),
            settle(),
        ]
    );
    assert_eq!(
        events(&steps),
        vec![
            KeyEvent::KeyPress(KeyCode::KeyA),
            KeyEvent::KeyPress(KeyCode::KeyB),
            KeyEvent::KeyPress(KeyCode::KeyC),
            KeyEvent::KeyRelease(KeyCode::KeyA),
            KeyEvent::KeyRelease(KeyCode::KeyB),
            KeyEvent::KeyRelease(KeyCode::KeyC),
        ]
    );
}

#[test]
fn chord_of_one_key() {
    assert_eq!(
        type_chord(vec![KeyCode::Return]),
        vec![press(KeyCode::Return), settle(), release(KeyCode::Return), settle()]
    );
}

#[test]
fn empty_chord_has_no_steps() {
    assert_eq!(type_chord(vec![]), vec![]);
}

#[test]
fn lower_case_letter_is_its_key() {
    assert_eq!(keys_for_char('a'), vec![KeyCode::KeyA]);
    assert_eq!(keys_for_char('q'), vec![KeyCode::KeyQ]);
    assert_eq!(keys_for_char('z'), vec![KeyCode::KeyZ]);
}

#[test]
fn upper_case_letter_needs_shift() {
    assert_eq!(keys_for_char('A'), vec![KeyCode::ShiftLeft, KeyCode::KeyA]);
    assert_eq!(keys_for_char('Q'), vec![KeyCode::ShiftLeft, KeyCode::KeyQ]);
    assert_eq!(keys_for_char('Z'), vec![KeyCode::ShiftLeft, KeyCode::KeyZ]);
}

#[test]
fn digit_is_its_key() {
    assert_eq!(keys_for_char('0'), vec![KeyCode::Num0]);
    assert_eq!(keys_for_char('5'), vec![KeyCode::Num5]);
    assert_eq!(keys_for_char('9'), vec![KeyCode::Num9]);
}

#[test]
fn symbols_of_the_digit_row_need_shift() {
    let row = [
        ('!', KeyCode::Num1),
        ('@', KeyCode::Num2),
        ('#', KeyCode::Num3),
        ('$', KeyCode::Num4),
        ('%', KeyCode::Num5),
        ('^', KeyCode::Num6),
        ('&', KeyCode::Num7),
        ('*', KeyCode::Num8),
        ('(', KeyCode::Num9),
        (')', KeyCode::Num0),
    ];
    for (c, key) in row {
        assert_eq!(keys_for_char(c), vec![KeyCode::ShiftLeft, key]);
    }
}

#[test]
fn punctuation_has_a_plain_and_a_shifted_character() {
    let pairs = [
        (',', '<', KeyCode::Comma),
        ('.', '>', KeyCode::Dot),
        ('/', '?', KeyCode::Slash),
        (';', ':', KeyCode::SemiColon),
        ('\'', '"', KeyCode::Quote),
        ('[', '{', KeyCode::LeftBracket),
        (']', '}', KeyCode::RightBracket),
        ('\\', '|', KeyCode::BackSlash),
        ('-', '_', KeyCode::Minus),
        ('=', '+', KeyCode::Equal),
        ('`', '~', KeyCode::BackQuote),
    ];
    for (plain, shifted, key) in pairs {
        assert_eq!(keys_for_char(plain), vec![key]);
        assert_eq!(keys_for_char(shifted), vec![KeyCode::ShiftLeft, key]);
    }
}

#[test]
fn space_is_the_space_key() {
    assert_eq!(keys_for_char(' '), vec![KeyCode::Space]);
}

#[test]
fn other_characters_have_no_key() {
    assert_eq!(keys_for_char('\n'), vec![]);
    assert_eq!(keys_for_char('\t'), vec![]);
    assert_eq!(keys_for_char('\u{e9}'), vec![]);
    assert_eq!(keys_for_char('\u{20ac}'), vec![]);
}

#[test]
fn typing_a_character_is_the_chord_of_its_keys() {
    assert_eq!(type_char('a'), type_chord(vec![KeyCode::KeyA]));
    assert_eq!(
        type_char('A'),
        vec![
            press(KeyCode::ShiftLeft),
            settle(),
            press(KeyCode::KeyA),
            settle(),
            release(KeyCode::ShiftLeft),
            settle(),
            release(KeyCode::KeyA),
            settle(),
        ]
    );
    assert_eq!(type_char('\u{e9}'), vec![]);
}

#[test]
fn typing_a_text_waits_after_each_character() {
    assert_eq!(
        type_string("hI".to_string(), 7),
        vec![
            press(KeyCode::KeyH),
            settle(),
            release(KeyCode::KeyH),
            settle(),
            Step::Wait(7),
            press(KeyCode::ShiftLeft),
            settle(),
            press(KeyCode::KeyI),
            settle(),
            release(KeyCode::ShiftLeft),
            settle(),
            release(KeyCode::KeyI),
            settle(),
            Step::Wait(7),
        ]
    );
}

#[test]
fn typing_a_text_skips_characters_without_a_key() {
    assert_eq!(
        type_string("a\u{e9}b".to_string(), 3),
        vec![
            press(KeyCode::KeyA),
            settle(),
            release(KeyCode::KeyA),
            settle(),
            Step::Wait(3),
            Step::Wait(3),
            press(KeyCode::KeyB),
            settle(),
            release(KeyCode::KeyB),
            settle(),
            Step::Wait(3),
        ]
    );
}

#[test]
fn typing_the_empty_text_has_no_steps() {
    assert_eq!(type_string(String::new(), 50), vec![]);
}

#[test]
fn typing_a_text_emits_its_characters_in_order() {
    let steps = type_string("ab".to_string(), 0);
    assert_eq!(
        events(&steps),
        vec![
            KeyEvent::KeyPress(KeyCode::KeyA),
            KeyEvent::KeyRelease(KeyCode::KeyA),
            KeyEvent::KeyPress(KeyCode::KeyB),
            KeyEvent::KeyRelease(KeyCode::KeyB),
        ]
    );
}

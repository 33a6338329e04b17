use typewriter::error::ParseError;
use typewriter::keys::{parse_key, KeyCode};

#[test]
fn letters_resolve_by_key_name_and_by_letter() {
    assert_eq!(parse_key("KeyA"), Ok(KeyCode::KeyA));
    assert_eq!(parse_key("A"), Ok(KeyCode::KeyA));
    assert_eq!(parse_key("KeyZ"), Ok(KeyCode::KeyZ));
    assert_eq!(parse_key("Z"), Ok(KeyCode::KeyZ));
    assert_eq!(parse_key("M"), Ok(KeyCode::KeyM));
}

#[test]
fn digits_resolve_by_key_name_and_by_digit() {
    assert_eq!(parse_key("Num0"), Ok(KeyCode::Num0));
    assert_eq!(parse_key("0"), Ok(KeyCode::Num0));
    assert_eq!(parse_key("Num5"), Ok(KeyCode::Num5));
    assert_eq!(parse_key("5"), Ok(KeyCode::Num5));
    assert_eq!(parse_key("9"), Ok(KeyCode::Num9));
}

#[test]
fn left_control_has_three_names() {
    assert_eq!(parse_key("ControlLeft"), Ok(KeyCode::ControlLeft));
    assert_eq!(parse_key("Ctrl"), Ok(KeyCode::ControlLeft));
    assert_eq!(parse_key("Control"), Ok(KeyCode::ControlLeft));
}

#[test]
fn modifiers_resolve() {
    assert_eq!(parse_key("ControlRight"), Ok(KeyCode::ControlRight));
    assert_eq!(parse_key("RightCtrl"), Ok(KeyCode::ControlRight));
    assert_eq!(parse_key("ShiftLeft"), Ok(KeyCode::ShiftLeft));
    assert_eq!(parse_key("Shift"), Ok(KeyCode::ShiftLeft));
    assert_eq!(parse_key("ShiftRight"), Ok(KeyCode::ShiftRight));
    assert_eq!(parse_key("RightShift"), Ok(KeyCode::ShiftRight));
    assert_eq!(parse_key("Alt"), Ok(KeyCode::Alt));
    assert_eq!(parse_key("AltLeft"), Ok(KeyCode::Alt));
    assert_eq!(parse_key("AltRight"), Ok(KeyCode::AltGr));
    assert_eq!(parse_key("RightAlt"), Ok(KeyCode::AltGr));
    assert_eq!(parse_key("MetaLeft"), Ok(KeyCode::MetaLeft));
    assert_eq!(parse_key("Meta"), Ok(KeyCode::MetaLeft));
    assert_eq!(parse_key("Cmd"), Ok(KeyCode::MetaLeft));
    assert_eq!(parse_key("Command"), Ok(KeyCode::MetaLeft));
    assert_eq!(parse_key("Super"), Ok(KeyCode::MetaLeft));
    assert_eq!(parse_key("MetaRight"), Ok(KeyCode::MetaRight));
    assert_eq!(parse_key("RightMeta"), Ok(KeyCode::MetaRight));
    assert_eq!(parse_key("RightCmd"), Ok(KeyCode::MetaRight));
}

#[test]
fn editing_and_navigation_keys_resolve() {
    assert_eq!(parse_key("Return"), Ok(KeyCode::Return));
    assert_eq!(parse_key("Enter"), Ok(KeyCode::Return));
    assert_eq!(parse_key("Space"), Ok(KeyCode::Space));
    assert_eq!(parse_key("Backspace"), Ok(KeyCode::Backspace));
    assert_eq!(parse_key("Tab"), Ok(KeyCode::Tab));
    assert_eq!(parse_key("Escape"), Ok(KeyCode::Escape));
    assert_eq!(parse_key("Esc"), Ok(KeyCode::Escape));
    assert_eq!(parse_key("Delete"), Ok(KeyCode::Delete));
    assert_eq!(parse_key("Del"), Ok(KeyCode::Delete));
    assert_eq!(parse_key("Home"), Ok(KeyCode::Home));
    assert_eq!(parse_key("End"), Ok(KeyCode::End));
    assert_eq!(parse_key("PageUp"), Ok(KeyCode::PageUp));
    assert_eq!(parse_key("PageDown"), Ok(KeyCode::PageDown));
    assert_eq!(parse_key("UpArrow"), Ok(KeyCode::UpArrow));
    assert_eq!(parse_key("Up"), Ok(KeyCode::UpArrow));
    assert_eq!(parse_key("DownArrow"), Ok(KeyCode::DownArrow));
    assert_eq!(parse_key("Down"), Ok(KeyCode::DownArrow));
    assert_eq!(parse_key("LeftArrow"), Ok(KeyCode::LeftArrow));
    assert_eq!(parse_key("Left"), Ok(KeyCode::LeftArrow));
    assert_eq!(parse_key("RightArrow"), Ok(KeyCode::RightArrow));
    assert_eq!(parse_key("Right"), Ok(KeyCode::RightArrow));
}

#[test]
fn function_keys_resolve() {
    assert_eq!(parse_key("F1"), Ok(KeyCode::F1));
    assert_eq!(parse_key("F2"), Ok(KeyCode::F2));
    assert_eq!(parse_key("F9"), Ok(KeyCode::F9));
    assert_eq!(parse_key("F10"), Ok(KeyCode::F10));
    assert_eq!(parse_key("F11"), Ok(KeyCode::F11));
    assert_eq!(parse_key("F12"), Ok(KeyCode::F12));
}

#[test]
fn namespace_marker_is_stripped() {
    assert_eq!(parse_key("Key::Return"), Ok(KeyCode::Return));
    assert_eq!(parse_key("Key::KeyA"), Ok(KeyCode::KeyA));
    assert_eq!(parse_key("Key::A"), Ok(KeyCode::KeyA));
}

#[test]
fn namespace_marker_is_stripped_once() {
    assert_eq!(parse_key("Key::Key::A"), Err(ParseError::UnknownKey("Key::A".to_string())));
}

#[test]
fn lookup_is_case_sensitive() {
    assert_eq!(parse_key("ctrl"), Err(ParseError::UnknownKey("ctrl".to_string())));
    assert_eq!(parse_key("a"), Err(ParseError::UnknownKey("a".to_string())));
    assert_eq!(parse_key("RETURN"), Err(ParseError::UnknownKey("RETURN".to_string())));
}

#[test]
fn lookup_is_exact() {
    assert_eq!(parse_key("KeyAA"), Err(ParseError::UnknownKey("KeyAA".to_string())));
    assert_eq!(parse_key("Key"), Err(ParseError::UnknownKey("Key".to_string())));
    assert_eq!(parse_key("F13"), Err(ParseError::UnknownKey("F13".to_string())));
    assert_eq!(parse_key(""), Err(ParseError::UnknownKey("".to_string())));
}

#[test]
fn punctuation_keys_have_no_name() {
    assert_eq!(parse_key("Comma"), Err(ParseError::UnknownKey("Comma".to_string())));
}

#[test]
fn unknown_key_names_the_text_after_the_marker() {
    assert_eq!(parse_key("Key::Foo"), Err(ParseError::UnknownKey("Foo".to_string())));
    assert_eq!(parse_key("Key::"), Err(ParseError::UnknownKey("".to_string())));
}

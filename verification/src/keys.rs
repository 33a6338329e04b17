//! Symbolic key codes and the key resolver, which turns the name written in a
//! chord into a key code through a fixed alias table.

use crate::error::{ParseError, ParseErrorView};
use crate::text::{chars_of, spells, string_of};
use vstd::prelude::*;

verus! {

/// A key of the keyboard, named by its position on a QWERTY layout.
#[derive(Debug, Clone, Copy, PartialEq, Eq, Hash, Structural)]
pub enum KeyCode {
    // Letters.
    KeyA,
    KeyB,
    KeyC,
    KeyD,
    KeyE,
    KeyF,
    KeyG,
    KeyH,
    KeyI,
    KeyJ,
    KeyK,
    KeyL,
    KeyM,
    KeyN,
    KeyO,
    KeyP,
    KeyQ,
    KeyR,
    KeyS,
    KeyT,
    KeyU,
    KeyV,
    KeyW,
    KeyX,
    KeyY,
    KeyZ,
    // The digit row.
    Num0,
    Num1,
    Num2,
    Num3,
    Num4,
    Num5,
    Num6,
    Num7,
    Num8,
    Num9,
    // Modifiers.
    ControlLeft,
    ControlRight,
    ShiftLeft,
    ShiftRight,
    Alt,
    AltGr,
    MetaLeft,
    MetaRight,
    // Editing and navigation.
    Return,
    Space,
    Backspace,
    Tab,
    Escape,
    Delete,
    Home,
    End,
    PageUp,
    PageDown,
    UpArrow,
    DownArrow,
    LeftArrow,
    RightArrow,
    // Function keys.
    F1,
    F2,
    F3,
    F4,
    F5,
    F6,
    F7,
    F8,
    F9,
    F10,
    F11,
    F12,
    // Punctuation, reached by typing text, not by name.
    Comma,
    Dot,
    Slash,
    SemiColon,
    Quote,
    LeftBracket,
    RightBracket,
    BackSlash,
    Minus,
    Equal,
    BackQuote,
}

/// The namespace marker that a key name may carry in front.
pub open spec fn namespace_marker() -> Seq<char> {
    "Key::"@
}

/// `name` without one leading namespace marker, if it has one.
pub open spec fn strip_namespace(name: Seq<char>) -> Seq<char> {
    if namespace_marker().is_prefix_of(name) {
        name.skip(namespace_marker().len() as int)
    } else {
        name
    }
}

/// The alias table as a relation: whether `name` is one of the names of
/// `key`. The punctuation keys have no name.
pub open spec fn is_alias(name: Seq<char>, key: KeyCode) -> bool {
    match key {
        KeyCode::KeyA => name == "KeyA"@ || name == "A"@,
        KeyCode::KeyB => name == "KeyB"@ || name == "B"@,
        KeyCode::KeyC => name == "KeyC"@ || name == "C"@,
        KeyCode::KeyD => name == "KeyD"@ || name == "D"@,
        KeyCode::KeyE => name == "KeyE"@ || name == "E"@,
        KeyCode::KeyF => name == "KeyF"@ || name == "F"@,
        KeyCode::KeyG => name == "KeyG"@ || name == "G"@,
        KeyCode::KeyH => name == "KeyH"@ || name == "H"@,
        KeyCode::KeyI => name == "KeyI"@ || name == "I"@,
        KeyCode::KeyJ => name == "KeyJ"@ || name == "J"@,
        KeyCode::KeyK => name == "KeyK"@ || name == "K"@,
        KeyCode::KeyL => name == "KeyL"@ || name == "L"@,
        KeyCode::KeyM => name == "KeyM"@ || name == "M"@,
        KeyCode::KeyN => name == "KeyN"@ || name == "N"@,
        KeyCode::KeyO => name == "KeyO"@ || name == "O"@,
        KeyCode::KeyP => name == "KeyP"@ || name == "P"@,
        KeyCode::KeyQ => name == "KeyQ"@ || name == "Q"@,
        KeyCode::KeyR => name == "KeyR"@ || name == "R"@,
        KeyCode::KeyS => name == "KeyS"@ || name == "S"@,
        KeyCode::KeyT => name == "KeyT"@ || name == "T"@,
        KeyCode::KeyU => name == "KeyU"@ || name == "U"@,
        KeyCode::KeyV => name == "KeyV"@ || name == "V"@,
        KeyCode::KeyW => name == "KeyW"@ || name == "W"@,
        KeyCode::KeyX => name == "KeyX"@ || name == "X"@,
        KeyCode::KeyY => name == "KeyY"@ || name == "Y"@,
        KeyCode::KeyZ => name == "KeyZ"@ || name == "Z"@,
        KeyCode::Num0 => name == "Num0"@ || name == "0"@,
        KeyCode::Num1 => name == "Num1"@ || name == "1"@,
        KeyCode::Num2 => name == "Num2"@ || name == "2"@,
        KeyCode::Num3 => name == "Num3"@ || name == "3"@,
        KeyCode::Num4 => name == "Num4"@ || name == "4"@,
        KeyCode::Num5 => name == "Num5"@ || name == "5"@,
        KeyCode::Num6 => name == "Num6"@ || name == "6"@,
        KeyCode::Num7 => name == "Num7"@ || name == "7"@,
        KeyCode::Num8 => name == "Num8"@ || name == "8"@,
        KeyCode::Num9 => name == "Num9"@ || name == "9"@,
        KeyCode::ControlLeft => name == "ControlLeft"@ || name == "Ctrl"@ || name == "Control"@,
        KeyCode::ControlRight => name == "ControlRight"@ || name == "RightCtrl"@,
        KeyCode::ShiftLeft => name == "ShiftLeft"@ || name == "Shift"@,
        KeyCode::ShiftRight => name == "ShiftRight"@ || name == "RightShift"@,
        KeyCode::Alt => name == "Alt"@ || name == "AltLeft"@,
        KeyCode::AltGr => name == "AltRight"@ || name == "RightAlt"@,
        KeyCode::MetaLeft => name == "MetaLeft"@ || name == "Meta"@ || name == "Cmd"@ || name == "Command"@ || name == "Super"@,
        KeyCode::MetaRight => name == "MetaRight"@ || name == "RightMeta"@ || name == "RightCmd"@,
        KeyCode::Return => name == "Return"@ || name == "Enter"@,
        KeyCode::Space => name == "Space"@,
        KeyCode::Backspace => name == "Backspace"@,
        KeyCode::Tab => name == "Tab"@,
        KeyCode::Escape => name == "Escape"@ || name == "Esc"@,
        KeyCode::Delete => name == "Delete"@ || name == "Del"@,
        KeyCode::Home => name == "Home"@,
        KeyCode::End => name == "End"@,
        KeyCode::PageUp => name == "PageUp"@,
        KeyCode::PageDown => name == "PageDown"@,
        KeyCode::UpArrow => name == "UpArrow"@ || name == "Up"@,
        KeyCode::DownArrow => name == "DownArrow"@ || name == "Down"@,
        KeyCode::LeftArrow => name == "LeftArrow"@ || name == "Left"@,
        KeyCode::RightArrow => name == "RightArrow"@ || name == "Right"@,
        KeyCode::F1 => name == "F1"@,
        KeyCode::F2 => name == "F2"@,
        KeyCode::F3 => name == "F3"@,
        KeyCode::F4 => name == "F4"@,
        KeyCode::F5 => name == "F5"@,
        KeyCode::F6 => name == "F6"@,
        KeyCode::F7 => name == "F7"@,
        KeyCode::F8 => name == "F8"@,
        KeyCode::F9 => name == "F9"@,
        KeyCode::F10 => name == "F10"@,
        KeyCode::F11 => name == "F11"@,
        KeyCode::F12 => name == "F12"@,
        _ => false,
    }
}

/// The lookup in the alias table: the key that `name` stands for, if any.
/// Matching is exact and case-sensitive.
pub open spec fn resolve_key(name: Seq<char>) -> Option<KeyCode> {
    if name == "KeyA"@ || name == "A"@ {
        Some(KeyCode::KeyA)
    } else if name == "KeyB"@ || name == "B"@ {
        Some(KeyCode::KeyB)
    } else if name == "KeyC"@ || name == "C"@ {
        Some(KeyCode::KeyC)
    } else if name == "KeyD"@ || name == "D"@ {
        Some(KeyCode::KeyD)
    } else if name == "KeyE"@ || name == "E"@ {
        Some(KeyCode::KeyE)
    } else if name == "KeyF"@ || name == "F"@ {
        Some(KeyCode::KeyF)
    } else if name == "KeyG"@ || name == "G"@ {
        Some(KeyCode::KeyG)
    } else if name == "KeyH"@ || name == "H"@ {
        Some(KeyCode::KeyH)
    } else if name == "KeyI"@ || name == "I"@ {
        Some(KeyCode::KeyI)
    } else if name == "KeyJ"@ || name == "J"@ {
        Some(KeyCode::KeyJ)
    } else if name == "KeyK"@ || name == "K"@ {
        Some(KeyCode::KeyK)
    } else if name == "KeyL"@ || name == "L"@ {
        Some(KeyCode::KeyL)
    } else if name == "KeyM"@ || name == "M"@ {
        Some(KeyCode::KeyM)
    } else if name == "KeyN"@ || name == "N"@ {
        Some(KeyCode::KeyN)
    } else if name == "KeyO"@ || name == "O"@ {
        Some(KeyCode::KeyO)
    } else if name == "KeyP"@ || name == "P"@ {
        Some(KeyCode::KeyP)
    } else if name == "KeyQ"@ || name == "Q"@ {
        Some(KeyCode::KeyQ)
    } else if name == "KeyR"@ || name == "R"@ {
        Some(KeyCode::KeyR)
    } else if name == "KeyS"@ || name == "S"@ {
        Some(KeyCode::KeyS)
    } else if name == "KeyT"@ || name == "T"@ {
        Some(KeyCode::KeyT)
    } else if name == "KeyU"@ || name == "U"@ {
        Some(KeyCode::KeyU)
    } else if name == "KeyV"@ || name == "V"@ {
        Some(KeyCode::KeyV)
    } else if name == "KeyW"@ || name == "W"@ {
        Some(KeyCode::KeyW)
    } else if name == "KeyX"@ || name == "X"@ {
        Some(KeyCode::KeyX)
    } else if name == "KeyY"@ || name == "Y"@ {
        Some(KeyCode::KeyY)
    } else if name == "KeyZ"@ || name == "Z"@ {
        Some(KeyCode::KeyZ)
    } else if name == "Num0"@ || name == "0"@ {
        Some(KeyCode::Num0)
    } else if name == "Num1"@ || name == "1"@ {
        Some(KeyCode::Num1)
    } else if name == "Num2"@ || name == "2"@ {
        Some(KeyCode::Num2)
    } else if name == "Num3"@ || name == "3"@ {
        Some(KeyCode::Num3)
    } else if name == "Num4"@ || name == "4"@ {
        Some(KeyCode::Num4)
    } else if name == "Num5"@ || name == "5"@ {
        Some(KeyCode::Num5)
    } else if name == "Num6"@ || name == "6"@ {
        Some(KeyCode::Num6)
    } else if name == "Num7"@ || name == "7"@ {
        Some(KeyCode::Num7)
    } else if name == "Num8"@ || name == "8"@ {
        Some(KeyCode::Num8)
    } else if name == "Num9"@ || name == "9"@ {
        Some(KeyCode::Num9)
    } else if name == "ControlLeft"@ || name == "Ctrl"@ || name == "Control"@ {
        Some(KeyCode::ControlLeft)
    } else if name == "ControlRight"@ || name == "RightCtrl"@ {
        Some(KeyCode::ControlRight)
    } else if name == "ShiftLeft"@ || name == "Shift"@ {
        Some(KeyCode::ShiftLeft)
    } else if name == "ShiftRight"@ || name == "RightShift"@ {
        Some(KeyCode::ShiftRight)
    } else if name == "Alt"@ || name == "AltLeft"@ {
        Some(KeyCode::Alt)
    } else if name == "AltRight"@ || name == "RightAlt"@ {
        Some(KeyCode::AltGr)
    } else if name == "MetaLeft"@ || name == "Meta"@ || name == "Cmd"@ || name == "Command"@ || name == "Super"@ {
        Some(KeyCode::MetaLeft)
    } else if name == "MetaRight"@ || name == "RightMeta"@ || name == "RightCmd"@ {
        Some(KeyCode::MetaRight)
    } else if name == "Return"@ || name == "Enter"@ {
        Some(KeyCode::Return)
    } else if name == "Space"@ {
        Some(KeyCode::Space)
    } else if name == "Backspace"@ {
        Some(KeyCode::Backspace)
    } else if name == "Tab"@ {
        Some(KeyCode::Tab)
    } else if name == "Escape"@ || name == "Esc"@ {
        Some(KeyCode::Escape)
    } else if name == "Delete"@ || name == "Del"@ {
        Some(KeyCode::Delete)
    } else if name == "Home"@ {
        Some(KeyCode::Home)
    } else if name == "End"@ {
        Some(KeyCode::End)
    } else if name == "PageUp"@ {
        Some(KeyCode::PageUp)
    } else if name == "PageDown"@ {
        Some(KeyCode::PageDown)
    } else if name == "UpArrow"@ || name == "Up"@ {
        Some(KeyCode::UpArrow)
    } else if name == "DownArrow"@ || name == "Down"@ {
        Some(KeyCode::DownArrow)
    } else if name == "LeftArrow"@ || name == "Left"@ {
        Some(KeyCode::LeftArrow)
    } else if name == "RightArrow"@ || name == "Right"@ {
        Some(KeyCode::RightArrow)
    } else if name == "F1"@ {
        Some(KeyCode::F1)
    } else if name == "F2"@ {
        Some(KeyCode::F2)
    } else if name == "F3"@ {
        Some(KeyCode::F3)
    } else if name == "F4"@ {
        Some(KeyCode::F4)
    } else if name == "F5"@ {
        Some(KeyCode::F5)
    } else if name == "F6"@ {
        Some(KeyCode::F6)
    } else if name == "F7"@ {
        Some(KeyCode::F7)
    } else if name == "F8"@ {
        Some(KeyCode::F8)
    } else if name == "F9"@ {
        Some(KeyCode::F9)
    } else if name == "F10"@ {
        Some(KeyCode::F10)
    } else if name == "F11"@ {
        Some(KeyCode::F11)
    } else if name == "F12"@ {
        Some(KeyCode::F12)
    } else {
        None
    }
}

/// The name under which the alias table lists `key` first, for the keys that
/// it lists.
pub open spec fn key_name(key: KeyCode) -> Option<Seq<char>> {
    match key {
        KeyCode::KeyA => Some("KeyA"@),
        KeyCode::KeyB => Some("KeyB"@),
        KeyCode::KeyC => Some("KeyC"@),
        KeyCode::KeyD => Some("KeyD"@),
        KeyCode::KeyE => Some("KeyE"@),
        KeyCode::KeyF => Some("KeyF"@),
        KeyCode::KeyG => Some("KeyG"@),
        KeyCode::KeyH => Some("KeyH"@),
        KeyCode::KeyI => Some("KeyI"@),
        KeyCode::KeyJ => Some("KeyJ"@),
        KeyCode::KeyK => Some("KeyK"@),
        KeyCode::KeyL => Some("KeyL"@),
        KeyCode::KeyM => Some("KeyM"@),
        KeyCode::KeyN => Some("KeyN"@),
        KeyCode::KeyO => Some("KeyO"@),
        KeyCode::KeyP => Some("KeyP"@),
        KeyCode::KeyQ => Some("KeyQ"@),
        KeyCode::KeyR => Some("KeyR"@),
        KeyCode::KeyS => Some("KeyS"@),
        KeyCode::KeyT => Some("KeyT"@),
        KeyCode::KeyU => Some("KeyU"@),
        KeyCode::KeyV => Some("KeyV"@),
        KeyCode::KeyW => Some("KeyW"@),
        KeyCode::KeyX => Some("KeyX"@),
        KeyCode::KeyY => Some("KeyY"@),
        KeyCode::KeyZ => Some("KeyZ"@),
        KeyCode::Num0 => Some("Num0"@),
        KeyCode::Num1 => Some("Num1"@),
        KeyCode::Num2 => Some("Num2"@),
        KeyCode::Num3 => Some("Num3"@),
        KeyCode::Num4 => Some("Num4"@),
        KeyCode::Num5 => Some("Num5"@),
        KeyCode::Num6 => Some("Num6"@),
        KeyCode::Num7 => Some("Num7"@),
        KeyCode::Num8 => Some("Num8"@),
        KeyCode::Num9 => Some("Num9"@),
        KeyCode::ControlLeft => Some("ControlLeft"@),
        KeyCode::ControlRight => Some("ControlRight"@),
        KeyCode::ShiftLeft => Some("ShiftLeft"@),
        KeyCode::ShiftRight => Some("ShiftRight"@),
        KeyCode::Alt => Some("Alt"@),
        KeyCode::AltGr => Some("AltRight"@),
        KeyCode::MetaLeft => Some("MetaLeft"@),
        KeyCode::MetaRight => Some("MetaRight"@),
        KeyCode::Return => Some("Return"@),
        KeyCode::Space => Some("Space"@),
        KeyCode::Backspace => Some("Backspace"@),
        KeyCode::Tab => Some("Tab"@),
        KeyCode::Escape => Some("Escape"@),
        KeyCode::Delete => Some("Delete"@),
        KeyCode::Home => Some("Home"@),
        KeyCode::End => Some("End"@),
        KeyCode::PageUp => Some("PageUp"@),
        KeyCode::PageDown => Some("PageDown"@),
        KeyCode::UpArrow => Some("UpArrow"@),
        KeyCode::DownArrow => Some("DownArrow"@),
        KeyCode::LeftArrow => Some("LeftArrow"@),
        KeyCode::RightArrow => Some("RightArrow"@),
        KeyCode::F1 => Some("F1"@),
        KeyCode::F2 => Some("F2"@),
        KeyCode::F3 => Some("F3"@),
        KeyCode::F4 => Some("F4"@),
        KeyCode::F5 => Some("F5"@),
        KeyCode::F6 => Some("F6"@),
        KeyCode::F7 => Some("F7"@),
        KeyCode::F8 => Some("F8"@),
        KeyCode::F9 => Some("F9"@),
        KeyCode::F10 => Some("F10"@),
        KeyCode::F11 => Some("F11"@),
        KeyCode::F12 => Some("F12"@),
        _ => None,
    }
}

/// What the key resolver answers for the identifier `name`.
pub open spec fn resolve_identifier(name: Seq<char>) -> Result<KeyCode, ParseErrorView> {
    match resolve_key(strip_namespace(name)) {
        Some(key) => Ok(key),
        None => Err(ParseErrorView::UnknownKey(strip_namespace(name))),
    }
}

/// Looks `chars` up in the alias table.
fn lookup_key(chars: &Vec<char>) -> (key: Option<KeyCode>)
    ensures
        key == resolve_key(chars@),
{
    if spells(chars, "KeyA") || spells(chars, "A") {
        Some(KeyCode::KeyA)
    } else if spells(chars, "KeyB") || spells(chars, "B") {
        Some(KeyCode::KeyB)
    } else if spells(chars, "KeyC") || spells(chars, "C") {
        Some(KeyCode::KeyC)
    } else if spells(chars, "KeyD") || spells(chars, "D") {
        Some(KeyCode::KeyD)
    } else if spells(chars, "KeyE") || spells(chars, "E") {
        Some(KeyCode::KeyE)
    } else if spells(chars, "KeyF") || spells(chars, "F") {
        Some(KeyCode::KeyF)
    } else if spells(chars, "KeyG") || spells(chars, "G") {
        Some(KeyCode::KeyG)
    } else if spells(chars, "KeyH") || spells(chars, "H") {
        Some(KeyCode::KeyH)
    } else if spells(chars, "KeyI") || spells(chars, "I") {
        Some(KeyCode::KeyI)
    } else if spells(chars, "KeyJ") || spells(chars, "J") {
        Some(KeyCode::KeyJ)
    } else if spells(chars, "KeyK") || spells(chars, "K") {
        Some(KeyCode::KeyK)
    } else if spells(chars, "KeyL") || spells(chars, "L") {
        Some(KeyCode::KeyL)
    } else if spells(chars, "KeyM") || spells(chars, "M") {
        Some(KeyCode::KeyM)
    } else if spells(chars, "KeyN") || spells(chars, "N") {
        Some(KeyCode::KeyN)
    } else if spells(chars, "KeyO") || spells(chars, "O") {
        Some(KeyCode::KeyO)
    } else if spells(chars, "KeyP") || spells(chars, "P") {
        Some(KeyCode::KeyP)
    } else if spells(chars, "KeyQ") || spells(chars, "Q") {
        Some(KeyCode::KeyQ)
    } else if spells(chars, "KeyR") || spells(chars, "R") {
        Some(KeyCode::KeyR)
    } else if spells(chars, "KeyS") || spells(chars, "S") {
        Some(KeyCode::KeyS)
    } else if spells(chars, "KeyT") || spells(chars, "T") {
        Some(KeyCode::KeyT)
    } else if spells(chars, "KeyU") || spells(chars, "U") {
        Some(KeyCode::KeyU)
    } else if spells(chars, "KeyV") || spells(chars, "V") {
        Some(KeyCode::KeyV)
    } else if spells(chars, "KeyW") || spells(chars, "W") {
        Some(KeyCode::KeyW)
    } else if spells(chars, "KeyX") || spells(chars, "X") {
        Some(KeyCode::KeyX)
    } else if spells(chars, "KeyY") || spells(chars, "Y") {
        Some(KeyCode::KeyY)
    } else if spells(chars, "KeyZ") || spells(chars, "Z") {
        Some(KeyCode::KeyZ)
    } else if spells(chars, "Num0") || spells(chars, "0") {
        Some(KeyCode::Num0)
    } else if spells(chars, "Num1") || spells(chars, "1") {
        Some(KeyCode::Num1)
    } else if spells(chars, "Num2") || spells(chars, "2") {
        Some(KeyCode::Num2)
    } else if spells(chars, "Num3") || spells(chars, "3") {
        Some(KeyCode::Num3)
    } else if spells(chars, "Num4") || spells(chars, "4") {
        Some(KeyCode::Num4)
    } else if spells(chars, "Num5") || spells(chars, "5") {
        Some(KeyCode::Num5)
    } else if spells(chars, "Num6") || spells(chars, "6") {
        Some(KeyCode::Num6)
    } else if spells(chars, "Num7") || spells(chars, "7") {
        Some(KeyCode::Num7)
    } else if spells(chars, "Num8") || spells(chars, "8") {
        Some(KeyCode::Num8)
    } else if spells(chars, "Num9") || spells(chars, "9") {
        Some(KeyCode::Num9)
    } else if spells(chars, "ControlLeft") || spells(chars, "Ctrl") || spells(chars, "Control") {
        Some(KeyCode::ControlLeft)
    } else if spells(chars, "ControlRight") || spells(chars, "RightCtrl") {
        Some(KeyCode::ControlRight)
    } else if spells(chars, "ShiftLeft") || spells(chars, "Shift") {
        Some(KeyCode::ShiftLeft)
    } else if spells(chars, "ShiftRight") || spells(chars, "RightShift") {
        Some(KeyCode::ShiftRight)
    } else if spells(chars, "Alt") || spells(chars, "AltLeft") {
        Some(KeyCode::Alt)
    } else if spells(chars, "AltRight") || spells(chars, "RightAlt") {
        Some(KeyCode::AltGr)
    } else if spells(chars, "MetaLeft") || spells(chars, "Meta") || spells(chars, "Cmd") || spells(chars, "Command") || spells(chars, "Super") {
        Some(KeyCode::MetaLeft)
    } else if spells(chars, "MetaRight") || spells(chars, "RightMeta") || spells(chars, "RightCmd") {
        Some(KeyCode::MetaRight)
    } else if spells(chars, "Return") || spells(chars, "Enter") {
        Some(KeyCode::Return)
    } else if spells(chars, "Space") {
        Some(KeyCode::Space)
    } else if spells(chars, "Backspace") {
        Some(KeyCode::Backspace)
    } else if spells(chars, "Tab") {
        Some(KeyCode::Tab)
    } else if spells(chars, "Escape") || spells(chars, "Esc") {
        Some(KeyCode::Escape)
    } else if spells(chars, "Delete") || spells(chars, "Del") {
        Some(KeyCode::Delete)
    } else if spells(chars, "Home") {
        Some(KeyCode::Home)
    } else if spells(chars, "End") {
        Some(KeyCode::End)
    } else if spells(chars, "PageUp") {
        Some(KeyCode::PageUp)
    } else if spells(chars, "PageDown") {
        Some(KeyCode::PageDown)
    } else if spells(chars, "UpArrow") || spells(chars, "Up") {
        Some(KeyCode::UpArrow)
    } else if spells(chars, "DownArrow") || spells(chars, "Down") {
        Some(KeyCode::DownArrow)
    } else if spells(chars, "LeftArrow") || spells(chars, "Left") {
        Some(KeyCode::LeftArrow)
    } else if spells(chars, "RightArrow") || spells(chars, "Right") {
        Some(KeyCode::RightArrow)
    } else if spells(chars, "F1") {
        Some(KeyCode::F1)
    } else if spells(chars, "F2") {
        Some(KeyCode::F2)
    } else if spells(chars, "F3") {
        Some(KeyCode::F3)
    } else if spells(chars, "F4") {
        Some(KeyCode::F4)
    } else if spells(chars, "F5") {
        Some(KeyCode::F5)
    } else if spells(chars, "F6") {
        Some(KeyCode::F6)
    } else if spells(chars, "F7") {
        Some(KeyCode::F7)
    } else if spells(chars, "F8") {
        Some(KeyCode::F8)
    } else if spells(chars, "F9") {
        Some(KeyCode::F9)
    } else if spells(chars, "F10") {
        Some(KeyCode::F10)
    } else if spells(chars, "F11") {
        Some(KeyCode::F11)
    } else if spells(chars, "F12") {
        Some(KeyCode::F12)
    } else {
        None
    }
}

/// Resolves the text of an identifier to a key code. One leading `Key::` is
/// dropped; what is left must be an alias of the table, letter for letter.
/// Otherwise the error names the text that was looked up.
pub fn parse_key(name: &str) -> (result: Result<KeyCode, ParseError>)
    ensures
        match result {
            Ok(key) => resolve_identifier(name@) == Ok::<KeyCode, ParseErrorView>(key),
            Err(error) => resolve_identifier(name@) == Err::<KeyCode, ParseErrorView>(error@),
        },
{
    let chars = chars_of(name);
    let marker = chars_of("Key::");
    let bare = if has_prefix(&chars, &marker) {
        tail_of(&chars, marker.len())
    } else {
        chars
    };
    assert(bare@ == strip_namespace(name@));
    assert(bare@.subrange(0, bare@.len() as int) == bare@);
    match lookup_key(&bare) {
        Some(key) => Ok(key),
        None => Err(ParseError::UnknownKey(string_of(&bare, 0, bare.len()))),
    }
}

/// The characters of `chars` from position `from` on.
fn tail_of(chars: &Vec<char>, from: usize) -> (tail: Vec<char>)
    requires
        from <= chars.len(),
    ensures
        tail@ == chars@.skip(from as int),
{
    let mut tail: Vec<char> = Vec::new();
    let mut i: usize = from;
    while i < chars.len()
        invariant
            from <= i <= chars.len(),
            tail@ == chars@.subrange(from as int, i as int),
        decreases chars.len() - i,
    {
        tail.push(chars[i]);
        i += 1;
    }
    tail
}

/// Whether `chars` begins with `prefix`.
fn has_prefix(chars: &Vec<char>, prefix: &Vec<char>) -> (yes: bool)
    ensures
        yes == prefix@.is_prefix_of(chars@),
{
    if prefix.len() > chars.len() {
        return false;
    }
    let mut i: usize = 0;
    while i < prefix.len()
        invariant
            i <= prefix.len() <= chars.len(),
            chars@.take(i as int) == prefix@.take(i as int),
        decreases prefix.len() - i,
    {
        if chars[i] != prefix[i] {
            assert(chars@.subrange(0, prefix@.len() as int)[i as int] == chars@[i as int]);
            return false;
        }
        assert(chars@.take(i + 1) == chars@.take(i as int).push(chars@[i as int]));
        assert(prefix@.take(i + 1) == prefix@.take(i as int).push(prefix@[i as int]));
        i += 1;
    }
    assert(prefix@.take(i as int) == prefix@);
    true
}

/// The names of the alias table and the namespace marker, letter by letter.
pub proof fn lemma_alias_spelling()
    ensures
        "KeyA"@.len() == 4 && "KeyA"@[0] == 'K' && "KeyA"@[1] == 'e' && "KeyA"@[2] == 'y' &&
            "KeyA"@[3] == 'A',
        "A"@.len() == 1 && "A"@[0] == 'A',
        "KeyB"@.len() == 4 && "KeyB"@[0] == 'K' && "KeyB"@[1] == 'e' && "KeyB"@[2] == 'y' &&
            "KeyB"@[3] == 'B',
        "B"@.len() == 1 && "B"@[0] == 'B',
        "KeyC"@.len() == 4 && "KeyC"@[0] == 'K' && "KeyC"@[1] == 'e' && "KeyC"@[2] == 'y' &&
            "KeyC"@[3] == 'C',
        "C"@.len() == 1 && "C"@[0] == 'C',
        "KeyD"@.len() == 4 && "KeyD"@[0] == 'K' && "KeyD"@[1] == 'e' && "KeyD"@[2] == 'y' &&
            "KeyD"@[3] == 'D',
        "D"@.len() == 1 && "D"@[0] == 'D',
        "KeyE"@.len() == 4 && "KeyE"@[0] == 'K' && "KeyE"@[1] == 'e' && "KeyE"@[2] == 'y' &&
            "KeyE"@[3] == 'E',
        "E"@.len() == 1 && "E"@[0] == 'E',
        "KeyF"@.len() == 4 && "KeyF"@[0] == 'K' && "KeyF"@[1] == 'e' && "KeyF"@[2] == 'y' &&
            "KeyF"@[3] == 'F',
        "F"@.len() == 1 && "F"@[0] == 'F',
        "KeyG"@.len() == 4 && "KeyG"@[0] == 'K' && "KeyG"@[1] == 'e' && "KeyG"@[2] == 'y' &&
            "KeyG"@[3] == 'G',
        "G"@.len() == 1 && "G"@[0] == 'G',
        "KeyH"@.len() == 4 && "KeyH"@[0] == 'K' && "KeyH"@[1] == 'e' && "KeyH"@[2] == 'y' &&
            "KeyH"@[3] == 'H',
        "H"@.len() == 1 && "H"@[0] == 'H',
        "KeyI"@.len() == 4 && "KeyI"@[0] == 'K' && "KeyI"@[1] == 'e' && "KeyI"@[2] == 'y' &&
            "KeyI"@[3] == 'I',
        "I"@.len() == 1 && "I"@[0] == 'I',
        "KeyJ"@.len() == 4 && "KeyJ"@[0] == 'K' && "KeyJ"@[1] == 'e' && "KeyJ"@[2] == 'y' &&
            "KeyJ"@[3] == 'J',
        "J"@.len() == 1 && "J"@[0] == 'J',
        "KeyK"@.len() == 4 && "KeyK"@[0] == 'K' && "KeyK"@[1] == 'e' && "KeyK"@[2] == 'y' &&
            "KeyK"@[3] == 'K',
        "K"@.len() == 1 && "K"@[0] == 'K',
        "KeyL"@.len() == 4 && "KeyL"@[0] == 'K' && "KeyL"@[1] == 'e' && "KeyL"@[2] == 'y' &&
            "KeyL"@[3] == 'L',
        "L"@.len() == 1 && "L"@[0] == 'L',
        "KeyM"@.len() == 4 && "KeyM"@[0] == 'K' && "KeyM"@[1] == 'e' && "KeyM"@[2] == 'y' &&
            "KeyM"@[3] == 'M',
        "M"@.len() == 1 && "M"@[0] == 'M',
        "KeyN"@.len() == 4 && "KeyN"@[0] == 'K' && "KeyN"@[1] == 'e' && "KeyN"@[2] == 'y' &&
            "KeyN"@[3] == 'N',
        "N"@.len() == 1 && "N"@[0] == 'N',
        "KeyO"@.len() == 4 && "KeyO"@[0] == 'K' && "KeyO"@[1] == 'e' && "KeyO"@[2] == 'y' &&
            "KeyO"@[3] == 'O',
        "O"@.len() == 1 && "O"@[0] == 'O',
        "KeyP"@.len() == 4 && "KeyP"@[0] == 'K' && "KeyP"@[1] == 'e' && "KeyP"@[2] == 'y' &&
            "KeyP"@[3] == 'P',
        "P"@.len() == 1 && "P"@[0] == 'P',
        "KeyQ"@.len() == 4 && "KeyQ"@[0] == 'K' && "KeyQ"@[1] == 'e' && "KeyQ"@[2] == 'y' &&
            "KeyQ"@[3] == 'Q',
        "Q"@.len() == 1 && "Q"@[0] == 'Q',
        "KeyR"@.len() == 4 && "KeyR"@[0] == 'K' && "KeyR"@[1] == 'e' && "KeyR"@[2] == 'y' &&
            "KeyR"@[3] == 'R',
        "R"@.len() == 1 && "R"@[0] == 'R',
        "KeyS"@.len() == 4 && "KeyS"@[0] == 'K' && "KeyS"@[1] == 'e' && "KeyS"@[2] == 'y' &&
            "KeyS"@[3] == 'S',
        "S"@.len() == 1 && "S"@[0] == 'S',
        "KeyT"@.len() == 4 && "KeyT"@[0] == 'K' && "KeyT"@[1] == 'e' && "KeyT"@[2] == 'y' &&
            "KeyT"@[3] == 'T',
        "T"@.len() == 1 && "T"@[0] == 'T',
        "KeyU"@.len() == 4 && "KeyU"@[0] == 'K' && "KeyU"@[1] == 'e' && "KeyU"@[2] == 'y' &&
            "KeyU"@[3] == 'U',
        "U"@.len() == 1 && "U"@[0] == 'U',
        "KeyV"@.len() == 4 && "KeyV"@[0] == 'K' && "KeyV"@[1] == 'e' && "KeyV"@[2] == 'y' &&
            "KeyV"@[3] == 'V',
        "V"@.len() == 1 && "V"@[0] == 'V',
        "KeyW"@.len() == 4 && "KeyW"@[0] == 'K' && "KeyW"@[1] == 'e' && "KeyW"@[2] == 'y' &&
            "KeyW"@[3] == 'W',
        "W"@.len() == 1 && "W"@[0] == 'W',
        "KeyX"@.len() == 4 && "KeyX"@[0] == 'K' && "KeyX"@[1] == 'e' && "KeyX"@[2] == 'y' &&
            "KeyX"@[3] == 'X',
        "X"@.len() == 1 && "X"@[0] == 'X',
        "KeyY"@.len() == 4 && "KeyY"@[0] == 'K' && "KeyY"@[1] == 'e' && "KeyY"@[2] == 'y' &&
            "KeyY"@[3] == 'Y',
        "Y"@.len() == 1 && "Y"@[0] == 'Y',
        "KeyZ"@.len() == 4 && "KeyZ"@[0] == 'K' && "KeyZ"@[1] == 'e' && "KeyZ"@[2] == 'y' &&
            "KeyZ"@[3] == 'Z',
        "Z"@.len() == 1 && "Z"@[0] == 'Z',
        "Num0"@.len() == 4 && "Num0"@[0] == 'N' && "Num0"@[1] == 'u' && "Num0"@[2] == 'm' &&
            "Num0"@[3] == '0',
        "0"@.len() == 1 && "0"@[0] == '0',
        "Num1"@.len() == 4 && "Num1"@[0] == 'N' && "Num1"@[1] == 'u' && "Num1"@[2] == 'm' &&
            "Num1"@[3] == '1',
        "1"@.len() == 1 && "1"@[0] == '1',
        "Num2"@.len() == 4 && "Num2"@[0] == 'N' && "Num2"@[1] == 'u' && "Num2"@[2] == 'm' &&
            "Num2"@[3] == '2',
        "2"@.len() == 1 && "2"@[0] == '2',
        "Num3"@.len() == 4 && "Num3"@[0] == 'N' && "Num3"@[1] == 'u' && "Num3"@[2] == 'm' &&
            "Num3"@[3] == '3',
        "3"@.len() == 1 && "3"@[0] == '3',
        "Num4"@.len() == 4 && "Num4"@[0] == 'N' && "Num4"@[1] == 'u' && "Num4"@[2] == 'm' &&
            "Num4"@[3] == '4',
        "4"@.len() == 1 && "4"@[0] == '4',
        "Num5"@.len() == 4 && "Num5"@[0] == 'N' && "Num5"@[1] == 'u' && "Num5"@[2] == 'm' &&
            "Num5"@[3] == '5',
        "5"@.len() == 1 && "5"@[0] == '5',
        "Num6"@.len() == 4 && "Num6"@[0] == 'N' && "Num6"@[1] == 'u' && "Num6"@[2] == 'm' &&
            "Num6"@[3] == '6',
        "6"@.len() == 1 && "6"@[0] == '6',
        "Num7"@.len() == 4 && "Num7"@[0] == 'N' && "Num7"@[1] == 'u' && "Num7"@[2] == 'm' &&
            "Num7"@[3] == '7',
        "7"@.len() == 1 && "7"@[0] == '7',
        "Num8"@.len() == 4 && "Num8"@[0] == 'N' && "Num8"@[1] == 'u' && "Num8"@[2] == 'm' &&
            "Num8"@[3] == '8',
        "8"@.len() == 1 && "8"@[0] == '8',
        "Num9"@.len() == 4 && "Num9"@[0] == 'N' && "Num9"@[1] == 'u' && "Num9"@[2] == 'm' &&
            "Num9"@[3] == '9',
        "9"@.len() == 1 && "9"@[0] == '9',
        "ControlLeft"@.len() == 11 && "ControlLeft"@[0] == 'C' && "ControlLeft"@[1] == 'o' &&
            "ControlLeft"@[2] == 'n' && "ControlLeft"@[3] == 't' && "ControlLeft"@[4] == 'r' &&
            "ControlLeft"@[5] == 'o' && "ControlLeft"@[6] == 'l' && "ControlLeft"@[7] == 'L' &&
            "ControlLeft"@[8] == 'e' && "ControlLeft"@[9] == 'f' && "ControlLeft"@[10] == 't',
        "Ctrl"@.len() == 4 && "Ctrl"@[0] == 'C' && "Ctrl"@[1] == 't' && "Ctrl"@[2] == 'r' &&
            "Ctrl"@[3] == 'l',
        "Control"@.len() == 7 && "Control"@[0] == 'C' && "Control"@[1] == 'o' &&
            "Control"@[2] == 'n' && "Control"@[3] == 't' && "Control"@[4] == 'r' &&
            "Control"@[5] == 'o' && "Control"@[6] == 'l',
        "ControlRight"@.len() == 12 && "ControlRight"@[0] == 'C' && "ControlRight"@[1] == 'o' &&
            "ControlRight"@[2] == 'n' && "ControlRight"@[3] == 't' && "ControlRight"@[4] == 'r' &&
            "ControlRight"@[5] == 'o' && "ControlRight"@[6] == 'l' && "ControlRight"@[7] == 'R' &&
            "ControlRight"@[8] == 'i' && "ControlRight"@[9] == 'g' &&
            "ControlRight"@[10] == 'h' && "ControlRight"@[11] == 't',
        "RightCtrl"@.len() == 9 && "RightCtrl"@[0] == 'R' && "RightCtrl"@[1] == 'i' &&
            "RightCtrl"@[2] == 'g' && "RightCtrl"@[3] == 'h' && "RightCtrl"@[4] == 't' &&
            "RightCtrl"@[5] == 'C' && "RightCtrl"@[6] == 't' && "RightCtrl"@[7] == 'r' &&
            "RightCtrl"@[8] == 'l',
        "ShiftLeft"@.len() == 9 && "ShiftLeft"@[0] == 'S' && "ShiftLeft"@[1] == 'h' &&
            "ShiftLeft"@[2] == 'i' && "ShiftLeft"@[3] == 'f' && "ShiftLeft"@[4] == 't' &&
            "ShiftLeft"@[5] == 'L' && "ShiftLeft"@[6] == 'e' && "ShiftLeft"@[7] == 'f' &&
            "ShiftLeft"@[8] == 't',
        "Shift"@.len() == 5 && "Shift"@[0] == 'S' && "Shift"@[1] == 'h' && "Shift"@[2] == 'i' &&
            "Shift"@[3] == 'f' && "Shift"@[4] == 't',
        "ShiftRight"@.len() == 10 && "ShiftRight"@[0] == 'S' && "ShiftRight"@[1] == 'h' &&
            "ShiftRight"@[2] == 'i' && "ShiftRight"@[3] == 'f' && "ShiftRight"@[4] == 't' &&
            "ShiftRight"@[5] == 'R' && "ShiftRight"@[6] == 'i' && "ShiftRight"@[7] == 'g' &&
            "ShiftRight"@[8] == 'h' && "ShiftRight"@[9] == 't',
        "RightShift"@.len() == 10 && "RightShift"@[0] == 'R' && "RightShift"@[1] == 'i' &&
            "RightShift"@[2] == 'g' && "RightShift"@[3] == 'h' && "RightShift"@[4] == 't' &&
            "RightShift"@[5] == 'S' && "RightShift"@[6] == 'h' && "RightShift"@[7] == 'i' &&
            "RightShift"@[8] == 'f' && "RightShift"@[9] == 't',
        "Alt"@.len() == 3 && "Alt"@[0] == 'A' && "Alt"@[1] == 'l' && "Alt"@[2] == 't',
        "AltLeft"@.len() == 7 && "AltLeft"@[0] == 'A' && "AltLeft"@[1] == 'l' &&
            "AltLeft"@[2] == 't' && "AltLeft"@[3] == 'L' && "AltLeft"@[4] == 'e' &&
            "AltLeft"@[5] == 'f' && "AltLeft"@[6] == 't',
        "AltRight"@.len() == 8 && "AltRight"@[0] == 'A' && "AltRight"@[1] == 'l' &&
            "AltRight"@[2] == 't' && "AltRight"@[3] == 'R' && "AltRight"@[4] == 'i' &&
            "AltRight"@[5] == 'g' && "AltRight"@[6] == 'h' && "AltRight"@[7] == 't',
        "RightAlt"@.len() == 8 && "RightAlt"@[0] == 'R' && "RightAlt"@[1] == 'i' &&
            "RightAlt"@[2] == 'g' && "RightAlt"@[3] == 'h' && "RightAlt"@[4] == 't' &&
            "RightAlt"@[5] == 'A' && "RightAlt"@[6] == 'l' && "RightAlt"@[7] == 't',
        "MetaLeft"@.len() == 8 && "MetaLeft"@[0] == 'M' && "MetaLeft"@[1] == 'e' &&
            "MetaLeft"@[2] == 't' && "MetaLeft"@[3] == 'a' && "MetaLeft"@[4] == 'L' &&
            "MetaLeft"@[5] == 'e' && "MetaLeft"@[6] == 'f' && "MetaLeft"@[7] == 't',
        "Meta"@.len() == 4 && "Meta"@[0] == 'M' && "Meta"@[1] == 'e' && "Meta"@[2] == 't' &&
            "Meta"@[3] == 'a',
        "Cmd"@.len() == 3 && "Cmd"@[0] == 'C' && "Cmd"@[1] == 'm' && "Cmd"@[2] == 'd',
        "Command"@.len() == 7 && "Command"@[0] == 'C' && "Command"@[1] == 'o' &&
            "Command"@[2] == 'm' && "Command"@[3] == 'm' && "Command"@[4] == 'a' &&
            "Command"@[5] == 'n' && "Command"@[6] == 'd',
        "Super"@.len() == 5 && "Super"@[0] == 'S' && "Super"@[1] == 'u' && "Super"@[2] == 'p' &&
            "Super"@[3] == 'e' && "Super"@[4] == 'r',
        "MetaRight"@.len() == 9 && "MetaRight"@[0] == 'M' && "MetaRight"@[1] == 'e' &&
            "MetaRight"@[2] == 't' && "MetaRight"@[3] == 'a' && "MetaRight"@[4] == 'R' &&
            "MetaRight"@[5] == 'i' && "MetaRight"@[6] == 'g' && "MetaRight"@[7] == 'h' &&
            "MetaRight"@[8] == 't',
        "RightMeta"@.len() == 9 && "RightMeta"@[0] == 'R' && "RightMeta"@[1] == 'i' &&
            "RightMeta"@[2] == 'g' && "RightMeta"@[3] == 'h' && "RightMeta"@[4] == 't' &&
            "RightMeta"@[5] == 'M' && "RightMeta"@[6] == 'e' && "RightMeta"@[7] == 't' &&
            "RightMeta"@[8] == 'a',
        "RightCmd"@.len() == 8 && "RightCmd"@[0] == 'R' && "RightCmd"@[1] == 'i' &&
            "RightCmd"@[2] == 'g' && "RightCmd"@[3] == 'h' && "RightCmd"@[4] == 't' &&
            "RightCmd"@[5] == 'C' && "RightCmd"@[6] == 'm' && "RightCmd"@[7] == 'd',
        "Return"@.len() == 6 && "Return"@[0] == 'R' && "Return"@[1] == 'e' &&
            "Return"@[2] == 't' && "Return"@[3] == 'u' && "Return"@[4] == 'r' &&
            "Return"@[5] == 'n',
        "Enter"@.len() == 5 && "Enter"@[0] == 'E' && "Enter"@[1] == 'n' && "Enter"@[2] == 't' &&
            "Enter"@[3] == 'e' && "Enter"@[4] == 'r',
        "Space"@.len() == 5 && "Space"@[0] == 'S' && "Space"@[1] == 'p' && "Space"@[2] == 'a' &&
            "Space"@[3] == 'c' && "Space"@[4] == 'e',
        "Backspace"@.len() == 9 && "Backspace"@[0] == 'B' && "Backspace"@[1] == 'a' &&
            "Backspace"@[2] == 'c' && "Backspace"@[3] == 'k' && "Backspace"@[4] == 's' &&
            "Backspace"@[5] == 'p' && "Backspace"@[6] == 'a' && "Backspace"@[7] == 'c' &&
            "Backspace"@[8] == 'e',
        "Tab"@.len() == 3 && "Tab"@[0] == 'T' && "Tab"@[1] == 'a' && "Tab"@[2] == 'b',
        "Escape"@.len() == 6 && "Escape"@[0] == 'E' && "Escape"@[1] == 's' &&
            "Escape"@[2] == 'c' && "Escape"@[3] == 'a' && "Escape"@[4] == 'p' &&
            "Escape"@[5] == 'e',
        "Esc"@.len() == 3 && "Esc"@[0] == 'E' && "Esc"@[1] == 's' && "Esc"@[2] == 'c',
        "Delete"@.len() == 6 && "Delete"@[0] == 'D' && "Delete"@[1] == 'e' &&
            "Delete"@[2] == 'l' && "Delete"@[3] == 'e' && "Delete"@[4] == 't' &&
            "Delete"@[5] == 'e',
        "Del"@.len() == 3 && "Del"@[0] == 'D' && "Del"@[1] == 'e' && "Del"@[2] == 'l',
        "Home"@.len() == 4 && "Home"@[0] == 'H' && "Home"@[1] == 'o' && "Home"@[2] == 'm' &&
            "Home"@[3] == 'e',
        "End"@.len() == 3 && "End"@[0] == 'E' && "End"@[1] == 'n' && "End"@[2] == 'd',
        "PageUp"@.len() == 6 && "PageUp"@[0] == 'P' && "PageUp"@[1] == 'a' &&
            "PageUp"@[2] == 'g' && "PageUp"@[3] == 'e' && "PageUp"@[4] == 'U' &&
            "PageUp"@[5] == 'p',
        "PageDown"@.len() == 8 && "PageDown"@[0] == 'P' && "PageDown"@[1] == 'a' &&
            "PageDown"@[2] == 'g' && "PageDown"@[3] == 'e' && "PageDown"@[4] == 'D' &&
            "PageDown"@[5] == 'o' && "PageDown"@[6] == 'w' && "PageDown"@[7] == 'n',
        "UpArrow"@.len() == 7 && "UpArrow"@[0] == 'U' && "UpArrow"@[1] == 'p' &&
            "UpArrow"@[2] == 'A' && "UpArrow"@[3] == 'r' && "UpArrow"@[4] == 'r' &&
            "UpArrow"@[5] == 'o' && "UpArrow"@[6] == 'w',
        "Up"@.len() == 2 && "Up"@[0] == 'U' && "Up"@[1] == 'p',
        "DownArrow"@.len() == 9 && "DownArrow"@[0] == 'D' && "DownArrow"@[1] == 'o' &&
            "DownArrow"@[2] == 'w' && "DownArrow"@[3] == 'n' && "DownArrow"@[4] == 'A' &&
            "DownArrow"@[5] == 'r' && "DownArrow"@[6] == 'r' && "DownArrow"@[7] == 'o' &&
            "DownArrow"@[8] == 'w',
        "Down"@.len() == 4 && "Down"@[0] == 'D' && "Down"@[1] == 'o' && "Down"@[2] == 'w' &&
            "Down"@[3] == 'n',
        "LeftArrow"@.len() == 9 && "LeftArrow"@[0] == 'L' && "LeftArrow"@[1] == 'e' &&
            "LeftArrow"@[2] == 'f' && "LeftArrow"@[3] == 't' && "LeftArrow"@[4] == 'A' &&
            "LeftArrow"@[5] == 'r' && "LeftArrow"@[6] == 'r' && "LeftArrow"@[7] == 'o' &&
            "LeftArrow"@[8] == 'w',
        "Left"@.len() == 4 && "Left"@[0] == 'L' && "Left"@[1] == 'e' && "Left"@[2] == 'f' &&
            "Left"@[3] == 't',
        "RightArrow"@.len() == 10 && "RightArrow"@[0] == 'R' && "RightArrow"@[1] == 'i' &&
            "RightArrow"@[2] == 'g' && "RightArrow"@[3] == 'h' && "RightArrow"@[4] == 't' &&
            "RightArrow"@[5] == 'A' && "RightArrow"@[6] == 'r' && "RightArrow"@[7] == 'r' &&
            "RightArrow"@[8] == 'o' && "RightArrow"@[9] == 'w',
        "Right"@.len() == 5 && "Right"@[0] == 'R' && "Right"@[1] == 'i' && "Right"@[2] == 'g' &&
            "Right"@[3] == 'h' && "Right"@[4] == 't',
        "F1"@.len() == 2 && "F1"@[0] == 'F' && "F1"@[1] == '1',
        "F2"@.len() == 2 && "F2"@[0] == 'F' && "F2"@[1] == '2',
        "F3"@.len() == 2 && "F3"@[0] == 'F' && "F3"@[1] == '3',
        "F4"@.len() == 2 && "F4"@[0] == 'F' && "F4"@[1] == '4',
        "F5"@.len() == 2 && "F5"@[0] == 'F' && "F5"@[1] == '5',
        "F6"@.len() == 2 && "F6"@[0] == 'F' && "F6"@[1] == '6',
        "F7"@.len() == 2 && "F7"@[0] == 'F' && "F7"@[1] == '7',
        "F8"@.len() == 2 && "F8"@[0] == 'F' && "F8"@[1] == '8',
        "F9"@.len() == 2 && "F9"@[0] == 'F' && "F9"@[1] == '9',
        "F10"@.len() == 3 && "F10"@[0] == 'F' && "F10"@[1] == '1' && "F10"@[2] == '0',
        "F11"@.len() == 3 && "F11"@[0] == 'F' && "F11"@[1] == '1' && "F11"@[2] == '1',
        "F12"@.len() == 3 && "F12"@[0] == 'F' && "F12"@[1] == '1' && "F12"@[2] == '2',
        "Key::"@.len() == 5 && "Key::"@[0] == 'K' && "Key::"@[1] == 'e' && "Key::"@[2] == 'y' &&
            "Key::"@[3] == ':' && "Key::"@[4] == ':',
{
    reveal_strlit("KeyA");
    reveal_strlit("A");
    reveal_strlit("KeyB");
    reveal_strlit("B");
    reveal_strlit("KeyC");
    reveal_strlit("C");
    reveal_strlit("KeyD");
    reveal_strlit("D");
    reveal_strlit("KeyE");
    reveal_strlit("E");
    reveal_strlit("KeyF");
    reveal_strlit("F");
    reveal_strlit("KeyG");
    reveal_strlit("G");
    reveal_strlit("KeyH");
    reveal_strlit("H");
    reveal_strlit("KeyI");
    reveal_strlit("I");
    reveal_strlit("KeyJ");
    reveal_strlit("J");
    reveal_strlit("KeyK");
    reveal_strlit("K");
    reveal_strlit("KeyL");
    reveal_strlit("L");
    reveal_strlit("KeyM");
    reveal_strlit("M");
    reveal_strlit("KeyN");
    reveal_strlit("N");
    reveal_strlit("KeyO");
    reveal_strlit("O");
    reveal_strlit("KeyP");
    reveal_strlit("P");
    reveal_strlit("KeyQ");
    reveal_strlit("Q");
    reveal_strlit("KeyR");
    reveal_strlit("R");
    reveal_strlit("KeyS");
    reveal_strlit("S");
    reveal_strlit("KeyT");
    reveal_strlit("T");
    reveal_strlit("KeyU");
    reveal_strlit("U");
    reveal_strlit("KeyV");
    reveal_strlit("V");
    reveal_strlit("KeyW");
    reveal_strlit("W");
    reveal_strlit("KeyX");
    reveal_strlit("X");
    reveal_strlit("KeyY");
    reveal_strlit("Y");
    reveal_strlit("KeyZ");
    reveal_strlit("Z");
    reveal_strlit("Num0");
    reveal_strlit("0");
    reveal_strlit("Num1");
    reveal_strlit("1");
    reveal_strlit("Num2");
    reveal_strlit("2");
    reveal_strlit("Num3");
    reveal_strlit("3");
    reveal_strlit("Num4");
    reveal_strlit("4");
    reveal_strlit("Num5");
    reveal_strlit("5");
    reveal_strlit("Num6");
    reveal_strlit("6");
    reveal_strlit("Num7");
    reveal_strlit("7");
    reveal_strlit("Num8");
    reveal_strlit("8");
    reveal_strlit("Num9");
    reveal_strlit("9");
    reveal_strlit("ControlLeft");
    reveal_strlit("Ctrl");
    reveal_strlit("Control");
    reveal_strlit("ControlRight");
    reveal_strlit("RightCtrl");
    reveal_strlit("ShiftLeft");
    reveal_strlit("Shift");
    reveal_strlit("ShiftRight");
    reveal_strlit("RightShift");
    reveal_strlit("Alt");
    reveal_strlit("AltLeft");
    reveal_strlit("AltRight");
    reveal_strlit("RightAlt");
    reveal_strlit("MetaLeft");
    reveal_strlit("Meta");
    reveal_strlit("Cmd");
    reveal_strlit("Command");
    reveal_strlit("Super");
    reveal_strlit("MetaRight");
    reveal_strlit("RightMeta");
    reveal_strlit("RightCmd");
    reveal_strlit("Return");
    reveal_strlit("Enter");
    reveal_strlit("Space");
    reveal_strlit("Backspace");
    reveal_strlit("Tab");
    reveal_strlit("Escape");
    reveal_strlit("Esc");
    reveal_strlit("Delete");
    reveal_strlit("Del");
    reveal_strlit("Home");
    reveal_strlit("End");
    reveal_strlit("PageUp");
    reveal_strlit("PageDown");
    reveal_strlit("UpArrow");
    reveal_strlit("Up");
    reveal_strlit("DownArrow");
    reveal_strlit("Down");
    reveal_strlit("LeftArrow");
    reveal_strlit("Left");
    reveal_strlit("RightArrow");
    reveal_strlit("Right");
    reveal_strlit("F1");
    reveal_strlit("F2");
    reveal_strlit("F3");
    reveal_strlit("F4");
    reveal_strlit("F5");
    reveal_strlit("F6");
    reveal_strlit("F7");
    reveal_strlit("F8");
    reveal_strlit("F9");
    reveal_strlit("F10");
    reveal_strlit("F11");
    reveal_strlit("F12");
    reveal_strlit("Key::");
}

/// The lookup finds a key for a name exactly if the name is one of the names
/// of that key. So no name belongs to two keys.
pub proof fn lemma_resolve_key_is_alias(name: Seq<char>, key: KeyCode)
    ensures
        resolve_key(name) == Some(key) <==> is_alias(name, key),
{
    lemma_alias_spelling();
}

/// The alias table lists every key that it resolves a name to.
pub proof fn lemma_resolved_keys_have_names(name: Seq<char>)
    ensures
        resolve_key(name) matches Some(key) ==> key_name(key) is Some,
{
}

/// The first name of every key that the alias table lists resolves to that
/// key, and it carries no namespace marker.
pub proof fn lemma_key_name_resolves(key: KeyCode)
    ensures
        key_name(key) matches Some(name) ==> resolve_identifier(name) == Ok::<
            KeyCode,
            ParseErrorView,
        >(key),
{
    lemma_alias_spelling();
    if let Some(name) = key_name(key) {
        assert(resolve_key(name) == Some(key));
        assert(name.len() < 5 || name[3] != ':');
        if namespace_marker().is_prefix_of(name) {
            assert(name.subrange(0, 5)[3] == name[3]);
        }
    }
}

} // verus!

//! The keystrokes behind each action.
//!
//! Nothing here touches the keyboard. Each function works out the steps that
//! an action consists of: key events for the keystroke emitter, and waits.
//! The caller performs the steps in order. Every key event is followed by a
//! fixed settle delay, whatever delay the action itself asks for.

use crate::keys::KeyCode;
use vstd::prelude::*;

verus! {

/// The wait after every key event, in milliseconds.
pub const SETTLE_DELAY_MS: u64 = 50;

/// A request to the keystroke emitter.
#[derive(Debug, Clone, Copy, PartialEq, Eq, Structural)]
pub enum KeyEvent {
    KeyPress(KeyCode),
    KeyRelease(KeyCode),
}

/// One step of carrying out a script.
#[derive(Debug, Clone, Copy, PartialEq, Eq, Structural)]
pub enum Step {
    /// Hand the event to the keystroke emitter.
    Emit(KeyEvent),
    /// Wait for so many milliseconds.
    Wait(u64),
}

/// Sending one event: the event, then the settle delay.
pub open spec fn send_steps(event: KeyEvent) -> Seq<Step> {
    seq![Step::Emit(event), Step::Wait(SETTLE_DELAY_MS)]
}

/// Pressing `keys` one after the other, in their order.
pub open spec fn press_steps(keys: Seq<KeyCode>) -> Seq<Step>
    decreases keys.len(),
{
    if keys.len() == 0 {
        Seq::empty()
    } else {
        press_steps(keys.drop_last()) + send_steps(KeyEvent::KeyPress(keys.last()))
    }
}

/// Releasing `keys` one after the other, in their order.
pub open spec fn release_steps(keys: Seq<KeyCode>) -> Seq<Step>
    decreases keys.len(),
{
    if keys.len() == 0 {
        Seq::empty()
    } else {
        release_steps(keys.drop_last()) + send_steps(KeyEvent::KeyRelease(keys.last()))
    }
}

/// A chord: all keys are pressed in their order, then all are released in
/// the same order.
pub open spec fn chord_steps(keys: Seq<KeyCode>) -> Seq<Step> {
    press_steps(keys) + release_steps(keys)
}

/// The key that gives the character `c` when pressed alone.
pub open spec fn plain_key(c: char) -> Option<KeyCode> {
    if c == 'a' {
        Some(KeyCode::KeyA)
    } else if c == 'b' {
        Some(KeyCode::KeyB)
    } else if c == 'c' {
        Some(KeyCode::KeyC)
    } else if c == 'd' {
        Some(KeyCode::KeyD)
    } else if c == 'e' {
        Some(KeyCode::KeyE)
    } else if c == 'f' {
        Some(KeyCode::KeyF)
    } else if c == 'g' {
        Some(KeyCode::KeyG)
    } else if c == 'h' {
        Some(KeyCode::KeyH)
    } else if c == 'i' {
        Some(KeyCode::KeyI)
    } else if c == 'j' {
        Some(KeyCode::KeyJ)
    } else if c == 'k' {
        Some(KeyCode::KeyK)
    } else if c == 'l' {
        Some(KeyCode::KeyL)
    } else if c == 'm' {
        Some(KeyCode::KeyM)
    } else if c == 'n' {
        Some(KeyCode::KeyN)
    } else if c == 'o' {
        Some(KeyCode::KeyO)
    } else if c == 'p' {
        Some(KeyCode::KeyP)
    } else if c == 'q' {
        Some(KeyCode::KeyQ)
    } else if c == 'r' {
        Some(KeyCode::KeyR)
    } else if c == 's' {
        Some(KeyCode::KeyS)
    } else if c == 't' {
        Some(KeyCode::KeyT)
    } else if c == 'u' {
        Some(KeyCode::KeyU)
    } else if c == 'v' {
        Some(KeyCode::KeyV)
    } else if c == 'w' {
        Some(KeyCode::KeyW)
    } else if c == 'x' {
        Some(KeyCode::KeyX)
    } else if c == 'y' {
        Some(KeyCode::KeyY)
    } else if c == 'z' {
        Some(KeyCode::KeyZ)
    } else if c == '0' {
        Some(KeyCode::Num0)
    } else if c == '1' {
        Some(KeyCode::Num1)
    } else if c == '2' {
        Some(KeyCode::Num2)
    } else if c == '3' {
        Some(KeyCode::Num3)
    } else if c == '4' {
        Some(KeyCode::Num4)
    } else if c == '5' {
        Some(KeyCode::Num5)
    } else if c == '6' {
        Some(KeyCode::Num6)
    } else if c == '7' {
        Some(KeyCode::Num7)
    } else if c == '8' {
        Some(KeyCode::Num8)
    } else if c == '9' {
        Some(KeyCode::Num9)
    } else if c == ' ' {
        Some(KeyCode::Space)
    } else if c == ',' {
        Some(KeyCode::Comma)
    } else if c == '.' {
        Some(KeyCode::Dot)
    } else if c == '/' {
        Some(KeyCode::Slash)
    } else if c == ';' {
        Some(KeyCode::SemiColon)
    } else if c == '\'' {
        Some(KeyCode::Quote)
    } else if c == '[' {
        Some(KeyCode::LeftBracket)
    } else if c == ']' {
        Some(KeyCode::RightBracket)
    } else if c == '\\' {
        Some(KeyCode::BackSlash)
    } else if c == '-' {
        Some(KeyCode::Minus)
    } else if c == '=' {
        Some(KeyCode::Equal)
    } else if c == '`' {
        Some(KeyCode::BackQuote)
    } else {
        None
    }
}

/// The key that gives the character `c` when pressed with shift held.
pub open spec fn shifted_key(c: char) -> Option<KeyCode> {
    if c == 'A' {
        Some(KeyCode::KeyA)
    } else if c == 'B' {
        Some(KeyCode::KeyB)
    } else if c == 'C' {
        Some(KeyCode::KeyC)
    } else if c == 'D' {
        Some(KeyCode::KeyD)
    } else if c == 'E' {
        Some(KeyCode::KeyE)
    } else if c == 'F' {
        Some(KeyCode::KeyF)
    } else if c == 'G' {
        Some(KeyCode::KeyG)
    } else if c == 'H' {
        Some(KeyCode::KeyH)
    } else if c == 'I' {
        Some(KeyCode::KeyI)
    } else if c == 'J' {
        Some(KeyCode::KeyJ)
    } else if c == 'K' {
        Some(KeyCode::KeyK)
    } else if c == 'L' {
        Some(KeyCode::KeyL)
    } else if c == 'M' {
        Some(KeyCode::KeyM)
    } else if c == 'N' {
        Some(KeyCode::KeyN)
    } else if c == 'O' {
        Some(KeyCode::KeyO)
    } else if c == 'P' {
        Some(KeyCode::KeyP)
    } else if c == 'Q' {
        Some(KeyCode::KeyQ)
    } else if c == 'R' {
        Some(KeyCode::KeyR)
    } else if c == 'S' {
        Some(KeyCode::KeyS)
    } else if c == 'T' {
        Some(KeyCode::KeyT)
    } else if c == 'U' {
        Some(KeyCode::KeyU)
    } else if c == 'V' {
        Some(KeyCode::KeyV)
    } else if c == 'W' {
        Some(KeyCode::KeyW)
    } else if c == 'X' {
        Some(KeyCode::KeyX)
    } else if c == 'Y' {
        Some(KeyCode::KeyY)
    } else if c == 'Z' {
        Some(KeyCode::KeyZ)
    } else if c == '!' {
        Some(KeyCode::Num1)
    } else if c == '@' {
        Some(KeyCode::Num2)
    } else if c == '#' {
        Some(KeyCode::Num3)
    } else if c == '$' {
        Some(KeyCode::Num4)
    } else if c == '%' {
        Some(KeyCode::Num5)
    } else if c == '^' {
        Some(KeyCode::Num6)
    } else if c == '&' {
        Some(KeyCode::Num7)
    } else if c == '*' {
        Some(KeyCode::Num8)
    } else if c == '(' {
        Some(KeyCode::Num9)
    } else if c == ')' {
        Some(KeyCode::Num0)
    } else if c == '<' {
        Some(KeyCode::Comma)
    } else if c == '>' {
        Some(KeyCode::Dot)
    } else if c == '?' {
        Some(KeyCode::Slash)
    } else if c == ':' {
        Some(KeyCode::SemiColon)
    } else if c == '"' {
        Some(KeyCode::Quote)
    } else if c == '{' {
        Some(KeyCode::LeftBracket)
    } else if c == '}' {
        Some(KeyCode::RightBracket)
    } else if c == '|' {
        Some(KeyCode::BackSlash)
    } else if c == '_' {
        Some(KeyCode::Minus)
    } else if c == '+' {
        Some(KeyCode::Equal)
    } else if c == '~' {
        Some(KeyCode::BackQuote)
    } else {
        None
    }
}

/// The chord that types the character `c`: its key, after the left shift
/// key where the character needs it. A character that no key gives has the
/// empty chord.
pub open spec fn char_keys(c: char) -> Seq<KeyCode> {
    match plain_key(c) {
        Some(key) => seq![key],
        None => match shifted_key(c) {
            Some(key) => seq![KeyCode::ShiftLeft, key],
            None => Seq::empty(),
        },
    }
}

/// Typing the character `c`.
pub open spec fn char_steps(c: char) -> Seq<Step> {
    chord_steps(char_keys(c))
}

/// Typing `text`: each character in order, and the wait `delay_ms` after
/// each, also after one that no key gives.
pub open spec fn text_steps(text: Seq<char>, delay_ms: u64) -> Seq<Step>
    decreases text.len(),
{
    if text.len() == 0 {
        Seq::empty()
    } else {
        text_steps(text.drop_last(), delay_ms) + char_steps(text.last()) + seq![
            Step::Wait(delay_ms),
        ]
    }
}

/// The key events among `steps`, in their order.
pub open spec fn emitted_events(steps: Seq<Step>) -> Seq<KeyEvent>
    decreases steps.len(),
{
    if steps.len() == 0 {
        Seq::empty()
    } else {
        match steps.last() {
            Step::Emit(event) => emitted_events(steps.drop_last()).push(event),
            Step::Wait(_) => emitted_events(steps.drop_last()),
        }
    }
}

fn plain_key_of(c: char) -> (key: Option<KeyCode>)
    ensures
        key == plain_key(c),
{
    if c == 'a' {
        Some(KeyCode::KeyA)
    } else if c == 'b' {
        Some(KeyCode::KeyB)
    } else if c == 'c' {
        Some(KeyCode::KeyC)
    } else if c == 'd' {
        Some(KeyCode::KeyD)
    } else if c == 'e' {
        Some(KeyCode::KeyE)
    } else if c == 'f' {
        Some(KeyCode::KeyF)
    } else if c == 'g' {
        Some(KeyCode::KeyG)
    } else if c == 'h' {
        Some(KeyCode::KeyH)
    } else if c == 'i' {
        Some(KeyCode::KeyI)
    } else if c == 'j' {
        Some(KeyCode::KeyJ)
    } else if c == 'k' {
        Some(KeyCode::KeyK)
    } else if c == 'l' {
        Some(KeyCode::KeyL)
    } else if c == 'm' {
        Some(KeyCode::KeyM)
    } else if c == 'n' {
        Some(KeyCode::KeyN)
    } else if c == 'o' {
        Some(KeyCode::KeyO)
    } else if c == 'p' {
        Some(KeyCode::KeyP)
    } else if c == 'q' {
        Some(KeyCode::KeyQ)
    } else if c == 'r' {
        Some(KeyCode::KeyR)
    } else if c == 's' {
        Some(KeyCode::KeyS)
    } else if c == 't' {
        Some(KeyCode::KeyT)
    } else if c == 'u' {
        Some(KeyCode::KeyU)
    } else if c == 'v' {
        Some(KeyCode::KeyV)
    } else if c == 'w' {
        Some(KeyCode::KeyW)
    } else if c == 'x' {
        Some(KeyCode::KeyX)
    } else if c == 'y' {
        Some(KeyCode::KeyY)
    } else if c == 'z' {
        Some(KeyCode::KeyZ)
    } else if c == '0' {
        Some(KeyCode::Num0)
    } else if c == '1' {
        Some(KeyCode::Num1)
    } else if c == '2' {
        Some(KeyCode::Num2)
    } else if c == '3' {
        Some(KeyCode::Num3)
    } else if c == '4' {
        Some(KeyCode::Num4)
    } else if c == '5' {
        Some(KeyCode::Num5)
    } else if c == '6' {
        Some(KeyCode::Num6)
    } else if c == '7' {
        Some(KeyCode::Num7)
    } else if c == '8' {
        Some(KeyCode::Num8)
    } else if c == '9' {
        Some(KeyCode::Num9)
    } else if c == ' ' {
        Some(KeyCode::Space)
    } else if c == ',' {
        Some(KeyCode::Comma)
    } else if c == '.' {
        Some(KeyCode::Dot)
    } else if c == '/' {
        Some(KeyCode::Slash)
    } else if c == ';' {
        Some(KeyCode::SemiColon)
    } else if c == '\'' {
        Some(KeyCode::Quote)
    } else if c == '[' {
        Some(KeyCode::LeftBracket)
    } else if c == ']' {
        Some(KeyCode::RightBracket)
    } else if c == '\\' {
        Some(KeyCode::BackSlash)
    } else if c == '-' {
        Some(KeyCode::Minus)
    } else if c == '=' {
        Some(KeyCode::Equal)
    } else if c == '`' {
        Some(KeyCode::BackQuote)
    } else {
        None
    }
}

fn shifted_key_of(c: char) -> (key: Option<KeyCode>)
    ensures
        key == shifted_key(c),
{
    if c == 'A' {
        Some(KeyCode::KeyA)
    } else if c == 'B' {
        Some(KeyCode::KeyB)
    } else if c == 'C' {
        Some(KeyCode::KeyC)
    } else if c == 'D' {
        Some(KeyCode::KeyD)
    } else if c == 'E' {
        Some(KeyCode::KeyE)
    } else if c == 'F' {
        Some(KeyCode::KeyF)
    } else if c == 'G' {
        Some(KeyCode::KeyG)
    } else if c == 'H' {
        Some(KeyCode::KeyH)
    } else if c == 'I' {
        Some(KeyCode::KeyI)
    } else if c == 'J' {
        Some(KeyCode::KeyJ)
    } else if c == 'K' {
        Some(KeyCode::KeyK)
    } else if c == 'L' {
        Some(KeyCode::KeyL)
    } else if c == 'M' {
        Some(KeyCode::KeyM)
    } else if c == 'N' {
        Some(KeyCode::KeyN)
    } else if c == 'O' {
        Some(KeyCode::KeyO)
    } else if c == 'P' {
        Some(KeyCode::KeyP)
    } else if c == 'Q' {
        Some(KeyCode::KeyQ)
    } else if c == 'R' {
        Some(KeyCode::KeyR)
    } else if c == 'S' {
        Some(KeyCode::KeyS)
    } else if c == 'T' {
        Some(KeyCode::KeyT)
    } else if c == 'U' {
        Some(KeyCode::KeyU)
    } else if c == 'V' {
        Some(KeyCode::KeyV)
    } else if c == 'W' {
        Some(KeyCode::KeyW)
    } else if c == 'X' {
        Some(KeyCode::KeyX)
    } else if c == 'Y' {
        Some(KeyCode::KeyY)
    } else if c == 'Z' {
        Some(KeyCode::KeyZ)
    } else if c == '!' {
        Some(KeyCode::Num1)
    } else if c == '@' {
        Some(KeyCode::Num2)
    } else if c == '#' {
        Some(KeyCode::Num3)
    } else if c == '$' {
        Some(KeyCode::Num4)
    } else if c == '%' {
        Some(KeyCode::Num5)
    } else if c == '^' {
        Some(KeyCode::Num6)
    } else if c == '&' {
        Some(KeyCode::Num7)
    } else if c == '*' {
        Some(KeyCode::Num8)
    } else if c == '(' {
        Some(KeyCode::Num9)
    } else if c == ')' {
        Some(KeyCode::Num0)
    } else if c == '<' {
        Some(KeyCode::Comma)
    } else if c == '>' {
        Some(KeyCode::Dot)
    } else if c == '?' {
        Some(KeyCode::Slash)
    } else if c == ':' {
        Some(KeyCode::SemiColon)
    } else if c == '"' {
        Some(KeyCode::Quote)
    } else if c == '{' {
        Some(KeyCode::LeftBracket)
    } else if c == '}' {
        Some(KeyCode::RightBracket)
    } else if c == '|' {
        Some(KeyCode::BackSlash)
    } else if c == '_' {
        Some(KeyCode::Minus)
    } else if c == '+' {
        Some(KeyCode::Equal)
    } else if c == '~' {
        Some(KeyCode::BackQuote)
    } else {
        None
    }
}

/// The chord that types the character `c`.
pub fn keys_for_char(c: char) -> (keys: Vec<KeyCode>)
    ensures
        keys@ == char_keys(c),
{
    let mut keys: Vec<KeyCode> = Vec::new();
    match plain_key_of(c) {
        Some(key) => {
            keys.push(key);
        },
        None => match shifted_key_of(c) {
            Some(key) => {
                keys.push(KeyCode::ShiftLeft);
                keys.push(key);
            },
            None => {},
        },
    }
    assert(keys@ == char_keys(c));
    keys
}

fn append_send(steps: &mut Vec<Step>, event: KeyEvent)
    ensures
        final(steps)@ == old(steps)@ + send_steps(event),
{
    steps.push(Step::Emit(event));
    steps.push(Step::Wait(SETTLE_DELAY_MS));
    assert(steps@ == old(steps)@ + send_steps(event));
}

pub(crate) fn append_chord(steps: &mut Vec<Step>, keys: &Vec<KeyCode>)
    ensures
        final(steps)@ == old(steps)@ + chord_steps(keys@),
{
    let ghost before = steps@;
    let mut i: usize = 0;
    assert(before + press_steps(keys@.take(0)) == before);
    while i < keys.len()
        invariant
            i <= keys.len(),
            steps@ == before + press_steps(keys@.take(i as int)),
        decreases keys.len() - i,
    {
        let ghost pressed = press_steps(keys@.take(i as int));
        proof {
            let longer = keys@.take(i + 1);
            assert(longer.drop_last() == keys@.take(i as int));
            assert(before + (pressed + send_steps(KeyEvent::KeyPress(keys@[i as int])))
                == (before + pressed) + send_steps(KeyEvent::KeyPress(keys@[i as int])));
        }
        append_send(steps, KeyEvent::KeyPress(keys[i]));
        i += 1;
    }
    assert(keys@.take(i as int) == keys@);
    let ghost pressed = before + press_steps(keys@);
    let mut j: usize = 0;
    assert(pressed + release_steps(keys@.take(0)) == pressed);
    while j < keys.len()
        invariant
            j <= keys.len(),
            steps@ == pressed + release_steps(keys@.take(j as int)),
        decreases keys.len() - j,
    {
        let ghost released = release_steps(keys@.take(j as int));
        proof {
            let longer = keys@.take(j + 1);
            assert(longer.drop_last() == keys@.take(j as int));
            assert(pressed + (released + send_steps(KeyEvent::KeyRelease(keys@[j as int])))
                == (pressed + released) + send_steps(KeyEvent::KeyRelease(keys@[j as int])));
        }
        append_send(steps, KeyEvent::KeyRelease(keys[j]));
        j += 1;
    }
    assert(keys@.take(j as int) == keys@);
    assert((before + press_steps(keys@)) + release_steps(keys@) == before + chord_steps(keys@));
}

pub(crate) fn append_text(steps: &mut Vec<Step>, text: &str, delay_ms: u64)
    ensures
        final(steps)@ == old(steps)@ + text_steps(text@, delay_ms),
{
    let ghost before = steps@;
    assert(before + text_steps(text@.take(0), delay_ms) == before);
    for c in it: text.chars()
        invariant
            it.seq() == text@,
            steps@ == before + text_steps(it.seq().take(it.index()), delay_ms),
    {
        let ghost typed = text_steps(text@.take(it.index()), delay_ms);
        let ghost mid = steps@;
        proof {
            let longer = text@.take(it.index() + 1);
            assert(longer.drop_last() == text@.take(it.index()));
            assert(longer.last() == c);
        }
        let keys = keys_for_char(c);
        append_chord(steps, &keys);
        steps.push(Step::Wait(delay_ms));
        assert(steps@ == before + (typed + char_steps(c) + seq![Step::Wait(delay_ms)]));
    }
    assert(text@.take(text@.len() as int) == text@);
}

/// The step that pauses a script for `millis` milliseconds.
pub fn sleep(millis: u64) -> (steps: Vec<Step>)
    ensures
        steps@ == seq![Step::Wait(millis)],
{
    let mut steps: Vec<Step> = Vec::new();
    steps.push(Step::Wait(millis));
    steps
}

/// The steps of sending one key event: the event, then the settle delay.
pub fn send(event: KeyEvent) -> (steps: Vec<Step>)
    ensures
        steps@ == send_steps(event),
{
    let mut steps: Vec<Step> = Vec::new();
    append_send(&mut steps, event);
    assert(Seq::<Step>::empty() + send_steps(event) == send_steps(event));
    steps
}

/// The steps of a chord: every key of `keys` is pressed, in order, and then
/// every key is released, in the same order. The empty chord has no steps.
pub fn type_chord(keys: Vec<KeyCode>) -> (steps: Vec<Step>)
    ensures
        steps@ == chord_steps(keys@),
{
    let mut steps: Vec<Step> = Vec::new();
    append_chord(&mut steps, &keys);
    assert(Seq::<Step>::empty() + chord_steps(keys@) == chord_steps(keys@));
    steps
}

/// The steps of typing one character: the chord of its key, with the left
/// shift key before it where the character needs one. Lower-case and
/// upper-case ASCII letters, digits, the space and the ASCII punctuation
/// have a key; any other character has no steps.
pub fn type_char(c: char) -> (steps: Vec<Step>)
    ensures
        steps@ == char_steps(c),
{
    type_chord(keys_for_char(c))
}

/// The steps of typing a text: for each character in order the steps of
/// [`type_char`], then a wait of `delay_ms` milliseconds.
pub fn type_string(s: String, delay_ms: u64) -> (steps: Vec<Step>)
    ensures
        steps@ == text_steps(s@, delay_ms),
{
    let mut steps: Vec<Step> = Vec::new();
    append_text(&mut steps, s.as_str(), delay_ms);
    assert(Seq::<Step>::empty() + text_steps(s@, delay_ms) == text_steps(s@, delay_ms));
    steps
}

/// The key events of two runs of steps, one after the other, are those of
/// the first followed by those of the second.
pub proof fn lemma_emitted_events_concat(first: Seq<Step>, second: Seq<Step>)
    ensures
        emitted_events(first + second) == emitted_events(first) + emitted_events(second),
    decreases second.len(),
{
    if second.len() == 0 {
        assert(first + second == first);
        assert(emitted_events(first) + emitted_events(second) == emitted_events(first));
    } else {
        assert((first + second).drop_last() == first + second.drop_last());
        lemma_emitted_events_concat(first, second.drop_last());
        match second.last() {
            Step::Emit(event) => {
                assert((emitted_events(first) + emitted_events(second.drop_last())).push(event)
                    == emitted_events(first) + emitted_events(second.drop_last()).push(event));
            },
            Step::Wait(_) => {},
        }
    }
}

/// Sending one event emits that event and nothing else.
pub proof fn lemma_send_emits(event: KeyEvent)
    ensures
        emitted_events(send_steps(event)) == seq![event],
{
    let steps = send_steps(event);
    let first = steps.drop_last();
    assert(first.len() == 1 && first.last() == Step::Emit(event));
    assert(first.drop_last().len() == 0);
    assert(emitted_events(first.drop_last()) == Seq::<KeyEvent>::empty());
    assert(emitted_events(first) == Seq::<KeyEvent>::empty().push(event));
    assert(steps.last() == Step::Wait(SETTLE_DELAY_MS));
    assert(emitted_events(steps) == emitted_events(first));
}

/// The order of a chord: the keystroke emitter gets the presses of all keys
/// in the order of the chord, and after them the releases of all keys in
/// the same order. Presses and releases are never interleaved, and the
/// releases are not reversed.
pub proof fn lemma_chord_order(keys: Seq<KeyCode>)
    ensures
        emitted_events(press_steps(keys)) == keys.map_values(|k: KeyCode| KeyEvent::KeyPress(k)),
        emitted_events(release_steps(keys)) == keys.map_values(
            |k: KeyCode| KeyEvent::KeyRelease(k),
        ),
        emitted_events(chord_steps(keys)) == keys.map_values(|k: KeyCode| KeyEvent::KeyPress(k))
            + keys.map_values(|k: KeyCode| KeyEvent::KeyRelease(k)),
    decreases keys.len(),
{
    if keys.len() > 0 {
        let earlier = keys.drop_last();
        lemma_chord_order(earlier);
        lemma_emitted_events_concat(
            press_steps(earlier),
            send_steps(KeyEvent::KeyPress(keys.last())),
        );
        lemma_send_emits(KeyEvent::KeyPress(keys.last()));
        lemma_emitted_events_concat(
            release_steps(earlier),
            send_steps(KeyEvent::KeyRelease(keys.last())),
        );
        lemma_send_emits(KeyEvent::KeyRelease(keys.last()));
        assert(emitted_events(press_steps(keys)) == keys.map_values(
            |k: KeyCode| KeyEvent::KeyPress(k),
        ));
        assert(emitted_events(release_steps(keys)) == keys.map_values(
            |k: KeyCode| KeyEvent::KeyRelease(k),
        ));
    }
    lemma_emitted_events_concat(press_steps(keys), release_steps(keys));
}

} // verus!

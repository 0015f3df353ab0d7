//! Keyboard input as the game reads it, and its classes of events.

use vstd::prelude::*;

verus! {

/// The keys that the game tells apart.
#[derive(Clone, Copy, Debug, PartialEq, Eq, Structural)]
pub enum Key {
    Char(char),
    Left,
    Right,
    Enter,
    Other,
}

/// What happened to a key.
#[derive(Clone, Copy, Debug, PartialEq, Eq, Structural)]
pub enum KeyKind {
    Press,
    Repeat,
    Release,
}

/// One report of the keyboard.
#[derive(Clone, Copy, Debug, PartialEq, Eq, Structural)]
pub struct KeyInput {
    pub key: Key,
    pub kind: KeyKind,
}

/// The classes of input that the game acts on.
#[derive(Clone, Copy, Debug, PartialEq, Eq, Structural)]
pub enum InputEvent {
    MoveLeft,
    MoveRight,
    Drop,
    Quit,
    RecolorAccent,
}

/// The class of a key report: a press of `q` quits, of `c` recolours the
/// accent, the arrows move the floating piece and Enter drops it. Nothing
/// else, and no repeat or release, is an event.
pub open spec fn classified(input: KeyInput) -> Option<InputEvent> {
    if input.kind != KeyKind::Press {
        None
    } else {
        match input.key {
            Key::Char(c) => if c == 'q' {
                Some(InputEvent::Quit)
            } else if c == 'c' {
                Some(InputEvent::RecolorAccent)
            } else {
                None
            },
            Key::Right => Some(InputEvent::MoveRight),
            Key::Left => Some(InputEvent::MoveLeft),
            Key::Enter => Some(InputEvent::Drop),
            Key::Other => None,
        }
    }
}

/// The class of a key report, or `None` for one that the game ignores.
pub fn classify(input: KeyInput) -> (event: Option<InputEvent>)
    ensures
        event == classified(input),
{
    match input.kind {
        KeyKind::Press => {},
        _ => {
            return None;
        },
    }
    match input.key {
        Key::Char(c) => {
            if c == 'q' {
                Some(InputEvent::Quit)
            } else if c == 'c' {
                Some(InputEvent::RecolorAccent)
            } else {
                None
            }
        },
        Key::Right => Some(InputEvent::MoveRight),
        Key::Left => Some(InputEvent::MoveLeft),
        Key::Enter => Some(InputEvent::Drop),
        Key::Other => None,
    }
}

} // verus!

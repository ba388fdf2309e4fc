//! The mapping of Wii Remote keys to the keys of a virtual keyboard.

use crate::error::Error;
use crate::keys::{Key, KeyState};
use vstd::prelude::*;

verus! {

/// A key of the virtual keyboard's main block.
#[derive(Copy, Clone, Debug, PartialEq, Eq, Structural)]
pub enum KeyboardKey {
    /// The up arrow.
    Up,
    /// The down arrow.
    Down,
    /// The left arrow.
    Left,
    /// The right arrow.
    Right,
    /// The enter key.
    Enter,
    /// The escape key.
    Esc,
}

/// A media key of the virtual keyboard.
#[derive(Copy, Clone, Debug, PartialEq, Eq, Structural)]
pub enum KeyboardMisc {
    /// Turns the volume up.
    VolumeUp,
    /// Turns the volume down.
    VolumeDown,
}

/// A key that the virtual keyboard can press and release.
#[derive(Copy, Clone, Debug, PartialEq, Eq, Structural)]
pub enum KeyboardEvent {
    /// A key of the main block.
    Key(KeyboardKey),
    /// A media key.
    Misc(KeyboardMisc),
}

/// What the virtual keyboard does for a change of a Wii Remote key. The
/// keyboard is synchronized after each of them.
#[derive(Copy, Clone, Debug, PartialEq, Eq, Structural)]
pub enum KeyAction {
    /// Press the key.
    Press(KeyboardEvent),
    /// Release the key.
    Release(KeyboardEvent),
    /// Leave the key pressed.
    Keep(KeyboardEvent),
}

/// The keyboard key that a Wii Remote key is mapped to, if any.
pub open spec fn spec_key_event(key: Key) -> Option<KeyboardEvent> {
    match key {
        Key::Up => Some(KeyboardEvent::Key(KeyboardKey::Up)),
        Key::Down => Some(KeyboardEvent::Key(KeyboardKey::Down)),
        Key::Left => Some(KeyboardEvent::Key(KeyboardKey::Left)),
        Key::Right => Some(KeyboardEvent::Key(KeyboardKey::Right)),
        Key::A => Some(KeyboardEvent::Key(KeyboardKey::Enter)),
        Key::B => Some(KeyboardEvent::Key(KeyboardKey::Left)),
        Key::Plus => Some(KeyboardEvent::Misc(KeyboardMisc::VolumeUp)),
        Key::Home => Some(KeyboardEvent::Key(KeyboardKey::Esc)),
        Key::Minus => Some(KeyboardEvent::Misc(KeyboardMisc::VolumeDown)),
        Key::One => None,
        Key::Two => None,
    }
}

/// What the virtual keyboard does when the Wii Remote key `button`
/// changes to `state`: nothing for a key that is not mapped; otherwise a
/// held key is pressed, a released one released, and a repeated one left
/// as it is.
pub open spec fn spec_key_action(button: Key, state: KeyState) -> Option<KeyAction> {
    match spec_key_event(button) {
        Some(key) => Some(
            match state {
                KeyState::Down => KeyAction::Press(key),
                KeyState::Up => KeyAction::Release(key),
                KeyState::AutoRepeat => KeyAction::Keep(key),
            },
        ),
        None => None,
    }
}

/// The keys that the virtual keyboard registers for press and release
/// events.
pub fn keyboard_events() -> (events: [KeyboardEvent; 8])
    ensures
        events@ == seq![
            KeyboardEvent::Key(KeyboardKey::Up),
            KeyboardEvent::Key(KeyboardKey::Down),
            KeyboardEvent::Key(KeyboardKey::Left),
            KeyboardEvent::Key(KeyboardKey::Right),
            KeyboardEvent::Key(KeyboardKey::Enter),
            KeyboardEvent::Misc(KeyboardMisc::VolumeUp),
            KeyboardEvent::Key(KeyboardKey::Esc),
            KeyboardEvent::Misc(KeyboardMisc::VolumeDown),
        ],
{
    let events = [
        KeyboardEvent::Key(KeyboardKey::Up),
        KeyboardEvent::Key(KeyboardKey::Down),
        KeyboardEvent::Key(KeyboardKey::Left),
        KeyboardEvent::Key(KeyboardKey::Right),
        KeyboardEvent::Key(KeyboardKey::Enter),
        KeyboardEvent::Misc(KeyboardMisc::VolumeUp),
        KeyboardEvent::Key(KeyboardKey::Esc),
        KeyboardEvent::Misc(KeyboardMisc::VolumeDown),
    ];
    assert(events@ =~= seq![
        KeyboardEvent::Key(KeyboardKey::Up),
        KeyboardEvent::Key(KeyboardKey::Down),
        KeyboardEvent::Key(KeyboardKey::Left),
        KeyboardEvent::Key(KeyboardKey::Right),
        KeyboardEvent::Key(KeyboardKey::Enter),
        KeyboardEvent::Misc(KeyboardMisc::VolumeUp),
        KeyboardEvent::Key(KeyboardKey::Esc),
        KeyboardEvent::Misc(KeyboardMisc::VolumeDown),
    ]);
    events
}

/// Converts a Wii Remote key into a keyboard event.
pub fn key_event(key: &Key) -> (event: Option<KeyboardEvent>)
    ensures
        event == spec_key_event(*key),
{
    Some(
        match *key {
            Key::Up => KeyboardEvent::Key(KeyboardKey::Up),
            Key::Down => KeyboardEvent::Key(KeyboardKey::Down),
            Key::Left => KeyboardEvent::Key(KeyboardKey::Left),
            Key::Right => KeyboardEvent::Key(KeyboardKey::Right),
            Key::A => KeyboardEvent::Key(KeyboardKey::Enter),
            Key::B => KeyboardEvent::Key(KeyboardKey::Left),
            Key::Plus => KeyboardEvent::Misc(KeyboardMisc::VolumeUp),
            Key::Home => KeyboardEvent::Key(KeyboardKey::Esc),
            Key::Minus => KeyboardEvent::Misc(KeyboardMisc::VolumeDown),
            _ => {
                return None;
            },
        },
    )
}

/// Decides what the virtual keyboard does when the Wii Remote key
/// `button` changes to `state`.
pub fn key_action(button: &Key, state: &KeyState) -> (action: Option<KeyAction>)
    ensures
        action == spec_key_action(*button, *state),
{
    match key_event(button) {
        Some(key) => Some(
            match *state {
                KeyState::Down => KeyAction::Press(key),
                KeyState::Up => KeyAction::Release(key),
                KeyState::AutoRepeat => KeyAction::Keep(key),
            },
        ),
        None => None,
    }
}

/// Converts the message of a virtual keyboard's error into an error of
/// this library.
pub fn to_io_err(message: String) -> (err: Error)
    ensures
        err == Error::Other(message),
{
    Error::Other(message)
}

/// Every key that a Wii Remote key is mapped to is one that the virtual
/// keyboard registers.
pub proof fn lemma_mapped_keys_are_registered(key: Key)
    requires
        spec_key_event(key) is Some,
    ensures
        seq![
            KeyboardEvent::Key(KeyboardKey::Up),
            KeyboardEvent::Key(KeyboardKey::Down),
            KeyboardEvent::Key(KeyboardKey::Left),
            KeyboardEvent::Key(KeyboardKey::Right),
            KeyboardEvent::Key(KeyboardKey::Enter),
            KeyboardEvent::Misc(KeyboardMisc::VolumeUp),
            KeyboardEvent::Key(KeyboardKey::Esc),
            KeyboardEvent::Misc(KeyboardMisc::VolumeDown),
        ].contains(spec_key_event(key)->Some_0),
{
    let events = seq![
        KeyboardEvent::Key(KeyboardKey::Up),
        KeyboardEvent::Key(KeyboardKey::Down),
        KeyboardEvent::Key(KeyboardKey::Left),
        KeyboardEvent::Key(KeyboardKey::Right),
        KeyboardEvent::Key(KeyboardKey::Enter),
        KeyboardEvent::Misc(KeyboardMisc::VolumeUp),
        KeyboardEvent::Key(KeyboardKey::Esc),
        KeyboardEvent::Misc(KeyboardMisc::VolumeDown),
    ];
    let target = spec_key_event(key)->Some_0;
    assert(events[0] == KeyboardEvent::Key(KeyboardKey::Up));
    assert(events[1] == KeyboardEvent::Key(KeyboardKey::Down));
    assert(events[2] == KeyboardEvent::Key(KeyboardKey::Left));
    assert(events[3] == KeyboardEvent::Key(KeyboardKey::Right));
    assert(events[4] == KeyboardEvent::Key(KeyboardKey::Enter));
    assert(events[5] == KeyboardEvent::Misc(KeyboardMisc::VolumeUp));
    assert(events[6] == KeyboardEvent::Key(KeyboardKey::Esc));
    assert(events[7] == KeyboardEvent::Misc(KeyboardMisc::VolumeDown));
}

/// A repeated report of a held key never presses the key again: only a
/// fresh press does.
pub proof fn lemma_repeat_never_presses(button: Key, state: KeyState)
    ensures
        spec_key_action(button, state) matches Some(KeyAction::Press(_)) <==> spec_key_event(
            button,
        ) is Some && state == KeyState::Down,
{
}

} // verus!

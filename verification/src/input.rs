//! Terminal input as plain values: the keys and events the editor reacts to.
use vstd::prelude::*;

verus! {

/// No modifier key.
pub const NONE: u8 = 0b0000_0000;

/// The Shift key.
pub const SHIFT: u8 = 0b0000_0001;

/// The Control key.
pub const CONTROL: u8 = 0b0000_0010;

/// The Alt key.
pub const ALT: u8 = 0b0000_0100;

/// The Super key.
pub const SUPER: u8 = 0b0000_1000;

/// The Hyper key.
pub const HYPER: u8 = 0b0001_0000;

/// The Meta key.
pub const META: u8 = 0b0010_0000;

/// A key on the keyboard; `Other` stands for every key the editor ignores.
#[derive(Clone, Copy, Debug, PartialEq, Eq, Structural)]
pub enum KeyCode {
    Char(char),
    Tab,
    Enter,
    Backspace,
    Delete,
    Up,
    Down,
    Left,
    Right,
    PageUp,
    PageDown,
    Home,
    End,
    Other,
}

/// The modifier keys held, one bit each (see the constants of this module).
#[derive(Clone, Copy, Debug, PartialEq, Eq, Structural)]
pub struct KeyModifiers {
    pub bits: u8,
}

/// Whether a key went down, repeats, or went up.
#[derive(Clone, Copy, Debug, PartialEq, Eq, Structural)]
pub enum KeyEventKind {
    Press,
    Repeat,
    Release,
}

/// A key event.
#[derive(Clone, Copy, Debug, PartialEq, Eq, Structural)]
pub struct KeyEvent {
    pub code: KeyCode,
    pub modifiers: KeyModifiers,
    pub kind: KeyEventKind,
}

/// A terminal event: a key, a new terminal size (columns, rows), or anything
/// else.
#[derive(Clone, Copy, Debug, PartialEq, Eq, Structural)]
pub enum Event {
    Key(KeyEvent),
    Resize(u16, u16),
    Other,
}

/// Why an input does not give a command.
#[derive(Clone, Copy, Debug, PartialEq, Eq, Structural)]
pub enum InputError {
    /// A key that has no command with these modifiers.
    UnsupportedCode(KeyCode),
    /// A key or a combination of modifiers that has no command.
    UnsupportedKey(KeyCode, KeyModifiers),
    /// A key that has no command together with Control.
    UnsupportedControl(KeyCode),
    /// A key event that gives no command of any kind.
    UnsupportedKeyEvent(KeyEvent),
    /// An event that gives no command.
    UnsupportedEvent(Event),
}

} // verus!

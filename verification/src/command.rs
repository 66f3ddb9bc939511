//! The commands of the editor and the key presses that give them.
use crate::input::{Event, InputError, KeyCode, KeyEvent, CONTROL, NONE, SHIFT};
use crate::terminal::Size;
use vstd::prelude::*;
use vstd::std_specs::convert::TryFromSpecImpl;

verus! {

/// A caret movement.
#[derive(Clone, Copy, Debug, PartialEq, Eq, Structural)]
pub enum Move {
    Up,
    Down,
    Left,
    Right,
    PageUp,
    PageDown,
    Home,
    End,
}

/// A change to the text.
#[derive(Clone, Copy, Debug, PartialEq, Eq, Structural)]
pub enum Edit {
    Insert(char),
    InsertNewLine,
    Delete,
    DeleteBackward,
}

/// A command to the editor itself.
#[derive(Clone, Copy, Debug, PartialEq, Eq, Structural)]
pub enum System {
    Save,
    Resize(Size),
    Quit,
}

/// Any command.
#[derive(Clone, Copy, Debug, PartialEq, Eq, Structural)]
pub enum Command {
    Move(Move),
    Edit(Edit),
    System(System),
}

/// The movement a key gives: an arrow, page or Home/End key without
/// modifiers.
pub open spec fn move_for_key(event: KeyEvent) -> Result<Move, InputError> {
    if event.modifiers.bits == NONE {
        match event.code {
            KeyCode::Up => Ok(Move::Up),
            KeyCode::Down => Ok(Move::Down),
            KeyCode::Left => Ok(Move::Left),
            KeyCode::Right => Ok(Move::Right),
            KeyCode::PageUp => Ok(Move::PageUp),
            KeyCode::PageDown => Ok(Move::PageDown),
            KeyCode::Home => Ok(Move::Home),
            KeyCode::End => Ok(Move::End),
            _ => Err(InputError::UnsupportedCode(event.code)),
        }
    } else {
        Err(InputError::UnsupportedKey(event.code, event.modifiers))
    }
}

/// The edit a key gives: a character (with or without Shift), Tab, Enter,
/// Backspace or Delete without modifiers.
pub open spec fn edit_for_key(event: KeyEvent) -> Result<Edit, InputError> {
    let m = event.modifiers.bits;
    match event.code {
        KeyCode::Char(c) if m == NONE || m == SHIFT => Ok(Edit::Insert(c)),
        KeyCode::Tab if m == NONE => Ok(Edit::Insert('\t')),
        KeyCode::Enter if m == NONE => Ok(Edit::InsertNewLine),
        KeyCode::Backspace if m == NONE => Ok(Edit::DeleteBackward),
        KeyCode::Delete if m == NONE => Ok(Edit::Delete),
        _ => Err(InputError::UnsupportedKey(event.code, event.modifiers)),
    }
}

/// The system command a key gives: Control-Q quits, Control-S saves.
pub open spec fn system_for_key(event: KeyEvent) -> Result<System, InputError> {
    if event.modifiers.bits == CONTROL {
        match event.code {
            KeyCode::Char('q') => Ok(System::Quit),
            KeyCode::Char('s') => Ok(System::Save),
            _ => Err(InputError::UnsupportedControl(event.code)),
        }
    } else {
        Err(InputError::UnsupportedKey(event.code, event.modifiers))
    }
}

/// The command an event gives: for a key, its edit, else its movement, else
/// its system command; a resize of the terminal; nothing for other events.
pub open spec fn command_for_event(event: Event) -> Result<Command, InputError> {
    match event {
        Event::Key(key) => if edit_for_key(key) is Ok {
            Ok(Command::Edit(edit_for_key(key)->Ok_0))
        } else if move_for_key(key) is Ok {
            Ok(Command::Move(move_for_key(key)->Ok_0))
        } else if system_for_key(key) is Ok {
            Ok(Command::System(system_for_key(key)->Ok_0))
        } else {
            Err(InputError::UnsupportedKeyEvent(key))
        },
        Event::Resize(width, height) => Ok(
            Command::System(System::Resize(Size { width: width as usize, height: height as usize })),
        ),
        Event::Other => Err(InputError::UnsupportedEvent(event)),
    }
}

/// Each navigation key without modifiers moves the caret its own way: the
/// arrows one step in their direction, Page Up and Page Down a page, Home to
/// the start and End to the end of the line; and as an event it is that
/// movement command.
pub proof fn law_navigation_keys(event: KeyEvent)
    requires
        event.modifiers.bits == NONE,
    ensures
        event.code == KeyCode::Up ==> move_for_key(event) == Ok::<Move, InputError>(Move::Up),
        event.code == KeyCode::Down ==> move_for_key(event) == Ok::<Move, InputError>(Move::Down),
        event.code == KeyCode::Left ==> move_for_key(event) == Ok::<Move, InputError>(Move::Left),
        event.code == KeyCode::Right ==> move_for_key(event) == Ok::<Move, InputError>(
            Move::Right,
        ),
        event.code == KeyCode::PageUp ==> move_for_key(event) == Ok::<Move, InputError>(
            Move::PageUp,
        ),
        event.code == KeyCode::PageDown ==> move_for_key(event) == Ok::<Move, InputError>(
            Move::PageDown,
        ),
        event.code == KeyCode::Home ==> move_for_key(event) == Ok::<Move, InputError>(
            Move::Home,
        ),
        event.code == KeyCode::End ==> move_for_key(event) == Ok::<Move, InputError>(Move::End),
        move_for_key(event) is Ok ==> command_for_event(Event::Key(event)) == Ok::<
            Command,
            InputError,
        >(Command::Move(move_for_key(event)->Ok_0)),
{
}

impl TryFrom<KeyEvent> for Move {
    type Error = InputError;

    fn try_from(event: KeyEvent) -> (r: Result<Self, Self::Error>) {
        if event.modifiers.bits == NONE {
            match event.code {
                KeyCode::Up => Ok(Move::Up),
                KeyCode::Down => Ok(Move::Down),
                KeyCode::Left => Ok(Move::Left),
                KeyCode::Right => Ok(Move::Right),
                KeyCode::PageUp => Ok(Move::PageUp),
                KeyCode::PageDown => Ok(Move::PageDown),
                KeyCode::Home => Ok(Move::Home),
                KeyCode::End => Ok(Move::End),
                _ => Err(InputError::UnsupportedCode(event.code)),
            }
        } else {
            Err(InputError::UnsupportedKey(event.code, event.modifiers))
        }
    }
}

impl TryFromSpecImpl<KeyEvent> for Move {
    open spec fn obeys_try_from_spec() -> bool {
        true
    }

    open spec fn try_from_spec(event: KeyEvent) -> Result<Self, Self::Error> {
        move_for_key(event)
    }
}

impl TryFrom<KeyEvent> for Edit {
    type Error = InputError;

    fn try_from(event: KeyEvent) -> (r: Result<Self, Self::Error>) {
        let m = event.modifiers.bits;
        match event.code {
            KeyCode::Char(c) if m == NONE || m == SHIFT => Ok(Edit::Insert(c)),
            KeyCode::Tab if m == NONE => Ok(Edit::Insert('\t')),
            KeyCode::Enter if m == NONE => Ok(Edit::InsertNewLine),
            KeyCode::Backspace if m == NONE => Ok(Edit::DeleteBackward),
            KeyCode::Delete if m == NONE => Ok(Edit::Delete),
            _ => Err(InputError::UnsupportedKey(event.code, event.modifiers)),
        }
    }
}

impl TryFromSpecImpl<KeyEvent> for Edit {
    open spec fn obeys_try_from_spec() -> bool {
        true
    }

    open spec fn try_from_spec(event: KeyEvent) -> Result<Self, Self::Error> {
        edit_for_key(event)
    }
}

impl TryFrom<KeyEvent> for System {
    type Error = InputError;

    fn try_from(event: KeyEvent) -> (r: Result<Self, Self::Error>) {
        if event.modifiers.bits == CONTROL {
            match event.code {
                KeyCode::Char('q') => Ok(System::Quit),
                KeyCode::Char('s') => Ok(System::Save),
                _ => Err(InputError::UnsupportedControl(event.code)),
            }
        } else {
            Err(InputError::UnsupportedKey(event.code, event.modifiers))
        }
    }
}

impl TryFromSpecImpl<KeyEvent> for System {
    open spec fn obeys_try_from_spec() -> bool {
        true
    }

    open spec fn try_from_spec(event: KeyEvent) -> Result<Self, Self::Error> {
        system_for_key(event)
    }
}

impl TryFrom<Event> for Command {
    type Error = InputError;

    fn try_from(event: Event) -> (r: Result<Self, Self::Error>) {
        match event {
            Event::Key(key_event) => match Edit::try_from(key_event) {
                Ok(edit) => Ok(Command::Edit(edit)),
                Err(_) => match Move::try_from(key_event) {
                    Ok(movement) => Ok(Command::Move(movement)),
                    Err(_) => match System::try_from(key_event) {
                        Ok(system) => Ok(Command::System(system)),
                        Err(_) => Err(InputError::UnsupportedKeyEvent(key_event)),
                    },
                },
            },
            Event::Resize(width, height) => Ok(
                Self::System(
                    System::Resize(Size { width: width as usize, height: height as usize }),
                ),
            ),
            Event::Other => Err(InputError::UnsupportedEvent(event)),
        }
    }
}

impl TryFromSpecImpl<Event> for Command {
    open spec fn obeys_try_from_spec() -> bool {
        true
    }

    open spec fn try_from_spec(event: Event) -> Result<Self, Self::Error> {
        command_for_event(event)
    }
}

} // verus!
